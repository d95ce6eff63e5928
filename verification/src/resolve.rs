//! The naming convention resolver: branch name to directory name and back.
//!
//! `Flat` widens every `/` to `--`, `Nested` keeps the name, `Prefixed`
//! narrows every `/` to `-`.  All three are total; `Flat` and `Nested` are
//! collision-free, `Prefixed` is lossy and its reverse mapping is the
//! identity (documented, not repaired).

use vstd::prelude::*;

use crate::config::{NamingConvention, WbConfig};
use crate::strutil::concat3;

verus! {

/// What one character of a branch name becomes in a directory name.
pub open spec fn conv_char(c: char, conv: NamingConvention) -> Seq<char> {
    match conv {
        NamingConvention::Flat => if c == '/' {
            seq!['-', '-']
        } else {
            seq![c]
        },
        NamingConvention::Nested => seq![c],
        NamingConvention::Prefixed => if c == '/' {
            seq!['-']
        } else {
            seq![c]
        },
    }
}

/// A branch name encoded as a directory name, character by character.
pub open spec fn encode_name(s: Seq<char>, conv: NamingConvention) -> Seq<char>
    decreases s.len(),
{
    if s.len() == 0 {
        Seq::empty()
    } else {
        conv_char(s[0], conv) + encode_name(s.drop_first(), conv)
    }
}

/// A `Flat` directory name decoded back to a branch name: each leftmost
/// occurrence of `--` collapses to `/`.
pub open spec fn flat_decode(s: Seq<char>) -> Seq<char>
    decreases s.len(),
{
    if s.len() >= 2 && s[0] == '-' && s[1] == '-' {
        seq!['/'] + flat_decode(s.skip(2))
    } else if s.len() == 0 {
        Seq::empty()
    } else {
        seq![s[0]] + flat_decode(s.drop_first())
    }
}

/// A directory name decoded back to a branch name.  Only `Flat` has a real
/// inverse; `Nested` is the identity, and for `Prefixed` the identity is the
/// best effort available since its encoding loses information.
pub open spec fn spec_dir_to_branch(s: Seq<char>, conv: NamingConvention) -> Seq<char> {
    match conv {
        NamingConvention::Flat => flat_decode(s),
        NamingConvention::Nested => s,
        NamingConvention::Prefixed => s,
    }
}

proof fn lemma_encode_push(s: Seq<char>, c: char, conv: NamingConvention)
    ensures
        encode_name(s.push(c), conv) == encode_name(s, conv) + conv_char(c, conv),
    decreases s.len(),
{
    if s.len() == 0 {
        assert(s.push(c)[0] == c);
        assert(s.push(c).drop_first() =~= Seq::<char>::empty());
        assert(encode_name(s.push(c), conv) == conv_char(c, conv) + encode_name(
            Seq::<char>::empty(),
            conv,
        ));
        assert(conv_char(c, conv) + encode_name(Seq::<char>::empty(), conv) =~= conv_char(c, conv));
        assert(encode_name(s, conv) + conv_char(c, conv) =~= conv_char(c, conv));
    } else {
        assert(s.push(c)[0] == s[0]);
        assert(s.push(c).drop_first() =~= s.drop_first().push(c));
        lemma_encode_push(s.drop_first(), c, conv);
        assert(conv_char(s[0], conv) + (encode_name(s.drop_first(), conv) + conv_char(c, conv))
            =~= (conv_char(s[0], conv) + encode_name(s.drop_first(), conv)) + conv_char(c, conv));
    }
}

/// Sanitize a branch name into a directory name under the given convention.
pub fn sanitize_branch_name(name: &str, naming: &NamingConvention) -> (r: String)
    ensures
        r@ == encode_name(name@, *naming),
{
    let len: usize = name.unicode_len();
    let mut r = String::new();
    let mut i: usize = 0;
    proof {
        reveal_strlit("--");
        reveal_strlit("-");
        reveal_strlit("/");
        assert(name@.take(0) =~= Seq::<char>::empty());
        assert("--"@ =~= seq!['-', '-']);
        assert("-"@ =~= seq!['-']);
        assert("/"@ =~= seq!['/']);
    }
    while i < len
        invariant
            i <= len,
            len == name@.len(),
            r@ == encode_name(name@.take(i as int), *naming),
        decreases len - i,
    {
        proof {
            reveal_strlit("--");
            reveal_strlit("-");
            reveal_strlit("/");
            assert("--"@ =~= seq!['-', '-']);
            assert("-"@ =~= seq!['-']);
            assert("/"@ =~= seq!['/']);
        }
        let ghost prefix = name@.take(i as int);
        let ghost old_r = r@;
        let c = name.get_char(i);
        if c == '/' {
            match naming {
                NamingConvention::Flat => r.append("--"),
                NamingConvention::Nested => r.append("/"),
                NamingConvention::Prefixed => r.append("-"),
            }
        } else {
            let piece = name.substring_char(i, i + 1);
            proof {
                assert(piece@ =~= seq![name@[i as int]]);
            }
            r.append(piece);
        }
        proof {
            lemma_encode_push(prefix, name@[i as int], *naming);
            assert(name@.take(i + 1) =~= prefix.push(name@[i as int]));
            assert(r@ =~= old_r + conv_char(name@[i as int], *naming));
            assert(r@ =~= encode_name(name@.take(i + 1), *naming));
        }
        i += 1;
    }
    proof {
        assert(name@.take(len as int) =~= name@);
    }
    r
}

/// Reverse: convert a directory name back to a branch name.
pub fn dir_name_to_branch(dir_name: &str, naming: &NamingConvention) -> (r: String)
    ensures
        r@ == spec_dir_to_branch(dir_name@, *naming),
{
    match naming {
        NamingConvention::Flat => {
            let len: usize = dir_name.unicode_len();
            let mut r = String::new();
            let mut i: usize = 0;
            proof {
                reveal_strlit("/");
                assert("/"@ =~= seq!['/']);
                assert(dir_name@.skip(0) =~= dir_name@);
            }
            while i < len
                invariant
                    i <= len,
                    len == dir_name@.len(),
                    flat_decode(dir_name@) == r@ + flat_decode(dir_name@.skip(i as int)),
                decreases len - i,
            {
                proof {
                    reveal_strlit("/");
                    assert("/"@ =~= seq!['/']);
                }
                let ghost rest = dir_name@.skip(i as int);
                let ghost old_r = r@;
                if i + 1 < len && dir_name.get_char(i) == '-' && dir_name.get_char(i + 1) == '-' {
                    r.append("/");
                    proof {
                        assert(rest[0] == dir_name@[i as int]);
                        assert(rest[1] == dir_name@[i + 1]);
                        assert(rest.skip(2) =~= dir_name@.skip(i + 2));
                        assert(flat_decode(rest) == seq!['/'] + flat_decode(dir_name@.skip(i + 2)));
                        assert(old_r + (seq!['/'] + flat_decode(dir_name@.skip(i + 2))) =~= (old_r
                            + seq!['/']) + flat_decode(dir_name@.skip(i + 2)));
                        assert(r@ =~= old_r + seq!['/']);
                    }
                    i += 2;
                } else {
                    let piece = dir_name.substring_char(i, i + 1);
                    proof {
                        assert(piece@ =~= seq![dir_name@[i as int]]);
                    }
                    r.append(piece);
                    proof {
                        assert(rest[0] == dir_name@[i as int]);
                        if rest.len() >= 2 && rest[0] == '-' && rest[1] == '-' {
                            assert(dir_name@[i + 1] == rest[1]);
                            assert(false);
                        }
                        assert(rest.drop_first() =~= dir_name@.skip(i + 1));
                        assert(flat_decode(rest) == seq![rest[0]] + flat_decode(
                            dir_name@.skip(i + 1),
                        ));
                        assert(old_r + (seq![rest[0]] + flat_decode(dir_name@.skip(i + 1))) =~= (
                        old_r + seq![rest[0]]) + flat_decode(dir_name@.skip(i + 1)));
                        assert(r@ =~= old_r + seq![rest[0]]);
                    }
                    i += 1;
                }
            }
            proof {
                assert(flat_decode(dir_name@.skip(len as int)) =~= Seq::empty());
                assert(r@ =~= flat_decode(dir_name@));
            }
            r
        },
        NamingConvention::Nested => String::from_str(dir_name),
        NamingConvention::Prefixed => String::from_str(dir_name),
    }
}

/// The worktree directory path for a branch: the configured base directory,
/// a separator, and the sanitized name.
pub fn branch_to_worktree_path(config: &WbConfig, branch: &str) -> (r: String)
    ensures
        r@ == config.worktree_dir@ + "/"@ + encode_name(branch@, config.naming),
{
    let dir_name = sanitize_branch_name(branch, &config.naming);
    concat3(config.worktree_dir.as_str(), "/", dir_name.as_str())
}

/// A branch name free of the two digraphs that the `Flat` encoding itself
/// produces or extends: no `--` and no `-/` anywhere in the name.
pub open spec fn flat_invertible(n: Seq<char>) -> bool {
    forall|i: int|
        0 <= i < n.len() - 1 ==> !((#[trigger] n[i]) == '-' && (n[i + 1] == '-' || n[i + 1] == '/'))
}

/// Under `Flat` the directory name holds no `/`: every separator of the
/// branch name was widened to `--`.
pub proof fn lemma_flat_no_separator(n: Seq<char>)
    ensures
        forall|i: int|
            0 <= i < encode_name(n, NamingConvention::Flat).len() ==> (#[trigger] encode_name(
                n,
                NamingConvention::Flat,
            )[i]) != '/',
    decreases n.len(),
{
    if n.len() > 0 {
        lemma_flat_no_separator(n.drop_first());
        let head = conv_char(n[0], NamingConvention::Flat);
        let tail = encode_name(n.drop_first(), NamingConvention::Flat);
        assert forall|i: int|
            0 <= i < encode_name(n, NamingConvention::Flat).len() implies (#[trigger] encode_name(
            n,
            NamingConvention::Flat,
        )[i]) != '/' by {
            if i < head.len() {
                assert(encode_name(n, NamingConvention::Flat)[i] == head[i]);
            } else {
                assert(encode_name(n, NamingConvention::Flat)[i] == tail[i - head.len()]);
            }
        }
    }
}

/// Round trip under `Flat`: decoding the encoded name returns the branch
/// name, for every name free of `--` and `-/`.  The restriction is real:
/// a name that already holds `--` (such as `a--b`) encodes to itself yet
/// decodes to `a/b`, and in `a-/b` the widened separator merges with the
/// preceding `-`.  For `Prefixed` no such law holds at all when the name
/// mixes `/` and a literal `-`: that encoding is lossy by design.
pub proof fn lemma_flat_round_trip(n: Seq<char>)
    requires
        flat_invertible(n),
    ensures
        flat_decode(encode_name(n, NamingConvention::Flat)) == n,
    decreases n.len(),
{
    let e = encode_name(n, NamingConvention::Flat);
    if n.len() == 0 {
        assert(e =~= Seq::empty());
        assert(flat_decode(e) =~= n);
    } else {
        let rest = n.drop_first();
        assert forall|i: int|
            0 <= i < rest.len() - 1 implies !((#[trigger] rest[i]) == '-' && (rest[i + 1] == '-'
            || rest[i + 1] == '/')) by {
            assert(rest[i] == n[i + 1]);
            assert(rest[i + 1] == n[i + 2]);
        }
        lemma_flat_round_trip(rest);
        let erest = encode_name(rest, NamingConvention::Flat);
        if n[0] == '/' {
            assert(e == seq!['-', '-'] + erest);
            assert(e.len() >= 2 && e[0] == '-' && e[1] == '-');
            assert(e.skip(2) =~= erest);
            assert(flat_decode(e) == seq!['/'] + flat_decode(erest));
            assert(flat_decode(e) =~= n);
        } else {
            assert(e == seq![n[0]] + erest);
            assert(e[0] == n[0]);
            if n[0] == '-' && e.len() >= 2 && e[1] == '-' {
                // The second character of the encoding comes from the second
                // character of the name, which the requires forbids to pair
                // with the leading '-'.
                assert(rest.len() > 0);
                assert(e[1] == erest[0]);
                if rest[0] == '/' {
                    assert(n[0] == '-' && n[1] == '/');
                    assert(false);
                } else {
                    assert(erest[0] == conv_char(rest[0], NamingConvention::Flat)[0]);
                    assert(erest[0] == rest[0]);
                    assert(n[0] == '-' && n[1] == '-');
                    assert(false);
                }
            }
            assert(!(e.len() >= 2 && e[0] == '-' && e[1] == '-'));
            assert(e.drop_first() =~= erest);
            assert(flat_decode(e) == seq![e[0]] + flat_decode(erest));
            assert(flat_decode(e) =~= n);
        }
    }
}

} // verus!
