//! Verified helpers over `&str` and `String`.
//!
//! Branch names, directory paths and the version-control gateway's output are
//! all text, so the whole library rests on a small set of string operations
//! whose contracts are stated over the `Seq<char>` views of their arguments.

use vstd::prelude::*;

verus! {

/// `p` is a prefix of `s`.
pub open spec fn starts_with(s: Seq<char>, p: Seq<char>) -> bool {
    p.len() <= s.len() && s.take(p.len() as int) == p
}

/// `p` is a suffix of `s`.
pub open spec fn ends_with(s: Seq<char>, p: Seq<char>) -> bool {
    p.len() <= s.len() && s.skip(s.len() - p.len()) == p
}

/// Length of the leading run of characters other than `c`
/// (the whole sequence when `c` does not occur).
pub open spec fn first_of(s: Seq<char>, c: char) -> int
    decreases s.len(),
{
    if s.len() == 0 {
        0
    } else if s[0] == c {
        0
    } else {
        1 + first_of(s.drop_first(), c)
    }
}

pub proof fn lemma_first_of_at(s: Seq<char>, c: char, k: int)
    requires
        0 <= k <= s.len(),
        forall|j: int| 0 <= j < k ==> s[j] != c,
        k < s.len() ==> s[k] == c,
    ensures
        first_of(s, c) == k,
    decreases k,
{
    if k == 0 {
    } else {
        assert(s[0] != c);
        assert forall|j: int| 0 <= j < k - 1 implies s.drop_first()[j] != c by {
            assert(s.drop_first()[j] == s[j + 1]);
        }
        if k - 1 < s.drop_first().len() {
            assert(s.drop_first()[k - 1] == s[k]);
        }
        lemma_first_of_at(s.drop_first(), c, k - 1);
    }
}

/// The lines of `s`: maximal runs between `'\n'` separators, a trailing
/// empty run dropped — the behaviour of `str::lines` on text free of `'\r'`.
pub open spec fn spec_lines(s: Seq<char>) -> Seq<Seq<char>>
    decreases s.len(),
{
    if s.len() == 0 {
        Seq::empty()
    } else {
        let n = first_of(s, '\n');
        if 0 <= n < s.len() {
            seq![s.take(n)] + spec_lines(s.skip(n + 1))
        } else {
            seq![s]
        }
    }
}

/// Equality of two string slices, decided character by character.
pub fn str_eq(a: &str, b: &str) -> (r: bool)
    ensures
        r == (a@ == b@),
{
    let la: usize = a.unicode_len();
    let lb: usize = b.unicode_len();
    if la != lb {
        proof {
            assert(a@ != b@);
        }
        return false;
    }
    let mut i: usize = 0;
    while i < la
        invariant
            i <= la,
            la == a@.len(),
            la == b@.len(),
            forall|j: int| 0 <= j < i ==> a@[j] == b@[j],
        decreases la - i,
    {
        if a.get_char(i) != b.get_char(i) {
            return false;
        }
        i += 1;
    }
    proof {
        assert(a@ =~= b@);
    }
    true
}

/// Does `s` start with `p`?
pub fn str_starts_with(s: &str, p: &str) -> (r: bool)
    ensures
        r == starts_with(s@, p@),
{
    let ls: usize = s.unicode_len();
    let lp: usize = p.unicode_len();
    if lp > ls {
        return false;
    }
    let mut i: usize = 0;
    while i < lp
        invariant
            i <= lp <= ls,
            ls == s@.len(),
            lp == p@.len(),
            forall|j: int| 0 <= j < i ==> s@[j] == p@[j],
        decreases lp - i,
    {
        if s.get_char(i) != p.get_char(i) {
            proof {
                assert(s@.take(lp as int)[i as int] != p@[i as int]);
            }
            return false;
        }
        i += 1;
    }
    proof {
        assert(s@.take(lp as int) =~= p@);
    }
    true
}

/// Does `s` end with `p`?
pub fn str_ends_with(s: &str, p: &str) -> (r: bool)
    ensures
        r == ends_with(s@, p@),
{
    let ls: usize = s.unicode_len();
    let lp: usize = p.unicode_len();
    if lp > ls {
        return false;
    }
    let mut i: usize = 0;
    while i < lp
        invariant
            i <= lp <= ls,
            ls == s@.len(),
            lp == p@.len(),
            forall|j: int| 0 <= j < i ==> s@[ls - lp + j] == p@[j],
        decreases lp - i,
    {
        if s.get_char(ls - lp + i) != p.get_char(i) {
            proof {
                assert(s@.skip(ls - lp)[i as int] != p@[i as int]);
            }
            return false;
        }
        i += 1;
    }
    proof {
        assert(s@.skip(ls - lp) =~= p@);
    }
    true
}

/// The rest of `s` after the prefix `p`, when `p` is a prefix.
pub fn str_strip_prefix<'a>(s: &'a str, p: &str) -> (r: Option<&'a str>)
    ensures
        match r {
            Some(t) => starts_with(s@, p@) && t@ == s@.skip(p@.len() as int),
            None => !starts_with(s@, p@),
        },
{
    if str_starts_with(s, p) {
        let ls: usize = s.unicode_len();
        let lp: usize = p.unicode_len();
        let t = s.substring_char(lp, ls);
        proof {
            assert(t@ =~= s@.skip(p@.len() as int));
        }
        Some(t)
    } else {
        None
    }
}

/// Split `s` at `'\n'` separators, as `spec_lines` describes.
pub fn split_lines(s: &str) -> (r: Vec<String>)
    ensures
        r.deep_view() == spec_lines(s@),
{
    let len: usize = s.unicode_len();
    let mut r: Vec<String> = Vec::new();
    let mut start: usize = 0;
    let mut i: usize = 0;
    proof {
        assert(s@.skip(0) =~= s@);
        assert(r.deep_view() + spec_lines(s@) =~= spec_lines(s@));
    }
    while i < len
        invariant
            start <= i <= len,
            len == s@.len(),
            forall|j: int| start <= j < i ==> s@[j] != '\n',
            spec_lines(s@) == r.deep_view() + spec_lines(s@.skip(start as int)),
        decreases len - i,
    {
        if s.get_char(i) == '\n' {
            let line = s.substring_char(start, i);
            proof {
                let t = s@.skip(start as int);
                assert forall|j: int| 0 <= j < i - start implies t[j] != '\n' by {
                    assert(t[j] == s@[start + j]);
                }
                assert(t[i - start] == s@[i as int]);
                lemma_first_of_at(t, '\n', i - start);
                assert(t.take(i - start) =~= line@);
                assert(t.skip(i - start + 1) =~= s@.skip(i + 1));
                assert(spec_lines(t) == seq![line@] + spec_lines(s@.skip(i + 1)));
            }
            let ghost old_dv = r.deep_view();
            let owned = String::from_str(line);
            r.push(owned);
            proof {
                assert(r.deep_view() =~= old_dv.push(line@));
                assert(old_dv.push(line@) + spec_lines(s@.skip(i + 1)) =~= old_dv + (seq![line@]
                    + spec_lines(s@.skip(i + 1))));
            }
            start = i + 1;
        }
        i += 1;
    }
    if start < len {
        let line = s.substring_char(start, len);
        proof {
            let t = s@.skip(start as int);
            assert forall|j: int| 0 <= j < t.len() implies t[j] != '\n' by {
                assert(t[j] == s@[start + j]);
            }
            lemma_first_of_at(t, '\n', t.len() as int);
            assert(t =~= line@);
            assert(spec_lines(t) == seq![line@]);
        }
        let ghost old_dv = r.deep_view();
        let owned = String::from_str(line);
        r.push(owned);
        proof {
            assert(r.deep_view() =~= old_dv.push(line@));
            assert(old_dv.push(line@) =~= old_dv + seq![line@]);
        }
    } else {
        proof {
            assert(s@.skip(start as int).len() == 0);
            assert(r.deep_view() + spec_lines(s@.skip(start as int)) =~= r.deep_view());
        }
    }
    r
}

/// Split at `'\t'` into at most `limit` fields: the first `limit - 1`
/// separators split, the remainder stays whole in the last field.
pub open spec fn spec_split_tabs(s: Seq<char>, limit: nat) -> Seq<Seq<char>>
    decreases s.len(),
{
    if limit <= 1 {
        seq![s]
    } else {
        let n = first_of(s, '\t');
        if 0 <= n < s.len() {
            seq![s.take(n)] + spec_split_tabs(s.skip(n + 1), (limit - 1) as nat)
        } else {
            seq![s]
        }
    }
}

/// Split `s` at tab separators into at most `limit` fields.
pub fn split_tabs(s: &str, limit: usize) -> (r: Vec<String>)
    requires
        limit >= 1,
    ensures
        r.deep_view() == spec_split_tabs(s@, limit as nat),
{
    let len: usize = s.unicode_len();
    let mut r: Vec<String> = Vec::new();
    let mut start: usize = 0;
    let mut i: usize = 0;
    proof {
        assert(s@.skip(0) =~= s@);
        assert(r.deep_view() + spec_split_tabs(s@, limit as nat) =~= spec_split_tabs(
            s@,
            limit as nat,
        ));
    }
    while i < len && r.len() + 1 < limit
        invariant
            start <= i <= len,
            len == s@.len(),
            r.len() + 1 <= limit,
            forall|j: int| start <= j < i ==> s@[j] != '\t',
            spec_split_tabs(s@, limit as nat) == r.deep_view() + spec_split_tabs(
                s@.skip(start as int),
                (limit - r.len()) as nat,
            ),
        decreases len - i,
    {
        if s.get_char(i) == '\t' {
            let field = s.substring_char(start, i);
            proof {
                let t = s@.skip(start as int);
                assert forall|j: int| 0 <= j < i - start implies t[j] != '\t' by {
                    assert(t[j] == s@[start + j]);
                }
                assert(t[i - start] == s@[i as int]);
                lemma_first_of_at(t, '\t', i - start);
                assert(t.take(i - start) =~= field@);
                assert(t.skip(i - start + 1) =~= s@.skip(i + 1));
                assert(spec_split_tabs(t, (limit - r.len()) as nat) == seq![field@]
                    + spec_split_tabs(s@.skip(i + 1), (limit - r.len() - 1) as nat));
            }
            let ghost old_dv = r.deep_view();
            push_str(&mut r, field);
            proof {
                assert(old_dv.push(field@) + spec_split_tabs(
                    s@.skip(i + 1),
                    (limit - r.len()) as nat,
                ) =~= old_dv + (seq![field@] + spec_split_tabs(
                    s@.skip(i + 1),
                    (limit - r.len()) as nat,
                )));
            }
            start = i + 1;
        }
        i += 1;
    }
    let field = s.substring_char(start, len);
    proof {
        let t = s@.skip(start as int);
        assert(t =~= field@);
        if r.len() + 1 < limit {
            assert forall|j: int| 0 <= j < t.len() implies t[j] != '\t' by {
                assert(t[j] == s@[start + j]);
            }
            lemma_first_of_at(t, '\t', t.len() as int);
            assert(spec_split_tabs(t, (limit - r.len()) as nat) == seq![t]);
        } else {
            assert(spec_split_tabs(t, (limit - r.len()) as nat) == seq![t]);
        }
    }
    let ghost old_dv = r.deep_view();
    push_str(&mut r, field);
    proof {
        assert(old_dv.push(field@) =~= old_dv + seq![field@]);
    }
    r
}

/// ASCII whitespace.
pub open spec fn is_space(c: char) -> bool {
    c == ' ' || c == '\t' || c == '\n' || c == '\r'
}

/// `s` with leading and trailing ASCII whitespace removed.
pub open spec fn trim_spec(s: Seq<char>) -> Seq<char>
    decreases s.len(),
{
    if s.len() > 0 && is_space(s[0]) {
        trim_spec(s.drop_first())
    } else if s.len() > 0 && is_space(s.last()) {
        trim_spec(s.drop_last())
    } else {
        s
    }
}

/// ASCII whitespace, decided on one character.
pub fn is_space_char(c: char) -> (r: bool)
    ensures
        r == is_space(c),
{
    c == ' ' || c == '\t' || c == '\n' || c == '\r'
}

/// Trim ASCII whitespace from both ends of `s`.
pub fn str_trim(s: &str) -> (r: String)
    ensures
        r@ == trim_spec(s@),
{
    let len: usize = s.unicode_len();
    let mut from: usize = 0;
    proof {
        assert(s@.skip(0) =~= s@);
    }
    while from < len && is_space_char(s.get_char(from))
        invariant
            from <= len,
            len == s@.len(),
            trim_spec(s@) == trim_spec(s@.skip(from as int)),
        decreases len - from,
    {
        proof {
            let t = s@.skip(from as int);
            assert(t[0] == s@[from as int]);
            assert(t.drop_first() =~= s@.skip(from + 1));
        }
        from += 1;
    }
    let mut to: usize = len;
    while to > from && is_space_char(s.get_char(to - 1))
        invariant
            from <= to <= len,
            len == s@.len(),
            from == len || !is_space(s@[from as int]),
            trim_spec(s@) == trim_spec(s@.subrange(from as int, to as int)),
        decreases to,
    {
        proof {
            let t = s@.subrange(from as int, to as int);
            assert(t[0] == s@[from as int]);
            assert(t.last() == s@[to - 1]);
            assert(t.drop_last() =~= s@.subrange(from as int, to - 1));
        }
        to -= 1;
    }
    let piece = s.substring_char(from, to);
    proof {
        let t = s@.subrange(from as int, to as int);
        if t.len() > 0 {
            assert(t[0] == s@[from as int]);
            assert(t.last() == s@[to - 1]);
        }
        assert(trim_spec(t) == t);
        assert(piece@ =~= t);
    }
    String::from_str(piece)
}

/// `x` occurs among `names`.
pub open spec fn contains_str(names: Seq<Seq<char>>, x: Seq<char>) -> bool {
    exists|j: int| 0 <= j < names.len() && names[j] == x
}

/// Linear search for `x` among `names`.
pub fn find_str(names: &Vec<String>, x: &str) -> (r: bool)
    ensures
        r == contains_str(names.deep_view(), x@),
{
    let mut j: usize = 0;
    while j < names.len()
        invariant
            j <= names@.len(),
            forall|k: int| 0 <= k < j ==> (#[trigger] names.deep_view()[k]) != x@,
        decreases names@.len() - j,
    {
        if str_eq(names[j].as_str(), x) {
            proof {
                assert(names.deep_view()[j as int] == x@);
            }
            return true;
        }
        j += 1;
    }
    false
}

/// Index right after the last `/` of `s`; 0 when `s` holds none.
pub open spec fn after_last_slash(s: Seq<char>) -> int
    decreases s.len(),
{
    if s.len() == 0 {
        0
    } else if s.last() == '/' {
        s.len() as int
    } else {
        after_last_slash(s.drop_last())
    }
}

pub proof fn lemma_after_last_slash(s: Seq<char>)
    ensures
        0 <= after_last_slash(s) <= s.len(),
        forall|j: int| after_last_slash(s) <= j < s.len() ==> s[j] != '/',
        after_last_slash(s) > 0 ==> s[after_last_slash(s) - 1] == '/',
    decreases s.len(),
{
    if s.len() > 0 && s.last() != '/' {
        lemma_after_last_slash(s.drop_last());
        assert forall|j: int| after_last_slash(s) <= j < s.len() implies s[j] != '/' by {
            if j < s.len() - 1 {
                assert(s.drop_last()[j] == s[j]);
            }
        }
        if after_last_slash(s) > 0 {
            assert(s.drop_last()[after_last_slash(s) - 1] == s[after_last_slash(s) - 1]);
        }
    }
}

pub proof fn lemma_after_last_slash_at(s: Seq<char>, k: int)
    requires
        0 <= k <= s.len(),
        forall|j: int| k <= j < s.len() ==> s[j] != '/',
        k > 0 ==> s[k - 1] == '/',
    ensures
        after_last_slash(s) == k,
    decreases s.len(),
{
    if s.len() == 0 {
    } else if s.last() == '/' {
        assert(k == s.len());
    } else {
        assert(k < s.len());
        assert forall|j: int| k <= j < s.drop_last().len() implies s.drop_last()[j] != '/' by {
            assert(s.drop_last()[j] == s[j]);
        }
        if k > 0 {
            assert(s.drop_last()[k - 1] == s[k - 1]);
        }
        lemma_after_last_slash_at(s.drop_last(), k);
    }
}

/// Append an owned copy of `s` to a vector of strings.
pub fn push_str(v: &mut Vec<String>, s: &str)
    ensures
        final(v).deep_view() == old(v).deep_view().push(s@),
{
    let ghost old_dv = v.deep_view();
    v.push(String::from_str(s));
    proof {
        assert(v.deep_view() =~= old_dv.push(s@));
    }
}

/// Append an owned string to a vector of strings.
pub fn push_string(v: &mut Vec<String>, s: String)
    ensures
        final(v).deep_view() == old(v).deep_view().push(s@),
{
    let ghost old_dv = v.deep_view();
    let ghost sv = s@;
    v.push(s);
    proof {
        assert(v.deep_view() =~= old_dv.push(sv));
    }
}

/// Concatenation of two string slices into an owned string.
pub fn concat2(a: &str, b: &str) -> (r: String)
    ensures
        r@ == a@ + b@,
{
    let mut r = String::from_str(a);
    r.append(b);
    r
}

/// Concatenation of three string slices into an owned string.
pub fn concat3(a: &str, b: &str, c: &str) -> (r: String)
    ensures
        r@ == a@ + b@ + c@,
{
    let mut r = String::from_str(a);
    r.append(b);
    r.append(c);
    r
}

} // verus!
