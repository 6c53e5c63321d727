//! Identifier handling: the name-based convention table that classifies raw
//! parameters, and the naming rule that derives the wrapper's identifier from
//! the raw one by stripping trailing underscores.

use vstd::prelude::*;

verus! {

/// How a raw parameter is treated, decided by a case-insensitive match on its
/// name. `info` is the error/status output slot; `a`, `b`, `ipiv` and `work`
/// are the array-like matrix/vector/workspace arguments; every other name is a
/// scalar control parameter passed by value.
#[derive(Clone, Copy, Debug, PartialEq, Eq, Structural)]
pub enum NameClass {
    ErrorSlot,
    ArrayLike,
    Scalar,
}

/// `c` is an ASCII upper-case letter.
pub open spec fn is_ascii_upper(c: char) -> bool {
    65 <= c as u32 && c as u32 <= 90
}

/// `a` and `b` are the same character up to ASCII case.
pub open spec fn char_eq_ci(a: char, b: char) -> bool {
    ||| a == b
    ||| (is_ascii_upper(a) && b as u32 == a as u32 + 32)
    ||| (is_ascii_upper(b) && a as u32 == b as u32 + 32)
}

/// `a` and `b` are the same string up to ASCII case, position by position.
pub open spec fn seq_eq_ci(a: Seq<char>, b: Seq<char>) -> bool {
    a.len() == b.len() && forall|i: int| 0 <= i < a.len() ==> #[trigger] char_eq_ci(a[i], b[i])
}

/// The convention table: which class a parameter name falls in.
pub open spec fn name_class_spec(name: Seq<char>) -> NameClass {
    if seq_eq_ci(name, "info"@) {
        NameClass::ErrorSlot
    } else if seq_eq_ci(name, "a"@) || seq_eq_ci(name, "b"@) || seq_eq_ci(name, "ipiv"@)
        || seq_eq_ci(name, "work"@) {
        NameClass::ArrayLike
    } else {
        NameClass::Scalar
    }
}

fn char_matches(a: char, b: char) -> (r: bool)
    ensures
        r == char_eq_ci(a, b),
{
    let au: u32 = a as u32;
    let bu: u32 = b as u32;
    a == b || (65 <= au && au <= 90 && bu == au + 32) || (65 <= bu && bu <= 90 && au == bu + 32)
}

/// Position-by-position comparison of two strings up to ASCII case.
pub fn eq_ignore_ascii_case(a: &str, b: &str) -> (r: bool)
    ensures
        r == seq_eq_ci(a@, b@),
{
    let alen: usize = a.unicode_len();
    let blen: usize = b.unicode_len();
    if alen != blen {
        return false;
    }
    let mut i: usize = 0;
    while i < alen
        invariant
            alen == a@.len(),
            blen == b@.len(),
            alen == blen,
            i <= alen,
            forall|j: int| 0 <= j < i ==> char_eq_ci(a@[j], b@[j]),
        decreases alen - i,
    {
        if !char_matches(a.get_char(i), b.get_char(i)) {
            return false;
        }
        i += 1;
    }
    true
}

/// Classify a parameter name against the convention table.
pub fn classify_name(name: &str) -> (c: NameClass)
    ensures
        c == name_class_spec(name@),
{
    if eq_ignore_ascii_case(name, "info") {
        NameClass::ErrorSlot
    } else if eq_ignore_ascii_case(name, "a") || eq_ignore_ascii_case(name, "b")
        || eq_ignore_ascii_case(name, "ipiv") || eq_ignore_ascii_case(name, "work") {
        NameClass::ArrayLike
    } else {
        NameClass::Scalar
    }
}

/// Length of `s` once every trailing underscore is removed.
pub open spec fn stripped_len(s: Seq<char>) -> int
    decreases s.len(),
{
    if s.len() > 0 && s[s.len() - 1] == '_' {
        stripped_len(s.drop_last())
    } else {
        s.len() as int
    }
}

/// `s` without its trailing underscores: the naming rule for the wrapper's
/// identifier.
pub open spec fn strip_trailing_underscores_spec(s: Seq<char>) -> Seq<char> {
    s.subrange(0, stripped_len(s))
}

proof fn lemma_stripped_len_bounds(s: Seq<char>)
    ensures
        0 <= stripped_len(s) <= s.len(),
    decreases s.len(),
{
    if s.len() > 0 && s[s.len() - 1] == '_' {
        lemma_stripped_len_bounds(s.drop_last());
    }
}

/// Derive the wrapper's identifier from the raw one.
pub fn strip_trailing_underscores(name: &str) -> (r: String)
    ensures
        r@ == strip_trailing_underscores_spec(name@),
{
    let len: usize = name.unicode_len();
    let mut k: usize = len;
    proof {
        assert(name@.subrange(0, len as int) =~= name@);
    }
    while k > 0 && name.get_char(k - 1) == '_'
        invariant
            len == name@.len(),
            k <= len,
            stripped_len(name@) == stripped_len(name@.subrange(0, k as int)),
        decreases k,
    {
        proof {
            let pre = name@.subrange(0, k as int);
            assert(pre.drop_last() =~= name@.subrange(0, k - 1 as int));
        }
        k -= 1;
    }
    proof {
        let pre = name@.subrange(0, k as int);
        if k == 0 {
            assert(stripped_len(pre) == 0);
        } else {
            assert(pre[pre.len() - 1] != '_');
        }
        assert(stripped_len(name@) == k as int);
        lemma_stripped_len_bounds(name@);
    }
    let stem = name.substring_char(0, k);
    String::from_str(stem)
}

/// Stripping trailing underscores from an identifier that has none leaves the
/// identifier unchanged.
pub proof fn lemma_strip_noop(s: Seq<char>)
    requires
        s.len() == 0 || s[s.len() - 1] != '_',
    ensures
        strip_trailing_underscores_spec(s) == s,
{
    assert(stripped_len(s) == s.len() as int);
    assert(s.subrange(0, s.len() as int) =~= s);
}

/// The convention table is insensitive to ASCII case: two names that agree up
/// to case fall in the same class.
pub proof fn lemma_name_class_case_insensitive(a: Seq<char>, b: Seq<char>)
    requires
        seq_eq_ci(a, b),
    ensures
        name_class_spec(a) == name_class_spec(b),
{
    lemma_seq_eq_ci_shift(a, b, "info"@);
    lemma_seq_eq_ci_shift(a, b, "a"@);
    lemma_seq_eq_ci_shift(a, b, "b"@);
    lemma_seq_eq_ci_shift(a, b, "ipiv"@);
    lemma_seq_eq_ci_shift(a, b, "work"@);
}

proof fn lemma_char_eq_ci_trans(x: char, y: char, z: char)
    requires
        char_eq_ci(x, y),
        char_eq_ci(x, z),
    ensures
        char_eq_ci(y, z),
{
}

proof fn lemma_seq_eq_ci_shift(a: Seq<char>, b: Seq<char>, k: Seq<char>)
    requires
        seq_eq_ci(a, b),
    ensures
        seq_eq_ci(a, k) == seq_eq_ci(b, k),
{
    if seq_eq_ci(a, k) {
        assert forall|i: int| 0 <= i < b.len() implies #[trigger] char_eq_ci(b[i], k[i]) by {
            assert(char_eq_ci(a[i], b[i]));
            assert(char_eq_ci(a[i], k[i]));
            lemma_char_eq_ci_trans(a[i], b[i], k[i]);
        }
    }
    if seq_eq_ci(b, k) {
        assert forall|i: int| 0 <= i < a.len() implies #[trigger] char_eq_ci(a[i], k[i]) by {
            assert(char_eq_ci(a[i], b[i]));
            assert(char_eq_ci(b[i], k[i]));
            lemma_char_eq_ci_trans(b[i], a[i], k[i]);
        }
    }
}

} // verus!
