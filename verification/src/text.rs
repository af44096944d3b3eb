//! Text helpers shared by the client error messages: placeholder
//! substitution and text comparison.
use vstd::prelude::*;

verus! {

/// Placeholder that error-message templates carry for the error detail.
pub const DETAIL_PLACEHOLDER: &'static str = "{detail}";

/// `s` with every non-overlapping occurrence of `pat`, scanned left to right,
/// replaced by `rep` (what `str::replace` computes for a non-empty pattern).
pub open spec fn replace_all(s: Seq<char>, pat: Seq<char>, rep: Seq<char>) -> Seq<char>
    decreases s.len(),
{
    if pat.len() == 0 || s.len() < pat.len() {
        s
    } else if s.subrange(0, pat.len() as int) == pat {
        rep + replace_all(s.subrange(pat.len() as int, s.len() as int), pat, rep)
    } else {
        seq![s[0]] + replace_all(s.subrange(1, s.len() as int), pat, rep)
    }
}

/// A message template with its `{detail}` placeholders filled in.
pub open spec fn fill_detail(template: Seq<char>, detail: Seq<char>) -> Seq<char> {
    replace_all(template, DETAIL_PLACEHOLDER@, detail)
}

proof fn lemma_replace_all_short(s: Seq<char>, pat: Seq<char>, rep: Seq<char>)
    requires
        s.len() < pat.len(),
    ensures
        replace_all(s, pat, rep) == s,
{
}

/// Whether `pat` occurs in `s` at character position `at`.
fn matches_at(s: &str, n: usize, pat: &str, plen: usize, at: usize) -> (r: bool)
    requires
        n == s@.len(),
        plen == pat@.len(),
        at + plen <= n,
    ensures
        r == (s@.subrange(at as int, at + plen) == pat@),
{
    let mut j: usize = 0;
    while j < plen
        invariant
            n == s@.len(),
            plen == pat@.len(),
            at + plen <= n,
            j <= plen,
            forall|k: int| 0 <= k < j ==> s@[at + k] == pat@[k],
        decreases plen - j,
    {
        if s.get_char(at + j) != pat.get_char(j) {
            assert(s@.subrange(at as int, at + plen)[j as int] != pat@[j as int]);
            return false;
        }
        j = j + 1;
    }
    assert(s@.subrange(at as int, at + plen) =~= pat@);
    true
}

/// Whether two texts hold the same characters.
pub fn same_text(a: &str, b: &str) -> (r: bool)
    ensures
        r == (a@ == b@),
{
    let n = a.unicode_len();
    if n != b.unicode_len() {
        return false;
    }
    let mut i: usize = 0;
    while i < n
        invariant
            n == a@.len(),
            n == b@.len(),
            i <= n,
            forall|k: int| 0 <= k < i ==> a@[k] == b@[k],
        decreases n - i,
    {
        if a.get_char(i) != b.get_char(i) {
            return false;
        }
        i = i + 1;
    }
    assert(a@ =~= b@);
    true
}

/// Replaces every non-overlapping occurrence of a non-empty `pat` in `s`,
/// scanning from the left, by `rep`.
pub fn replace_all_text(s: &str, pat: &str, rep: &str) -> (r: String)
    requires
        pat@.len() > 0,
    ensures
        r@ == replace_all(s@, pat@, rep@),
{
    let n = s.unicode_len();
    let plen = pat.unicode_len();
    let mut out = String::new();
    let mut i: usize = 0;
    assert(s@.subrange(0, n as int) =~= s@);
    while i < n
        invariant
            n == s@.len(),
            plen == pat@.len(),
            plen > 0,
            i <= n,
            out@ + replace_all(s@.subrange(i as int, n as int), pat@, rep@) == replace_all(
                s@,
                pat@,
                rep@,
            ),
        decreases n - i,
    {
        let ghost rest = s@.subrange(i as int, n as int);
        if plen > n - i {
            proof {
                lemma_replace_all_short(rest, pat@, rep@);
            }
            out.append(s.substring_char(i, n));
            assert(s@.subrange(n as int, n as int) =~= Seq::<char>::empty());
            i = n;
        } else if matches_at(s, n, pat, plen, i) {
            assert(rest.subrange(0, plen as int) =~= s@.subrange(i as int, i + plen));
            assert(rest.subrange(plen as int, rest.len() as int) =~= s@.subrange(
                i + plen,
                n as int,
            ));
            out.append(rep);
            i = i + plen;
        } else {
            assert(rest.subrange(0, plen as int) =~= s@.subrange(i as int, i + plen));
            assert(rest.subrange(1, rest.len() as int) =~= s@.subrange(i + 1, n as int));
            let c = s.substring_char(i, i + 1);
            assert(c@ =~= seq![rest[0]]);
            out.append(c);
            i = i + 1;
        }
    }
    assert(s@.subrange(n as int, n as int) =~= Seq::<char>::empty());
    out
}

/// Fills the `{detail}` placeholders of a message template.
pub fn fill_detail_text(template: &str, detail: &str) -> (r: String)
    ensures
        r@ == fill_detail(template@, detail@),
{
    proof {
        reveal_strlit("{detail}");
    }
    replace_all_text(template, DETAIL_PLACEHOLDER, detail)
}

} // verus!
