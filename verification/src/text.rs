//! Small text operations on character sequences.

use vstd::prelude::*;
use vstd::string::*;

verus! {

/// Compares two texts character by character.
pub fn same_text(a: &str, b: &str) -> (r: bool)
    ensures
        r == (a@ == b@),
{
    let n = a.unicode_len();
    if n != b.unicode_len() {
        return false;
    }
    let mut i: usize = 0;
    while i < n
        invariant
            n == a@.len(),
            n == b@.len(),
            i <= n,
            forall|j: int| 0 <= j < i ==> a@[j] == b@[j],
        decreases n - i,
    {
        if a.get_char(i) != b.get_char(i) {
            return false;
        }
        i = i + 1;
    }
    assert(a@ =~= b@);
    true
}

/// Concatenates three texts.
pub fn join3(a: &str, b: &str, c: &str) -> (r: String)
    ensures
        r@ == a@ + b@ + c@,
{
    let mut s = a.to_owned();
    s.append(b);
    s.append(c);
    s
}

/// Concatenates four texts.
pub fn join4(a: &str, b: &str, c: &str, d: &str) -> (r: String)
    ensures
        r@ == a@ + b@ + c@ + d@,
{
    let mut s = join3(a, b, c);
    s.append(d);
    s
}

/// `s` has `pat` at position `k`.
pub open spec fn occurs_at(s: Seq<char>, pat: Seq<char>, k: int) -> bool {
    0 <= k && k + pat.len() <= s.len() && s.subrange(k, k + pat.len()) == pat
}

/// `s` with every occurrence of `pat` replaced by `rep`, scanning left to right
/// and never looking inside a replacement again. An empty `pat` leaves `s` as it is.
pub open spec fn replace_all(s: Seq<char>, pat: Seq<char>, rep: Seq<char>) -> Seq<char>
    decreases s.len(),
{
    if s.len() == 0 {
        s
    } else if pat.len() > 0 && occurs_at(s, pat, 0) {
        rep + replace_all(s.skip(pat.len() as int), pat, rep)
    } else {
        seq![s[0]] + replace_all(s.skip(1), pat, rep)
    }
}

proof fn lemma_replace_all_split(s: Seq<char>, pat: Seq<char>, rep: Seq<char>, i: int)
    requires
        0 <= i < s.len(),
    ensures
        pat.len() > 0 && occurs_at(s, pat, i) ==> replace_all(s.skip(i), pat, rep) == rep
            + replace_all(s.skip(i + pat.len()), pat, rep),
        !(pat.len() > 0 && occurs_at(s, pat, i)) ==> replace_all(s.skip(i), pat, rep) == seq![
            s[i],
        ] + replace_all(s.skip(i + 1), pat, rep),
{
    let t = s.skip(i);
    assert(t.len() > 0);
    if pat.len() > 0 {
        if occurs_at(s, pat, i) {
            assert(t.subrange(0, pat.len() as int) =~= s.subrange(i, i + pat.len()));
            assert(t.skip(pat.len() as int) =~= s.skip(i + pat.len()));
        } else if occurs_at(t, pat, 0) {
            assert(t.subrange(0, pat.len() as int) =~= s.subrange(i, i + pat.len()));
        }
    }
    assert(t.skip(1) =~= s.skip(i + 1));
}

/// Whether `pat` occurs in `text` at character position `k`.
fn text_occurs_at(text: &str, n: usize, pat: &str, m: usize, k: usize) -> (r: bool)
    requires
        n == text@.len(),
        m == pat@.len(),
        k <= n,
    ensures
        r == occurs_at(text@, pat@, k as int),
{
    if m > n - k {
        return false;
    }
    let mut j: usize = 0;
    while j < m
        invariant
            n == text@.len(),
            m == pat@.len(),
            k + m <= n,
            j <= m,
            forall|q: int| 0 <= q < j ==> text@[k + q] == pat@[q],
        decreases m - j,
    {
        if text.get_char(k + j) != pat.get_char(j) {
            assert(text@.subrange(k as int, k + m)[j as int] != pat@[j as int]);
            return false;
        }
        j = j + 1;
    }
    assert(text@.subrange(k as int, k + m) =~= pat@);
    true
}

/// Replaces every occurrence of `pat` in `text` by `rep`, left to right.
pub fn replace_text(text: &str, pat: &str, rep: &str) -> (r: String)
    ensures
        r@ == replace_all(text@, pat@, rep@),
{
    let n = text.unicode_len();
    let m = pat.unicode_len();
    let mut out = String::new();
    let mut i: usize = 0;
    assert(text@.skip(0) =~= text@);
    while i < n
        invariant
            n == text@.len(),
            m == pat@.len(),
            i <= n,
            out@ + replace_all(text@.skip(i as int), pat@, rep@) == replace_all(
                text@,
                pat@,
                rep@,
            ),
        decreases n - i,
    {
        proof {
            lemma_replace_all_split(text@, pat@, rep@, i as int);
        }
        if m > 0 && text_occurs_at(text, n, pat, m, i) {
            let ghost before = out@;
            out.append(rep);
            assert(out@ + replace_all(text@.skip(i + m), pat@, rep@) =~= before + (rep@
                + replace_all(text@.skip(i + m), pat@, rep@)));
            i = i + m;
        } else {
            let ghost before = out@;
            let piece = text.substring_char(i, i + 1);
            out.append(piece);
            assert(piece@ =~= seq![text@[i as int]]);
            assert(out@ + replace_all(text@.skip(i + 1), pat@, rep@) =~= before + (seq![
                text@[i as int],
            ] + replace_all(text@.skip(i + 1), pat@, rep@)));
            i = i + 1;
        }
    }
    assert(text@.skip(n as int) =~= Seq::<char>::empty());
    assert(out@ =~= out@ + replace_all(text@.skip(n as int), pat@, rep@));
    out
}

} // verus!
