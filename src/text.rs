//! Character-sequence helpers shared by the painter, the spinners and the
//! sinks: newline counting, concatenation, placeholder substitution and
//! decimal rendering.
use vstd::prelude::*;

verus! {

/// Number of `'\n'` characters in `s`.
pub open spec fn newlines(s: Seq<char>) -> nat
    decreases s.len(),
{
    if s.len() == 0 {
        0
    } else {
        newlines(s.drop_last()) + if s.last() == '\n' { 1nat } else { 0nat }
    }
}

/// All chunks joined in order, with nothing between them.
pub open spec fn concat(chunks: Seq<Seq<char>>) -> Seq<char>
    decreases chunks.len(),
{
    if chunks.len() == 0 {
        Seq::empty()
    } else {
        concat(chunks.drop_last()) + chunks.last()
    }
}

/// `s` with every occurrence of `pat` replaced by `with`, matches taken
/// left to right and never overlapping.
pub open spec fn replace_all(s: Seq<char>, pat: Seq<char>, with: Seq<char>) -> Seq<char>
    recommends
        pat.len() > 0,
    decreases s.len(),
{
    if pat.len() == 0 || s.len() < pat.len() {
        s
    } else if s.subrange(0, pat.len() as int) == pat {
        with + replace_all(s.skip(pat.len() as int), pat, with)
    } else {
        seq![s[0]] + replace_all(s.skip(1), pat, with)
    }
}

/// The ASCII digit for `d < 10`.
pub open spec fn digit(d: nat) -> char {
    if d == 0 {
        '0'
    } else if d == 1 {
        '1'
    } else if d == 2 {
        '2'
    } else if d == 3 {
        '3'
    } else if d == 4 {
        '4'
    } else if d == 5 {
        '5'
    } else if d == 6 {
        '6'
    } else if d == 7 {
        '7'
    } else if d == 8 {
        '8'
    } else {
        '9'
    }
}

/// Base-ten rendering of `n`, without sign or leading zeros.
pub open spec fn decimal(n: nat) -> Seq<char>
    decreases n,
{
    if n < 10 {
        seq![digit(n)]
    } else {
        decimal(n / 10) + seq![digit(n % 10)]
    }
}

/// Counts the newlines of `s`.
pub fn count_newlines(s: &str) -> (r: usize)
    ensures
        r == newlines(s@),
{
    let n = s.unicode_len();
    let mut i: usize = 0;
    let mut count: usize = 0;
    while i < n
        invariant
            n == s@.len(),
            i <= n,
            count == newlines(s@.take(i as int)),
            count <= i,
        decreases n - i,
    {
        let c = s.get_char(i);
        assert(s@.take(i as int + 1).drop_last() =~= s@.take(i as int));
        if c == '\n' {
            count = count + 1;
        }
        i = i + 1;
    }
    assert(s@.take(n as int) =~= s@);
    count
}

/// Joins `chunks` in order into one string.
pub fn join(chunks: &Vec<String>) -> (r: String)
    ensures
        r@ == concat(chunks@.map_values(|c: String| c@)),
{
    let ghost views = chunks@.map_values(|c: String| c@);
    let mut out = String::new();
    let mut i: usize = 0;
    while i < chunks.len()
        invariant
            i <= chunks.len(),
            views == chunks@.map_values(|c: String| c@),
            out@ == concat(views.take(i as int)),
        decreases chunks.len() - i,
    {
        assert(views.take(i as int + 1).drop_last() =~= views.take(i as int));
        out.append(chunks[i].as_str());
        i = i + 1;
    }
    assert(views.take(chunks.len() as int) =~= views);
    out
}

/// True when `pat` occurs in `s` at character position `at`.
fn matches_at(s: &str, pat: &str, at: usize) -> (r: bool)
    requires
        at + pat@.len() <= s@.len(),
        s@.len() <= usize::MAX,
    ensures
        r == (s@.subrange(at as int, at + pat@.len()) == pat@),
{
    let m = pat.unicode_len();
    let mut j: usize = 0;
    while j < m
        invariant
            m == pat@.len(),
            at + m <= s@.len(),
            s@.len() <= usize::MAX,
            j <= m,
            forall|k: int| 0 <= k < j ==> s@[at + k] == pat@[k],
        decreases m - j,
    {
        if s.get_char(at + j) != pat.get_char(j) {
            assert(s@.subrange(at as int, at + m)[j as int] != pat@[j as int]);
            return false;
        }
        j = j + 1;
    }
    assert(s@.subrange(at as int, at + m) =~= pat@);
    true
}

/// Replaces every occurrence of the non-empty `pat` in `s` by `with`.
pub fn replace(s: &str, pat: &str, with: &str) -> (r: String)
    requires
        pat@.len() > 0,
    ensures
        r@ == replace_all(s@, pat@, with@),
{
    let n = s.unicode_len();
    let m = pat.unicode_len();
    let mut out = String::new();
    let mut i: usize = 0;
    assert(s@.skip(0) =~= s@);
    assert(out@ + replace_all(s@, pat@, with@) =~= replace_all(s@, pat@, with@));
    while i < n
        invariant
            n == s@.len(),
            m == pat@.len(),
            m > 0,
            i <= n,
            out@ + replace_all(s@.skip(i as int), pat@, with@) == replace_all(s@, pat@, with@),
        decreases n - i,
    {
        let ghost rest = s@.skip(i as int);
        if m <= n - i && matches_at(s, pat, i) {
            assert(rest.subrange(0, m as int) =~= s@.subrange(i as int, i + m));
            assert(rest.skip(m as int) =~= s@.skip(i + m));
            out.append(with);
            i = i + m;
        } else {
            if m <= n - i {
                assert(rest.subrange(0, m as int) =~= s@.subrange(i as int, i + m));
            } else {
                assert(replace_all(rest.skip(1), pat@, with@) == rest.skip(1));
            }
            assert(rest.skip(1) =~= s@.skip(i + 1));
            assert(rest =~= seq![rest[0]] + rest.skip(1));
            let ghost before = out@;
            let one = s.substring_char(i, i + 1);
            assert(one@ =~= seq![rest[0]]);
            out.append(one);
            assert(out@ + replace_all(s@.skip(i + 1), pat@, with@) =~= before + (seq![rest[0]]
                + replace_all(rest.skip(1), pat@, with@)));
            i = i + 1;
        }
    }
    assert(s@.skip(n as int) =~= Seq::<char>::empty());
    assert(out@ + Seq::<char>::empty() =~= out@);
    out
}

/// The one-character string of the digit `d`.
fn digit_str(d: u64) -> (r: &'static str)
    requires
        d < 10,
    ensures
        r@ == seq![digit(d as nat)],
{
    if d == 0 {
        proof { reveal_strlit("0"); }
        "0"
    } else if d == 1 {
        proof { reveal_strlit("1"); }
        "1"
    } else if d == 2 {
        proof { reveal_strlit("2"); }
        "2"
    } else if d == 3 {
        proof { reveal_strlit("3"); }
        "3"
    } else if d == 4 {
        proof { reveal_strlit("4"); }
        "4"
    } else if d == 5 {
        proof { reveal_strlit("5"); }
        "5"
    } else if d == 6 {
        proof { reveal_strlit("6"); }
        "6"
    } else if d == 7 {
        proof { reveal_strlit("7"); }
        "7"
    } else if d == 8 {
        proof { reveal_strlit("8"); }
        "8"
    } else {
        proof { reveal_strlit("9"); }
        "9"
    }
}

/// Base-ten rendering of `n`.
pub fn decimal_string(n: u64) -> (r: String)
    ensures
        r@ == decimal(n as nat),
    decreases n,
{
    if n < 10 {
        String::from_str(digit_str(n))
    } else {
        let mut s = decimal_string(n / 10);
        s.append(digit_str(n % 10));
        s
    }
}

} // verus!
