//! Character-sequence utilities: substring search, splitting, trimming and
//! decimal parsing, each specified over `Seq<char>` views.

use vstd::prelude::*;
use vstd::string::*;

verus! {

/// Whitespace characters trimmed from artifact output and diagnostic fields.
pub open spec fn is_ws(c: char) -> bool {
    c == ' ' || c == '\t' || c == '\n' || c == '\r'
}

/// `p` occurs in `s` starting at index `i`.
pub open spec fn match_at(s: Seq<char>, p: Seq<char>, i: int) -> bool {
    0 <= i && i + p.len() <= s.len() && s.subrange(i, i + p.len()) == p
}

/// `p` occurs somewhere in `s`.
pub open spec fn contains_seq(s: Seq<char>, p: Seq<char>) -> bool {
    exists|i: int| match_at(s, p, i)
}

/// `p` is a prefix of `s`.
pub open spec fn is_prefix(p: Seq<char>, s: Seq<char>) -> bool {
    p.len() <= s.len() && s.subrange(0, p.len() as int) == p
}

/// Index of the first occurrence of `p` in `s`; `s.len()` when `p` is absent.
pub open spec fn first_match(s: Seq<char>, p: Seq<char>) -> int
    decreases s.len(),
{
    if match_at(s, p, 0) {
        0
    } else if s.len() == 0 {
        0
    } else {
        1 + first_match(s.subrange(1, s.len() as int), p)
    }
}

/// Occurrences of `p` in the tail of `s` are occurrences in `s`, shifted by one.
pub proof fn lemma_match_shift(s: Seq<char>, p: Seq<char>, j: int)
    requires
        s.len() > 0,
        0 <= j,
    ensures
        match_at(s.subrange(1, s.len() as int), p, j) == match_at(s, p, j + 1),
{
    let t = s.subrange(1, s.len() as int);
    if 0 <= j && j + p.len() <= t.len() {
        assert(t.subrange(j, j + p.len()) =~= s.subrange(j + 1, j + 1 + p.len()));
    }
}

/// `s` contains `p` exactly when `p` starts at zero or the tail contains `p`.
pub proof fn lemma_contains_unfold(s: Seq<char>, p: Seq<char>)
    requires
        s.len() > 0,
    ensures
        contains_seq(s, p) == (match_at(s, p, 0) || contains_seq(
            s.subrange(1, s.len() as int),
            p,
        )),
{
    let t = s.subrange(1, s.len() as int);
    if contains_seq(s, p) {
        let i = choose|i: int| match_at(s, p, i);
        if i != 0 {
            lemma_match_shift(s, p, i - 1);
            assert(match_at(t, p, i - 1));
        }
    }
    if contains_seq(t, p) {
        let j = choose|j: int| match_at(t, p, j);
        lemma_match_shift(s, p, j);
        assert(match_at(s, p, j + 1));
    }
}

/// `first_match` is in bounds, is an occurrence when one exists, and nothing
/// earlier is an occurrence.
pub proof fn lemma_first_match(s: Seq<char>, p: Seq<char>)
    ensures
        0 <= first_match(s, p) <= s.len(),
        contains_seq(s, p) ==> match_at(s, p, first_match(s, p)),
        forall|j: int| 0 <= j < first_match(s, p) ==> !match_at(s, p, j),
    decreases s.len(),
{
    if match_at(s, p, 0) {
        assert(contains_seq(s, p));
    } else if s.len() == 0 {
        assert forall|j: int| 0 <= j < first_match(s, p) implies !match_at(s, p, j) by {}
    } else {
        let t = s.subrange(1, s.len() as int);
        lemma_first_match(t, p);
        lemma_contains_unfold(s, p);
        if contains_seq(s, p) {
            lemma_match_shift(s, p, first_match(t, p));
        }
        assert forall|j: int| 0 <= j < first_match(s, p) implies !match_at(s, p, j) by {
            if j > 0 {
                lemma_match_shift(s, p, j - 1);
            }
        }
    }
}

/// Two strings are equal exactly when their character sequences are.
pub fn str_eq(a: &str, b: &str) -> (r: bool)
    ensures
        r == (a@ == b@),
{
    let na = a.unicode_len();
    let nb = b.unicode_len();
    if na != nb {
        return false;
    }
    let mut i: usize = 0;
    while i < na
        invariant
            na == a@.len(),
            na == b@.len(),
            0 <= i <= na,
            forall|j: int| 0 <= j < i ==> a@[j] == b@[j],
        decreases na - i,
    {
        if a.get_char(i) != b.get_char(i) {
            return false;
        }
        i = i + 1;
    }
    proof {
        assert(a@ =~= b@);
    }
    true
}

/// Whether `p@` is a prefix of `s@`.
pub fn str_starts_with(s: &str, p: &str) -> (r: bool)
    ensures
        r == is_prefix(p@, s@),
{
    let ns = s.unicode_len();
    let np = p.unicode_len();
    if np > ns {
        return false;
    }
    let mut i: usize = 0;
    while i < np
        invariant
            ns == s@.len(),
            np == p@.len(),
            np <= ns,
            0 <= i <= np,
            forall|j: int| 0 <= j < i ==> s@[j] == p@[j],
        decreases np - i,
    {
        if s.get_char(i) != p.get_char(i) {
            proof {
                assert(s@.subrange(0, p@.len() as int)[i as int] == s@[i as int]);
            }
            return false;
        }
        i = i + 1;
    }
    proof {
        assert(s@.subrange(0, p@.len() as int) =~= p@);
    }
    true
}

/// Index of the first occurrence of `p@` in `s@`, if `s@` contains it.
pub fn find_str(s: &str, p: &str) -> (r: Option<usize>)
    ensures
        r matches Some(i) ==> i == first_match(s@, p@) && match_at(s@, p@, i as int),
        r is None ==> !contains_seq(s@, p@),
    decreases s@.len(),
{
    let n = s.unicode_len();
    if str_starts_with(s, p) {
        assert(match_at(s@, p@, 0));
        return Some(0);
    }
    if n == 0 {
        proof {
            assert forall|i: int| !match_at(s@, p@, i) by {}
        }
        return None;
    }
    let tail = s.substring_char(1, n);
    proof {
        lemma_contains_unfold(s@, p@);
    }
    match find_str(tail, p) {
        Some(i) => {
            proof {
                lemma_match_shift(s@, p@, i as int);
            }
            Some(i + 1)
        },
        None => None,
    }
}

/// Whether `s@` contains `p@`.
pub fn contains_str(s: &str, p: &str) -> (r: bool)
    ensures
        r == contains_seq(s@, p@),
{
    let r = find_str(s, p);
    proof {
        if r is Some {
            assert(contains_seq(s@, p@));
        }
    }
    r.is_some()
}

/// The pieces of `s` between occurrences of `c`: splitting the empty
/// sequence gives one empty piece, as `str::split` does.
pub open spec fn split_char(s: Seq<char>, c: char) -> Seq<Seq<char>>
    decreases s.len(),
{
    if s.len() == 0 {
        seq![Seq::<char>::empty()]
    } else if s[0] == c {
        seq![Seq::<char>::empty()] + split_char(s.subrange(1, s.len() as int), c)
    } else {
        let r = split_char(s.subrange(1, s.len() as int), c);
        seq![seq![s[0]] + r[0]] + r.subrange(1, r.len() as int)
    }
}

/// Splitting always yields at least one piece.
pub proof fn lemma_split_len(s: Seq<char>, c: char)
    ensures
        split_char(s, c).len() >= 1,
    decreases s.len(),
{
    if s.len() == 0 {
    } else {
        lemma_split_len(s.subrange(1, s.len() as int), c);
    }
}

/// The pieces of `s@` between occurrences of `sep`.
pub fn split_on(s: &str, sep: char) -> (r: Vec<String>)
    ensures
        r.deep_view() == split_char(s@, sep),
        r.len() >= 1,
    decreases s@.len(),
{
    let n = s.unicode_len();
    if n == 0 {
        let mut r: Vec<String> = Vec::new();
        r.push(String::new());
        proof {
            assert(r.deep_view() =~~= split_char(s@, sep));
        }
        return r;
    }
    let c0 = s.get_char(0);
    let tail = s.substring_char(1, n);
    let mut r = split_on(tail, sep);
    if c0 == sep {
        r.insert(0, String::new());
        proof {
            assert(r.deep_view() =~~= split_char(s@, sep));
        }
        r
    } else {
        let head = s.substring_char(0, 1);
        let first = String::from_str(head).concat(r[0].as_str());
        r.set(0, first);
        proof {
            assert(r.deep_view() =~~= split_char(s@, sep));
        }
        r
    }
}

/// Strip one trailing carriage return, as the surrounding line splitting does.
pub open spec fn strip_cr(l: Seq<char>) -> Seq<char> {
    if l.len() > 0 && l[l.len() - 1] == '\r' {
        l.subrange(0, l.len() - 1)
    } else {
        l
    }
}

/// Each piece with one trailing carriage return stripped.
pub open spec fn strip_cr_all(ls: Seq<Seq<char>>) -> Seq<Seq<char>> {
    ls.map_values(|l: Seq<char>| strip_cr(l))
}

/// The lines of `s`: the pieces between newlines, a trailing carriage return
/// removed from each piece that a newline ended, and no final empty piece.
pub open spec fn lines_of(s: Seq<char>) -> Seq<Seq<char>> {
    if s.len() == 0 {
        Seq::empty()
    } else {
        let p = split_char(s, '\n');
        let body = strip_cr_all(p.subrange(0, p.len() - 1));
        if p[p.len() - 1].len() == 0 {
            body
        } else {
            body + seq![p[p.len() - 1]]
        }
    }
}

/// The lines of `s@`, as `str::lines` produces them.
pub fn split_lines(s: &str) -> (r: Vec<String>)
    ensures
        r.deep_view() == lines_of(s@),
{
    let n = s.unicode_len();
    if n == 0 {
        let r: Vec<String> = Vec::new();
        proof {
            assert(r.deep_view() =~~= lines_of(s@));
        }
        return r;
    }
    let mut p = split_on(s, '\n');
    let ghost pieces = split_char(s@, '\n');
    proof {
        assert(forall|j: int| 0 <= j < pieces.len() ==> p@[j]@ == #[trigger] pieces[j]);
    }
    let last = p.pop().unwrap();
    let m = p.len();
    let mut i: usize = 0;
    while i < m
        invariant
            p.len() == m,
            m == pieces.len() - 1,
            last@ == pieces[m as int],
            forall|j: int| 0 <= j < i ==> p@[j]@ == strip_cr(#[trigger] pieces[j]),
            forall|j: int| i <= j < m ==> p@[j]@ == #[trigger] pieces[j],
        decreases m - i,
    {
        let li = p[i].as_str();
        let ln = li.unicode_len();
        if ln > 0 && li.get_char(ln - 1) == '\r' {
            let stripped = String::from_str(li.substring_char(0, ln - 1));
            p.set(i, stripped);
        }
        i = i + 1;
    }
    let lastn = last.as_str().unicode_len();
    let ghost body = strip_cr_all(pieces.subrange(0, pieces.len() - 1));
    if lastn != 0 {
        p.push(last);
        proof {
            assert(lines_of(s@) == body + seq![pieces[pieces.len() - 1]]);
            assert forall|j: int| 0 <= j < p@.len() implies p.deep_view()[j] == lines_of(s@)[j] by {
                assert(p.deep_view()[j] == p@[j]@);
                if j < m {
                    assert(body[j] == strip_cr(pieces[j]));
                }
            }
            assert(p.deep_view() =~= lines_of(s@));
        }
    } else {
        proof {
            assert(lines_of(s@) == body);
            assert forall|j: int| 0 <= j < p@.len() implies p.deep_view()[j] == lines_of(s@)[j] by {
                assert(p.deep_view()[j] == p@[j]@);
                assert(body[j] == strip_cr(pieces[j]));
            }
            assert(p.deep_view() =~= lines_of(s@));
        }
    }
    p
}

/// `s` with leading whitespace removed.
pub open spec fn trim_front(s: Seq<char>) -> Seq<char>
    decreases s.len(),
{
    if s.len() > 0 && is_ws(s[0]) {
        trim_front(s.subrange(1, s.len() as int))
    } else {
        s
    }
}

/// `s` with trailing whitespace removed.
pub open spec fn trim_back(s: Seq<char>) -> Seq<char>
    decreases s.len(),
{
    if s.len() > 0 && is_ws(s[s.len() - 1]) {
        trim_back(s.subrange(0, s.len() - 1))
    } else {
        s
    }
}

/// `s` with surrounding whitespace removed.
pub open spec fn trimmed(s: Seq<char>) -> Seq<char> {
    trim_back(trim_front(s))
}

fn trim_front_str(s: &str) -> (r: String)
    ensures
        r@ == trim_front(s@),
    decreases s@.len(),
{
    let n = s.unicode_len();
    if n > 0 {
        let c = s.get_char(0);
        if c == ' ' || c == '\t' || c == '\n' || c == '\r' {
            return trim_front_str(s.substring_char(1, n));
        }
    }
    String::from_str(s)
}

fn trim_back_str(s: &str) -> (r: String)
    ensures
        r@ == trim_back(s@),
    decreases s@.len(),
{
    let n = s.unicode_len();
    if n > 0 {
        let c = s.get_char(n - 1);
        if c == ' ' || c == '\t' || c == '\n' || c == '\r' {
            return trim_back_str(s.substring_char(0, n - 1));
        }
    }
    String::from_str(s)
}

/// `s@` with surrounding whitespace removed.
pub fn trim_ws(s: &str) -> (r: String)
    ensures
        r@ == trimmed(s@),
{
    let f = trim_front_str(s);
    trim_back_str(f.as_str())
}

/// `c` is a decimal digit.
pub open spec fn is_digit(c: char) -> bool {
    48 <= c as u32 && c as u32 <= 57
}

/// The value of the decimal digit `c`.
pub open spec fn digit_val(c: char) -> nat {
    (c as u32 - 48) as nat
}

/// Every character of `s` is a decimal digit.
pub open spec fn all_digits(s: Seq<char>) -> bool {
    forall|i: int| 0 <= i < s.len() ==> is_digit(s[i])
}

/// The value of `s` read as an unbounded decimal numeral.
pub open spec fn digits_val(s: Seq<char>) -> nat
    decreases s.len(),
{
    if s.len() == 0 {
        0
    } else {
        digits_val(s.subrange(0, s.len() - 1)) * 10 + digit_val(s[s.len() - 1])
    }
}

/// What parsing `s` as a decimal `usize` yields: a value for a non-empty,
/// all-digit numeral that fits, nothing otherwise.  No sign is accepted:
/// the position fields this reads are bare digits.
pub open spec fn parse_usize_model(s: Seq<char>) -> Option<usize> {
    if s.len() > 0 && all_digits(s) && digits_val(s) <= usize::MAX {
        Some(digits_val(s) as usize)
    } else {
        None
    }
}

/// Parse `s@` as a decimal `usize`.
pub fn parse_usize_dec(s: &str) -> (r: Option<usize>)
    ensures
        r == parse_usize_model(s@),
    decreases s@.len(),
{
    let n = s.unicode_len();
    if n == 0 {
        return None;
    }
    let c = s.get_char(n - 1);
    let cu = c as u32;
    if cu < 48 || cu > 57 {
        assert(!all_digits(s@));
        return None;
    }
    let d = (cu - 48) as usize;
    if n == 1 {
        proof {
            assert(s@.subrange(0, 0) =~= Seq::<char>::empty());
            assert(digits_val(s@.subrange(0, 0)) == 0);
            assert(digits_val(s@) == digit_val(s@[0]));
            assert(all_digits(s@));
        }
        return Some(d);
    }
    let prefix = s.substring_char(0, n - 1);
    let ghost pre = s@.subrange(0, n - 1);
    proof {
        assert(all_digits(s@) ==> all_digits(pre));
        assert(all_digits(pre) && is_digit(s@[n - 1]) ==> all_digits(s@)) by {
            if all_digits(pre) && is_digit(s@[n - 1]) {
                assert forall|i: int| 0 <= i < s@.len() implies is_digit(s@[i]) by {
                    if i < n - 1 {
                        assert(s@[i] == pre[i]);
                    }
                }
            }
        }
    }
    match parse_usize_dec(prefix) {
        None => {
            proof {
                if all_digits(s@) {
                    assert(digits_val(pre) > usize::MAX);
                    assert(digits_val(s@) == digits_val(pre) * 10 + digit_val(s@[n - 1]));
                    assert(digits_val(pre) * 10 >= digits_val(pre));
                }
            }
            None
        },
        Some(v) => {
            proof {
                vstd::arithmetic::div_mod::lemma_fundamental_div_mod(usize::MAX as int, 10);
            }
            let max10 = usize::MAX / 10;
            let maxr = usize::MAX % 10;
            if v > max10 || (v == max10 && d > maxr) {
                proof {
                    assert(digits_val(s@) == digits_val(pre) * 10 + digit_val(s@[n - 1]));
                    assert(digits_val(pre) * 10 + digit_val(s@[n - 1]) > usize::MAX);
                }
                None
            } else {
                proof {
                    assert(digits_val(s@) == digits_val(pre) * 10 + digit_val(s@[n - 1]));
                    assert(v * 10 + d <= usize::MAX);
                }
                Some(v * 10 + d)
            }
        },
    }
}

} // verus!
