//! Small verified text utilities: character extraction, equality, substring
//! search, line-terminator trimming and decimal formatting.  Two thin trusted
//! wrappers cover the `String` mutators that vstd leaves unspecified.

use vstd::prelude::*;
use vstd::string::StrSliceExecFns;

verus! {

broadcast use vstd::string::group_string_axioms;

/// Relies on `String::push`: appends exactly one character at the end.
#[verifier::external_body]
pub(crate) fn string_push(s: &mut String, c: char)
    ensures
        final(s)@ == old(s)@.push(c),
{
    s.push(c);
}

/// Relies on `String::pop`: removes and returns the last character, or
/// returns `None` and leaves the string alone when it is empty.
#[verifier::external_body]
pub(crate) fn string_pop(s: &mut String) -> (r: Option<char>)
    ensures
        old(s)@.len() == 0 ==> final(s)@ == old(s)@ && r is None,
        old(s)@.len() > 0 ==> final(s)@ == old(s)@.drop_last() && r == Some(old(s)@.last()),
{
    s.pop()
}

/// The characters of a string slice, as a vector.
pub fn chars_of(s: &str) -> (r: Vec<char>)
    ensures
        r@ == s@,
{
    let n = s.unicode_len();
    let mut out: Vec<char> = Vec::new();
    let mut i: usize = 0;
    while i < n
        invariant
            n == s@.len(),
            i <= n,
            out@ == s@.take(i as int),
        decreases n - i,
    {
        out.push(s.get_char(i));
        proof {
            assert(out@ =~= s@.take(i + 1));
        }
        i += 1;
    }
    proof {
        assert(out@ =~= s@);
    }
    out
}

/// The string holding exactly these characters.
pub fn string_from_chars(cs: &Vec<char>) -> (r: String)
    ensures
        r@ == cs@,
{
    let mut out = String::new();
    let n = cs.len();
    let mut i: usize = 0;
    while i < n
        invariant
            n == cs@.len(),
            i <= n,
            out@ == cs@.take(i as int),
        decreases n - i,
    {
        string_push(&mut out, cs[i]);
        proof {
            assert(out@ =~= cs@.take(i + 1));
        }
        i += 1;
    }
    proof {
        assert(cs@.take(n as int) =~= cs@);
    }
    out
}

/// Character-for-character equality of two character vectors.
pub fn chars_eq(a: &Vec<char>, b: &Vec<char>) -> (r: bool)
    ensures
        r == (a@ == b@),
{
    if a.len() != b.len() {
        return false;
    }
    let n = a.len();
    let mut i: usize = 0;
    while i < n
        invariant
            n == a@.len() == b@.len(),
            i <= n,
            forall|t: int| 0 <= t < i ==> a@[t] == b@[t],
        decreases n - i,
    {
        if a[i] != b[i] {
            return false;
        }
        i += 1;
    }
    proof {
        assert(a@ =~= b@);
    }
    true
}

/// Character-for-character string equality.
pub fn str_eq_str(a: &str, b: &str) -> (r: bool)
    ensures
        r == (a@ == b@),
{
    let av = chars_of(a);
    let bv = chars_of(b);
    if av.len() != bv.len() {
        return false;
    }
    let n = av.len();
    let mut i: usize = 0;
    while i < n
        invariant
            n == av.len() == bv.len(),
            av@ == a@,
            bv@ == b@,
            i <= n,
            forall|t: int| 0 <= t < i ==> av@[t] == bv@[t],
        decreases n - i,
    {
        if av[i] != bv[i] {
            return false;
        }
        i += 1;
    }
    proof {
        assert(a@ =~= b@);
    }
    true
}

/// `p` occurs in `s` starting at position `i`.
pub open spec fn seq_contains_at(s: Seq<char>, p: Seq<char>, i: int) -> bool {
    0 <= i && i + p.len() <= s.len() && s.subrange(i, i + p.len() as int) == p
}

/// `p` occurs somewhere in `s`.
pub open spec fn seq_contains(s: Seq<char>, p: Seq<char>) -> bool {
    exists|i: int| seq_contains_at(s, p, i)
}

/// Substring search: whether `p` occurs in `s`.
pub fn str_contains(s: &str, p: &str) -> (r: bool)
    ensures
        r == seq_contains(s@, p@),
{
    let sv = chars_of(s);
    let pv = chars_of(p);
    if pv.len() > sv.len() {
        return false;
    }
    if pv.len() == 0 {
        proof {
            assert(s@.subrange(0, 0) =~= p@);
            assert(seq_contains_at(s@, p@, 0));
        }
        return true;
    }
    let last_start = sv.len() - pv.len();
    let mut i: usize = 0;
    while i <= last_start
        invariant
            sv@ == s@,
            pv@ == p@,
            1 <= pv.len() <= sv.len(),
            last_start == sv.len() - pv.len(),
            i <= last_start + 1,
            forall|k: int| 0 <= k < i ==> !seq_contains_at(s@, p@, k),
        decreases last_start + 1 - i,
    {
        let mut j: usize = 0;
        let mut mismatch = false;
        while j < pv.len()
            invariant
                sv@ == s@,
                pv@ == p@,
                i + pv.len() <= sv.len(),
                j <= pv.len(),
                !mismatch ==> forall|t: int| 0 <= t < j ==> sv@[i + t] == pv@[t],
                mismatch ==> !seq_contains_at(s@, p@, i as int),
            decreases pv.len() - j,
        {
            if sv[i + j] != pv[j] {
                proof {
                    assert(s@.subrange(i as int, i + p@.len() as int)[j as int] != p@[j as int]);
                }
                mismatch = true;
                j = pv.len();
            } else {
                j += 1;
            }
        }
        if !mismatch {
            proof {
                assert(s@.subrange(i as int, i + p@.len() as int) =~= p@);
                assert(seq_contains_at(s@, p@, i as int));
            }
            return true;
        }
        i += 1;
    }
    proof {
        assert forall|k: int| !seq_contains_at(s@, p@, k) by {
            if 0 <= k && k + p@.len() <= s@.len() {
                assert(k < i);
            }
        }
    }
    false
}

/// A line-terminator character.
pub open spec fn is_line_break(c: char) -> bool {
    c == '\n' || c == '\r'
}

/// `s` with every trailing line-terminator character removed.
pub open spec fn spec_trim_line_end(s: Seq<char>) -> Seq<char>
    decreases s.len(),
{
    if s.len() > 0 && is_line_break(s.last()) {
        spec_trim_line_end(s.drop_last())
    } else {
        s
    }
}

/// Strip the trailing line terminator (any run of `\n` / `\r`) from a line.
pub fn trim_line_end(s: &str) -> (r: String)
    ensures
        r@ == spec_trim_line_end(s@),
{
    let sv = chars_of(s);
    let mut end = sv.len();
    proof {
        assert(s@.take(sv.len() as int) =~= s@);
    }
    while end > 0 && (sv[end - 1] == '\n' || sv[end - 1] == '\r')
        invariant
            sv@ == s@,
            end <= sv.len(),
            spec_trim_line_end(s@) == spec_trim_line_end(s@.take(end as int)),
        decreases end,
    {
        proof {
            let cur = s@.take(end as int);
            assert(cur.last() == sv@[end - 1]);
            assert(cur.drop_last() =~= s@.take(end - 1));
        }
        end -= 1;
    }
    proof {
        let cur = s@.take(end as int);
        if end > 0 {
            assert(cur.last() == sv@[end - 1]);
        }
        assert(spec_trim_line_end(cur) == cur);
    }
    s.substring_char(0, end).to_owned()
}

/// The decimal digit character for `d` (last digit of `d` when `d >= 10`).
pub open spec fn dec_digit(d: nat) -> char {
    if d % 10 == 0 {
        '0'
    } else if d % 10 == 1 {
        '1'
    } else if d % 10 == 2 {
        '2'
    } else if d % 10 == 3 {
        '3'
    } else if d % 10 == 4 {
        '4'
    } else if d % 10 == 5 {
        '5'
    } else if d % 10 == 6 {
        '6'
    } else if d % 10 == 7 {
        '7'
    } else if d % 10 == 8 {
        '8'
    } else {
        '9'
    }
}

/// The usual decimal notation of `n`, without leading zeros.
pub open spec fn spec_dec(n: nat) -> Seq<char>
    decreases n,
{
    if n < 10 {
        seq![dec_digit(n)]
    } else {
        spec_dec(n / 10).push(dec_digit(n % 10))
    }
}

fn digit_char(d: u8) -> (c: char)
    requires
        d < 10,
    ensures
        c == dec_digit(d as nat),
{
    match d {
        0 => '0',
        1 => '1',
        2 => '2',
        3 => '3',
        4 => '4',
        5 => '5',
        6 => '6',
        7 => '7',
        8 => '8',
        _ => '9',
    }
}

/// Render `n` in decimal.
pub fn u64_to_string(n: u64) -> (r: String)
    ensures
        r@ == spec_dec(n as nat),
    decreases n,
{
    if n < 10 {
        let mut s = String::new();
        string_push(&mut s, digit_char(n as u8));
        proof {
            assert(s@ =~= spec_dec(n as nat));
        }
        s
    } else {
        let mut s = u64_to_string(n / 10);
        string_push(&mut s, digit_char((n % 10) as u8));
        proof {
            assert(s@ =~= spec_dec(n as nat));
        }
        s
    }
}

/// Render `n` in decimal.
pub fn usize_to_string(n: usize) -> (r: String)
    ensures
        r@ == spec_dec(n as nat),
{
    u64_to_string(n as u64)
}

} // verus!
