//! Configuration-file helpers: where the config files live, parsing the
//! plain values found in them, and the gitignore bookkeeping around the
//! local file.  Reading and writing the files themselves is the surrounding
//! binary's concern.

use vstd::prelude::*;
use vstd::string::StringExecFns;

use crate::config::{Color, ColorName};
use crate::text::{
    chars_eq, chars_of, seq_contains, str_contains, str_eq_str, string_from_chars,
};
use crate::types::{lower_of, to_lower};

verus! {

broadcast use vstd::string::group_string_axioms;

/// Relies on `std::path::Path::exists`: whether anything is at this path at
/// the moment of the call.
#[verifier::external_body]
pub(crate) fn path_exists(path: &str) -> bool {
    std::path::Path::new(path).exists()
}

/// Relies on `dirs::config_dir`: the platform's configuration directory for
/// the current user, when one is defined and is valid Unicode.
#[verifier::external_body]
fn base_config_dir() -> (r: Option<String>) {
    match dirs::config_dir() {
        Some(p) => p.into_os_string().into_string().ok(),
        None => None,
    }
}

/// The agent's own directory under a given platform configuration
/// directory.
pub fn config_dir_under(base: String) -> (r: String)
    ensures
        r@ == base@ + "/mcp-log-agent"@,
{
    let mut dir = base;
    dir.append("/mcp-log-agent");
    dir
}

/// The configuration file inside a given agent directory.
pub fn config_file_in(dir: String) -> (r: String)
    ensures
        r@ == dir@ + "/config.toml"@,
{
    let mut path = dir;
    path.append("/config.toml");
    path
}

/// The agent's own directory under the platform configuration directory.
/// Which directory the platform reports — and whether it reports one at all
/// — depends on the environment; all that can be promised of the result is
/// its shape, via [`config_dir_under`].
pub fn get_global_config_dir() -> (r: Option<String>)
    ensures
        match r {
            Some(d) => d@.len() >= 14 && d@.subrange(d@.len() - 14, d@.len() as int)
                == "/mcp-log-agent"@,
            None => true,
        },
{
    proof {
        reveal_strlit("/mcp-log-agent");
    }
    match base_config_dir() {
        Some(base) => {
            let dir = config_dir_under(base);
            proof {
                assert(dir@.subrange(dir@.len() - 14, dir@.len() as int) =~= "/mcp-log-agent"@);
            }
            Some(dir)
        }
        None => None,
    }
}

/// The global configuration file, when the platform reports a configuration
/// directory; its exact shape relative to that directory is fixed by
/// [`config_dir_under`] and [`config_file_in`].
pub fn get_global_config_path() -> (r: Option<String>)
    ensures
        match r {
            Some(p) => p@.len() >= 26 && p@.subrange(p@.len() - 26, p@.len() as int)
                == "/mcp-log-agent/config.toml"@,
            None => true,
        },
{
    proof {
        reveal_strlit("/mcp-log-agent");
        reveal_strlit("/config.toml");
        reveal_strlit("/mcp-log-agent/config.toml");
        assert("/mcp-log-agent"@ + "/config.toml"@ =~= "/mcp-log-agent/config.toml"@);
    }
    match base_config_dir() {
        Some(base) => {
            let path = config_file_in(config_dir_under(base));
            proof {
                assert(path@.subrange(path@.len() - 26, path@.len() as int)
                    =~= "/mcp-log-agent/config.toml"@);
            }
            Some(path)
        }
        None => None,
    }
}

/// The per-project configuration file, relative to the working directory.
pub fn get_local_config_path() -> (r: String)
    ensures
        r@ == ".mcp-log-agent.toml"@,
{
    ".mcp-log-agent.toml".to_owned()
}

/// Whether a per-project configuration file is present.
pub fn has_local_config() -> bool {
    let path = get_local_config_path();
    path_exists(path.as_str())
}

/// Whether a global configuration file is present.
pub fn has_global_config() -> bool {
    match get_global_config_path() {
        Some(path) => path_exists(path.as_str()),
        None => false,
    }
}

/// Whether the working directory is a git repository.
pub fn is_git_repository() -> bool {
    path_exists(".git")
}

/// A blank character for the purposes of trimming configuration values.
pub open spec fn is_blank(c: char) -> bool {
    c == ' ' || c == '\t' || c == '\r'
}

/// `s` without leading blanks.
pub open spec fn trim_front(s: Seq<char>) -> Seq<char>
    decreases s.len(),
{
    if s.len() > 0 && is_blank(s.first()) {
        trim_front(s.drop_first())
    } else {
        s
    }
}

/// `s` without trailing blanks.
pub open spec fn trim_back(s: Seq<char>) -> Seq<char>
    decreases s.len(),
{
    if s.len() > 0 && is_blank(s.last()) {
        trim_back(s.drop_last())
    } else {
        s
    }
}

/// `s` without leading or trailing blanks.
pub open spec fn spec_trim(s: Seq<char>) -> Seq<char> {
    trim_back(trim_front(s))
}

/// Strip leading and trailing blanks.
pub fn trim_chars(cs: &Vec<char>) -> (r: Vec<char>)
    ensures
        r@ == spec_trim(cs@),
{
    let n = cs.len();
    let mut lo: usize = 0;
    proof {
        assert(cs@.skip(0) =~= cs@);
    }
    while lo < n && (cs[lo] == ' ' || cs[lo] == '\t' || cs[lo] == '\r')
        invariant
            n == cs@.len(),
            lo <= n,
            trim_front(cs@) == trim_front(cs@.skip(lo as int)),
        decreases n - lo,
    {
        proof {
            assert(cs@.skip(lo as int).first() == cs@[lo as int]);
            assert(cs@.skip(lo as int).drop_first() =~= cs@.skip(lo + 1));
        }
        lo += 1;
    }
    proof {
        if lo < n {
            assert(cs@.skip(lo as int).first() == cs@[lo as int]);
        }
        assert(trim_front(cs@) == cs@.skip(lo as int));
    }
    let mut hi: usize = n;
    while hi > lo && (cs[hi - 1] == ' ' || cs[hi - 1] == '\t' || cs[hi - 1] == '\r')
        invariant
            n == cs@.len(),
            lo <= hi <= n,
            trim_back(cs@.skip(lo as int)) == trim_back(cs@.subrange(lo as int, hi as int)),
        decreases hi,
    {
        proof {
            assert(cs@.subrange(lo as int, hi as int).last() == cs@[hi - 1]);
            assert(cs@.subrange(lo as int, hi as int).drop_last() =~= cs@.subrange(
                lo as int,
                hi - 1,
            ));
        }
        hi -= 1;
    }
    proof {
        assert(cs@.skip(lo as int) =~= cs@.subrange(lo as int, n as int));
        if hi > lo {
            assert(cs@.subrange(lo as int, hi as int).last() == cs@[hi - 1]);
        }
        assert(trim_back(cs@.subrange(lo as int, hi as int)) == cs@.subrange(
            lo as int,
            hi as int,
        ));
    }
    let mut out: Vec<char> = Vec::new();
    let mut i: usize = lo;
    while i < hi
        invariant
            n == cs@.len(),
            lo <= i <= hi <= n,
            out@ == cs@.subrange(lo as int, i as int),
        decreases hi - i,
    {
        out.push(cs[i]);
        proof {
            assert(out@ =~= cs@.subrange(lo as int, i + 1));
        }
        i += 1;
    }
    proof {
        if lo == hi {
            assert(out@ =~= cs@.subrange(lo as int, hi as int));
        }
    }
    out
}

/// `s` split on `sep`, the piece read so far being `cur`.
pub open spec fn spec_split(s: Seq<char>, sep: char, cur: Seq<char>) -> Seq<Seq<char>>
    decreases s.len(),
{
    if s.len() == 0 {
        seq![cur]
    } else if s.first() == sep {
        seq![cur] + spec_split(s.drop_first(), sep, Seq::empty())
    } else {
        spec_split(s.drop_first(), sep, cur.push(s.first()))
    }
}

/// Split on a separator character; a string with no separator yields one
/// piece.
pub fn split_on(cs: &Vec<char>, sep: char) -> (r: Vec<Vec<char>>)
    ensures
        r.deep_view() == spec_split(cs@, sep, Seq::<char>::empty()),
{
    let n = cs.len();
    let mut parts: Vec<Vec<char>> = Vec::new();
    let mut cur: Vec<char> = Vec::new();
    let mut i: usize = 0;
    proof {
        assert(parts.deep_view() =~= Seq::<Seq<char>>::empty());
        assert(Seq::<Seq<char>>::empty() + spec_split(cs@.skip(0), sep, cur@) =~= spec_split(
            cs@.skip(0),
            sep,
            cur@,
        ));
        assert(cs@.skip(0) =~= cs@);
    }
    while i < n
        invariant
            n == cs@.len(),
            i <= n,
            spec_split(cs@, sep, Seq::<char>::empty()) == parts.deep_view() + spec_split(
                cs@.skip(i as int),
                sep,
                cur@,
            ),
        decreases n - i,
    {
        let c = cs[i];
        proof {
            assert(cs@.skip(i as int).first() == cs@[i as int]);
            assert(cs@.skip(i as int).drop_first() =~= cs@.skip(i + 1));
        }
        if c == sep {
            let ghost pd = parts.deep_view();
            let ghost cv = cur@;
            parts.push(cur);
            cur = Vec::new();
            proof {
                assert(parts@.last()@ == cv);
                assert(parts@.last().deep_view() =~= parts@.last()@);
                assert(parts.deep_view() =~= pd.push(cv));
                assert(pd + (seq![cv] + spec_split(cs@.skip(i + 1), sep, Seq::<char>::empty()))
                    =~= pd.push(cv) + spec_split(cs@.skip(i + 1), sep, Seq::<char>::empty()));
            }
        } else {
            cur.push(c);
        }
        i += 1;
    }
    proof {
        assert(cs@.skip(n as int) =~= Seq::<char>::empty());
    }
    let ghost pd = parts.deep_view();
    let ghost cv = cur@;
    parts.push(cur);
    proof {
        assert(parts@.last()@ == cv);
        assert(parts@.last().deep_view() =~= parts@.last()@);
        assert(parts.deep_view() =~= pd.push(cv));
        assert(pd + spec_split(Seq::<char>::empty(), sep, cv) =~= pd.push(cv));
    }
    parts
}

/// A decimal digit.
pub open spec fn is_dec_digit(c: char) -> bool {
    48 <= c as u32 <= 57
}

/// Every character is a decimal digit.
pub open spec fn all_digits(s: Seq<char>) -> bool {
    forall|i: int| 0 <= i < s.len() ==> is_dec_digit(#[trigger] s[i])
}

/// The value of a run of decimal digits.
pub open spec fn digits_val(s: Seq<char>) -> nat
    decreases s.len(),
{
    if s.len() == 0 {
        0
    } else {
        digits_val(s.drop_last()) * 10 + (s.last() as u32 - 48) as nat
    }
}

/// The byte a run of decimal digits denotes, when it is one.
pub open spec fn spec_parse_u8(s: Seq<char>) -> Option<u8> {
    if s.len() == 0 || !all_digits(s) {
        None
    } else if digits_val(s) > 255 {
        None
    } else {
        Some(digits_val(s) as u8)
    }
}

/// Parse a byte from decimal digits.
pub fn parse_u8_chars(cs: &Vec<char>) -> (r: Option<u8>)
    ensures
        r == spec_parse_u8(cs@),
{
    let n = cs.len();
    if n == 0 {
        return None;
    }
    let mut acc: u32 = 0;
    let mut over: bool = false;
    let mut i: usize = 0;
    while i < n
        invariant
            n == cs@.len(),
            i <= n,
            forall|t: int| 0 <= t < i ==> is_dec_digit(#[trigger] cs@[t]),
            !over ==> acc == digits_val(cs@.take(i as int)) && acc <= 255,
            over ==> digits_val(cs@.take(i as int)) > 255,
        decreases n - i,
    {
        let u = cs[i] as u32;
        if !(48 <= u && u <= 57) {
            proof {
                assert(!is_dec_digit(cs@[i as int]));
            }
            return None;
        }
        proof {
            assert(cs@.take(i + 1).drop_last() =~= cs@.take(i as int));
            assert(cs@.take(i + 1).last() == cs@[i as int]);
        }
        if over {
        } else {
            let next = acc * 10 + (u - 48);
            if next > 255 {
                over = true;
            } else {
                acc = next;
            }
        }
        i += 1;
    }
    proof {
        assert(cs@.take(n as int) =~= cs@);
    }
    if over {
        None
    } else {
        Some(acc as u8)
    }
}

/// The signed 64-bit integer a decimal string denotes, when it is one: an
/// optional leading minus sign followed by digits.
pub open spec fn spec_parse_i64(s: Seq<char>) -> Option<i64> {
    if s.len() > 0 && s.first() == '-' {
        let ds = s.drop_first();
        if ds.len() == 0 || !all_digits(ds) {
            None
        } else if digits_val(ds) > 0x8000000000000000 {
            None
        } else {
            Some((0 - digits_val(ds)) as i64)
        }
    } else {
        if s.len() == 0 || !all_digits(s) {
            None
        } else if digits_val(s) > 0x7fffffffffffffff {
            None
        } else {
            Some(digits_val(s) as i64)
        }
    }
}

/// Accumulate the value of decimal digits, reporting whether it stays within
/// `bound`.
fn digits_to_u64(cs: &Vec<char>, from: usize, bound: u64) -> (r: Option<u64>)
    requires
        from <= cs@.len(),
        bound <= u64::MAX - 10,
    ensures
        ({
            let ds = cs@.skip(from as int);
            match r {
                Some(v) => ds.len() > 0 && all_digits(ds) && v == digits_val(ds) && v <= bound,
                None => ds.len() == 0 || !all_digits(ds) || digits_val(ds) > bound,
            }
        }),
{
    let n = cs.len();
    if from == n {
        return None;
    }
    let ghost ds = cs@.skip(from as int);
    let mut acc: u64 = 0;
    let mut over: bool = false;
    let mut i: usize = from;
    while i < n
        invariant
            n == cs@.len(),
            from <= i <= n,
            ds == cs@.skip(from as int),
            forall|t: int| 0 <= t < i - from ==> is_dec_digit(#[trigger] ds[t]),
            bound <= u64::MAX - 10,
            !over ==> acc == digits_val(ds.take(i - from)) && acc <= bound,
            over ==> digits_val(ds.take(i - from)) > bound,
        decreases n - i,
    {
        let u = cs[i] as u32;
        proof {
            assert(ds[i - from] == cs@[i as int]);
        }
        if !(48 <= u && u <= 57) {
            proof {
                assert(!is_dec_digit(ds[i - from]));
            }
            return None;
        }
        proof {
            assert(ds.take(i - from + 1).drop_last() =~= ds.take(i - from));
            assert(ds.take(i - from + 1).last() == ds[i - from]);
        }
        if over {
            proof {
                assert(digits_val(ds.take(i - from + 1)) >= digits_val(ds.take(i - from)));
            }
        } else {
            if acc > (u64::MAX - 9) / 10 {
                over = true;
                proof {
                    assert(digits_val(ds.take(i - from + 1)) == acc * 10 + (u - 48));
                    assert((u64::MAX - 9) / 10 == 1844674407370955160);
                    assert(acc >= 1844674407370955161);
                    assert(acc * 10 >= 18446744073709551610);
                    assert(acc * 10 + (u - 48) > bound);
                }
            } else {
                let next = acc * 10 + ((u - 48) as u64);
                if next > bound {
                    over = true;
                } else {
                    acc = next;
                }
            }
        }
        i += 1;
    }
    proof {
        assert(ds.take(n - from) =~= ds);
    }
    if over {
        None
    } else {
        Some(acc)
    }
}

/// Parse a signed 64-bit integer from decimal text.
pub fn parse_i64_chars(cs: &Vec<char>) -> (r: Option<i64>)
    ensures
        r == spec_parse_i64(cs@),
{
    let n = cs.len();
    if n > 0 && cs[0] == '-' {
        proof {
            assert(cs@.skip(1) =~= cs@.drop_first());
        }
        match digits_to_u64(cs, 1, 0x8000000000000000u64) {
            Some(v) => {
                if v == 0x8000000000000000u64 {
                    Some(i64::MIN)
                } else {
                    Some(0i64 - (v as i64))
                }
            }
            None => None,
        }
    } else {
        proof {
            assert(cs@.skip(0) =~= cs@);
        }
        match digits_to_u64(cs, 0, 0x7fffffffffffffffu64) {
            Some(v) => Some(v as i64),
            None => None,
        }
    }
}

/// A hexadecimal digit.
pub open spec fn is_hex_digit(c: char) -> bool {
    48 <= c as u32 <= 57 || 97 <= c as u32 <= 102 || 65 <= c as u32 <= 70
}

/// Every character is a hexadecimal digit.
pub open spec fn all_hex(s: Seq<char>) -> bool {
    forall|i: int| 0 <= i < s.len() ==> is_hex_digit(#[trigger] s[i])
}

/// Text read as a hex color: it starts with `#`, or is six bare hex digits.
pub open spec fn hexish(s: Seq<char>) -> bool {
    (s.len() > 0 && s.first() == '#') || (s.len() == 6 && all_hex(s))
}

/// `s` with every leading `#` removed.
pub open spec fn strip_hash(s: Seq<char>) -> Seq<char>
    decreases s.len(),
{
    if s.len() > 0 && s.first() == '#' {
        strip_hash(s.drop_first())
    } else {
        s
    }
}

/// The value of one hexadecimal digit (meaningful only on hex digits).
pub open spec fn hex_val(c: char) -> nat {
    if 48 <= c as u32 <= 57 {
        (c as u32 - 48) as nat
    } else if 97 <= c as u32 <= 102 {
        (c as u32 - 87) as nat
    } else if 65 <= c as u32 <= 70 {
        (c as u32 - 55) as nat
    } else {
        0
    }
}

/// The RGB triple a `#RRGGBB` (or bare `RRGGBB`) text denotes, when it is
/// one.
pub open spec fn spec_hex_rgb(s: Seq<char>) -> Option<(u8, u8, u8)> {
    let h = strip_hash(s);
    if h.len() == 6 && all_hex(h) {
        Some(
            (
                (hex_val(h[0]) * 16 + hex_val(h[1])) as u8,
                (hex_val(h[2]) * 16 + hex_val(h[3])) as u8,
                (hex_val(h[4]) * 16 + hex_val(h[5])) as u8,
            ),
        )
    } else {
        None
    }
}

/// The value of one hexadecimal digit character.
fn hex_digit_val(c: char) -> (r: Option<u8>)
    ensures
        match r {
            Some(v) => is_hex_digit(c) && v == hex_val(c) && v < 16,
            None => !is_hex_digit(c),
        },
{
    let u = c as u32;
    if 48 <= u && u <= 57 {
        Some((u - 48) as u8)
    } else if 97 <= u && u <= 102 {
        Some((u - 87) as u8)
    } else if 65 <= u && u <= 70 {
        Some((u - 55) as u8)
    } else {
        None
    }
}

/// Read a hex color as an RGB triple: six hex digits, with any leading `#`
/// ignored.
pub fn hex_rgb(s: &str) -> (r: Option<(u8, u8, u8)>)
    ensures
        r == spec_hex_rgb(s@),
{
    let cs = chars_of(s);
    let n = cs.len();
    let mut lo: usize = 0;
    proof {
        assert(cs@.skip(0) =~= cs@);
    }
    while lo < n && cs[lo] == '#'
        invariant
            n == cs@.len(),
            lo <= n,
            cs@ == s@,
            strip_hash(s@) == strip_hash(cs@.skip(lo as int)),
        decreases n - lo,
    {
        proof {
            assert(cs@.skip(lo as int).first() == cs@[lo as int]);
            assert(cs@.skip(lo as int).drop_first() =~= cs@.skip(lo + 1));
        }
        lo += 1;
    }
    proof {
        if lo < n {
            assert(cs@.skip(lo as int).first() == cs@[lo as int]);
        }
        assert(strip_hash(s@) == cs@.skip(lo as int));
    }
    if n - lo != 6 {
        return None;
    }
    let ghost h = cs@.skip(lo as int);
    proof {
        assert(forall|k: int| 0 <= k < 6 ==> #[trigger] h[k] == cs@[lo + k]);
    }
    let d0 = hex_digit_val(cs[lo]);
    let d1 = hex_digit_val(cs[lo + 1]);
    let d2 = hex_digit_val(cs[lo + 2]);
    let d3 = hex_digit_val(cs[lo + 3]);
    let d4 = hex_digit_val(cs[lo + 4]);
    let d5 = hex_digit_val(cs[lo + 5]);
    match (d0, d1, d2, d3, d4, d5) {
        (Some(a), Some(b), Some(c), Some(d), Some(e), Some(f)) => {
            proof {
                assert(all_hex(h));
            }
            Some((a * 16 + b, c * 16 + d, e * 16 + f))
        }
        _ => {
            proof {
                assert(!all_hex(h));
            }
            None
        }
    }
}

/// Text read as an `r,g,b` triple: exactly three comma-separated fields,
/// each a byte after trimming.
pub open spec fn spec_rgb_of(s: Seq<char>) -> Option<(u8, u8, u8)> {
    let parts = spec_split(s, ',', Seq::<char>::empty());
    if parts.len() == 3 {
        match (
            spec_parse_u8(spec_trim(parts[0])),
            spec_parse_u8(spec_trim(parts[1])),
            spec_parse_u8(spec_trim(parts[2])),
        ) {
            (Some(a), Some(b), Some(c)) => Some((a, b, c)),
            _ => None,
        }
    } else {
        None
    }
}

/// The named color a case-folded word denotes, first match in the fixed
/// order winning.
pub open spec fn spec_named_color(lower: Seq<char>) -> Option<ColorName> {
    if lower == "black"@ {
        Some(ColorName::Black)
    } else if lower == "red"@ {
        Some(ColorName::Red)
    } else if lower == "green"@ {
        Some(ColorName::Green)
    } else if lower == "yellow"@ {
        Some(ColorName::Yellow)
    } else if lower == "blue"@ {
        Some(ColorName::Blue)
    } else if lower == "magenta"@ {
        Some(ColorName::Magenta)
    } else if lower == "cyan"@ {
        Some(ColorName::Cyan)
    } else if lower == "white"@ {
        Some(ColorName::White)
    } else if lower == "bright_black"@ {
        Some(ColorName::BrightBlack)
    } else if lower == "bright_red"@ {
        Some(ColorName::BrightRed)
    } else if lower == "bright_green"@ {
        Some(ColorName::Green)
    } else if lower == "bright_yellow"@ {
        Some(ColorName::BrightYellow)
    } else if lower == "bright_blue"@ {
        Some(ColorName::BrightBlue)
    } else if lower == "bright_magenta"@ {
        Some(ColorName::BrightMagenta)
    } else if lower == "bright_cyan"@ {
        Some(ColorName::BrightCyan)
    } else if lower == "bright_white"@ {
        Some(ColorName::BrightWhite)
    } else {
        None
    }
}

/// Parse a color given as a hex code, an `r,g,b` triple, or a color name.
pub fn parse_color(s: &str) -> (r: Option<Color>)
    ensures
        hexish(s@) ==> (match r {
            Some(c) => (match c {
                Color::Hex(h) => h@ == if s@.first() == '#' {
                    s@
                } else {
                    seq!['#'] + s@
                },
                _ => false,
            }),
            None => false,
        }),
        !hexish(s@) ==> (match spec_rgb_of(s@) {
            Some(rgb) => r == Some(Color::Rgb(rgb.0, rgb.1, rgb.2)),
            None => r == (match spec_named_color(lower_of(s@)) {
                Some(n) => Some(Color::Named(n)),
                None => None::<Color>,
            }),
        }),
{
    let cs = chars_of(s);
    if cs.len() > 0 && cs[0] == '#' {
        return Some(Color::Hex(s.to_owned()));
    }
    if cs.len() == 6 {
        let mut all: bool = true;
        let mut i: usize = 0;
        while i < 6
            invariant
                cs@.len() == 6,
                cs@ == s@,
                i <= 6,
                all <==> (forall|t: int| 0 <= t < i ==> is_hex_digit(#[trigger] cs@[t])),
            decreases 6 - i,
        {
            let u = cs[i] as u32;
            let hex = (48 <= u && u <= 57) || (97 <= u && u <= 102) || (65 <= u && u <= 70);
            all = all && hex;
            i += 1;
        }
        if all {
            let mut h = "#".to_owned();
            h.append(s);
            proof {
                reveal_strlit("#");
                assert(h@ =~= seq!['#'] + s@);
            }
            return Some(Color::Hex(h));
        }
    }
    proof {
        assert(!hexish(s@));
    }
    let parts = split_on(&cs, ',');
    if parts.len() == 3 {
        proof {
            assert(parts@[0]@ == parts.deep_view()[0]);
            assert(parts@[1]@ == parts.deep_view()[1]);
            assert(parts@[2]@ == parts.deep_view()[2]);
        }
        let t0 = trim_chars(&parts[0]);
        let t1 = trim_chars(&parts[1]);
        let t2 = trim_chars(&parts[2]);
        let p0 = parse_u8_chars(&t0);
        let p1 = parse_u8_chars(&t1);
        let p2 = parse_u8_chars(&t2);
        match (p0, p1, p2) {
            (Some(a), Some(b), Some(c)) => {
                return Some(Color::Rgb(a, b, c));
            }
            _ => {}
        }
    }
    let lower = to_lower(s);
    let l = lower.as_str();
    if str_eq_str(l, "black") {
        Some(Color::Named(ColorName::Black))
    } else if str_eq_str(l, "red") {
        Some(Color::Named(ColorName::Red))
    } else if str_eq_str(l, "green") {
        Some(Color::Named(ColorName::Green))
    } else if str_eq_str(l, "yellow") {
        Some(Color::Named(ColorName::Yellow))
    } else if str_eq_str(l, "blue") {
        Some(Color::Named(ColorName::Blue))
    } else if str_eq_str(l, "magenta") {
        Some(Color::Named(ColorName::Magenta))
    } else if str_eq_str(l, "cyan") {
        Some(Color::Named(ColorName::Cyan))
    } else if str_eq_str(l, "white") {
        Some(Color::Named(ColorName::White))
    } else if str_eq_str(l, "bright_black") {
        Some(Color::Named(ColorName::BrightBlack))
    } else if str_eq_str(l, "bright_red") {
        Some(Color::Named(ColorName::BrightRed))
    } else if str_eq_str(l, "bright_green") {
        Some(Color::Named(ColorName::Green))
    } else if str_eq_str(l, "bright_yellow") {
        Some(Color::Named(ColorName::BrightYellow))
    } else if str_eq_str(l, "bright_blue") {
        Some(Color::Named(ColorName::BrightBlue))
    } else if str_eq_str(l, "bright_magenta") {
        Some(Color::Named(ColorName::BrightMagenta))
    } else if str_eq_str(l, "bright_cyan") {
        Some(Color::Named(ColorName::BrightCyan))
    } else if str_eq_str(l, "bright_white") {
        Some(Color::Named(ColorName::BrightWhite))
    } else {
        None
    }
}

/// A typed configuration value, ready to be written back into a file.
#[derive(Debug, Clone)]
pub enum ConfigValue {
    Bool(bool),
    Int(i64),
    Str(String),
    StrList(Vec<String>),
}

/// A `section.field` pair stored as a boolean.
pub open spec fn is_bool_field(section: Seq<char>, field: Seq<char>) -> bool {
    ||| (section == "agent"@ && field == "verbose"@)
    ||| (section == "output"@ && (field == "colors"@ || field == "show_timestamps"@ || field
        == "show_pid"@))
}

/// A `section.field` pair stored as an integer.
pub open spec fn is_int_field(section: Seq<char>, field: Seq<char>) -> bool {
    ||| (section == "agent"@ && (field == "connection_timeout"@ || field == "retry_attempts"@))
    ||| (section == "performance"@ && (field == "buffer_size"@ || field == "flush_interval"@))
}

/// The output-format field.
pub open spec fn is_format_field(section: Seq<char>, field: Seq<char>) -> bool {
    section == "output"@ && field == "format"@
}

/// The minimum-level field.
pub open spec fn is_level_field(section: Seq<char>, field: Seq<char>) -> bool {
    section == "filters"@ && field == "min_level"@
}

/// A `section.field` pair stored as a list of strings.
pub open spec fn is_array_field(section: Seq<char>, field: Seq<char>) -> bool {
    ||| (section == "agent"@ && field == "default_command"@)
    ||| (section == "filters"@ && field == "ignore_patterns"@)
}

/// The string-array value a JSON text denotes, when it is one.
/// `serde_json` parses as a function of the input text alone.
pub uninterp spec fn json_str_array_of(s: Seq<char>) -> Option<Seq<Seq<char>>>;

/// Relies on `serde_json::from_str::<Vec<String>>`: parses a JSON array of
/// strings.
#[verifier::external_body]
fn parse_json_string_array(s: &str) -> (r: Option<Vec<String>>)
    ensures
        match r {
            Some(v) => json_str_array_of(s@) == Some(v.deep_view()),
            None => json_str_array_of(s@) is None,
        },
{
    match serde_json::from_str::<Vec<String>>(s) {
        Ok(v) => Some(v),
        Err(_) => None,
    }
}

/// The comma-separated fields of a value, each trimmed of blanks.
pub open spec fn spec_comma_list(s: Seq<char>) -> Seq<Seq<char>> {
    spec_split(s, ',', Seq::<char>::empty()).map_values(|p: Seq<char>| spec_trim(p))
}

/// Split a value on commas and trim each field.
fn comma_list(value: &str) -> (r: Vec<String>)
    ensures
        r.deep_view() == spec_comma_list(value@),
{
    let cs = chars_of(value);
    let parts = split_on(&cs, ',');
    let ghost ps = parts.deep_view();
    let n = parts.len();
    let mut out: Vec<String> = Vec::new();
    let mut i: usize = 0;
    while i < n
        invariant
            n == parts@.len(),
            ps == parts.deep_view(),
            ps.len() == n,
            i <= n,
            out.deep_view() == ps.map_values(|p: Seq<char>| spec_trim(p)).take(i as int),
        decreases n - i,
    {
        proof {
            assert(parts@[i as int]@ == ps[i as int]);
        }
        let trimmed = trim_chars(&parts[i]);
        let piece = string_from_chars(&trimmed);
        let ghost outs = out.deep_view();
        out.push(piece);
        proof {
            assert(out.deep_view() =~= outs.push(piece@));
            assert(out.deep_view() =~= ps.map_values(|p: Seq<char>| spec_trim(p)).take(i + 1));
        }
        i += 1;
    }
    proof {
        assert(ps.map_values(|p: Seq<char>| spec_trim(p)).take(n as int) =~= ps.map_values(
            |p: Seq<char>| spec_trim(p),
        ));
    }
    out
}

/// Parse the textual `value` of `section.field` into its typed form:
/// booleans, integers and the two keyword fields are checked, list fields
/// accept a JSON array or a comma-separated list, and anything else is kept
/// as a plain string.
pub fn parse_value_for_field(section: &str, field: &str, value: &str) -> (r: Result<
    ConfigValue,
    String,
>)
    ensures
        is_bool_field(section@, field@) ==> (match r {
            Ok(v) => v == ConfigValue::Bool(lower_of(value@) == "true"@),
            Err(_) => false,
        }),
        is_int_field(section@, field@) ==> (match spec_parse_i64(value@) {
            Some(n) => r == Ok::<ConfigValue, String>(ConfigValue::Int(n)),
            None => r is Err,
        }),
        is_format_field(section@, field@) ==> ({
            let lower = lower_of(value@);
            if lower == "colored"@ || lower == "plain"@ || lower == "json"@ {
                match r {
                    Ok(v) => (match v {
                        ConfigValue::Str(s) => s@ == lower,
                        _ => false,
                    }),
                    Err(_) => false,
                }
            } else {
                r is Err
            }
        }),
        is_level_field(section@, field@) ==> ({
            let lower = lower_of(value@);
            if lower == "debug"@ || lower == "info"@ || lower == "warn"@ || lower == "error"@ {
                match r {
                    Ok(v) => (match v {
                        ConfigValue::Str(s) => s@ == lower,
                        _ => false,
                    }),
                    Err(_) => false,
                }
            } else {
                r is Err
            }
        }),
        is_array_field(section@, field@) ==> (if value@.len() > 0 && value@.first() == '[' {
            match json_str_array_of(value@) {
                Some(xs) => (match r {
                    Ok(v) => (match v {
                        ConfigValue::StrList(items) => items.deep_view() == xs,
                        _ => false,
                    }),
                    Err(_) => false,
                }),
                None => r is Err,
            }
        } else {
            match r {
                Ok(v) => (match v {
                    ConfigValue::StrList(items) => items.deep_view() == spec_comma_list(value@),
                    _ => false,
                }),
                Err(_) => false,
            }
        }),
        !is_bool_field(section@, field@) && !is_int_field(section@, field@) && !is_format_field(
            section@,
            field@,
        ) && !is_level_field(section@, field@) && !is_array_field(section@, field@) ==> (match r {
            Ok(v) => (match v {
                ConfigValue::Str(s) => s@ == value@,
                _ => false,
            }),
            Err(_) => false,
        }),
{
    proof {
        reveal_strlit("agent");
        reveal_strlit("output");
        reveal_strlit("performance");
        reveal_strlit("filters");
        reveal_strlit("verbose");
        reveal_strlit("colors");
        reveal_strlit("show_timestamps");
        reveal_strlit("show_pid");
        reveal_strlit("connection_timeout");
        reveal_strlit("retry_attempts");
        reveal_strlit("buffer_size");
        reveal_strlit("flush_interval");
        reveal_strlit("format");
        reveal_strlit("min_level");
        reveal_strlit("default_command");
        reveal_strlit("ignore_patterns");
        assert("agent"@.len() == 5 && "output"@.len() == 6 && "performance"@.len() == 11
            && "filters"@.len() == 7);
        assert("verbose"@.len() == 7 && "colors"@.len() == 6 && "show_timestamps"@.len() == 15
            && "show_pid"@.len() == 8 && "connection_timeout"@.len() == 18
            && "retry_attempts"@.len() == 14 && "buffer_size"@.len() == 11
            && "flush_interval"@.len() == 14 && "format"@.len() == 6 && "min_level"@.len() == 9
            && "default_command"@.len() == 15 && "ignore_patterns"@.len() == 15);
        assert("colors"@ != "format"@) by {
            assert("colors"@[0] != "format"@[0]);
        }
        assert("retry_attempts"@ != "flush_interval"@) by {
            assert("retry_attempts"@[0] != "flush_interval"@[0]);
        }
    }
    let is_agent = str_eq_str(section, "agent");
    let is_output = str_eq_str(section, "output");
    let is_performance = str_eq_str(section, "performance");
    let is_filters = str_eq_str(section, "filters");
    if (is_agent && str_eq_str(field, "verbose")) || (is_output && (str_eq_str(field, "colors")
        || str_eq_str(field, "show_timestamps") || str_eq_str(field, "show_pid"))) {
        let lower = to_lower(value);
        let truthy = str_eq_str(lower.as_str(), "true");
        Ok(ConfigValue::Bool(truthy))
    } else if (is_agent && (str_eq_str(field, "connection_timeout") || str_eq_str(
        field,
        "retry_attempts",
    ))) || (is_performance && (str_eq_str(field, "buffer_size") || str_eq_str(
        field,
        "flush_interval",
    ))) {
        let cs = chars_of(value);
        match parse_i64_chars(&cs) {
            Some(n) => Ok(ConfigValue::Int(n)),
            None => {
                let mut msg = "'".to_owned();
                msg.append(value);
                msg.append("' is not a valid integer");
                Err(msg)
            }
        }
    } else if is_output && str_eq_str(field, "format") {
        let lower = to_lower(value);
        if str_eq_str(lower.as_str(), "colored") || str_eq_str(lower.as_str(), "plain")
            || str_eq_str(lower.as_str(), "json") {
            Ok(ConfigValue::Str(lower))
        } else {
            let mut msg = "Invalid format '".to_owned();
            msg.append(value);
            msg.append("'. Must be: colored, plain, json");
            Err(msg)
        }
    } else if is_filters && str_eq_str(field, "min_level") {
        let lower = to_lower(value);
        if str_eq_str(lower.as_str(), "debug") || str_eq_str(lower.as_str(), "info") || str_eq_str(
            lower.as_str(),
            "warn",
        ) || str_eq_str(lower.as_str(), "error") {
            Ok(ConfigValue::Str(lower))
        } else {
            let mut msg = "Invalid log level '".to_owned();
            msg.append(value);
            msg.append("'. Must be: debug, info, warn, error");
            Err(msg)
        }
    } else if (is_agent && str_eq_str(field, "default_command")) || (is_filters && str_eq_str(
        field,
        "ignore_patterns",
    )) {
        let cs = chars_of(value);
        if cs.len() > 0 && cs[0] == '[' {
            match parse_json_string_array(value) {
                Some(items) => Ok(ConfigValue::StrList(items)),
                None => {
                    let mut msg = "Invalid array format '".to_owned();
                    msg.append(value);
                    msg.append("'. Use a JSON array of strings");
                    Err(msg)
                }
            }
        } else {
            Ok(ConfigValue::StrList(comma_list(value)))
        }
    } else {
        Ok(ConfigValue::Str(value.to_owned()))
    }
}

/// Whether a gitignore text already names the configuration file: some line,
/// trimmed, is the file name or the file name under the repository root.
pub open spec fn spec_gitignore_mentions(content: Seq<char>, filename: Seq<char>) -> bool {
    exists|i: int|
        #![trigger spec_split(content, '\n', Seq::<char>::empty())[i]]
        {
            0 <= i < spec_split(content, '\n', Seq::<char>::empty()).len() && (spec_trim(
                spec_split(content, '\n', Seq::<char>::empty())[i],
            ) == filename || spec_trim(spec_split(content, '\n', Seq::<char>::empty())[i])
                == seq!['/'] + filename)
        }
}

/// Whether a gitignore text already names the configuration file.
pub fn gitignore_mentions(content: &str, config_filename: &str) -> (r: bool)
    ensures
        r == spec_gitignore_mentions(content@, config_filename@),
{
    let cs = chars_of(content);
    let lines = split_on(&cs, '\n');
    let ghost ls = lines.deep_view();
    let fname = chars_of(config_filename);
    let mut slashed: Vec<char> = Vec::new();
    slashed.push('/');
    let mut i: usize = 0;
    while i < fname.len()
        invariant
            i <= fname@.len(),
            fname@ == config_filename@,
            slashed@ == seq!['/'] + fname@.take(i as int),
        decreases fname@.len() - i,
    {
        slashed.push(fname[i]);
        proof {
            assert(slashed@ =~= seq!['/'] + fname@.take(i + 1));
        }
        i += 1;
    }
    proof {
        assert(fname@.take(fname@.len() as int) =~= fname@);
    }
    let n = lines.len();
    let mut k: usize = 0;
    while k < n
        invariant
            n == lines@.len(),
            ls == lines.deep_view(),
            ls.len() == n,
            fname@ == config_filename@,
            slashed@ == seq!['/'] + config_filename@,
            k <= n,
            ls == spec_split(content@, '\n', Seq::<char>::empty()),
            forall|t: int|
                0 <= t < k ==> !(spec_trim(#[trigger] ls[t]) == config_filename@ || spec_trim(
                    ls[t],
                ) == seq!['/'] + config_filename@),
        decreases n - k,
    {
        proof {
            assert(lines@[k as int]@ == ls[k as int]);
        }
        let trimmed = trim_chars(&lines[k]);
        if chars_eq(&trimmed, &fname) || chars_eq(&trimmed, &slashed) {
            return true;
        }
        k += 1;
    }
    false
}

/// A gitignore text with the configuration file appended: the text is
/// newline-terminated first, the agent's comment block is added once, and
/// the file name ends it.
pub open spec fn spec_appended_gitignore(content: Seq<char>, filename: Seq<char>) -> Seq<char> {
    let base = if content.len() > 0 && content.last() != '\n' {
        content.push('\n')
    } else {
        content
    };
    let noted = if !seq_contains(content, "# mcp-log-agent"@) {
        base + "\n# mcp-log-agent local configuration\n"@
    } else {
        base
    };
    noted + filename + seq!['\n']
}

/// The gitignore text with the configuration file appended.
pub fn appended_gitignore(content: &str, config_filename: &str) -> (r: String)
    ensures
        r@ == spec_appended_gitignore(content@, config_filename@),
{
    let cs = chars_of(content);
    let mut out = content.to_owned();
    if cs.len() > 0 && cs[cs.len() - 1] != '\n' {
        crate::text::string_push(&mut out, '\n');
    }
    if !str_contains(content, "# mcp-log-agent") {
        out.append("\n# mcp-log-agent local configuration\n");
    }
    out.append(config_filename);
    crate::text::string_push(&mut out, '\n');
    out
}

} // verus!
