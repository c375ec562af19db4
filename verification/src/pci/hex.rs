//! Numbers as the files of the PCI sysfs tree write them: in hexadecimal.

use vstd::prelude::*;
use vstd::string::StrSliceExecFns;
use crate::error::Error;

verus! {

/// Whether `c` is white space.
pub open spec fn is_space(c: char) -> bool {
    let n = c as u32;
    ||| 0x09 <= n <= 0x0D
    ||| n == 0x20
    ||| n == 0x85
    ||| n == 0xA0
    ||| n == 0x1680
    ||| 0x2000 <= n <= 0x200A
    ||| n == 0x2028
    ||| n == 0x2029
    ||| n == 0x202F
    ||| n == 0x205F
    ||| n == 0x3000
}

/// The value of `c` as a hexadecimal digit, in upper or lower case.
pub open spec fn hex_digit(c: char) -> Option<int> {
    let n = c as u32;
    if 0x30 <= n <= 0x39 {
        Some(n - 0x30)
    } else if 0x61 <= n <= 0x66 {
        Some(n - 0x61 + 10)
    } else if 0x41 <= n <= 0x46 {
        Some(n - 0x41 + 10)
    } else {
        None
    }
}

/// The number that the hexadecimal digits `s` write, most significant
/// digit first; nothing if a character is no digit.
pub open spec fn hex_value(s: Seq<char>) -> Option<int>
    decreases s.len(),
{
    if s.len() == 0 {
        Some(0)
    } else {
        match (hex_value(s.drop_last()), hex_digit(s.last())) {
            (Some(v), Some(d)) => Some(16 * v + d),
            _ => None,
        }
    }
}

/// `s` without the white space at its start.
pub open spec fn trim_start(s: Seq<char>) -> Seq<char>
    decreases s.len(),
{
    if s.len() > 0 && is_space(s[0]) {
        trim_start(s.drop_first())
    } else {
        s
    }
}

/// `s` without the white space at its end.
pub open spec fn trim_end(s: Seq<char>) -> Seq<char>
    decreases s.len(),
{
    if s.len() > 0 && is_space(s.last()) {
        trim_end(s.drop_last())
    } else {
        s
    }
}

/// `s` without the prefixes `0x` at its start, however many there are.
pub open spec fn strip_0x(s: Seq<char>) -> Seq<char>
    decreases s.len(),
{
    if s.len() >= 2 && s[0] == '0' && s[1] == 'x' {
        strip_0x(s.subrange(2, s.len() as int))
    } else {
        s
    }
}

/// The number that `text` writes in hexadecimal: white space around it and
/// prefixes `0x` before it do not count, a plus sign may stand before the
/// digits, at least one digit must be there, and the number must fit 64
/// bits.
pub open spec fn parse_hex(text: Seq<char>) -> Option<u64> {
    let s = strip_0x(trim_end(trim_start(text)));
    let digits = if s.len() > 0 && s[0] == '+' {
        s.drop_first()
    } else {
        s
    };
    if digits.len() == 0 {
        None
    } else {
        match hex_value(digits) {
            Some(v) => if v <= u64::MAX {
                Some(v as u64)
            } else {
                None
            },
            None => None,
        }
    }
}

fn space(c: char) -> (yes: bool)
    ensures
        yes == is_space(c),
{
    let n = c as u32;
    (0x09 <= n && n <= 0x0D) || n == 0x20 || n == 0x85 || n == 0xA0 || n == 0x1680 || (0x2000 <= n
        && n <= 0x200A) || n == 0x2028 || n == 0x2029 || n == 0x202F || n == 0x205F || n == 0x3000
}

fn digit(c: char) -> (value: Option<u64>)
    ensures
        match value {
            Some(d) => hex_digit(c) == Some(d as int) && d < 16,
            None => hex_digit(c) is None,
        },
{
    let n = c as u32;
    if 0x30 <= n && n <= 0x39 {
        Some((n - 0x30) as u64)
    } else if 0x61 <= n && n <= 0x66 {
        Some((n - 0x61 + 10) as u64)
    } else if 0x41 <= n && n <= 0x46 {
        Some((n - 0x41 + 10) as u64)
    } else {
        None
    }
}

/// The value of digits grows with every digit that follows, and digits
/// after something that is no digit do not mend it.
proof fn lemma_hex_value_prefix(s: Seq<char>, k: int)
    requires
        0 <= k <= s.len(),
    ensures
        hex_value(s.subrange(0, k)) is None ==> hex_value(s) is None,
        hex_value(s) matches Some(v) ==> hex_value(s.subrange(0, k)) matches Some(p) && 0 <= p <= v,
    decreases s.len() - k,
{
    if k < s.len() {
        lemma_hex_value_prefix(s, k + 1);
        let longer = s.subrange(0, k + 1);
        assert(longer.drop_last() =~= s.subrange(0, k));
        lemma_hex_value_nonnegative(s.subrange(0, k));
    } else {
        assert(s.subrange(0, k) =~= s);
        lemma_hex_value_nonnegative(s);
    }
}

proof fn lemma_hex_value_nonnegative(s: Seq<char>)
    ensures
        hex_value(s) matches Some(v) ==> 0 <= v,
    decreases s.len(),
{
    if s.len() > 0 {
        lemma_hex_value_nonnegative(s.drop_last());
    }
}

/// The error of text that writes no hexadecimal number of 64 bits: a
/// configuration error that says so.
fn not_hex() -> (error: Error)
    ensures
        error matches Error::Vroom(m) && m@
            == "the text is not a hexadecimal number of 64 bits"@,
{
    Error::config("the text is not a hexadecimal number of 64 bits")
}

/// Reads the hexadecimal number that `text` writes, as the files of the PCI
/// sysfs tree hold them. Text that writes no such number is a configuration
/// error.
pub fn read_hex(text: &str) -> (value: Result<u64, Error>)
    ensures
        match value {
            Ok(v) => parse_hex(text@) == Some(v),
            Err(e) => parse_hex(text@) is None && e matches Error::Vroom(_),
        },
{
    let n = text.unicode_len();
    let mut start: usize = 0;
    assert(text@.subrange(0, n as int) =~= text@);
    while start < n && space(text.get_char(start))
        invariant
            start <= n == text@.len(),
            trim_start(text@) == trim_start(text@.subrange(start as int, n as int)),
        decreases n - start,
    {
        proof {
            let rest = text@.subrange(start as int, n as int);
            assert(rest[0] == text@[start as int]);
            assert(rest.drop_first() =~= text@.subrange(start + 1, n as int));
        }
        start = start + 1;
    }
    let ghost left = text@.subrange(start as int, n as int);
    assert(trim_start(text@) == left) by {
        if start < n {
            assert(left[0] == text@[start as int]);
        }
    }
    let mut end: usize = n;
    while end > start && space(text.get_char(end - 1))
        invariant
            start <= end <= n == text@.len(),
            left == text@.subrange(start as int, n as int),
            trim_end(left) == trim_end(text@.subrange(start as int, end as int)),
        decreases end,
    {
        proof {
            let rest = text@.subrange(start as int, end as int);
            assert(rest.last() == text@[end - 1]);
            assert(rest.drop_last() =~= text@.subrange(start as int, end - 1));
        }
        end = end - 1;
    }
    let ghost trimmed = text@.subrange(start as int, end as int);
    assert(trim_end(left) == trimmed) by {
        if end > start {
            assert(trimmed.last() == text@[end - 1]);
        }
    }
    while end - start >= 2 && text.get_char(start) == '0' && text.get_char(start + 1) == 'x'
        invariant
            start <= end <= n == text@.len(),
            strip_0x(trimmed) == strip_0x(text@.subrange(start as int, end as int)),
        decreases end - start,
    {
        proof {
            let rest = text@.subrange(start as int, end as int);
            assert(rest[0] == text@[start as int] && rest[1] == text@[start + 1]);
            assert(rest.subrange(2, rest.len() as int) =~= text@.subrange(start + 2, end as int));
        }
        start = start + 2;
    }
    let ghost stripped = text@.subrange(start as int, end as int);
    assert(strip_0x(trimmed) == stripped) by {
        if end - start >= 2 {
            assert(stripped[0] == text@[start as int] && stripped[1] == text@[start + 1]);
        }
    }
    if start < end && text.get_char(start) == '+' {
        assert(stripped[0] == text@[start as int]);
        assert(stripped.drop_first() =~= text@.subrange(start + 1, end as int));
        start = start + 1;
    } else if start < end {
        assert(stripped[0] == text@[start as int]);
    }
    let ghost digits = text@.subrange(start as int, end as int);
    if start == end {
        return Err(not_hex());
    }
    let mut value: u64 = 0;
    let mut i: usize = start;
    assert(parse_hex(text@) == match hex_value(digits) {
        Some(v) => if v <= u64::MAX {
            Some(v as u64)
        } else {
            None
        },
        None => None,
    });
    while i < end
        invariant
            start <= i <= end <= n == text@.len(),
            digits == text@.subrange(start as int, end as int),
            hex_value(digits.subrange(0, i - start)) == Some(value as int),
            parse_hex(text@) == match hex_value(digits) {
                Some(v) => if v <= u64::MAX {
                    Some(v as u64)
                } else {
                    None
                },
                None => None,
            },
        decreases end - i,
    {
        proof {
            let more = digits.subrange(0, i + 1 - start);
            assert(more.last() == text@[i as int]);
            assert(more.drop_last() =~= digits.subrange(0, i - start));
            lemma_hex_value_prefix(digits, i + 1 - start);
        }
        let d = match digit(text.get_char(i)) {
            Some(d) => d,
            None => {
                return Err(not_hex());
            },
        };
        if value > (u64::MAX - d) / 16 {
            return Err(not_hex());
        }
        value = 16 * value + d;
        i = i + 1;
    }
    assert(digits.subrange(0, i - start) =~= digits);
    Ok(value)
}

} // verus!
