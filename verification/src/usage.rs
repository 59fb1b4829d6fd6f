//! Filesystem-usage helpers: reading the unallocated-bytes figure out of a
//! usage report, deciding when it is low, and formatting sizes for humans.

use vstd::prelude::*;
use vstd::string::{StrSliceExecFns, StringExecFns};

verus! {

/// Unallocated space at or below this many bytes counts as low.
pub const LOW_UNALLOCATED_BYTES: u64 = 2 * 1024 * 1024 * 1024;

/// The character for one decimal digit.
pub open spec fn digit_char(d: nat) -> char {
    if d == 0 {
        '0'
    } else if d == 1 {
        '1'
    } else if d == 2 {
        '2'
    } else if d == 3 {
        '3'
    } else if d == 4 {
        '4'
    } else if d == 5 {
        '5'
    } else if d == 6 {
        '6'
    } else if d == 7 {
        '7'
    } else if d == 8 {
        '8'
    } else {
        '9'
    }
}

/// The decimal representation of a number, most significant digit first,
/// with no leading zeros (zero itself is "0").
pub open spec fn dec_rep(n: nat) -> Seq<char>
    decreases n,
{
    if n < 10 {
        seq![digit_char(n)]
    } else {
        dec_rep(n / 10).push(digit_char(n % 10))
    }
}

/// Every character is a decimal digit, and there is at least one.
pub open spec fn is_digit_seq(s: Seq<char>) -> bool {
    s.len() > 0 && forall|i: int| 0 <= i < s.len() ==> 48 <= #[trigger] s[i] as u32 <= 57
}

/// The number a digit string denotes.
pub open spec fn dec_value(s: Seq<char>) -> int
    decreases s.len(),
{
    if s.len() == 0 {
        0
    } else {
        dec_value(s.drop_last()) * 10 + (s.last() as u32 - 48)
    }
}

/// What parsing a digit string as a 64-bit number yields: its value when
/// the string is all digits and the value fits, nothing otherwise.
pub open spec fn parse_u64_spec(s: Seq<char>) -> Option<u64> {
    if is_digit_seq(s) && dec_value(s) <= u64::MAX {
        Some(dec_value(s) as u64)
    } else {
        None
    }
}

proof fn lemma_dec_value_nonneg(s: Seq<char>)
    requires
        forall|i: int| 0 <= i < s.len() ==> 48 <= #[trigger] s[i] as u32 <= 57,
    ensures
        dec_value(s) >= 0,
    decreases s.len(),
{
    if s.len() > 0 {
        lemma_dec_value_nonneg(s.drop_last());
    }
}

proof fn lemma_dec_value_prefix_le(s: Seq<char>, i: int)
    requires
        0 <= i <= s.len(),
        forall|j: int| 0 <= j < s.len() ==> 48 <= #[trigger] s[j] as u32 <= 57,
    ensures
        dec_value(s.take(i)) <= dec_value(s),
    decreases s.len() - i,
{
    if i < s.len() {
        assert(s.take(i + 1).drop_last() =~= s.take(i));
        assert(s.take(i + 1).last() == s[i]);
        lemma_dec_value_nonneg(s.take(i));
        lemma_dec_value_prefix_le(s, i + 1);
    } else {
        assert(s.take(i) =~= s);
    }
}

/// Parse a string of decimal digits.  Returns the value exactly when the
/// string is nonempty, all digits, and the value fits in 64 bits.
pub fn parse_u64_digits(s: &str) -> (r: Option<u64>)
    ensures
        r == parse_u64_spec(s@),
{
    let n = s.unicode_len();
    if n == 0 {
        return None;
    }
    let mut v: u64 = 0;
    let mut i: usize = 0;
    while i < n
        invariant
            n == s@.len(),
            0 < n,
            i <= n,
            forall|j: int| 0 <= j < i ==> 48 <= #[trigger] s@[j] as u32 <= 57,
            v as int == dec_value(s@.take(i as int)),
        decreases n - i,
    {
        let c = s.get_char(i);
        let cv = c as u32;
        if cv < 48 || cv > 57 {
            return None;
        }
        let d = (cv - 48) as u64;
        proof {
            assert(s@.take(i + 1).drop_last() =~= s@.take(i as int));
            assert(s@.take(i + 1).last() == s@[i as int]);
        }
        let scaled = match v.checked_mul(10) {
            Some(scaled) => scaled,
            None => {
                proof {
                    if is_digit_seq(s@) {
                        lemma_dec_value_nonneg(s@.take(i as int));
                        lemma_dec_value_prefix_le(s@, i + 1);
                    }
                }
                return None;
            },
        };
        v = match scaled.checked_add(d) {
            Some(w) => w,
            None => {
                proof {
                    if is_digit_seq(s@) {
                        lemma_dec_value_prefix_le(s@, i + 1);
                    }
                }
                return None;
            },
        };
        i += 1;
    }
    proof {
        assert(s@.take(n as int) =~= s@);
    }
    Some(v)
}

/// The scale a size is shown at: 0 for bytes up to 4 for tebibytes.
pub open spec fn unit_index(size: nat) -> nat {
    if size < 1024 {
        0
    } else if size < 1048576 {
        1
    } else if size < 1073741824 {
        2
    } else if size < 1099511627776 {
        3
    } else {
        4
    }
}

/// The divisor belonging to a scale.
pub open spec fn unit_divisor(i: nat) -> nat {
    if i == 0 {
        1
    } else if i == 1 {
        1024
    } else if i == 2 {
        1048576
    } else if i == 3 {
        1073741824
    } else {
        1099511627776
    }
}

/// The unit letter belonging to a scale, empty for plain bytes.
pub open spec fn unit_suffix(i: nat) -> Seq<char> {
    if i == 0 {
        Seq::empty()
    } else if i == 1 {
        seq!['K']
    } else if i == 2 {
        seq!['M']
    } else if i == 3 {
        seq!['G']
    } else {
        seq!['T']
    }
}

/// A size formatted for humans: the size scaled down to under 1024 of the
/// largest unit that fits (capped at tebibytes), then that unit and "B".
pub open spec fn format_size_spec(size: nat) -> Seq<char> {
    dec_rep(size / unit_divisor(unit_index(size))) + unit_suffix(unit_index(size)) + seq!['B']
}

fn digit_str(d: u64) -> (r: &'static str)
    requires
        d < 10,
    ensures
        r@ == seq![digit_char(d as nat)],
{
    proof {
        reveal_strlit("0");
        reveal_strlit("1");
        reveal_strlit("2");
        reveal_strlit("3");
        reveal_strlit("4");
        reveal_strlit("5");
        reveal_strlit("6");
        reveal_strlit("7");
        reveal_strlit("8");
        reveal_strlit("9");
    }
    match d {
        0 => "0",
        1 => "1",
        2 => "2",
        3 => "3",
        4 => "4",
        5 => "5",
        6 => "6",
        7 => "7",
        8 => "8",
        _ => "9",
    }
}

/// Append the decimal representation of a number.
pub fn push_dec(n: u64, out: &mut String)
    ensures
        final(out)@ == old(out)@ + dec_rep(n as nat),
    decreases n,
{
    if n >= 10 {
        push_dec(n / 10, out);
        out.append(digit_str(n % 10));
        proof {
            assert(final(out)@ =~= old(out)@ + dec_rep(n as nat));
        }
    } else {
        out.append(digit_str(n));
        proof {
            assert(final(out)@ =~= old(out)@ + dec_rep(n as nat));
        }
    }
}

/// Format a byte count for humans, scaling it to the largest unit (up to
/// tebibytes) that keeps the figure under 1024.
pub fn format_size(size: u64) -> (r: String)
    ensures
        r@ == format_size_spec(size as nat),
{
    proof {
        reveal_strlit("");
        reveal_strlit("K");
        reveal_strlit("M");
        reveal_strlit("G");
        reveal_strlit("T");
        reveal_strlit("B");
    }
    let value: u64;
    let unit: &'static str;
    if size < 1024 {
        value = size;
        unit = "";
    } else if size < 1048576 {
        value = size / 1024;
        unit = "K";
    } else if size < 1073741824 {
        value = size / 1048576;
        unit = "M";
    } else if size < 1099511627776 {
        value = size / 1073741824;
        unit = "G";
    } else {
        value = size / 1099511627776;
        unit = "T";
    }
    assert(unit@ == unit_suffix(unit_index(size as nat)));
    assert(value as nat == size as nat / unit_divisor(unit_index(size as nat)));
    let mut r = String::new();
    push_dec(value, &mut r);
    r.append(unit);
    r.append("B");
    proof {
        assert(r@ =~= format_size_spec(size as nat));
    }
    r
}

/// Whether an unallocated-bytes figure counts as low.
pub fn unallocated_is_low(unallocated: u64) -> (r: bool)
    ensures
        r == (unallocated <= LOW_UNALLOCATED_BYTES),
{
    unallocated <= LOW_UNALLOCATED_BYTES
}

/// The body of the warning shown when unallocated space runs low.
pub fn low_unallocated_message(unallocated: u64) -> (r: String)
    ensures
        r@ == "Btrfs device unallocated is low ("@ + format_size_spec(unallocated as nat)
            + ")"@,
{
    let mut r = String::from_str("Btrfs device unallocated is low (");
    let formatted = format_size(unallocated);
    r.append(formatted.as_str());
    r.append(")");
    proof {
        assert(r@ =~= "Btrfs device unallocated is low ("@ + format_size_spec(
            unallocated as nat,
        ) + ")"@);
    }
    r
}

/// The first capture group of the first `Device unallocated:\s+(\d+)` match
/// in a usage report, as a function of the text alone.
pub uninterp spec fn unallocated_capture(s: Seq<char>) -> Option<Seq<char>>;

/// Relies on regex::Regex::captures with the fixed pattern
/// `Device unallocated:\s+(\d+)`: the first match's first capture group,
/// which depends on the haystack text alone.
#[verifier::external_body]
fn capture_unallocated(text: &str) -> (r: Option<String>)
    ensures
        r is Some <==> unallocated_capture(text@) is Some,
        r matches Some(s) ==> Some(s@) == unallocated_capture(text@),
{
    let re = regex::Regex::new(r"Device unallocated:\s+(\d+)").ok()?;
    let caps = re.captures(text)?;
    Some(caps.get(1)?.as_str().to_string())
}

/// Read the unallocated-bytes figure out of a filesystem usage report:
/// the digits after "Device unallocated:", parsed, if they are there and
/// fit in 64 bits.
pub fn obtain_unallocated(usage_text: &str) -> (r: Option<u64>)
    ensures
        unallocated_capture(usage_text@) is None ==> r is None,
        unallocated_capture(usage_text@) matches Some(digits) ==> r == parse_u64_spec(digits),
{
    match capture_unallocated(usage_text) {
        None => None,
        Some(digits) => parse_u64_digits(digits.as_str()),
    }
}

} // verus!
