//! Device identifiers: a namespace and a cleaned serial number, or a stable
//! stand-in derived from what else is known of the device.

use crate::registry::Kind;
use vstd::prelude::*;
use vstd::string::{StrSliceExecFns, StringExecFns};

verus! {

/// The namespace every identifier starts with.
pub const DEVICE_NAMESPACE: &'static str = "n4";

/// Longest serial number kept in an identifier.
pub const SERIAL_LIMIT: usize = 32;

pub open spec fn spec_alphanumeric(c: char) -> bool {
    ('0' <= c && c <= '9') || ('a' <= c && c <= 'z') || ('A' <= c && c <= 'Z')
}

/// Whether `c` is an ASCII letter or digit.
pub fn is_alphanumeric(c: char) -> (yes: bool)
    ensures
        yes == spec_alphanumeric(c),
{
    ('0' <= c && c <= '9') || ('a' <= c && c <= 'z') || ('A' <= c && c <= 'Z')
}

/// The ASCII letters and digits of `raw`, in order.
pub open spec fn spec_cleaned(raw: Seq<char>) -> Seq<char> {
    raw.filter(|c: char| spec_alphanumeric(c))
}

/// The last `max_len` letters and digits of `raw`; `None` where it has none.
pub open spec fn spec_sanitize(raw: Seq<char>, max_len: int) -> Option<Seq<char>> {
    let cleaned = spec_cleaned(raw);
    if cleaned.len() == 0 {
        None
    } else if cleaned.len() <= max_len {
        Some(cleaned)
    } else {
        Some(cleaned.subrange(cleaned.len() - max_len, cleaned.len() as int))
    }
}

/// Appends a character with `String::push`. Trusted: the string afterwards
/// is the string before with `c` at its end.
#[verifier::external_body]
fn push_char(s: &mut String, c: char)
    ensures
        final(s)@ == old(s)@.push(c),
{
    s.push(c);
}

fn cleaned_chars(raw: &str) -> (cleaned: Vec<char>)
    ensures
        cleaned@ == spec_cleaned(raw@),
{
    let n = raw.unicode_len();
    let mut cleaned: Vec<char> = Vec::new();
    let mut i: usize = 0;
    proof {
        reveal(Seq::filter);
        assert(raw@.take(0) =~= Seq::<char>::empty());
    }
    while i < n
        invariant
            n == raw@.len(),
            i <= n,
            cleaned@ == spec_cleaned(raw@.take(i as int)),
        decreases n - i,
    {
        let c = raw.get_char(i);
        proof {
            reveal(Seq::filter);
            assert(raw@.take(i + 1).drop_last() =~= raw@.take(i as int));
            assert(raw@.take(i + 1).last() == c);
        }
        if is_alphanumeric(c) {
            cleaned.push(c);
        }
        i += 1;
    }
    assert(raw@.take(n as int) =~= raw@);
    cleaned
}

/// Keeps the ASCII letters and digits of `raw`, and of those the last
/// `max_len`. Gives `None` where nothing is left.
pub fn sanitize_identifier(raw: &str, max_len: usize) -> (clean: Option<String>)
    ensures
        match clean {
            Some(s) => spec_sanitize(raw@, max_len as int) == Some(s@),
            None => spec_sanitize(raw@, max_len as int) is None,
        },
{
    let cleaned = cleaned_chars(raw);
    let len = cleaned.len();
    if len == 0 {
        return None;
    }
    let start: usize = if len <= max_len {
        0
    } else {
        len - max_len
    };
    let mut out = String::new();
    let mut j: usize = start;
    while j < len
        invariant
            len == cleaned@.len(),
            start <= j <= len,
            out@ == cleaned@.subrange(start as int, j as int),
        decreases len - j,
    {
        push_char(&mut out, cleaned[j]);
        assert(out@ =~= cleaned@.subrange(start as int, j + 1));
        j += 1;
    }
    assert(cleaned@.subrange(0, len as int) =~= cleaned@);
    Some(out)
}

pub open spec fn spec_normalised_serial(serial: Option<Seq<char>>) -> Option<Seq<char>> {
    match serial {
        Some(s) => spec_sanitize(s, SERIAL_LIMIT as int),
        None => None,
    }
}

/// The serial number as it goes into an identifier: its letters and digits,
/// at most the last 32. A missing serial, or one without letters or digits
/// (a blank one, say), gives `None`.
pub fn normalised_serial(serial: Option<&String>) -> (clean: Option<String>)
    ensures
        match clean {
            Some(s) => spec_normalised_serial(
                match serial {
                    Some(raw) => Some(raw@),
                    None => None,
                },
            ) == Some(s@),
            None => spec_normalised_serial(
                match serial {
                    Some(raw) => Some(raw@),
                    None => None,
                },
            ) is None,
        },
{
    match serial {
        Some(raw) => sanitize_identifier(raw.as_str(), SERIAL_LIMIT),
        None => None,
    }
}

pub open spec fn spec_hex_digit(d: int) -> char {
    if d == 0 {
        '0'
    } else if d == 1 {
        '1'
    } else if d == 2 {
        '2'
    } else if d == 3 {
        '3'
    } else if d == 4 {
        '4'
    } else if d == 5 {
        '5'
    } else if d == 6 {
        '6'
    } else if d == 7 {
        '7'
    } else if d == 8 {
        '8'
    } else if d == 9 {
        '9'
    } else if d == 10 {
        'A'
    } else if d == 11 {
        'B'
    } else if d == 12 {
        'C'
    } else if d == 13 {
        'D'
    } else if d == 14 {
        'E'
    } else {
        'F'
    }
}

fn hex_digit(d: u16) -> (c: char)
    requires
        d < 16,
    ensures
        c == spec_hex_digit(d as int),
{
    if d == 0 {
        '0'
    } else if d == 1 {
        '1'
    } else if d == 2 {
        '2'
    } else if d == 3 {
        '3'
    } else if d == 4 {
        '4'
    } else if d == 5 {
        '5'
    } else if d == 6 {
        '6'
    } else if d == 7 {
        '7'
    } else if d == 8 {
        '8'
    } else if d == 9 {
        '9'
    } else if d == 10 {
        'A'
    } else if d == 11 {
        'B'
    } else if d == 12 {
        'C'
    } else if d == 13 {
        'D'
    } else if d == 14 {
        'E'
    } else {
        'F'
    }
}

/// `value` as four upper-case hexadecimal digits.
pub open spec fn spec_hex4(value: u16) -> Seq<char> {
    seq![
        spec_hex_digit(value as int / 4096),
        spec_hex_digit(value as int / 256 % 16),
        spec_hex_digit(value as int / 16 % 16),
        spec_hex_digit(value as int % 16),
    ]
}

fn push_hex4(out: &mut String, value: u16)
    ensures
        final(out)@ == old(out)@ + spec_hex4(value),
{
    let ghost before = out@;
    push_char(out, hex_digit(value / 4096));
    push_char(out, hex_digit(value / 256 % 16));
    push_char(out, hex_digit(value / 16 % 16));
    push_char(out, hex_digit(value % 16));
    assert(out@ =~= before + spec_hex4(value));
}

/// What an optional fragment adds to an identifier.
pub open spec fn or_nothing(part: Option<Seq<char>>) -> Seq<char> {
    match part {
        Some(s) => s,
        None => Seq::empty(),
    }
}

/// The stand-in for a serial number: vendor and product id in hexadecimal,
/// then up to 8 characters of the kind's name and up to 16 of the id the
/// operating system gave the device.
pub open spec fn spec_fallback_serial(
    vendor_id: u16,
    product_id: u16,
    kind: Kind,
    internal_id: Seq<char>,
) -> Seq<char> {
    spec_hex4(vendor_id) + spec_hex4(product_id) + or_nothing(spec_sanitize(kind.spec_tag(), 8))
        + or_nothing(spec_sanitize(internal_id, 16))
}

/// Derives a stand-in for a serial number from what is always known of a
/// device. The same device gives the same stand-in every time.
pub fn fallback_serial(vendor_id: u16, product_id: u16, kind: &Kind, internal_id: &str) -> (suffix:
    String)
    ensures
        suffix@ == spec_fallback_serial(vendor_id, product_id, *kind, internal_id@),
{
    let mut suffix = String::new();
    push_hex4(&mut suffix, vendor_id);
    push_hex4(&mut suffix, product_id);
    assert(suffix@ =~= spec_hex4(vendor_id) + spec_hex4(product_id));
    let tag = kind.tag();
    match sanitize_identifier(tag.as_str(), 8) {
        Some(kind_tag) => {
            suffix.append(kind_tag.as_str());
        },
        None => {
            assert(suffix@ + Seq::<char>::empty() =~= suffix@);
        },
    }
    match sanitize_identifier(internal_id, 16) {
        Some(id_fragment) => {
            suffix.append(id_fragment.as_str());
        },
        None => {
            assert(suffix@ + Seq::<char>::empty() =~= suffix@);
        },
    }
    suffix
}

/// The identifier of a device: the namespace, a hyphen, and the cleaned
/// serial number, or the stand-in where there is none.
pub open spec fn spec_device_id(
    serial: Option<Seq<char>>,
    vendor_id: u16,
    product_id: u16,
    kind: Kind,
    internal_id: Seq<char>,
) -> Seq<char> {
    DEVICE_NAMESPACE@ + "-"@ + match spec_normalised_serial(serial) {
        Some(s) => s,
        None => spec_fallback_serial(vendor_id, product_id, kind, internal_id),
    }
}

/// The identifier under which a device is known to the host.
pub fn device_id_for(
    serial: Option<&String>,
    vendor_id: u16,
    product_id: u16,
    kind: &Kind,
    internal_id: &str,
) -> (id: String)
    ensures
        id@ == spec_device_id(
            match serial {
                Some(raw) => Some(raw@),
                None => None,
            },
            vendor_id,
            product_id,
            *kind,
            internal_id@,
        ),
{
    let suffix = match normalised_serial(serial) {
        Some(s) => s,
        None => fallback_serial(vendor_id, product_id, kind, internal_id),
    };
    let mut id = String::from_str(DEVICE_NAMESPACE);
    id.append("-");
    id.append(suffix.as_str());
    id
}

/// The identifier built on the stand-in alone, for a device whose serial
/// number is already taken by another.
pub open spec fn spec_fallback_id(
    vendor_id: u16,
    product_id: u16,
    kind: Kind,
    internal_id: Seq<char>,
) -> Seq<char> {
    DEVICE_NAMESPACE@ + "-"@ + spec_fallback_serial(vendor_id, product_id, kind, internal_id)
}

/// The identifier that does not rest on the serial number.
pub fn fallback_id_for(vendor_id: u16, product_id: u16, kind: &Kind, internal_id: &str) -> (id:
    String)
    ensures
        id@ == spec_fallback_id(vendor_id, product_id, *kind, internal_id@),
{
    let suffix = fallback_serial(vendor_id, product_id, kind, internal_id);
    let mut id = String::from_str(DEVICE_NAMESPACE);
    id.append("-");
    id.append(suffix.as_str());
    id
}

} // verus!
