use vstd::prelude::*;

verus! {

/// Size of one message on the channel, in bytes: each field arrives in one message
/// of at most this many bytes.
pub const MESSAGE_BYTES: u32 = 512;

/// The same ceiling counted in UTF-16 code units, the size of the receive buffer.
pub const FIELD_UNITS: usize = 256;

/// The UTF-16 code units carried by `bytes` in little-endian order. A trailing odd
/// byte belongs to no unit and is dropped.
pub open spec fn le_units(bytes: Seq<u8>) -> Seq<u16> {
    Seq::new(
        bytes.len() / 2,
        |i: int| (bytes[2 * i] as int + 256 * bytes[2 * i + 1] as int) as u16,
    )
}

/// The text that `String::from_utf16_lossy` makes of the given code units.
pub uninterp spec fn utf16_lossy(units: Seq<u16>) -> Seq<char>;

/// `s` without the NUL characters that pad its end.
pub open spec fn trim_padding_spec(s: Seq<char>) -> Seq<char>
    decreases s.len(),
{
    if s.len() > 0 && s.last() == '\0' {
        trim_padding_spec(s.drop_last())
    } else {
        s
    }
}

/// The text stored for a field received as `bytes`: the bytes read as little-endian
/// UTF-16 (lossily), with the trailing padding removed.
pub open spec fn field_text(bytes: Seq<u8>) -> Seq<char> {
    trim_padding_spec(utf16_lossy(le_units(bytes)))
}

/// Pairs the received bytes into little-endian UTF-16 code units.
pub fn units_from_bytes(bytes: &Vec<u8>) -> (units: Vec<u16>)
    ensures
        units@ == le_units(bytes@),
{
    let len: usize = bytes.len();
    let n: usize = len / 2;
    let mut units: Vec<u16> = Vec::with_capacity(n);
    let mut i: usize = 0;
    while i < n
        invariant
            len == bytes@.len(),
            n == len / 2,
            i <= n,
            units@ == le_units(bytes@).subrange(0, i as int),
        decreases n - i,
    {
        assert(2 * i + 1 < bytes@.len());
        let lo = bytes[2 * i] as u16;
        let hi = bytes[2 * i + 1] as u16;
        let unit: u16 = lo + 256 * hi;
        units.push(unit);
        i = i + 1;
    }
    assert(units@ =~= le_units(bytes@));
    units
}

/// Relies on `String::from_utf16_lossy`: its text depends on the code units alone.
#[verifier::external_body]
fn decode_utf16_lossy(units: &Vec<u16>) -> (text: String)
    ensures
        text@ == utf16_lossy(units@),
{
    String::from_utf16_lossy(units.as_slice())
}

/// Removes the NUL characters that pad the end of `text`; all else is kept.
pub fn trim_padding(text: &str) -> (r: String)
    ensures
        r@ == trim_padding_spec(text@),
{
    let mut end: usize = text.unicode_len();
    assert(text@.subrange(0, end as int) =~= text@);
    while end > 0 && text.get_char(end - 1) == '\0'
        invariant
            end <= text@.len(),
            trim_padding_spec(text@.subrange(0, end as int)) == trim_padding_spec(text@),
        decreases end,
    {
        assert(text@.subrange(0, end as int).drop_last() =~= text@.subrange(0, end - 1));
        end = end - 1;
    }
    String::from_str(text.substring_char(0, end))
}

/// The text to store for a field received as `bytes`.
pub fn decode_field(bytes: &Vec<u8>) -> (text: String)
    ensures
        text@ == field_text(bytes@),
{
    let units = units_from_bytes(bytes);
    let decoded = decode_utf16_lossy(&units);
    trim_padding(decoded.as_str())
}

} // verus!
