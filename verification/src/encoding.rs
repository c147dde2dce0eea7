use vstd::prelude::*;

verus! {

/// The lowercase hexadecimal digit for `d` (0 to 15).
pub open spec fn hex_char(d: int) -> char {
    if d < 10 {
        (0x30 + d) as char
    } else {
        (0x61 + d - 10) as char
    }
}

/// The lowercase hexadecimal text of `bytes`: two digits per byte, the high
/// half first.
pub open spec fn lower_hex(bytes: Seq<u8>) -> Seq<char> {
    Seq::new(
        2 * bytes.len(),
        |i: int|
            if i % 2 == 0 {
                hex_char((bytes[i / 2] / 16) as int)
            } else {
                hex_char((bytes[i / 2] % 16) as int)
            },
    )
}

/// `0x` followed by the lowercase hexadecimal text of `bytes`.
pub open spec fn prefixed_hex(bytes: Seq<u8>) -> Seq<char> {
    "0x"@ + lower_hex(bytes)
}

/// `hex::encode`: the crate's documentation and source render each byte as
/// two lowercase hexadecimal digits, high half first, in order.
#[verifier::external_body]
fn hex_encode(data: &[u8]) -> (r: String)
    ensures
        r@ == lower_hex(data@),
{
    hex::encode(data)
}

/// `0x` followed by the lowercase hexadecimal text of `data`, as the node
/// expects binary fields.
pub fn to_prefixed_hex(data: &[u8]) -> (r: String)
    ensures
        r@ == prefixed_hex(data@),
{
    let mut text = String::from_str("0x");
    let digits = hex_encode(data);
    text.append(digits.as_str());
    text
}

/// What `{:?}` makes of a string: std's `Debug` rendering of a `str`. Its
/// documentation gives it as the text in double quotes with special
/// characters escaped; the escaping rules are not restated here.
pub uninterp spec fn debug_text(s: Seq<char>) -> Seq<char>;

/// `<str as Debug>::fmt`, reached through `format!("{:?}", ..)`; the result is
/// named by `debug_text` and nothing more is claimed of it.
#[verifier::external_body]
pub fn debug_quote(s: &str) -> (r: String)
    ensures
        r@ == debug_text(s@),
{
    format!("{:?}", s)
}

} // verus!
