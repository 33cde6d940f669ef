use vstd::prelude::*;

verus! {

/// The sixteen lowercase hexadecimal digits, in value order.
pub const HEX_DIGITS: [char; 16] = [
    '0',
    '1',
    '2',
    '3',
    '4',
    '5',
    '6',
    '7',
    '8',
    '9',
    'a',
    'b',
    'c',
    'd',
    'e',
    'f',
];

/// The lowercase hexadecimal rendering of a byte sequence: two digits per
/// byte, high nibble first.
pub open spec fn spec_hex_chars(data: Seq<u8>) -> Seq<char>
    decreases data.len(),
{
    if data.len() == 0 {
        seq![]
    } else {
        seq![
            HEX_DIGITS@[(data.first() >> 4) as int],
            HEX_DIGITS@[(data.first() & 0x0f) as int],
        ] + spec_hex_chars(data.drop_first())
    }
}

/// A hex rendering is twice as long as its input.
pub proof fn lemma_spec_hex_chars_len(data: Seq<u8>)
    ensures
        spec_hex_chars(data).len() == 2 * data.len(),
    decreases data.len(),
{
    if data.len() > 0 {
        lemma_spec_hex_chars_len(data.drop_first());
    }
}

/// Relies on hex::encode: the lowercase hexadecimal rendering of the input,
/// two digits per byte, high nibble first.
#[verifier::external_body]
pub fn hex_encode(data: &Vec<u8>) -> (r: String)
    ensures
        r@ == spec_hex_chars(data@),
{
    hex::encode(data.as_slice())
}

/// Copies the UTF-8 bytes of a string into a fresh vector.
pub fn string_bytes(s: &String) -> (r: Vec<u8>)
    ensures
        r@ == vstd::utf8::encode_utf8(s@),
{
    vstd::slice::slice_to_vec(s.as_str().as_bytes())
}

} // verus!
