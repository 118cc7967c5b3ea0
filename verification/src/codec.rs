//! The variable-length payload schema shared by the instruction buffer and
//! the stored record: each text field is preceded by its byte length as a
//! 4-byte little-endian unsigned integer, and the single fixed-width field
//! (the rating) occupies exactly one byte, in declared field order.

use crate::error::ReviewError;
use vstd::bytes::lemma_auto_spec_u32_to_from_le_bytes;
use vstd::bytes::spec_u32_from_le_bytes;
use vstd::bytes::spec_u32_to_le_bytes;
use vstd::bytes::u32_from_le_bytes;
use vstd::bytes::u32_to_le_bytes;
use vstd::prelude::*;
use vstd::slice::slice_subrange;
use vstd::slice::slice_to_vec;
use vstd::utf8::decode_utf8;
use vstd::utf8::encode_utf8;
use vstd::utf8::valid_utf8;

verus! {

/// A length-prefixed field: 4 little-endian bytes of byte length, then the
/// field's bytes.
pub open spec fn spec_encode_field(b: Seq<u8>) -> Seq<u8> {
    spec_u32_to_le_bytes(b.len() as u32) + b
}

/// A text field can be encoded only while its byte length fits the 4-byte
/// length prefix.
pub open spec fn field_fits(b: Seq<u8>) -> bool {
    b.len() <= u32::MAX
}

/// Both text fields of a payload fit their length prefixes.
pub open spec fn payload_fits(title: Seq<char>, description: Seq<char>) -> bool {
    field_fits(encode_utf8(title)) && field_fits(encode_utf8(description))
}

/// The payload bytes for `(title, rating, description)`: title as a
/// length-prefixed field, one rating byte, description as a length-prefixed
/// field.
pub open spec fn spec_encode_payload(title: Seq<char>, rating: u8, description: Seq<char>) -> Seq<
    u8,
> {
    spec_encode_field(encode_utf8(title)) + seq![rating] + spec_encode_field(
        encode_utf8(description),
    )
}

/// What a payload buffer parses to, if anything.  Parsing fails on a
/// truncated buffer, on trailing bytes, and on a text field that is not
/// valid UTF-8.
pub open spec fn spec_parse_payload(b: Seq<u8>) -> Option<(Seq<char>, u8, Seq<char>)> {
    if b.len() < 4 {
        None
    } else {
        let tl = spec_u32_from_le_bytes(b.subrange(0, 4)) as int;
        if b.len() < tl + 9 {
            None
        } else {
            let title_bytes = b.subrange(4, 4 + tl);
            let rating = b[4 + tl];
            let dl = spec_u32_from_le_bytes(b.subrange(5 + tl, 9 + tl)) as int;
            if b.len() != tl + 9 + dl {
                None
            } else {
                let desc_bytes = b.subrange(tl + 9, tl + 9 + dl);
                if valid_utf8(title_bytes) && valid_utf8(desc_bytes) {
                    Some((decode_utf8(title_bytes), rating, decode_utf8(desc_bytes)))
                } else {
                    None
                }
            }
        }
    }
}

/// Encoding a payload and parsing it back yields the original fields.
pub proof fn lemma_payload_round_trip(title: Seq<char>, rating: u8, description: Seq<char>)
    requires
        payload_fits(title, description),
    ensures
        spec_parse_payload(spec_encode_payload(title, rating, description)) == Some(
            (title, rating, description),
        ),
{
    broadcast use vstd::utf8::group_utf8_lib;

    lemma_auto_spec_u32_to_from_le_bytes();
    let tb = encode_utf8(title);
    let db = encode_utf8(description);
    let tl = tb.len() as int;
    let dl = db.len() as int;
    let enc = spec_encode_payload(title, rating, description);
    assert(enc.len() == tl + 9 + dl);
    assert(enc.subrange(0, 4) =~= spec_u32_to_le_bytes(tb.len() as u32));
    assert(spec_u32_from_le_bytes(enc.subrange(0, 4)) as int == tl);
    assert(enc.subrange(4, 4 + tl) =~= tb);
    assert(enc[4 + tl] == rating);
    assert(enc.subrange(5 + tl, 9 + tl) =~= spec_u32_to_le_bytes(db.len() as u32));
    assert(spec_u32_from_le_bytes(enc.subrange(5 + tl, 9 + tl)) as int == dl);
    assert(enc.subrange(tl + 9, tl + 9 + dl) =~= db);
}

/// A parsed payload's texts re-encode to the very bytes they were parsed
/// from, so they fit their length prefixes, and the whole payload is one
/// byte shorter than the record that stores it.
pub proof fn lemma_parse_payload_fits(b: Seq<u8>)
    requires
        spec_parse_payload(b) is Some,
    ensures
        ({
            let p = spec_parse_payload(b)->Some_0;
            payload_fits(p.0, p.2) && encode_utf8(p.0).len() + encode_utf8(p.2).len() + 9
                == b.len()
        }),
{
    broadcast use vstd::utf8::group_utf8_lib;

    let tl = spec_u32_from_le_bytes(b.subrange(0, 4)) as int;
    let title_bytes = b.subrange(4, 4 + tl);
    let dl = spec_u32_from_le_bytes(b.subrange(5 + tl, 9 + tl)) as int;
    let desc_bytes = b.subrange(tl + 9, tl + 9 + dl);
    assert(encode_utf8(decode_utf8(title_bytes)) == title_bytes);
    assert(encode_utf8(decode_utf8(desc_bytes)) == desc_bytes);
}

/// Relies on `String::from_utf8`: it succeeds exactly on valid UTF-8 input
/// and returns the string whose bytes are that input.
#[verifier::external_body]
fn bytes_to_string(bytes: Vec<u8>) -> (r: Option<String>)
    ensures
        match r {
            Some(s) => valid_utf8(bytes@) && s@ == decode_utf8(bytes@),
            None => !valid_utf8(bytes@),
        },
{
    String::from_utf8(bytes).ok()
}

/// Appends one length-prefixed text field to `out`, or reports that the
/// field is too long for its 4-byte length prefix.
fn append_field(out: &mut Vec<u8>, field: &str) -> (r: Result<(), ReviewError>)
    ensures
        match r {
            Ok(()) => field_fits(encode_utf8(field@)) && final(out)@ == old(out)@
                + spec_encode_field(encode_utf8(field@)),
            Err(e) => e == ReviewError::EncodeError && !field_fits(encode_utf8(field@))
                && final(out)@ == old(out)@,
        },
{
    let bytes = field.as_bytes();
    if bytes.len() > u32::MAX as usize {
        return Err(ReviewError::EncodeError);
    }
    let mut prefix = u32_to_le_bytes(bytes.len() as u32);
    out.append(&mut prefix);
    out.extend_from_slice(bytes);
    assert(out@ =~= old(out)@ + spec_encode_field(encode_utf8(field@)));
    Ok(())
}

/// Appends the payload bytes for `(title, rating, description)` to `out`,
/// or reports that a text field is too long for its length prefix.
pub fn append_payload(out: &mut Vec<u8>, title: &str, rating: u8, description: &str) -> (r: Result<
    (),
    ReviewError,
>)
    ensures
        match r {
            Ok(()) => payload_fits(title@, description@) && final(out)@ == old(out)@
                + spec_encode_payload(title@, rating, description@),
            Err(e) => e == ReviewError::EncodeError && !payload_fits(title@, description@)
                && final(out)@ == old(out)@,
        },
{
    let mut staged: Vec<u8> = Vec::new();
    if let Err(e) = append_field(&mut staged, title) {
        return Err(e);
    }
    staged.push(rating);
    if let Err(e) = append_field(&mut staged, description) {
        return Err(e);
    }
    let ghost start = out@;
    out.append(&mut staged);
    assert(out@ =~= start + spec_encode_payload(title@, rating, description@));
    Ok(())
}

/// Parses a payload buffer into its `(title, rating, description)` fields,
/// exactly as [`spec_parse_payload`] reads it.
pub fn parse_payload(input: &[u8]) -> (r: Result<(String, u8, String), ReviewError>)
    ensures
        match r {
            Ok(p) => spec_parse_payload(input@) == Some((p.0@, p.1, p.2@)),
            Err(e) => e == ReviewError::MalformedInstruction && spec_parse_payload(input@) is None,
        },
{
    if input.len() < 4 {
        return Err(ReviewError::MalformedInstruction);
    }
    let tl = u32_from_le_bytes(slice_subrange(input, 0, 4)) as usize;
    if input.len() - 4 < 5 || input.len() - 4 - 5 < tl {
        return Err(ReviewError::MalformedInstruction);
    }
    let title_bytes = slice_to_vec(slice_subrange(input, 4, 4 + tl));
    let rating = *vstd::slice::slice_index_get(input, 4 + tl);
    let dl = u32_from_le_bytes(slice_subrange(input, 5 + tl, 9 + tl)) as usize;
    if dl != input.len() - 9 - tl {
        return Err(ReviewError::MalformedInstruction);
    }
    let desc_bytes = slice_to_vec(slice_subrange(input, 9 + tl, 9 + tl + dl));
    let title = match bytes_to_string(title_bytes) {
        Some(t) => t,
        None => {
            return Err(ReviewError::MalformedInstruction);
        },
    };
    let description = match bytes_to_string(desc_bytes) {
        Some(d) => d,
        None => {
            return Err(ReviewError::MalformedInstruction);
        },
    };
    Ok((title, rating, description))
}

} // verus!
