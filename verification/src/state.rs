//! The stored review record and its slot encoding: one initialized byte
//! (`0` or `1`), then the payload fields of [`crate::codec`].

use crate::codec::append_payload;
use crate::codec::lemma_payload_round_trip;
use crate::codec::parse_payload;
use crate::codec::payload_fits;
use crate::codec::spec_encode_payload;
use crate::codec::spec_parse_payload;
use crate::error::ReviewError;
use vstd::prelude::*;
use vstd::slice::slice_subrange;

verus! {

/// The mathematical value of a stored record.
pub ghost struct RecordView {
    pub initialized: bool,
    pub title: Seq<char>,
    pub rating: u8,
    pub description: Seq<char>,
}

/// One stored movie review.  A freshly provisioned, never-written slot
/// decodes to the default record: uninitialized, empty texts, rating zero.
pub struct MovieAccountState {
    pub is_initialized: bool,
    pub title: String,
    pub rating: u8,
    pub description: String,
}

impl View for MovieAccountState {
    type V = RecordView;

    open spec fn view(&self) -> RecordView {
        RecordView {
            initialized: self.is_initialized,
            title: self.title@,
            rating: self.rating,
            description: self.description@,
        }
    }
}

/// A record can be encoded only while both its text fields fit their
/// 4-byte length prefixes.
pub open spec fn record_fits(r: RecordView) -> bool {
    payload_fits(r.title, r.description)
}

/// The slot bytes of a record: the initialized flag as one byte, then the
/// payload fields.
pub open spec fn spec_encode_record(r: RecordView) -> Seq<u8> {
    seq![if r.initialized { 1u8 } else { 0u8 }] + spec_encode_payload(
        r.title,
        r.rating,
        r.description,
    )
}

/// What a slot buffer parses to, if anything.  The leading byte must be `0`
/// or `1`; the rest must parse as a payload with no bytes left over.
pub open spec fn spec_parse_record(b: Seq<u8>) -> Option<RecordView> {
    if b.len() < 1 || (b[0] != 0 && b[0] != 1) {
        None
    } else {
        match spec_parse_payload(b.skip(1)) {
            Some(p) => Some(
                RecordView { initialized: b[0] == 1, title: p.0, rating: p.1, description: p.2 },
            ),
            None => None,
        }
    }
}

/// Encoding a record and parsing it back yields the record unchanged.
pub proof fn lemma_record_round_trip(r: RecordView)
    requires
        record_fits(r),
    ensures
        spec_parse_record(spec_encode_record(r)) == Some(r),
{
    let enc = spec_encode_record(r);
    lemma_payload_round_trip(r.title, r.rating, r.description);
    assert(enc.skip(1) =~= spec_encode_payload(r.title, r.rating, r.description));
}

impl MovieAccountState {
    /// The slot bytes of this record, or `EncodeError` when a text field is
    /// too long for its 4-byte length prefix.
    pub fn encode(&self) -> (r: Result<Vec<u8>, ReviewError>)
        ensures
            match r {
                Ok(v) => record_fits(self@) && v@ == spec_encode_record(self@),
                Err(e) => e == ReviewError::EncodeError && !record_fits(self@),
            },
    {
        let mut out: Vec<u8> = Vec::new();
        if self.is_initialized {
            out.push(1u8);
        } else {
            out.push(0u8);
        }
        match append_payload(&mut out, self.title.as_str(), self.rating, self.description.as_str(),
        ) {
            Ok(()) => {
                assert(out@ =~= spec_encode_record(self@));
                Ok(out)
            },
            Err(e) => Err(e),
        }
    }

    /// The record stored in a slot buffer, or `DecodeError` when the bytes
    /// violate the schema.
    pub fn decode(bytes: &[u8]) -> (r: Result<MovieAccountState, ReviewError>)
        ensures
            match r {
                Ok(s) => spec_parse_record(bytes@) == Some(s@),
                Err(e) => e == ReviewError::DecodeError && spec_parse_record(bytes@) is None,
            },
    {
        if bytes.len() < 1 {
            return Err(ReviewError::DecodeError);
        }
        let flag = *vstd::slice::slice_index_get(bytes, 0);
        if flag != 0 && flag != 1 {
            return Err(ReviewError::DecodeError);
        }
        let rest = slice_subrange(bytes, 1, bytes.len());
        assert(rest@ =~= bytes@.skip(1));
        match parse_payload(rest) {
            Ok((title, rating, description)) => Ok(
                MovieAccountState { is_initialized: flag == 1, title, rating, description },
            ),
            Err(_) => Err(ReviewError::DecodeError),
        }
    }
}

impl Default for MovieAccountState {
    /// The record a never-written slot stands for: uninitialized, empty
    /// texts, rating zero.
    fn default() -> (r: Self)
        ensures
            r@ == (RecordView {
                initialized: false,
                title: Seq::<char>::empty(),
                rating: 0u8,
                description: Seq::<char>::empty(),
            }),
    {
        MovieAccountState {
            is_initialized: false,
            title: String::new(),
            rating: 0,
            description: String::new(),
        }
    }
}

} // verus!
