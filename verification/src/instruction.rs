//! The instruction decoder: the first byte of the buffer is the command
//! discriminant, the rest is the command's payload under the schema of
//! [`crate::codec`].  Discriminant `0` is the only command, `AddMovieReview`.

use crate::codec::append_payload;
use crate::codec::lemma_payload_round_trip;
use crate::codec::parse_payload;
use crate::codec::payload_fits;
use crate::codec::spec_encode_payload;
use crate::codec::spec_parse_payload;
use crate::error::ReviewError;
use vstd::prelude::*;
use vstd::slice::slice_subrange;

verus! {

/// A decoded command.  Exactly one command exists today; the closed enum
/// keeps the dispatch an exhaustive match.
pub enum MovieInstruction {
    AddMovieReview { title: String, rating: u8, description: String },
}

impl View for MovieInstruction {
    type V = (Seq<char>, u8, Seq<char>);

    open spec fn view(&self) -> (Seq<char>, u8, Seq<char>) {
        match self {
            MovieInstruction::AddMovieReview { title, rating, description } => (
                title@,
                *rating,
                description@,
            ),
        }
    }
}

/// The wire bytes of an `AddMovieReview` command: discriminant `0`, then
/// the payload for `(title, rating, description)`.
pub open spec fn spec_encode_instruction(
    title: Seq<char>,
    rating: u8,
    description: Seq<char>,
) -> Seq<u8> {
    seq![0u8] + spec_encode_payload(title, rating, description)
}

/// Encoding a command and unpacking the buffer yields the original fields.
pub proof fn lemma_instruction_round_trip(title: Seq<char>, rating: u8, description: Seq<char>)
    requires
        payload_fits(title, description),
    ensures
        ({
            let enc = spec_encode_instruction(title, rating, description);
            enc.len() >= 1 && enc[0] == 0 && spec_parse_payload(enc.skip(1)) == Some(
                (title, rating, description),
            )
        }),
{
    let enc = spec_encode_instruction(title, rating, description);
    lemma_payload_round_trip(title, rating, description);
    assert(enc.skip(1) =~= spec_encode_payload(title, rating, description));
}

impl MovieInstruction {
    /// Decodes an instruction buffer.  An empty buffer and an undecodable
    /// payload are `MalformedInstruction`; a leading byte other than `0` is
    /// `UnknownInstruction`, whatever follows it.
    pub fn unpack(input: &[u8]) -> (r: Result<MovieInstruction, ReviewError>)
        ensures
            match r {
                Ok(inst) => input@.len() >= 1 && input@[0] == 0 && spec_parse_payload(
                    input@.skip(1),
                ) == Some(inst@),
                Err(ReviewError::MalformedInstruction) => input@.len() == 0 || (input@[0] == 0
                    && spec_parse_payload(input@.skip(1)) is None),
                Err(ReviewError::UnknownInstruction) => input@.len() >= 1 && input@[0] != 0,
                Err(_) => false,
            },
    {
        if input.len() < 1 {
            return Err(ReviewError::MalformedInstruction);
        }
        let variant = *vstd::slice::slice_index_get(input, 0);
        if variant != 0 {
            return Err(ReviewError::UnknownInstruction);
        }
        let rest = slice_subrange(input, 1, input.len());
        assert(rest@ =~= input@.skip(1));
        match parse_payload(rest) {
            Ok((title, rating, description)) => Ok(
                MovieInstruction::AddMovieReview { title, rating, description },
            ),
            Err(e) => Err(e),
        }
    }

    /// Encodes this command into the wire bytes that [`Self::unpack`]
    /// accepts, or `EncodeError` when a text field is too long for its
    /// 4-byte length prefix.
    pub fn pack(&self) -> (r: Result<Vec<u8>, ReviewError>)
        ensures
            match r {
                Ok(v) => payload_fits(self@.0, self@.2) && v@ == spec_encode_instruction(
                    self@.0,
                    self@.1,
                    self@.2,
                ),
                Err(e) => e == ReviewError::EncodeError && !payload_fits(self@.0, self@.2),
            },
    {
        let mut out: Vec<u8> = Vec::new();
        out.push(0u8);
        match self {
            MovieInstruction::AddMovieReview { title, rating, description } => {
                match append_payload(&mut out, title.as_str(), *rating, description.as_str()) {
                    Ok(()) => {
                        assert(out@ =~= spec_encode_instruction(self@.0, self@.1, self@.2));
                        Ok(out)
                    },
                    Err(e) => Err(e),
                }
            },
        }
    }
}

} // verus!
