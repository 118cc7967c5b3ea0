//! The dispatcher and the two decision stages the host cannot do for
//! itself: planning a review (account check, address derivation, slot
//! sizing) and rewriting a slot's record in place.  The host performs the
//! storage creation between the two stages and owns rent and funding.

use crate::codec::payload_fits;
use crate::codec::spec_parse_payload;
use crate::error::ReviewError;
use crate::instruction::MovieInstruction;
use crate::pda::derive_review_address;
use crate::pda::pda_of;
use crate::state::lemma_record_round_trip;
use crate::state::spec_encode_record;
use crate::state::spec_parse_record;
use crate::state::MovieAccountState;
use crate::state::RecordView;
use vstd::bytes::lemma_auto_spec_u32_to_from_le_bytes;
use vstd::prelude::*;
use vstd::utf8::encode_utf8;

verus! {

/// How many addressed accounts an `AddMovieReview` invocation needs: the
/// initializing identity, the target storage slot, and the system-level
/// account-creation service, in that order.
pub const REQUIRED_ACCOUNTS: usize = 3;

/// The slot size a record with these texts needs: one initialized byte,
/// one rating byte, and two length-prefixed text fields.
pub open spec fn spec_account_len(title: Seq<char>, description: Seq<char>) -> int {
    10 + encode_utf8(title).len() as int + encode_utf8(description).len() as int
}

/// The encoding of a record is exactly as long as [`spec_account_len`] of
/// its texts says.
pub proof fn lemma_record_len(r: RecordView)
    ensures
        spec_encode_record(r).len() == spec_account_len(r.title, r.description),
{
    lemma_auto_spec_u32_to_from_le_bytes();
}

/// Everything the host needs to provision the storage slot of a review and
/// the record that must then be written into it.
pub struct ReviewPlan {
    /// The derived 32-byte address of the storage slot.
    pub address: [u8; 32],
    /// The bump byte that produced the address.
    pub bump: u8,
    /// The slot size to allocate, in bytes.
    pub space: usize,
    /// The record the slot must hold afterwards: initialized, with the
    /// command's title, rating and description.
    pub record: MovieAccountState,
}

/// Plans an `AddMovieReview` command: checks that enough accounts were
/// supplied, derives the slot address from `(caller, title)`, and sizes the
/// slot for the record to store.
pub fn add_movie_review(
    program_id: &[u8; 32],
    caller: &[u8; 32],
    account_count: usize,
    title: String,
    rating: u8,
    description: String,
) -> (r: Result<ReviewPlan, ReviewError>)
    ensures
        match r {
            Ok(plan) => {
                &&& account_count >= REQUIRED_ACCOUNTS
                &&& pda_of(caller@, encode_utf8(title@), program_id@) matches Some(derived)
                    && plan.address@ == derived.0 && plan.bump == derived.1
                &&& payload_fits(title@, description@)
                &&& spec_account_len(title@, description@) <= usize::MAX
                &&& plan.space == spec_account_len(title@, description@)
                &&& plan.record@ == (RecordView {
                    initialized: true,
                    title: title@,
                    rating,
                    description: description@,
                })
            },
            Err(ReviewError::MissingAccount) => account_count < REQUIRED_ACCOUNTS,
            Err(ReviewError::AddressDerivationExhausted) => account_count >= REQUIRED_ACCOUNTS
                && pda_of(caller@, encode_utf8(title@), program_id@) is None,
            Err(ReviewError::EncodeError) => account_count >= REQUIRED_ACCOUNTS && pda_of(
                caller@,
                encode_utf8(title@),
                program_id@,
            ) is Some && !(payload_fits(title@, description@) && spec_account_len(
                title@,
                description@,
            ) <= usize::MAX),
            Err(_) => false,
        },
{
    if account_count < REQUIRED_ACCOUNTS {
        return Err(ReviewError::MissingAccount);
    }
    let (address, bump) = match derive_review_address(caller, title.as_str(), program_id) {
        Ok(found) => found,
        Err(e) => {
            return Err(e);
        },
    };
    let title_len = title.as_str().as_bytes().len();
    let description_len = description.as_str().as_bytes().len();
    if title_len > u32::MAX as usize || description_len > u32::MAX as usize {
        return Err(ReviewError::EncodeError);
    }
    if title_len > usize::MAX - 10 || description_len > usize::MAX - 10 - title_len {
        return Err(ReviewError::EncodeError);
    }
    let space = 10 + title_len + description_len;
    let record = MovieAccountState { is_initialized: true, title, rating, description };
    Ok(ReviewPlan { address, bump, space, record })
}

/// The slot bytes after a successful in-place update: the new record's
/// encoding, then whatever the old slot held past it.
pub open spec fn spec_slot_after(
    slot: Seq<u8>,
    title: Seq<char>,
    rating: u8,
    description: Seq<char>,
) -> Seq<u8> {
    let enc = spec_encode_record(RecordView { initialized: true, title, rating, description });
    enc + slot.skip(enc.len() as int)
}

/// Rewrites the record stored in `slot_data`: reads the current record
/// (falling back to the default for a never-written or corrupted slot),
/// overwrites its fields with the command's values, marks it initialized,
/// and writes the re-encoded record back at offset zero.  A slot too small
/// for the encoding is left untouched and reported as `BufferTooSmall`.
pub fn update_movie_account(
    slot_data: &mut Vec<u8>,
    title: &String,
    rating: u8,
    description: &String,
) -> (r: Result<(), ReviewError>)
    ensures
        match r {
            Ok(()) => {
                &&& payload_fits(title@, description@)
                &&& spec_account_len(title@, description@) <= old(slot_data)@.len()
                &&& final(slot_data)@ == spec_slot_after(
                    old(slot_data)@,
                    title@,
                    rating,
                    description@,
                )
                &&& final(slot_data)@.len() == old(slot_data)@.len()
            },
            Err(ReviewError::EncodeError) => !payload_fits(title@, description@)
                && final(slot_data)@ == old(slot_data)@,
            Err(ReviewError::BufferTooSmall) => payload_fits(title@, description@)
                && spec_account_len(title@, description@) > old(slot_data)@.len()
                && final(slot_data)@ == old(slot_data)@,
            Err(_) => false,
        },
{
    let mut record = match MovieAccountState::decode(slot_data.as_slice()) {
        Ok(current) => current,
        Err(_) => MovieAccountState::default(),
    };
    record.is_initialized = true;
    record.title = title.clone();
    record.rating = rating;
    record.description = description.clone();
    let mut encoded = match record.encode() {
        Ok(bytes) => bytes,
        Err(e) => {
            return Err(e);
        },
    };
    proof {
        lemma_record_len(record@);
    }
    if encoded.len() > slot_data.len() {
        return Err(ReviewError::BufferTooSmall);
    }
    let mut tail = slot_data.split_off(encoded.len());
    slot_data.clear();
    slot_data.append(&mut encoded);
    slot_data.append(&mut tail);
    assert(slot_data@ =~= spec_slot_after(old(slot_data)@, title@, rating, description@));
    Ok(())
}

/// Re-reviewing in place: updating a slot twice leaves it exactly as long
/// as it was, holding the second command's record — initialized, with the
/// second title, rating and description — with nothing of the first update
/// in the bytes the record occupies.
pub proof fn lemma_rereview_overwrites(
    slot: Seq<u8>,
    title1: Seq<char>,
    rating1: u8,
    description1: Seq<char>,
    title2: Seq<char>,
    rating2: u8,
    description2: Seq<char>,
)
    requires
        payload_fits(title1, description1),
        payload_fits(title2, description2),
        spec_account_len(title1, description1) <= slot.len(),
        spec_account_len(title2, description2) <= slot.len(),
    ensures
        ({
            let once = spec_slot_after(slot, title1, rating1, description1);
            let twice = spec_slot_after(once, title2, rating2, description2);
            let stored = RecordView {
                initialized: true,
                title: title2,
                rating: rating2,
                description: description2,
            };
            &&& once.len() == slot.len()
            &&& twice.len() == slot.len()
            &&& spec_parse_record(twice.take(spec_account_len(title2, description2))) == Some(
                stored,
            )
        }),
{
    let rec1 = RecordView {
        initialized: true,
        title: title1,
        rating: rating1,
        description: description1,
    };
    let rec2 = RecordView {
        initialized: true,
        title: title2,
        rating: rating2,
        description: description2,
    };
    lemma_record_len(rec1);
    lemma_record_len(rec2);
    let once = spec_slot_after(slot, title1, rating1, description1);
    let twice = spec_slot_after(once, title2, rating2, description2);
    assert(twice.take(spec_account_len(title2, description2)) =~= spec_encode_record(rec2));
    lemma_record_round_trip(rec2);
}

/// The top-level dispatch: decodes the instruction buffer and plans the
/// command it names.  Any stage's failure is surfaced verbatim and the
/// remaining stages are skipped.
pub fn process_instruction(
    program_id: &[u8; 32],
    caller: &[u8; 32],
    account_count: usize,
    instruction_data: &[u8],
) -> (r: Result<ReviewPlan, ReviewError>)
    ensures
        match r {
            Ok(plan) => {
                &&& instruction_data@.len() >= 1 && instruction_data@[0] == 0
                &&& spec_parse_payload(instruction_data@.skip(1)) matches Some(p) && {
                    &&& account_count >= REQUIRED_ACCOUNTS
                    &&& pda_of(caller@, encode_utf8(p.0), program_id@) matches Some(derived)
                        && plan.address@ == derived.0 && plan.bump == derived.1
                    &&& spec_account_len(p.0, p.2) <= usize::MAX
                    &&& plan.space == spec_account_len(p.0, p.2)
                    &&& plan.record@ == (RecordView {
                        initialized: true,
                        title: p.0,
                        rating: p.1,
                        description: p.2,
                    })
                }
            },
            Err(ReviewError::MalformedInstruction) => instruction_data@.len() == 0 || (
            instruction_data@[0] == 0 && spec_parse_payload(instruction_data@.skip(1)) is None),
            Err(ReviewError::UnknownInstruction) => instruction_data@.len() >= 1
                && instruction_data@[0] != 0,
            Err(ReviewError::MissingAccount) => account_count < REQUIRED_ACCOUNTS
                && instruction_data@.len() >= 1 && instruction_data@[0] == 0
                && spec_parse_payload(instruction_data@.skip(1)) is Some,
            Err(ReviewError::AddressDerivationExhausted) => {
                &&& account_count >= REQUIRED_ACCOUNTS
                &&& instruction_data@.len() >= 1 && instruction_data@[0] == 0
                &&& spec_parse_payload(instruction_data@.skip(1)) matches Some(p) && pda_of(
                    caller@,
                    encode_utf8(p.0),
                    program_id@,
                ) is None
            },
            Err(ReviewError::EncodeError) => {
                &&& account_count >= REQUIRED_ACCOUNTS
                &&& instruction_data@.len() >= 1 && instruction_data@[0] == 0
                &&& spec_parse_payload(instruction_data@.skip(1)) matches Some(p)
                    && spec_account_len(p.0, p.2) > usize::MAX
            },
            Err(_) => false,
        },
{
    let instruction = match MovieInstruction::unpack(instruction_data) {
        Ok(decoded) => decoded,
        Err(e) => {
            return Err(e);
        },
    };
    proof {
        crate::codec::lemma_parse_payload_fits(instruction_data@.skip(1));
    }
    match instruction {
        MovieInstruction::AddMovieReview { title, rating, description } => add_movie_review(
            program_id,
            caller,
            account_count,
            title,
            rating,
            description,
        ),
    }
}

} // verus!
