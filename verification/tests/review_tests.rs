use movie_review::error::ReviewError;
use movie_review::instruction::MovieInstruction;
use movie_review::pda::derive_review_address;
use movie_review::processor::add_movie_review;
use movie_review::processor::process_instruction;
use movie_review::processor::update_movie_account;
use movie_review::state::MovieAccountState;

/// The wire bytes of an instruction: discriminant, then each text field
/// length-prefixed with 4 little-endian bytes, the rating between them.
fn instruction_bytes(discriminant: u8, title: &str, rating: u8, description: &str) -> Vec<u8> {
    let mut out = vec![discriminant];
    out.extend_from_slice(&(title.len() as u32).to_le_bytes());
    out.extend_from_slice(title.as_bytes());
    out.push(rating);
    out.extend_from_slice(&(description.len() as u32).to_le_bytes());
    out.extend_from_slice(description.as_bytes());
    out
}

fn gladiator_record() -> MovieAccountState {
    MovieAccountState {
        is_initialized: true,
        title: String::from("Gladiator"),
        rating: 5,
        description: String::from("Epic."),
    }
}

#[test]
fn unpack_decodes_add_movie_review() {
    let bytes = instruction_bytes(0, "Gladiator", 5, "Epic.");
    match MovieInstruction::unpack(&bytes) {
        Ok(MovieInstruction::AddMovieReview {
            title,
            rating,
            description,
        }) => {
            assert_eq!(title, "Gladiator");
            assert_eq!(rating, 5);
            assert_eq!(description, "Epic.");
        }
        other => panic!("expected AddMovieReview, got {:?}", other.err()),
    }
}

#[test]
fn pack_unpack_round_trip() {
    let original = MovieInstruction::AddMovieReview {
        title: String::from("Das Boot — director's cut"),
        rating: 4,
        description: String::from("Tense, claustrophobic, still unmatched. ★★★★"),
    };
    let bytes = original.pack().expect("pack must succeed");
    match MovieInstruction::unpack(&bytes).expect("unpack must succeed") {
        MovieInstruction::AddMovieReview {
            title,
            rating,
            description,
        } => {
            assert_eq!(title, "Das Boot — director's cut");
            assert_eq!(rating, 4);
            assert_eq!(description, "Tense, claustrophobic, still unmatched. ★★★★");
        }
    }
}

#[test]
fn record_encode_decode_round_trip() {
    let record = gladiator_record();
    let bytes = record.encode().expect("encode must succeed");
    let decoded = MovieAccountState::decode(&bytes).expect("decode must succeed");
    assert!(decoded.is_initialized);
    assert_eq!(decoded.title, "Gladiator");
    assert_eq!(decoded.rating, 5);
    assert_eq!(decoded.description, "Epic.");
}

#[test]
fn default_record_is_uninitialized_and_empty() {
    let record = MovieAccountState::default();
    assert!(!record.is_initialized);
    assert_eq!(record.title, "");
    assert_eq!(record.rating, 0);
    assert_eq!(record.description, "");
    // A ten-byte all-zero buffer is exactly the default record's encoding.
    let bytes = record.encode().expect("encode must succeed");
    assert_eq!(bytes, vec![0u8; 10]);
}

#[test]
fn derivation_is_deterministic() {
    let caller = [11u8; 32];
    let program = [250u8; 32];
    let first = derive_review_address(&caller, "Gladiator", &program).expect("derivation");
    let second = derive_review_address(&caller, "Gladiator", &program).expect("derivation");
    assert_eq!(first, second);
}

#[test]
fn derivation_matches_host_scheme() {
    let caller = [11u8; 32];
    let program = [250u8; 32];
    let (address, bump) = derive_review_address(&caller, "Gladiator", &program).expect("derivation");
    let program_key = solana_program::pubkey::Pubkey::new_from_array(program);
    let (expected, expected_bump) = solana_program::pubkey::Pubkey::find_program_address(
        &[&caller, "Gladiator".as_bytes()],
        &program_key,
    );
    assert_eq!(address, expected.to_bytes());
    assert_eq!(bump, expected_bump);
}

#[test]
fn overlong_title_exhausts_derivation() {
    // A seed longer than the host's 32-byte seed cap can never derive.
    let caller = [3u8; 32];
    let program = [9u8; 32];
    let title = "a title well beyond the thirty-two byte seed limit";
    assert_eq!(
        derive_review_address(&caller, title, &program),
        Err(ReviewError::AddressDerivationExhausted)
    );
}

#[test]
fn rereview_updates_record_in_place() {
    let caller = [42u8; 32];
    let program = [1u8; 32];
    let first = add_movie_review(
        &program,
        &caller,
        3,
        String::from("Gladiator"),
        2,
        String::from("Meh, sand everywhere."),
    )
    .expect("first plan");
    let mut slot = vec![0u8; first.space];
    update_movie_account(&mut slot, &first.record.title, first.record.rating, &first.record.description)
        .expect("first write");

    // Same caller and title: the derived address is the same slot.
    let second = add_movie_review(
        &program,
        &caller,
        3,
        String::from("Gladiator"),
        5,
        String::from("Changed my mind."),
    )
    .expect("second plan");
    assert_eq!(first.address, second.address);
    assert_eq!(first.bump, second.bump);

    let before_len = slot.len();
    update_movie_account(&mut slot, &second.record.title, second.record.rating, &second.record.description)
        .expect("second write");
    assert_eq!(slot.len(), before_len);

    let stored = MovieAccountState::decode(&slot[..second.space]).expect("stored record");
    assert!(stored.is_initialized);
    assert_eq!(stored.title, "Gladiator");
    assert_eq!(stored.rating, 5);
    assert_eq!(stored.description, "Changed my mind.");
}

#[test]
fn grown_description_is_rejected_and_slot_unchanged() {
    let mut slot = vec![0u8; 24];
    let title = String::from("Gladiator");
    let description = String::from("Epic.");
    update_movie_account(&mut slot, &title, 5, &description).expect("first write");
    let before = slot.clone();

    let grown = String::from("Epic. Truly epic, in fact.");
    assert_eq!(
        update_movie_account(&mut slot, &title, 5, &grown),
        Err(ReviewError::BufferTooSmall)
    );
    assert_eq!(slot, before);
}

#[test]
fn unknown_discriminant_is_rejected() {
    let bytes = instruction_bytes(1, "Gladiator", 5, "Epic.");
    assert_eq!(
        MovieInstruction::unpack(&bytes).err(),
        Some(ReviewError::UnknownInstruction)
    );
    assert_eq!(
        MovieInstruction::unpack(&[255]).err(),
        Some(ReviewError::UnknownInstruction)
    );
    // The dispatcher surfaces the same error and plans nothing.
    assert_eq!(
        process_instruction(&[1u8; 32], &[2u8; 32], 3, &bytes).err(),
        Some(ReviewError::UnknownInstruction)
    );
}

#[test]
fn malformed_buffers_are_rejected() {
    // Empty buffer.
    assert_eq!(
        MovieInstruction::unpack(&[]).err(),
        Some(ReviewError::MalformedInstruction)
    );
    // Truncated: length prefix promises more than is there.
    assert_eq!(
        MovieInstruction::unpack(&[0, 9, 0, 0, 0, b'G']).err(),
        Some(ReviewError::MalformedInstruction)
    );
    // Trailing byte after a complete payload.
    let mut trailing = instruction_bytes(0, "Gladiator", 5, "Epic.");
    trailing.push(0);
    assert_eq!(
        MovieInstruction::unpack(&trailing).err(),
        Some(ReviewError::MalformedInstruction)
    );
    // A text field that is not valid UTF-8.
    let mut bad_utf8 = vec![0u8, 2, 0, 0, 0, 0xff, 0xfe, 5];
    bad_utf8.extend_from_slice(&[0, 0, 0, 0]);
    assert_eq!(
        MovieInstruction::unpack(&bad_utf8).err(),
        Some(ReviewError::MalformedInstruction)
    );
}

#[test]
fn record_decode_rejects_schema_violations() {
    // The initialized flag must be 0 or 1.
    let mut bytes = gladiator_record().encode().expect("encode");
    bytes[0] = 2;
    assert_eq!(
        MovieAccountState::decode(&bytes).err(),
        Some(ReviewError::DecodeError)
    );
    // A freshly provisioned slot is all zeroes with trailing bytes: not a
    // well-formed record, which is why the updater falls back to default.
    assert_eq!(
        MovieAccountState::decode(&[0u8; 24]).err(),
        Some(ReviewError::DecodeError)
    );
}

#[test]
fn missing_account_is_rejected() {
    let bytes = instruction_bytes(0, "Gladiator", 5, "Epic.");
    assert_eq!(
        process_instruction(&[1u8; 32], &[2u8; 32], 2, &bytes).err(),
        Some(ReviewError::MissingAccount)
    );
}

#[test]
fn gladiator_scenario_end_to_end() {
    let program = [7u8; 32];
    let caller = [13u8; 32];
    let bytes = instruction_bytes(0, "Gladiator", 5, "Epic.");
    let plan = process_instruction(&program, &caller, 3, &bytes).expect("plan");
    assert_eq!(plan.space, 1 + 1 + 4 + 9 + 4 + 5);
    assert!(plan.record.is_initialized);
    assert_eq!(plan.record.title, "Gladiator");
    assert_eq!(plan.record.rating, 5);
    assert_eq!(plan.record.description, "Epic.");

    // The host provisions a zeroed slot of exactly the planned size.
    let mut slot = vec![0u8; plan.space];
    update_movie_account(&mut slot, &plan.record.title, plan.record.rating, &plan.record.description)
        .expect("write");

    let mut expected = vec![1u8, 0x09, 0, 0, 0];
    expected.extend_from_slice(b"Gladiator");
    expected.push(5);
    expected.extend_from_slice(&[0x05, 0, 0, 0]);
    expected.extend_from_slice(b"Epic.");
    assert_eq!(slot, expected);

    let stored = MovieAccountState::decode(&slot).expect("stored record");
    assert!(stored.is_initialized);
    assert_eq!(stored.title, "Gladiator");
    assert_eq!(stored.rating, 5);
    assert_eq!(stored.description, "Epic.");
}

#[test]
fn wire_format_matches_borsh() {
    // The instruction payload is exactly what borsh makes of the fields.
    let fields = (
        String::from("Gladiator"),
        5u8,
        String::from("Epic."),
    );
    let mut expected = vec![0u8];
    expected.extend_from_slice(&borsh::to_vec(&fields).expect("borsh"));
    let packed = MovieInstruction::AddMovieReview {
        title: fields.0.clone(),
        rating: fields.1,
        description: fields.2.clone(),
    }
    .pack()
    .expect("pack");
    assert_eq!(packed, expected);

    // The stored record is exactly what borsh makes of its fields, and
    // borsh reads our encoding back to the same values.
    let record_fields = (true, fields.0.clone(), fields.1, fields.2.clone());
    let encoded = gladiator_record().encode().expect("encode");
    assert_eq!(encoded, borsh::to_vec(&record_fields).expect("borsh"));
    let read_back: (bool, String, u8, String) =
        borsh::from_slice(&encoded).expect("borsh read");
    assert_eq!(read_back, record_fields);
}
