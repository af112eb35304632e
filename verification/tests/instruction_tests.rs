use nftycoon::{decode_instruction, DecodeError, Identity, Instruction, Metadata};

fn set_metadata_bytes() -> Vec<u8> {
    let mut bytes = vec![1u8];
    bytes.extend_from_slice(&[5, 0, 0, 0]);
    bytes.extend_from_slice(b"Sword");
    bytes.extend_from_slice(&[6, 0, 0, 0]);
    bytes.extend_from_slice(b"+5 atk");
    bytes
}

#[test]
fn decode_instruction_initialize() {
    assert_eq!(decode_instruction(&[0]), Ok(Instruction::Initialize));
}

#[test]
fn decode_instruction_set_metadata() {
    assert_eq!(
        decode_instruction(&set_metadata_bytes()),
        Ok(Instruction::SetMetadata(Metadata {
            name: "Sword".to_string(),
            description: "+5 atk".to_string(),
        }))
    );
}

#[test]
fn decode_instruction_transfer() {
    let mut bytes = vec![2u8];
    bytes.extend_from_slice(&[9u8; 32]);
    assert_eq!(decode_instruction(&bytes), Ok(Instruction::Transfer(Identity::new([9u8; 32]))));
}

#[test]
fn decode_instruction_reads_what_borsh_wrote() {
    let data = borsh::to_vec(&(1u8, ("Bow".to_string(), "\u{2192} range".to_string()))).unwrap();
    assert_eq!(
        decode_instruction(&data),
        Ok(Instruction::SetMetadata(Metadata {
            name: "Bow".to_string(),
            description: "\u{2192} range".to_string(),
        }))
    );
    let data = borsh::to_vec(&(2u8, [4u8; 32])).unwrap();
    assert_eq!(decode_instruction(&data), Ok(Instruction::Transfer(Identity::new([4u8; 32]))));
    let data = borsh::to_vec(&0u8).unwrap();
    assert_eq!(decode_instruction(&data), Ok(Instruction::Initialize));
}

#[test]
fn decode_instruction_rejects_empty_data() {
    assert_eq!(decode_instruction(&[]), Err(DecodeError::Malformed));
}

#[test]
fn decode_instruction_rejects_unknown_tag() {
    assert_eq!(decode_instruction(&[3]), Err(DecodeError::Malformed));
    assert_eq!(decode_instruction(&[255]), Err(DecodeError::Malformed));
}

#[test]
fn decode_instruction_rejects_trailing_bytes() {
    assert_eq!(decode_instruction(&[0, 0]), Err(DecodeError::Malformed));
    let mut bytes = set_metadata_bytes();
    bytes.push(0);
    assert_eq!(decode_instruction(&bytes), Err(DecodeError::Malformed));
    let mut bytes = vec![2u8];
    bytes.extend_from_slice(&[9u8; 33]);
    assert_eq!(decode_instruction(&bytes), Err(DecodeError::Malformed));
}

#[test]
fn decode_instruction_rejects_short_operand() {
    let bytes = set_metadata_bytes();
    for len in 1..bytes.len() {
        assert_eq!(
            decode_instruction(&bytes[..len]),
            Err(DecodeError::Malformed),
            "prefix of {} bytes",
            len
        );
    }
    let mut bytes = vec![2u8];
    bytes.extend_from_slice(&[9u8; 31]);
    assert_eq!(decode_instruction(&bytes), Err(DecodeError::Malformed));
    assert_eq!(decode_instruction(&[2]), Err(DecodeError::Malformed));
}

#[test]
fn decode_instruction_rejects_text_that_is_not_utf8() {
    let mut bytes = set_metadata_bytes();
    bytes[5] = 0xc0;
    assert_eq!(decode_instruction(&bytes), Err(DecodeError::Malformed));
}
