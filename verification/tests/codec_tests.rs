use escrow_core::instruction::Instruction;
use escrow_core::state::Escrow;

fn sample_escrow() -> Escrow {
    Escrow {
        is_initialized: true,
        seller_pubkey: [1u8; 32],
        seller_token_account_pubkey: [2u8; 32],
        temp_token_account_pubkey: [3u8; 32],
        amount: 100,
    }
}

#[test]
fn escrow_encode_layout_is_fixed() {
    let record = sample_escrow();
    let bytes = record.encode();
    assert_eq!(bytes.len(), 105);
    assert_eq!(bytes[0], 1);
    assert_eq!(&bytes[1..33], &[1u8; 32]);
    assert_eq!(&bytes[33..65], &[2u8; 32]);
    assert_eq!(&bytes[65..97], &[3u8; 32]);
    assert_eq!(&bytes[97..105], &[100, 0, 0, 0, 0, 0, 0, 0]);
}

#[test]
fn escrow_round_trip_decode_of_encode() {
    let record = sample_escrow();
    let bytes = record.encode();
    let decoded = Escrow::decode(&bytes).expect("a canonical encoding decodes");
    assert_eq!(decoded, record);
    assert!(decoded.is_initialized());
}

#[test]
fn escrow_round_trip_encode_of_decode() {
    let mut bytes = vec![0u8; 105];
    bytes[0] = 1;
    for i in 0..32 {
        bytes[1 + i] = i as u8;
        bytes[33 + i] = 2 * i as u8;
        bytes[65 + i] = 3 * i as u8;
    }
    bytes[97] = 0xEF;
    bytes[98] = 0xBE;
    let decoded = Escrow::decode(&bytes).expect("a well-formed buffer decodes");
    assert_eq!(decoded.encode(), bytes);
    assert_eq!(decoded.amount, 0xBEEF);
}

#[test]
fn escrow_decode_of_zero_filled_record_is_uninitialized() {
    let bytes = vec![0u8; 105];
    let decoded = Escrow::decode(&bytes).expect("a zero-filled record decodes");
    assert!(!decoded.is_initialized);
    assert_eq!(decoded.seller_pubkey, [0u8; 32]);
    assert_eq!(decoded.amount, 0);
}

#[test]
fn escrow_decode_rejects_wrong_length() {
    assert!(Escrow::decode(&[0u8; 104]).is_none());
    assert!(Escrow::decode(&[0u8; 106]).is_none());
    assert!(Escrow::decode(&[]).is_none());
}

#[test]
fn escrow_decode_rejects_bad_flag_byte() {
    let mut bytes = vec![0u8; 105];
    bytes[0] = 2;
    assert!(Escrow::decode(&bytes).is_none());
    bytes[0] = 255;
    assert!(Escrow::decode(&bytes).is_none());
}

#[test]
fn instruction_encode_layout_is_fixed() {
    let open = Instruction::Initialize(100);
    assert_eq!(open.encode(), vec![0, 100, 0, 0, 0, 0, 0, 0, 0]);
    let settle = Instruction::Exchange(0x0102030405060708);
    assert_eq!(settle.encode(), vec![1, 8, 7, 6, 5, 4, 3, 2, 1]);
}

#[test]
fn instruction_round_trip() {
    for ix in [Instruction::Initialize(0), Instruction::Initialize(u64::MAX), Instruction::Exchange(100)] {
        let bytes = ix.encode();
        assert_eq!(Instruction::decode(&bytes), Some(ix));
    }
}

#[test]
fn instruction_decode_ignores_trailing_bytes() {
    let bytes = vec![0, 1, 0, 0, 0, 0, 0, 0, 0, 0xFF, 0xFF];
    assert_eq!(Instruction::decode(&bytes), Some(Instruction::Initialize(1)));
}

#[test]
fn instruction_decode_rejects_short_buffer() {
    assert_eq!(Instruction::decode(&[]), None);
    assert_eq!(Instruction::decode(&[0]), None);
    assert_eq!(Instruction::decode(&[0, 1, 0, 0, 0, 0, 0, 0]), None);
}

#[test]
fn instruction_decode_rejects_unknown_discriminant() {
    assert_eq!(Instruction::decode(&[2, 1, 0, 0, 0, 0, 0, 0, 0]), None);
    assert_eq!(Instruction::decode(&[255, 1, 0, 0, 0, 0, 0, 0, 0]), None);
}
