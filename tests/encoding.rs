use mojo_world::error::WorldError;
use mojo_world::instructions::{decode_instruction, encode, encode_instruction};
use mojo_world::mojo_types::{u64_from_le, u64_to_le, GenIxHandler, MojoInstructions};

#[test]
fn discriminators_are_fixed() {
    assert_eq!(MojoInstructions::CreateAccount.discriminator(), 0);
    assert_eq!(MojoInstructions::DelegateAccount.discriminator(), 1);
    assert_eq!(MojoInstructions::Commit.discriminator(), 2);
    assert_eq!(MojoInstructions::UpdateDelegatedAccount.discriminator(), 3);
    assert_eq!(MojoInstructions::UndelegateAccount.discriminator(), 4);
    assert_eq!(MojoInstructions::from_discriminator(3), Some(MojoInstructions::UpdateDelegatedAccount));
    assert_eq!(MojoInstructions::from_discriminator(5), None);
}

#[test]
fn little_endian_bytes() {
    let n: u64 = 0x0102_0304_0506_0708;
    assert_eq!(u64_to_le(n), [8, 7, 6, 5, 4, 3, 2, 1]);
    assert_eq!(u64_to_le(n), n.to_le_bytes());
    assert_eq!(u64_from_le([8, 7, 6, 5, 4, 3, 2, 1]), n);
    assert_eq!(u64_from_le(u64_to_le(u64::MAX)), u64::MAX);
}

#[test]
fn header_layout() {
    let h = GenIxHandler::new([3, 0, 0, 0, 0, 0, 0, 0]);
    assert_eq!(h.seeds, [0u8; 32]);
    let b = h.to_bytes();
    assert_eq!(b.len(), 40);
    assert_eq!(&b[..32], &[0u8; 32]);
    assert_eq!(&b[32..], &[3, 0, 0, 0, 0, 0, 0, 0]);
}

#[test]
fn encode_instruction_layout() {
    let mut h = GenIxHandler::new([2, 0, 0, 0, 0, 0, 0, 0]);
    h.seeds = [9u8; 32];
    let b = encode_instruction(MojoInstructions::DelegateAccount, &h, &[7, 8]);
    assert_eq!(b.len(), 43);
    assert_eq!(b[0], 1);
    assert_eq!(&b[1..33], &[9u8; 32]);
    assert_eq!(&b[33..41], &[2, 0, 0, 0, 0, 0, 0, 0]);
    assert_eq!(&b[41..], &[7, 8]);
}

#[test]
fn create_account_round_trip() {
    let h = [0xabu8; 32];
    let p = vec![1u8, 2, 3, 4, 5];
    let b = encode(MojoInstructions::CreateAccount, h, &p);
    assert_eq!(b.len(), 41 + p.len());
    let d = decode_instruction(&b).unwrap();
    assert_eq!(d.kind, MojoInstructions::CreateAccount);
    assert_eq!(d.kind.discriminator(), 0);
    assert_eq!(d.seed_hash, h);
    assert_eq!(d.payload_len, 5);
    assert_eq!(d.payload, p);
}

#[test]
fn round_trip_with_empty_payload() {
    let b = encode(MojoInstructions::Commit, [1u8; 32], &[]);
    assert_eq!(b.len(), 41);
    let d = decode_instruction(&b).unwrap();
    assert_eq!(d.kind, MojoInstructions::Commit);
    assert_eq!(d.payload_len, 0);
    assert!(d.payload.is_empty());
}

#[test]
fn decode_rejects_truncated_payload() {
    let mut b = encode(MojoInstructions::CreateAccount, [4u8; 32], &[1, 2, 3, 4]);
    b.pop();
    assert!(matches!(decode_instruction(&b), Err(WorldError::SerializationError)));
}

#[test]
fn decode_rejects_short_header() {
    let b = vec![0u8; 40];
    assert!(matches!(decode_instruction(&b), Err(WorldError::SerializationError)));
    assert!(matches!(decode_instruction(&[]), Err(WorldError::SerializationError)));
}

#[test]
fn decode_rejects_trailing_bytes() {
    let mut b = encode(MojoInstructions::CreateAccount, [4u8; 32], &[1, 2]);
    b.push(9);
    assert!(matches!(decode_instruction(&b), Err(WorldError::SerializationError)));
}

#[test]
fn decode_rejects_unknown_discriminator() {
    let mut b = encode(MojoInstructions::CreateAccount, [4u8; 32], &[1]);
    b[0] = 7;
    assert!(matches!(decode_instruction(&b), Err(WorldError::UnknownDiscriminator(7))));
}
