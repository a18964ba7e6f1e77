use non_custodial_escrow::pubkey::{
    escrow_address, escrow_seeds, escrow_signer_seeds, find_escrow_address, id, ID_BYTES,
};
use non_custodial_escrow::Pubkey;
use std::str::FromStr;

fn key(byte: u8) -> Pubkey {
    Pubkey::new_from_array([byte; 32])
}

const SELLER_ONE_ESCROW: [u8; 32] = [
    209, 195, 131, 180, 39, 168, 124, 178, 8, 11, 141, 139, 220, 243, 67, 63, 196, 234, 242, 224,
    24, 204, 171, 118, 24, 117, 216, 72, 67, 90, 106, 208,
];

const SELLER_TWO_ESCROW: [u8; 32] = [
    25, 77, 236, 46, 142, 203, 74, 95, 158, 79, 107, 155, 246, 8, 232, 70, 144, 242, 20, 166, 212,
    63, 202, 199, 191, 6, 165, 198, 197, 225, 90, 27,
];

#[test]
fn pubkey_keeps_its_bytes() {
    let mut bytes = [0u8; 32];
    for (i, byte) in bytes.iter_mut().enumerate() {
        *byte = i as u8;
    }
    let key = Pubkey::new_from_array(bytes);
    assert_eq!(key.to_bytes(), bytes);
    assert_eq!(key.bytes, bytes);
}

#[test]
fn pubkeys_are_equal_when_all_bytes_are() {
    let mut bytes = [5u8; 32];
    assert_eq!(Pubkey::new_from_array(bytes), key(5));
    bytes[31] = 6;
    assert_ne!(Pubkey::new_from_array(bytes), key(5));
    bytes[31] = 5;
    bytes[0] = 4;
    assert_ne!(Pubkey::new_from_array(bytes), key(5));
}

#[test]
fn program_id_is_the_declared_identity() {
    let declared =
        anchor_lang::prelude::Pubkey::from_str("F9cp6XU8hwEaM7hBgAXtURGkHTnGh6xWKKrQzLV4Prda")
            .unwrap();
    assert_eq!(id().to_bytes(), declared.to_bytes());
    assert_eq!(ID_BYTES, declared.to_bytes());
}

#[test]
fn escrow_seeds_are_tag_then_identity() {
    let seeds = escrow_seeds(&key(1));
    assert_eq!(seeds, vec![b"escrow".to_vec(), vec![1u8; 32]]);
}

#[test]
fn signer_seeds_end_with_the_bump() {
    let seeds = escrow_signer_seeds(&key(1), 254);
    assert_eq!(seeds, vec![b"escrow".to_vec(), vec![1u8; 32], vec![254u8]]);
}

#[test]
fn find_gives_the_known_address_and_bump() {
    let found = find_escrow_address(&key(1), &id());
    assert_eq!(found, Some((Pubkey::new_from_array(SELLER_ONE_ESCROW), 255)));
}

#[test]
fn find_passes_over_bumps_that_land_on_the_curve() {
    let found = find_escrow_address(&key(2), &id());
    assert_eq!(found, Some((Pubkey::new_from_array(SELLER_TWO_ESCROW), 253)));
}

#[test]
fn find_is_stable_across_calls() {
    assert_eq!(find_escrow_address(&key(7), &id()), find_escrow_address(&key(7), &id()));
}

#[test]
fn find_depends_on_the_seller_and_the_program() {
    let one = find_escrow_address(&key(1), &id()).unwrap();
    let other_seller = find_escrow_address(&key(7), &id()).unwrap();
    let other_program = find_escrow_address(&key(1), &key(9)).unwrap();
    assert_ne!(one.0, other_seller.0);
    assert_ne!(one.0, other_program.0);
}

#[test]
fn find_agrees_with_the_sdk() {
    for byte in 0u8..40 {
        let seller = anchor_lang::prelude::Pubkey::new_from_array([byte; 32]);
        let program = anchor_lang::prelude::Pubkey::new_from_array(ID_BYTES);
        let seeds: [&[u8]; 2] = [b"escrow", seller.as_ref()];
        let (address, bump) = anchor_lang::prelude::Pubkey::find_program_address(&seeds, &program);
        assert_eq!(
            find_escrow_address(&key(byte), &id()),
            Some((Pubkey::new_from_array(address.to_bytes()), bump))
        );
    }
}

#[test]
fn derivation_reproduces_the_found_address() {
    for byte in 0u8..40 {
        let (address, bump) = find_escrow_address(&key(byte), &id()).unwrap();
        assert_eq!(escrow_address(&key(byte), bump, &id()), Some(address));
    }
}

#[test]
fn derivation_gives_the_known_address() {
    assert_eq!(
        escrow_address(&key(2), 253, &id()),
        Some(Pubkey::new_from_array(SELLER_TWO_ESCROW))
    );
}

#[test]
fn derivation_refuses_a_bump_that_lands_on_the_curve() {
    assert_eq!(escrow_address(&key(1), 254, &id()), None);
    assert_eq!(escrow_address(&key(2), 255, &id()), None);
    assert_eq!(escrow_address(&key(2), 254, &id()), None);
}

#[test]
fn derivation_differs_from_its_inputs() {
    let address = escrow_address(&key(1), 255, &id()).unwrap();
    assert_ne!(address, key(1));
    assert_ne!(address, id());
}
