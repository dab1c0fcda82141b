use kitties::dna::{combine, gen_dna};
use kitties::pallet::next_id;
use kitties::{Entropy, Error, Kitty};

#[test]
fn gen_dna_hashes_the_encoded_seed_caller_and_index() {
    let mut seed = [0u8; 32];
    for i in 0..32 {
        seed[i] = i as u8;
    }
    let entropy =
        Entropy { seed, block_number: 0x0102030405060708, extrinsic_index: Some(0x21222324) };
    assert_eq!(
        gen_dna(0x1112131415161718, &entropy),
        [
            0x90, 0x25, 0xec, 0xc5, 0x91, 0x16, 0x9e, 0xc6, 0x44, 0x8a, 0x31, 0xd8, 0xc6, 0x6d,
            0x0d, 0x88,
        ]
    );
}

#[test]
fn gen_dna_of_an_empty_context() {
    let entropy = Entropy { seed: [0; 32], block_number: 0, extrinsic_index: None };
    assert_eq!(
        gen_dna(0, &entropy),
        [
            0x6a, 0x1d, 0x6e, 0xcb, 0xb0, 0x50, 0x33, 0xf1, 0xaf, 0x61, 0x16, 0x34, 0x86, 0xea,
            0xd7, 0xb4,
        ]
    );
}

#[test]
fn gen_dna_tells_the_extrinsic_index() {
    let mut seed = [0u8; 32];
    seed[31] = 1;
    let none = Entropy { seed, block_number: 1, extrinsic_index: None };
    let zero = Entropy { seed, block_number: 1, extrinsic_index: Some(0) };
    let seven = Entropy { seed, block_number: 1, extrinsic_index: Some(7) };
    assert_eq!(
        gen_dna(1, &none),
        [
            0xc1, 0x9b, 0x4c, 0x00, 0x3a, 0x8e, 0x04, 0xa8, 0x08, 0xae, 0x85, 0x6d, 0x6f, 0x47,
            0x03, 0xae,
        ]
    );
    assert_eq!(
        gen_dna(1, &zero),
        [
            0xf1, 0x38, 0xee, 0xe9, 0x28, 0xb6, 0xaa, 0x81, 0x88, 0x2d, 0x27, 0x3a, 0x85, 0x5c,
            0x79, 0x7f,
        ]
    );
    assert_eq!(
        gen_dna(1, &seven),
        [
            0xf7, 0x34, 0xcc, 0x2e, 0x9b, 0x2e, 0x7c, 0x06, 0xaf, 0xda, 0xd9, 0x47, 0x63, 0x4b,
            0x85, 0x62,
        ]
    );
}

#[test]
fn gen_dna_is_a_function_of_its_inputs() {
    let entropy = Entropy { seed: [3; 32], block_number: 12, extrinsic_index: Some(4) };
    let again = Entropy { seed: [3; 32], block_number: 12, extrinsic_index: Some(4) };
    assert_eq!(gen_dna(5, &entropy), gen_dna(5, &again));
    assert_ne!(gen_dna(5, &entropy), gen_dna(6, &entropy));
    let later = Entropy { seed: [3; 32], block_number: 13, extrinsic_index: Some(4) };
    assert_ne!(gen_dna(5, &entropy), gen_dna(5, &later));
}

#[test]
fn combine_takes_set_bits_from_the_first_parent() {
    let a = [0xF0u8; 16];
    let b = [0x0Fu8; 16];
    assert_eq!(combine(&a, &b, &[0xAA; 16]), [0xA5u8; 16]);
    assert_eq!(combine(&a, &b, &[0xFF; 16]), a);
    assert_eq!(combine(&a, &b, &[0x00; 16]), b);
    assert_eq!(combine(&a, &a, &[0x5C; 16]), a);
}

#[test]
fn combine_works_byte_by_byte() {
    let mut a = [0u8; 16];
    let mut b = [0u8; 16];
    let mut mask = [0u8; 16];
    let mut child = [0u8; 16];
    for i in 0..16 {
        a[i] = (i as u8) * 16 + 1;
        b[i] = 255 - (i as u8);
        mask[i] = 1 << (i % 8);
        child[i] = (a[i] & mask[i]) | (b[i] & !mask[i]);
    }
    assert_eq!(combine(&a, &b, &mask), child);
    assert_eq!(combine(&a, &b, &mask)[0], 0xFF);
    assert_eq!(combine(&a, &b, &mask)[1], 0xFC);
    assert_eq!(combine(&a, &b, &mask)[15], 0xF0);
}

#[test]
fn kitties_are_equal_when_their_dna_is() {
    let kitty = Kitty([4; 16]);
    assert_eq!(kitty.0, [4; 16]);
    assert_eq!(kitty, Kitty([4; 16]));
    assert_ne!(kitty, Kitty([5; 16]));
}

#[test]
fn next_id_stops_at_the_largest_number() {
    assert_eq!(next_id(0), Ok(0));
    assert_eq!(next_id(41), Ok(41));
    assert_eq!(next_id(u32::MAX - 1), Ok(u32::MAX - 1));
    assert_eq!(next_id(u32::MAX), Err(Error::KittyIdOverflow));
}
