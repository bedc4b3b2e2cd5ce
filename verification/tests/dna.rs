use kitties::dna::crossover;
use kitties::pallet::Pallet;
use kitties::types::{Gender, Kitty, Randomness};

fn randomness(seed: &[u8], extrinsic_index: Option<u32>) -> Randomness {
    Randomness { seed: seed.to_vec(), extrinsic_index, gender_draw: 0 }
}

fn kitty(dna: [u8; 16]) -> Kitty {
    Kitty { dna, price: None, gender: Gender::Male, owner: 1 }
}

const SEED_32: [u8; 32] = [
    0, 1, 2, 3, 4, 5, 6, 7, 8, 9, 10, 11, 12, 13, 14, 15, 16, 17, 18, 19, 20, 21, 22, 23, 24, 25,
    26, 27, 28, 29, 30, 31,
];

const MASK_32_7_3: [u8; 16] =
    [93, 118, 52, 194, 236, 220, 64, 125, 190, 118, 17, 203, 45, 109, 77, 221];

#[test]
fn random_value_of_empty_seed_account_zero_and_no_index() {
    let dna = Pallet::random_value(&randomness(&[], None), 0);
    assert_eq!(dna, [3, 196, 47, 1, 105, 73, 192, 226, 224, 122, 166, 216, 193, 52, 144, 186]);
}

#[test]
fn random_value_of_a_full_seed_with_index() {
    let dna = Pallet::random_value(&randomness(&SEED_32, Some(3)), 7);
    assert_eq!(dna, MASK_32_7_3);
}

#[test]
fn random_value_encodes_the_account_little_endian() {
    let dna = Pallet::random_value(&randomness(b"seed", None), 0x0102030405060708);
    assert_eq!(dna, [52, 219, 90, 202, 224, 231, 198, 194, 138, 175, 248, 38, 93, 0, 48, 154]);
}

#[test]
fn random_value_encodes_the_index_after_a_tag_byte() {
    let dna = Pallet::random_value(&randomness(b"seed", Some(0xAABBCCDD)), 0x0102030405060708);
    assert_eq!(dna, [166, 178, 19, 41, 67, 1, 26, 142, 123, 197, 253, 47, 242, 240, 132, 153]);
}

#[test]
fn random_value_is_the_digest_of_seed_then_encoded_caller_and_index() {
    let mut payload: Vec<u8> = b"some seed".to_vec();
    payload.extend_from_slice(&parity_scale_codec::Encode::encode(&(42u64, Some(9u32))));
    let expected = sp_io::hashing::blake2_128(&payload);
    assert_eq!(Pallet::random_value(&randomness(b"some seed", Some(9)), 42), expected);
}

#[test]
fn random_value_tells_callers_indices_and_seeds_apart() {
    let base = Pallet::random_value(&randomness(b"seed", Some(1)), 1);
    assert_eq!(base, Pallet::random_value(&randomness(b"seed", Some(1)), 1));
    assert_ne!(base, Pallet::random_value(&randomness(b"seed", Some(1)), 2));
    assert_ne!(base, Pallet::random_value(&randomness(b"seed", Some(2)), 1));
    assert_ne!(base, Pallet::random_value(&randomness(b"seed", None), 1));
    assert_ne!(base, Pallet::random_value(&randomness(b"seee", Some(1)), 1));
}

#[test]
fn random_value_does_not_depend_on_the_gender_draw() {
    let mut r = randomness(b"seed", Some(1));
    let first = Pallet::random_value(&r, 1);
    r.gender_draw = 77;
    assert_eq!(first, Pallet::random_value(&r, 1));
}

#[test]
fn crossover_under_all_ones_is_the_first_parent() {
    let a = [0xFFu8; 16];
    let b = [0x00u8; 16];
    assert_eq!(crossover(&[0xFF; 16], &a, &b), a);
    let c = [1, 2, 3, 4, 5, 6, 7, 8, 9, 10, 11, 12, 13, 14, 15, 16];
    let d = [0xA5u8; 16];
    assert_eq!(crossover(&[0xFF; 16], &c, &d), c);
}

#[test]
fn crossover_under_all_zeros_is_the_second_parent() {
    let a = [0xFFu8; 16];
    let b = [0x00u8; 16];
    assert_eq!(crossover(&[0x00; 16], &a, &b), b);
    let c = [1, 2, 3, 4, 5, 6, 7, 8, 9, 10, 11, 12, 13, 14, 15, 16];
    let d = [0xA5u8; 16];
    assert_eq!(crossover(&[0x00; 16], &c, &d), d);
}

#[test]
fn crossover_takes_each_bit_from_the_parent_the_mask_names() {
    // (0xF0 & 0xAA) | (0x0F & 0x55) = 0xA0 | 0x05
    assert_eq!(crossover(&[0xF0; 16], &[0xAA; 16], &[0x55; 16]), [0xA5; 16]);
    // (0x3C & 0x0F) | (0xC3 & 0xF0) = 0x0C | 0xC0
    assert_eq!(crossover(&[0x3C; 16], &[0x0F; 16], &[0xF0; 16]), [0xCC; 16]);
}

#[test]
fn crossover_works_byte_by_byte() {
    let mask = [0xFF, 0x00, 0xF0, 0x0F, 0xAA, 0x55, 0x01, 0x80, 0xFF, 0x00, 0xF0, 0x0F, 0xAA, 0x55, 0x01, 0x80];
    let a = [0x12u8; 16];
    let b = [0xEDu8; 16];
    let expected = [0x12, 0xED, 0x1D, 0xE2, 0x47, 0xB8, 0xEC, 0x6D, 0x12, 0xED, 0x1D, 0xE2, 0x47, 0xB8, 0xEC, 0x6D];
    assert_eq!(crossover(&mask, &a, &b), expected);
}

#[test]
fn crossover_of_equal_parents_is_that_parent() {
    let a = [0x5Au8; 16];
    assert_eq!(crossover(&MASK_32_7_3, &a, &a), a);
}

#[test]
fn breeding_depends_on_the_order_of_the_parents() {
    let r = randomness(&SEED_32, Some(3));
    let a = kitty([0xFF; 16]);
    let b = kitty([0x00; 16]);
    let ab = Pallet::breed_dna(&r, 7, &a, &b);
    let ba = Pallet::breed_dna(&r, 7, &b, &a);
    assert_eq!(ab, MASK_32_7_3);
    assert_eq!(ba, [162, 137, 203, 61, 19, 35, 191, 130, 65, 137, 238, 52, 210, 146, 178, 34]);
    assert_ne!(ab, ba);
}

#[test]
fn breed_dna_crosses_the_parents_under_the_hashed_mask() {
    let r = randomness(b"seed", None);
    let who = 0x0102030405060708;
    let a = kitty([1, 2, 3, 4, 5, 6, 7, 8, 9, 10, 11, 12, 13, 14, 15, 16]);
    let b = kitty([0xC3; 16]);
    let mask = Pallet::random_value(&r, who);
    let child = Pallet::breed_dna(&r, who, &a, &b);
    assert_eq!(child, crossover(&mask, &a.dna, &b.dna));
    for i in 0..16 {
        assert_eq!(child[i], (mask[i] & a.dna[i]) | (!mask[i] & b.dna[i]));
    }
}

#[test]
fn gender_is_the_draw_modulo_two() {
    assert_eq!(Pallet::gen_gender(0), Gender::Male);
    assert_eq!(Pallet::gen_gender(1), Gender::Female);
    assert_eq!(Pallet::gen_gender(2), Gender::Male);
    assert_eq!(Pallet::gen_gender(254), Gender::Male);
    assert_eq!(Pallet::gen_gender(255), Gender::Female);
}
