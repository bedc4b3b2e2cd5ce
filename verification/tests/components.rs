use kitties::genesis::GenesisConfig;
use kitties::owned::{position, KittiesOwned, KITTIES_OWNED_LIMIT};
use kitties::pallet::{Config, Pallet};
use kitties::registry::Kitties;
use kitties::types::{Error, Gender, Kitty, LedgerReply};

const MAX_KITTY_OWNED: u32 = 6;

fn kitty(owner: u64, tag: u8) -> Kitty {
    Kitty { dna: [tag; 16], price: None, gender: Gender::Male, owner }
}

#[test]
fn registry_get_on_a_missing_identifier_is_none() {
    let r = Kitties::new();
    assert_eq!(r.get(0), None);
    assert!(!r.contains(0));
}

#[test]
fn registry_insert_then_get() {
    let mut r = Kitties::new();
    assert_eq!(r.insert(4, kitty(1, 7)), Ok(()));
    assert_eq!(r.get(4), Some(kitty(1, 7)));
    assert!(r.contains(4));
    assert_eq!(r.get(5), None);
}

#[test]
fn registry_insert_under_an_identifier_in_use_fails() {
    let mut r = Kitties::new();
    r.insert(4, kitty(1, 7)).unwrap();
    assert_eq!(r.insert(4, kitty(2, 8)), Err(Error::KittyAlreadyExists));
    assert_eq!(r.get(4), Some(kitty(1, 7)));
}

#[test]
fn registry_set_price_and_owner_need_the_kitty() {
    let mut r = Kitties::new();
    assert_eq!(r.set_price(4, Some(1)), Err(Error::InvalidKittyIndex));
    assert_eq!(r.set_owner(4, 9), Err(Error::InvalidKittyIndex));
    assert_eq!(r.get(4), None);
    r.insert(4, kitty(1, 7)).unwrap();
    assert_eq!(r.set_price(4, Some(12)), Ok(()));
    assert_eq!(r.set_owner(4, 9), Ok(()));
    assert_eq!(
        r.get(4),
        Some(Kitty { dna: [7; 16], price: Some(12), gender: Gender::Male, owner: 9 })
    );
    assert_eq!(r.set_price(4, None), Ok(()));
    assert_eq!(r.get(4).unwrap().price, None);
}

#[test]
fn position_finds_the_first_occurrence() {
    assert_eq!(position(&[5, 6, 7, 6], 6), Some(1));
    assert_eq!(position(&[5, 6, 7, 6], 5), Some(0));
    assert_eq!(position(&[5, 6, 7, 6], 8), None);
    assert_eq!(position(&[], 8), None);
}

#[test]
fn index_add_appends_in_order() {
    let mut index = KittiesOwned::new(MAX_KITTY_OWNED);
    assert_eq!(index.owned_by(1), Vec::<u64>::new());
    assert_eq!(index.count(1), 0);
    assert_eq!(index.add(1, 30), Ok(()));
    assert_eq!(index.add(1, 10), Ok(()));
    assert_eq!(index.add(2, 20), Ok(()));
    assert_eq!(index.owned_by(1), vec![30, 10]);
    assert_eq!(index.owned_by(2), vec![20]);
    assert_eq!(index.count(1), 2);
    assert!(index.holds(1, 10));
    assert!(!index.holds(2, 10));
    assert!(!index.holds(3, 10));
    assert!(!index.is_full(1));
}

#[test]
fn index_add_fails_at_the_maximum() {
    let mut index = KittiesOwned::new(MAX_KITTY_OWNED);
    for id in 0..MAX_KITTY_OWNED as u64 {
        assert!(!index.is_full(1));
        assert_eq!(index.add(1, id), Ok(()));
    }
    assert!(index.is_full(1));
    assert_eq!(index.count(1), MAX_KITTY_OWNED as usize);
    let before = index.owned_by(1);
    assert_eq!(index.add(1, 1000), Err(Error::ExceedMaxKittyOwned));
    assert_eq!(index.owned_by(1), before);
    assert!(!index.holds(1, 1000));
    assert_eq!(index.add(2, 1000), Ok(()));
}

#[test]
fn index_remove_closes_the_gap() {
    let mut index = KittiesOwned::new(MAX_KITTY_OWNED);
    for id in [3, 1, 4, 1, 5] {
        index.add(7, id).unwrap();
    }
    assert!(index.remove(7, 4));
    assert_eq!(index.owned_by(7), vec![3, 1, 1, 5]);
    assert!(index.remove(7, 1));
    assert_eq!(index.owned_by(7), vec![3, 1, 5]);
    assert!(!index.remove(7, 9));
    assert!(!index.remove(8, 3));
    assert_eq!(index.owned_by(7), vec![3, 1, 5]);
    assert!(index.remove(7, 3));
    assert!(index.remove(7, 5));
    assert!(index.remove(7, 1));
    assert_eq!(index.owned_by(7), Vec::<u64>::new());
    assert!(!index.remove(7, 1));
}

#[test]
fn index_transfer_moves_to_the_end_of_the_receivers_list() {
    let mut index = KittiesOwned::new(MAX_KITTY_OWNED);
    index.add(1, 10).unwrap();
    index.add(1, 11).unwrap();
    index.add(2, 20).unwrap();
    assert_eq!(index.transfer(1, 2, 10), Ok(()));
    assert_eq!(index.owned_by(1), vec![11]);
    assert_eq!(index.owned_by(2), vec![20, 10]);
    assert_eq!(index.transfer(1, 2, 10), Err(Error::NotKittyOwner));
    assert_eq!(index.transfer(3, 2, 10), Err(Error::NotKittyOwner));
    assert_eq!(index.owned_by(1), vec![11]);
    assert_eq!(index.owned_by(2), vec![20, 10]);
    // within one account the kitty moves to the end
    assert_eq!(index.transfer(2, 2, 20), Ok(()));
    assert_eq!(index.owned_by(2), vec![10, 20]);
}

#[test]
fn index_transfer_to_a_full_account_leaves_both_sides_alone() {
    let mut index = KittiesOwned::new(MAX_KITTY_OWNED);
    for id in 0..MAX_KITTY_OWNED as u64 {
        index.add(1, id).unwrap();
    }
    index.add(2, 500).unwrap();
    let full = index.owned_by(1);
    assert_eq!(index.transfer(2, 1, 500), Err(Error::ExceedMaxKittyOwned));
    assert_eq!(index.owned_by(1), full);
    assert_eq!(index.owned_by(2), vec![500]);
    // a full account can still reorder its own
    assert_eq!(index.transfer(1, 1, 0), Ok(()));
    assert_eq!(index.count(1), MAX_KITTY_OWNED as usize);
    assert_eq!(index.owned_by(1).last(), Some(&0));
    assert_eq!(index.owned_by(1).first(), Some(&1));
}

#[test]
fn genesis_default_preloads_nothing() {
    let mut p = Pallet::new(Config::default());
    GenesisConfig::default().build(&mut p);
    assert_eq!(p.kitties_count(), 0);
    assert_eq!(p.kitties(0), None);
}

#[test]
fn genesis_mints_the_configured_kitties_in_order() {
    let mut p = Pallet::new(Config { kitty_deposit_base: 5, first_kitty_index: 0, max_kitty_owned: 100 });
    let genesis = GenesisConfig {
        kitties: vec![(1, [1; 16], Gender::Male), (2, [2; 16], Gender::Female), (1, [3; 16], Gender::Female)],
    };
    genesis.build(&mut p);
    assert_eq!(p.kitties_count(), 3);
    assert_eq!(p.kitties(0), Some(Kitty { dna: [1; 16], price: None, gender: Gender::Male, owner: 1 }));
    assert_eq!(p.kitties(1), Some(Kitty { dna: [2; 16], price: None, gender: Gender::Female, owner: 2 }));
    assert_eq!(p.kitties(2), Some(Kitty { dna: [3; 16], price: None, gender: Gender::Female, owner: 1 }));
    assert_eq!(p.kitties_owned(1), vec![0, 2]);
    assert_eq!(p.kitties_owned(2), vec![1]);
}

#[test]
fn genesis_passes_over_what_cannot_be_minted() {
    let mut p = Pallet::new(Config {
        kitty_deposit_base: 0,
        first_kitty_index: 0,
        max_kitty_owned: MAX_KITTY_OWNED,
    });
    let mut kitties = vec![(1u64, [0u8; 16], Gender::Male); MAX_KITTY_OWNED as usize + 2];
    kitties.push((2, [9; 16], Gender::Female));
    GenesisConfig { kitties }.build(&mut p);
    assert_eq!(p.kitties_owned(1).len(), MAX_KITTY_OWNED as usize);
    assert_eq!(p.kitties_count(), MAX_KITTY_OWNED as u64 + 1);
    assert_eq!(p.kitties_owned(2), vec![MAX_KITTY_OWNED as u64]);
    assert_eq!(p.kitties(MAX_KITTY_OWNED as u64).map(|k| k.owner), Some(2));
}

#[test]
fn the_ledgers_answers_amount_to_these_errors() {
    assert_eq!(LedgerReply::Done.error(), None);
    assert_eq!(LedgerReply::ReserveRefused.error(), Some(Error::InsufficientBalance));
    assert_eq!(LedgerReply::TransferRefused.error(), Some(Error::PaymentRefused));
}

#[test]
fn index_keeps_the_maximum_it_was_made_with() {
    assert_eq!(KittiesOwned::new(0).max_owned(), 0);
    assert_eq!(KittiesOwned::new(1).max_owned(), 1);
    assert_eq!(KittiesOwned::new(KITTIES_OWNED_LIMIT).max_owned(), KITTIES_OWNED_LIMIT);
    assert_eq!(KittiesOwned::new(KITTIES_OWNED_LIMIT + 1).max_owned(), KITTIES_OWNED_LIMIT);
    let mut index = KittiesOwned::new(1);
    assert_eq!(index.add(9, 1), Ok(()));
    assert!(index.is_full(9));
    assert_eq!(index.add(9, 2), Err(Error::ExceedMaxKittyOwned));
    assert_eq!(index.owned_by(9), vec![1]);
    assert_eq!(index.max_owned(), 1);
}
