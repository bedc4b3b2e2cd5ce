use kitties::pallet::{Config, Pallet};
use kitties::types::{Call, Error, Event, Gender, Kitty, KittyIndex, LedgerCall, LedgerReply};

const SELLER: u64 = 11;
const BUYER: u64 = 22;
const OTHER: u64 = 33;

fn market() -> Pallet {
    let mut p = Pallet::new(Config { kitty_deposit_base: 25, first_kitty_index: 0, max_kitty_owned: 100 });
    p.mint(SELLER, [1; 16], Gender::Male).unwrap();
    p.mint(SELLER, [2; 16], Gender::Female).unwrap();
    p.mint(BUYER, [3; 16], Gender::Male).unwrap();
    p
}

fn state(p: &Pallet) -> (KittyIndex, Vec<Option<Kitty>>, Vec<Vec<KittyIndex>>) {
    let kitties = (0..5).map(|id| p.kitties(id)).collect();
    let owned = [SELLER, BUYER, OTHER].iter().map(|who| p.kitties_owned(*who)).collect();
    (p.kitties_count(), kitties, owned)
}

#[test]
fn listing_sets_the_price_and_moves_no_funds() {
    let mut p = market();
    assert_eq!(p.plan(SELLER, &Call::SellKitty { kitty_id: 0, price: Some(700) }), Ok(vec![]));
    assert_eq!(p.sell_kitty(SELLER, 0, Some(700)), Ok(Event::PriceSet(SELLER, 0, Some(700))));
    assert_eq!(p.price(0), Some(700));
    assert_eq!(p.owner(0), Some(SELLER));
    assert_eq!(p.price(1), None);
    assert_eq!(p.kitties_owned(SELLER), vec![0, 1]);
}

#[test]
fn a_listing_can_be_repriced_and_withdrawn() {
    let mut p = market();
    p.sell_kitty(SELLER, 0, Some(700)).unwrap();
    assert_eq!(p.sell_kitty(SELLER, 0, Some(0)), Ok(Event::PriceSet(SELLER, 0, Some(0))));
    assert_eq!(p.kitties(0).unwrap().price, Some(0));
    assert_eq!(p.sell_kitty(SELLER, 0, None), Ok(Event::PriceSet(SELLER, 0, None)));
    assert_eq!(p.kitties(0).unwrap().price, None);
    assert_eq!(p.buy_kitty(BUYER, 0, LedgerReply::Done), Err(Error::KittyNotForSale));
}

#[test]
fn only_the_owner_can_list() {
    let mut p = market();
    let before = state(&p);
    assert_eq!(p.sell_kitty(BUYER, 0, Some(1)), Err(Error::NotKittyOwner));
    assert_eq!(p.sell_kitty(BUYER, 0, None), Err(Error::NotKittyOwner));
    assert_eq!(p.sell_kitty(SELLER, 4, Some(1)), Err(Error::NotKittyOwner));
    assert_eq!(state(&p), before);
}

#[test]
fn buying_an_unlisted_kitty_fails_with_not_for_sale() {
    let mut p = market();
    let before = state(&p);
    assert_eq!(p.plan(BUYER, &Call::BuyKitty { kitty_id: 0 }), Err(Error::KittyNotForSale));
    assert_eq!(p.buy_kitty(BUYER, 0, LedgerReply::Done), Err(Error::KittyNotForSale));
    assert_eq!(p.buy_kitty(BUYER, 0, LedgerReply::ReserveRefused), Err(Error::KittyNotForSale));
    assert_eq!(state(&p), before);
}

#[test]
fn buying_a_kitty_that_does_not_exist_fails() {
    let mut p = market();
    let before = state(&p);
    assert_eq!(p.buy_kitty(BUYER, 4, LedgerReply::Done), Err(Error::InvalidKittyIndex));
    assert_eq!(p.plan(BUYER, &Call::BuyKitty { kitty_id: 4 }), Err(Error::InvalidKittyIndex));
    assert_eq!(state(&p), before);
}

#[test]
fn buying_ones_own_kitty_fails_listed_or_not() {
    let mut p = market();
    assert_eq!(p.buy_kitty(SELLER, 0, LedgerReply::Done), Err(Error::BuyFromSelf));
    p.sell_kitty(SELLER, 0, Some(9)).unwrap();
    let before = state(&p);
    assert_eq!(p.buy_kitty(SELLER, 0, LedgerReply::Done), Err(Error::BuyFromSelf));
    assert_eq!(state(&p), before);
}

#[test]
fn buying_asks_the_ledger_for_deposit_release_and_payment() {
    let mut p = market();
    p.sell_kitty(SELLER, 1, Some(700)).unwrap();
    assert_eq!(
        p.plan(BUYER, &Call::BuyKitty { kitty_id: 1 }),
        Ok(vec![
            LedgerCall::Reserve { who: BUYER, amount: 25 },
            LedgerCall::Unreserve { who: SELLER, amount: 25 },
            LedgerCall::Transfer { from: BUYER, to: SELLER, amount: 700, keep_alive: true },
        ])
    );
    // planning changes nothing
    assert_eq!(p.price(1), Some(700));
    assert_eq!(p.owner(1), Some(SELLER));
}

#[test]
fn listing_then_buying_clears_the_price_and_moves_ownership() {
    let mut p = market();
    p.sell_kitty(SELLER, 0, Some(700)).unwrap();
    assert_eq!(p.buy_kitty(BUYER, 0, LedgerReply::Done), Ok(Event::Transferred(SELLER, BUYER, 0)));
    assert_eq!(
        p.kitties(0),
        Some(Kitty { dna: [1; 16], price: None, gender: Gender::Male, owner: BUYER })
    );
    assert_eq!(p.kitties_owned(SELLER), vec![1]);
    assert_eq!(p.kitties_owned(BUYER), vec![2, 0]);
    assert_eq!(p.kitties_count(), 3);
    // it is not for sale any more, also not to its previous owner
    assert_eq!(p.buy_kitty(SELLER, 0, LedgerReply::Done), Err(Error::KittyNotForSale));
    assert_eq!(p.buy_kitty(OTHER, 0, LedgerReply::Done), Err(Error::KittyNotForSale));
}

#[test]
fn buying_without_funds_for_the_deposit_changes_nothing() {
    let mut p = market();
    p.sell_kitty(SELLER, 0, Some(700)).unwrap();
    let before = state(&p);
    assert_eq!(
        p.buy_kitty(BUYER, 0, LedgerReply::ReserveRefused),
        Err(Error::InsufficientBalance)
    );
    assert_eq!(state(&p), before);
    assert_eq!(p.price(0), Some(700));
    assert_eq!(p.owner(0), Some(SELLER));
}

#[test]
fn buying_without_funds_for_the_price_changes_nothing() {
    let mut p = market();
    p.sell_kitty(SELLER, 0, Some(700)).unwrap();
    let before = state(&p);
    assert_eq!(p.buy_kitty(BUYER, 0, LedgerReply::TransferRefused), Err(Error::PaymentRefused));
    assert_eq!(state(&p), before);
    // the sale still goes through once the ledger consents
    assert_eq!(p.buy_kitty(BUYER, 0, LedgerReply::Done), Ok(Event::Transferred(SELLER, BUYER, 0)));
}

#[test]
fn a_kitty_can_be_sold_on() {
    let mut p = market();
    p.sell_kitty(SELLER, 0, Some(700)).unwrap();
    p.buy_kitty(BUYER, 0, LedgerReply::Done).unwrap();
    assert_eq!(p.sell_kitty(SELLER, 0, Some(1)), Err(Error::NotKittyOwner));
    p.sell_kitty(BUYER, 0, Some(900)).unwrap();
    assert_eq!(p.buy_kitty(OTHER, 0, LedgerReply::Done), Ok(Event::Transferred(BUYER, OTHER, 0)));
    assert_eq!(p.kitties_owned(OTHER), vec![0]);
    assert_eq!(p.kitties_owned(BUYER), vec![2]);
}

#[test]
fn a_purchase_announces_the_passing_from_seller_to_buyer() {
    let mut p = market();
    p.sell_kitty(SELLER, 1, Some(40)).unwrap();
    // seller first, then buyer, then the kitty: the same announcement as for a gift
    assert_eq!(p.buy_kitty(BUYER, 1, LedgerReply::Done), Ok(Event::Transferred(SELLER, BUYER, 1)));
    assert_eq!(p.transfer(BUYER, OTHER, 1), Ok(Event::Transferred(BUYER, OTHER, 1)));
}

#[test]
fn a_buyer_without_room_is_turned_down_before_the_ledger_is_asked() {
    let mut p = Pallet::new(Config { kitty_deposit_base: 25, first_kitty_index: 0, max_kitty_owned: 1 });
    p.mint(SELLER, [1; 16], Gender::Male).unwrap();
    p.mint(BUYER, [2; 16], Gender::Male).unwrap();
    p.sell_kitty(SELLER, 0, Some(5)).unwrap();
    let before = state(&p);
    assert_eq!(p.plan(BUYER, &Call::BuyKitty { kitty_id: 0 }), Err(Error::ExceedMaxKittyOwned));
    assert_eq!(p.buy_kitty(BUYER, 0, LedgerReply::Done), Err(Error::ExceedMaxKittyOwned));
    assert_eq!(state(&p), before);
    assert_eq!(p.buy_kitty(OTHER, 0, LedgerReply::Done), Ok(Event::Transferred(SELLER, OTHER, 0)));
}
