//! The pallet: the registry, the ownership index and the counter behind the
//! five requests of the lifecycle.
//!
//! The balance ledger is the host's. A request that involves it is served in
//! two steps: [`Pallet::plan`] says what the ledger is to do, the host has it
//! done as a unit, and the request itself takes the ledger's answer.

use crate::dna::gender_of;
use crate::laws::{lemma_initial_wf, lemma_minted_wf, lemma_moved_wf, lemma_priced_wf};
use crate::model::{
    ledger_calls, ledger_refusal, mint_refusal, minted_dna, refusal, reply_error, step, Input,
    State,
};
use crate::owned::{max_in_force, KittiesOwned, KITTIES_OWNED_LIMIT};
use crate::registry::Kitties;
use crate::types::{
    AccountId, Balance, Call, Error, Event, Gender, Kitty, KittyIndex, LedgerCall, LedgerReply,
    Randomness, FIRST_KITTY_INDEX,
};
use vstd::prelude::*;

verus! {

/// What the host settles once, when it sets the pallet up.
pub struct Config {
    /// The deposit that creating and buying a kitty reserve from the caller.
    /// With zero nothing is held.
    pub kitty_deposit_base: Balance,
    /// The identifier of the first kitty.
    pub first_kitty_index: KittyIndex,
    /// The most kitties that one account may own. A maximum above
    /// [`KITTIES_OWNED_LIMIT`] counts as that limit.
    pub max_kitty_owned: u32,
}

impl Default for Config {
    /// No deposit, identifiers from [`FIRST_KITTY_INDEX`], and as many
    /// kitties per account as a list can hold.
    fn default() -> (config: Config)
        ensures
            config.kitty_deposit_base == 0,
            config.first_kitty_index == FIRST_KITTY_INDEX,
            config.max_kitty_owned == KITTIES_OWNED_LIMIT,
    {
        Config {
            kitty_deposit_base: 0,
            first_kitty_index: FIRST_KITTY_INDEX,
            max_kitty_owned: KITTIES_OWNED_LIMIT,
        }
    }
}

/// All that is kept between requests.
pub struct Pallet {
    kitties_count: KittyIndex,
    kitties: Kitties,
    kitties_owned: KittiesOwned,
    kitty_deposit_base: Balance,
}

impl View for Pallet {
    type V = State;

    closed spec fn view(&self) -> State {
        State {
            count: self.kitties_count,
            kitties: self.kitties@,
            owned: self.kitties_owned@,
            deposit: self.kitty_deposit_base,
            max_owned: self.kitties_owned.max(),
        }
    }
}

impl LedgerReply {
    /// The error that this answer amounts to: none when the ledger did what
    /// it was asked, `InsufficientBalance` when it could not reserve the
    /// deposit, `PaymentRefused` when it could not move the price.
    pub fn error(self) -> (e: Option<Error>)
        ensures
            e == reply_error(self),
    {
        match self {
            LedgerReply::Done => None,
            LedgerReply::ReserveRefused => Some(Error::InsufficientBalance),
            LedgerReply::TransferRefused => Some(Error::PaymentRefused),
        }
    }
}

impl Pallet {
    /// The invariants of [`State::wf`] hold of what the pallet keeps.
    pub open spec fn wf(&self) -> bool {
        self@.wf()
    }

    /// A pallet in which nothing was minted yet.
    pub fn new(config: Config) -> (pallet: Self)
        ensures
            pallet.wf(),
            pallet@ == State::initial(
                config.first_kitty_index,
                config.kitty_deposit_base,
                max_in_force(config.max_kitty_owned),
            ),
    {
        proof {
            lemma_initial_wf(
                config.first_kitty_index,
                config.kitty_deposit_base,
                max_in_force(config.max_kitty_owned),
            );
        }
        Pallet {
            kitties_count: config.first_kitty_index,
            kitties: Kitties::new(),
            kitties_owned: KittiesOwned::new(config.max_kitty_owned),
            kitty_deposit_base: config.kitty_deposit_base,
        }
    }

    /// The most kitties that one account may own.
    pub fn max_kitty_owned(&self) -> (max: u32)
        ensures
            max == self@.max_owned,
    {
        self.kitties_owned.max_owned()
    }

    /// The counter: the first identifier plus the number of kitties minted.
    pub fn kitties_count(&self) -> (count: KittyIndex)
        ensures
            count == self@.count,
    {
        self.kitties_count
    }

    /// The identifier that the next kitty will get.
    pub fn get_id(&self) -> (id: KittyIndex)
        ensures
            id == self@.count,
    {
        self.kitties_count
    }

    /// The next identifier, unless every identifier has been handed out. The
    /// counter itself moves only when a kitty is minted.
    pub fn next_id(&self) -> (res: Result<KittyIndex, Error>)
        ensures
            self@.count < KittyIndex::MAX ==> res == Ok::<KittyIndex, Error>(self@.count),
            self@.count == KittyIndex::MAX ==> res == Err::<KittyIndex, Error>(
                Error::KittiesCountOverflow,
            ),
    {
        if self.kitties_count == KittyIndex::MAX {
            Err(Error::KittiesCountOverflow)
        } else {
            Ok(self.kitties_count)
        }
    }

    /// The deposit that minting and buying reserve.
    pub fn kitty_deposit_base(&self) -> (deposit: Balance)
        ensures
            deposit == self@.deposit,
    {
        self.kitty_deposit_base
    }

    /// The record of kitty `id`, or `None` where there is no such kitty.
    pub fn kitties(&self, id: KittyIndex) -> (found: Option<Kitty>)
        ensures
            found is Some <==> self@.registered(id),
            found matches Some(kitty) ==> kitty@ == self@.kitties[id],
    {
        self.kitties.get(id)
    }

    /// The owner of kitty `id`, or `None` where there is no such kitty.
    pub fn owner(&self, id: KittyIndex) -> (found: Option<AccountId>)
        ensures
            found is Some <==> self@.registered(id),
            found matches Some(who) ==> who == self@.kitties[id].owner,
    {
        match self.kitties.get(id) {
            Some(kitty) => Some(kitty.owner),
            None => None,
        }
    }

    /// The asking price of kitty `id`; `None` where it is not for sale or
    /// there is no such kitty.
    pub fn price(&self, id: KittyIndex) -> (found: Option<Balance>)
        ensures
            found == if self@.registered(id) {
                self@.kitties[id].price
            } else {
                None
            },
    {
        match self.kitties.get(id) {
            Some(kitty) => kitty.price,
            None => None,
        }
    }

    /// The kitties of `who`, oldest acquisition first.
    pub fn kitties_owned(&self, who: AccountId) -> (ids: Vec<KittyIndex>)
        ensures
            ids@ == self@.owned[who],
    {
        self.kitties_owned.owned_by(who)
    }

    /// Why nothing can be minted for `owner`, if so.
    fn mint_refusal(&self, owner: AccountId) -> (e: Option<Error>)
        ensures
            e == mint_refusal(self@, owner),
    {
        if self.kitties_count == KittyIndex::MAX {
            Some(Error::KittiesCountOverflow)
        } else if self.kitties_owned.is_full(owner) {
            Some(Error::ExceedMaxKittyOwned)
        } else {
            None
        }
    }

    /// Whether `who` owns kitty `id`.
    fn owns(&self, who: AccountId, id: KittyIndex) -> (yes: bool)
        ensures
            yes == self@.owns(who, id),
    {
        match self.kitties.get(id) {
            Some(kitty) => kitty.owner == who,
            None => false,
        }
    }

    /// Why the pallet turns the request down, if it does, whatever the ledger
    /// and the randomness are.
    pub fn refusal(&self, origin: AccountId, call: &Call) -> (e: Option<Error>)
        ensures
            e == refusal(self@, origin, *call),
    {
        match *call {
            Call::Create => self.mint_refusal(origin),
            Call::Transfer { new_owner, kitty_id } => {
                if !self.owns(origin, kitty_id) {
                    Some(Error::NotKittyOwner)
                } else if new_owner == origin {
                    Some(Error::TransferToSelf)
                } else if self.kitties_owned.is_full(new_owner) {
                    Some(Error::ExceedMaxKittyOwned)
                } else {
                    None
                }
            },
            Call::Breed { kitty_id1, kitty_id2 } => {
                if kitty_id1 == kitty_id2 {
                    Some(Error::SameParentIndex)
                } else if !self.kitties.contains(kitty_id1) || !self.kitties.contains(kitty_id2) {
                    Some(Error::InvalidKittyIndex)
                } else {
                    self.mint_refusal(origin)
                }
            },
            Call::SellKitty { kitty_id, price } => {
                if !self.owns(origin, kitty_id) {
                    Some(Error::NotKittyOwner)
                } else {
                    None
                }
            },
            Call::BuyKitty { kitty_id } => {
                match self.kitties.get(kitty_id) {
                    None => Some(Error::InvalidKittyIndex),
                    Some(kitty) => {
                        if kitty.owner == origin {
                            Some(Error::BuyFromSelf)
                        } else if kitty.price.is_none() {
                            Some(Error::KittyNotForSale)
                        } else if self.kitties_owned.is_full(origin) {
                            Some(Error::ExceedMaxKittyOwned)
                        } else {
                            None
                        }
                    },
                }
            },
        }
    }

    /// What the host's ledger is to carry out, in this order and as a unit,
    /// before the request is made; or the error of a request that the pallet
    /// turns down whatever the ledger says. Nothing changes.
    pub fn plan(&self, origin: AccountId, call: &Call) -> (res: Result<Vec<LedgerCall>, Error>)
        ensures
            match refusal(self@, origin, *call) {
                Some(e) => res is Err && res->Err_0 == e,
                None => res is Ok && res->Ok_0@ == ledger_calls(self@, origin, *call),
            },
    {
        if let Some(e) = self.refusal(origin, call) {
            return Err(e);
        }
        let mut calls: Vec<LedgerCall> = Vec::new();
        match *call {
            Call::Create => {
                calls.push(LedgerCall::Reserve { who: origin, amount: self.kitty_deposit_base });
            },
            Call::BuyKitty { kitty_id } => {
                match self.kitties.get(kitty_id) {
                    Some(Kitty { owner, price: Some(price), .. }) => {
                        calls.push(
                            LedgerCall::Reserve { who: origin, amount: self.kitty_deposit_base },
                        );
                        calls.push(
                            LedgerCall::Unreserve { who: owner, amount: self.kitty_deposit_base },
                        );
                        calls.push(
                            LedgerCall::Transfer {
                                from: origin,
                                to: owner,
                                amount: price,
                                keep_alive: true,
                            },
                        );
                    },
                    _ => {},
                }
            },
            _ => {},
        }
        Ok(calls)
    }

    /// Records a new kitty for `owner` under the next identifier and returns
    /// the identifier. This fails, and changes nothing, when every identifier
    /// has been handed out, and else when `owner` has no room for one more.
    pub fn mint(&mut self, owner: AccountId, dna: [u8; 16], gender: Gender) -> (res: Result<
        KittyIndex,
        Error,
    >)
        requires
            old(self).wf(),
        ensures
            final(self).wf(),
            match mint_refusal(old(self)@, owner) {
                Some(e) => res == Err::<KittyIndex, Error>(e) && *final(self) == *old(self),
                None => res == Ok::<KittyIndex, Error>(old(self)@.count)
                    && final(self)@ == old(self)@.minted(owner, dna@, gender),
            },
    {
        if let Some(e) = self.mint_refusal(owner) {
            return Err(e);
        }
        let id: KittyIndex = self.kitties_count;
        assert(!self@.registered(id));
        let _ = self.kitties.insert(id, Kitty { dna, price: None, gender, owner });
        let _ = self.kitties_owned.add(owner, id);
        self.kitties_count = id + 1;
        proof {
            lemma_minted_wf(old(self)@, owner, dna@, gender);
        }
        Ok(id)
    }

    /// Hands kitty `id` to `to` and takes it off the market.
    fn pass(&mut self, id: KittyIndex, to: AccountId)
        requires
            old(self).wf(),
            old(self)@.registered(id),
            old(self)@.kitties[id].owner != to,
            !old(self)@.full(to),
        ensures
            final(self).wf(),
            final(self)@ == old(self)@.moved(id, to),
    {
        let from: AccountId = match self.kitties.get(id) {
            Some(kitty) => kitty.owner,
            None => to,
        };
        let _ = self.kitties.set_owner(id, to);
        let _ = self.kitties.set_price(id, None);
        let _ = self.kitties_owned.transfer(from, to, id);
        proof {
            lemma_moved_wf(old(self)@, id, to);
            assert(self@.kitties =~= old(self)@.moved(id, to).kitties);
        }
    }

    /// Mints a kitty for `who` with attributes hashed from the randomness and
    /// a gender drawn from it. `ledger` is the ledger's answer to what
    /// [`Pallet::plan`] asked for this request.
    pub fn create(&mut self, who: AccountId, randomness: &Randomness, ledger: LedgerReply) -> (res:
        Result<Event, Error>)
        requires
            old(self).wf(),
        ensures
            final(self).wf(),
            (final(self)@, res) == step(
                old(self)@,
                (Input { origin: who, call: Call::Create, randomness: randomness@, ledger }),
            ),
            res is Err ==> *final(self) == *old(self),
    {
        let call = Call::Create;
        if let Some(e) = self.refusal(who, &call) {
            return Err(e);
        }
        if let Some(e) = ledger.error() {
            return Err(e);
        }
        let dna: [u8; 16] = Self::random_value(randomness, who);
        let gender = Self::gen_gender(randomness.gender_draw);
        match self.mint(who, dna, gender) {
            Ok(id) => Ok(Event::Created(who, id)),
            Err(e) => Err(e),
        }
    }

    /// Gives kitty `kitty_id` of `who` to `new_owner` and takes it off the
    /// market.
    pub fn transfer(&mut self, who: AccountId, new_owner: AccountId, kitty_id: KittyIndex) -> (res:
        Result<Event, Error>)
        requires
            old(self).wf(),
        ensures
            final(self).wf(),
            match refusal(old(self)@, who, (Call::Transfer { new_owner, kitty_id })) {
                Some(e) => res == Err::<Event, Error>(e) && *final(self) == *old(self),
                None => res == Ok::<Event, Error>(Event::Transferred(who, new_owner, kitty_id))
                    && final(self)@ == old(self)@.moved(kitty_id, new_owner),
            },
    {
        let call = Call::Transfer { new_owner, kitty_id };
        if let Some(e) = self.refusal(who, &call) {
            return Err(e);
        }
        self.pass(kitty_id, new_owner);
        Ok(Event::Transferred(who, new_owner, kitty_id))
    }

    /// Mints a kitty for `who` whose attributes cross those of two existing
    /// kitties under a mask hashed from the randomness. The parents stay as
    /// they are, and `who` need not own them.
    pub fn breed(
        &mut self,
        who: AccountId,
        kitty_id1: KittyIndex,
        kitty_id2: KittyIndex,
        randomness: &Randomness,
    ) -> (res: Result<Event, Error>)
        requires
            old(self).wf(),
        ensures
            final(self).wf(),
            match refusal(old(self)@, who, (Call::Breed { kitty_id1, kitty_id2 })) {
                Some(e) => res == Err::<Event, Error>(e) && *final(self) == *old(self),
                None => res == Ok::<Event, Error>(Event::Created(who, old(self)@.count))
                    && final(self)@ == old(self)@.minted(
                    who,
                    minted_dna(old(self)@, who, (Call::Breed { kitty_id1, kitty_id2 }), randomness@),
                    gender_of(randomness.gender_draw),
                ),
            },
    {
        let call = Call::Breed { kitty_id1, kitty_id2 };
        if let Some(e) = self.refusal(who, &call) {
            return Err(e);
        }
        match (self.kitties.get(kitty_id1), self.kitties.get(kitty_id2)) {
            (Some(kitty1), Some(kitty2)) => {
                let dna: [u8; 16] = Self::breed_dna(randomness, who, &kitty1, &kitty2);
                let gender = Self::gen_gender(randomness.gender_draw);
                match self.mint(who, dna, gender) {
                    Ok(id) => Ok(Event::Created(who, id)),
                    Err(e) => Err(e),
                }
            },
            _ => Err(Error::InvalidKittyIndex),
        }
    }

    /// Lists kitty `kitty_id` of `who` at `price`, or delists it with `None`.
    /// Listing moves no funds.
    pub fn sell_kitty(&mut self, who: AccountId, kitty_id: KittyIndex, price: Option<Balance>) -> (res:
        Result<Event, Error>)
        requires
            old(self).wf(),
        ensures
            final(self).wf(),
            match refusal(old(self)@, who, (Call::SellKitty { kitty_id, price })) {
                Some(e) => res == Err::<Event, Error>(e) && *final(self) == *old(self),
                None => res == Ok::<Event, Error>(Event::PriceSet(who, kitty_id, price))
                    && final(self)@ == old(self)@.priced(kitty_id, price),
            },
    {
        let call = Call::SellKitty { kitty_id, price };
        if let Some(e) = self.refusal(who, &call) {
            return Err(e);
        }
        let _ = self.kitties.set_price(kitty_id, price);
        proof {
            lemma_priced_wf(old(self)@, kitty_id, price);
        }
        Ok(Event::PriceSet(who, kitty_id, price))
    }

    /// Sells the listed kitty `kitty_id` to `who`: it passes from its owner
    /// to `who`, which is what is announced, and is taken off the market. `ledger` is the ledger's answer to what
    /// [`Pallet::plan`] asked for this request; after a refusal nothing
    /// changes and the kitty stays listed.
    pub fn buy_kitty(&mut self, who: AccountId, kitty_id: KittyIndex, ledger: LedgerReply) -> (res:
        Result<Event, Error>)
        requires
            old(self).wf(),
        ensures
            final(self).wf(),
            match refusal(old(self)@, who, (Call::BuyKitty { kitty_id })) {
                Some(e) => res == Err::<Event, Error>(e) && *final(self) == *old(self),
                None => match ledger_refusal(
                    ledger_calls(old(self)@, who, (Call::BuyKitty { kitty_id })),
                    ledger,
                ) {
                    Some(e) => res == Err::<Event, Error>(e) && *final(self) == *old(self),
                    None => res == Ok::<Event, Error>(
                        Event::Transferred(old(self)@.kitties[kitty_id].owner, who, kitty_id),
                    ) && final(self)@ == old(self)@.moved(kitty_id, who),
                },
            },
    {
        let call = Call::BuyKitty { kitty_id };
        if let Some(e) = self.refusal(who, &call) {
            return Err(e);
        }
        if let Some(e) = ledger.error() {
            return Err(e);
        }
        match self.kitties.get(kitty_id) {
            Some(kitty) => {
                self.pass(kitty_id, who);
                Ok(Event::Transferred(kitty.owner, who, kitty_id))
            },
            None => Err(Error::InvalidKittyIndex),
        }
    }

    /// Serves one request of `origin`. `ledger` is the ledger's answer to
    /// what [`Pallet::plan`] asked for it, and is not looked at where the
    /// request asks nothing of the ledger; `randomness` is looked at only by
    /// the requests that mint.
    pub fn dispatch(
        &mut self,
        origin: AccountId,
        call: Call,
        randomness: &Randomness,
        ledger: LedgerReply,
    ) -> (res: Result<Event, Error>)
        requires
            old(self).wf(),
        ensures
            final(self).wf(),
            (final(self)@, res) == step(
                old(self)@,
                (Input { origin, call, randomness: randomness@, ledger }),
            ),
            res is Err ==> *final(self) == *old(self),
    {
        match call {
            Call::Create => self.create(origin, randomness, ledger),
            Call::Transfer { new_owner, kitty_id } => self.transfer(origin, new_owner, kitty_id),
            Call::Breed { kitty_id1, kitty_id2 } => self.breed(
                origin,
                kitty_id1,
                kitty_id2,
                randomness,
            ),
            Call::SellKitty { kitty_id, price } => self.sell_kitty(origin, kitty_id, price),
            Call::BuyKitty { kitty_id } => self.buy_kitty(origin, kitty_id, ledger),
        }
    }
}

} // verus!
