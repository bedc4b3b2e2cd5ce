//! The lifecycle as a state machine over mathematical values: what a request
//! does to the registry, the ownership index and the counter, and what holds of
//! every state that requests can lead to.

use crate::dna::{combine, fresh_dna, gender_of};
use crate::owned::KITTIES_OWNED_LIMIT;
use crate::types::{
    AccountId, Balance, Call, Error, Event, Gender, KittyIndex, KittyView, LedgerCall,
    LedgerReply, RandomnessView,
};
use vstd::prelude::*;

verus! {

/// Everything the registry keeps between requests.
pub struct State {
    /// The next identifier. It only ever grows, by one with each kitty minted.
    pub count: KittyIndex,
    /// The record of every kitty, by identifier.
    pub kitties: Map<KittyIndex, KittyView>,
    /// For every account the kitties it owns, oldest acquisition first.
    pub owned: Map<AccountId, Seq<KittyIndex>>,
    /// The deposit that minting and buying reserve.
    pub deposit: Balance,
    /// The most kitties that one account may own.
    pub max_owned: u32,
}

/// A request together with all that the host supplies for it.
pub struct Input {
    /// The authenticated caller.
    pub origin: AccountId,
    pub call: Call,
    pub randomness: RandomnessView,
    /// The ledger's answer to [`ledger_calls`].
    pub ledger: LedgerReply,
}

impl State {
    /// The state before anything was minted, with the identifier that the
    /// first kitty will get.
    pub open spec fn initial(first: KittyIndex, deposit: Balance, max_owned: u32) -> State {
        State {
            count: first,
            kitties: Map::empty(),
            owned: Map::total(|a: AccountId| Seq::<KittyIndex>::empty()),
            deposit,
            max_owned,
        }
    }

    /// Whether a kitty with this identifier exists.
    pub open spec fn registered(self, id: KittyIndex) -> bool {
        self.kitties.dom().contains(id)
    }

    /// Whether the kitty exists and `who` is its owner.
    pub open spec fn owns(self, who: AccountId, id: KittyIndex) -> bool {
        self.registered(id) && self.kitties[id].owner == who
    }

    /// Whether `who` owns as many kitties as one account may.
    pub open spec fn full(self, who: AccountId) -> bool {
        self.owned[who].len() >= self.max_owned
    }

    /// What every reachable state satisfies: the identifiers in use are all
    /// below the counter; the registry's owner of a kitty is the one account
    /// whose list holds it; no list holds a kitty twice or more kitties than
    /// one account may own, which is no more than a list can hold.
    pub open spec fn wf(self) -> bool {
        &&& self.max_owned <= KITTIES_OWNED_LIMIT
        &&& forall|a: AccountId| #[trigger] self.owned.dom().contains(a)
        &&& forall|id: KittyIndex| #[trigger] self.registered(id) ==> id < self.count
        &&& forall|id: KittyIndex| #[trigger]
            self.registered(id) ==> self.owned[self.kitties[id].owner].contains(id)
        &&& forall|a: AccountId, i: int|
            0 <= i < self.owned[a].len() ==> self.owns(a, #[trigger] self.owned[a][i])
        &&& forall|a: AccountId| #[trigger] self.owned[a].no_duplicates()
        &&& forall|a: AccountId| #[trigger] self.owned[a].len() <= self.max_owned
    }

    /// The state after a kitty was minted for `owner` under the next identifier.
    pub open spec fn minted(self, owner: AccountId, dna: Seq<u8>, gender: Gender) -> State {
        State {
            count: (self.count + 1) as KittyIndex,
            kitties: self.kitties.insert(
                self.count,
                KittyView { dna, price: None, gender, owner },
            ),
            owned: self.owned.insert(owner, self.owned[owner].push(self.count)),
            deposit: self.deposit,
            max_owned: self.max_owned,
        }
    }

    /// The state after kitty `id` passed to `to`: it leaves its owner's list,
    /// joins the end of `to`'s, and is no longer for sale.
    pub open spec fn moved(self, id: KittyIndex, to: AccountId) -> State {
        let kitty = self.kitties[id];
        let without = self.owned.insert(kitty.owner, self.owned[kitty.owner].remove_value(id));
        State {
            count: self.count,
            kitties: self.kitties.insert(id, KittyView { owner: to, price: None, ..kitty }),
            owned: without.insert(to, without[to].push(id)),
            deposit: self.deposit,
            max_owned: self.max_owned,
        }
    }

    /// The state after kitty `id` was listed at `price`, or delisted.
    pub open spec fn priced(self, id: KittyIndex, price: Option<Balance>) -> State {
        State {
            count: self.count,
            kitties: self.kitties.insert(id, KittyView { price, ..self.kitties[id] }),
            owned: self.owned,
            deposit: self.deposit,
            max_owned: self.max_owned,
        }
    }
}

/// Why nothing can be minted for `owner`, if so.
pub open spec fn mint_refusal(s: State, owner: AccountId) -> Option<Error> {
    if s.count == KittyIndex::MAX {
        Some(Error::KittiesCountOverflow)
    } else if s.full(owner) {
        Some(Error::ExceedMaxKittyOwned)
    } else {
        None
    }
}

/// Why the registry turns the request down, if it does, whatever the ledger
/// and the randomness are. The checks are made in the order written.
pub open spec fn refusal(s: State, origin: AccountId, call: Call) -> Option<Error> {
    match call {
        Call::Create => mint_refusal(s, origin),
        Call::Transfer { new_owner, kitty_id } => {
            if !s.owns(origin, kitty_id) {
                Some(Error::NotKittyOwner)
            } else if new_owner == origin {
                Some(Error::TransferToSelf)
            } else if s.full(new_owner) {
                Some(Error::ExceedMaxKittyOwned)
            } else {
                None
            }
        },
        Call::Breed { kitty_id1, kitty_id2 } => {
            if kitty_id1 == kitty_id2 {
                Some(Error::SameParentIndex)
            } else if !s.registered(kitty_id1) || !s.registered(kitty_id2) {
                Some(Error::InvalidKittyIndex)
            } else {
                mint_refusal(s, origin)
            }
        },
        Call::SellKitty { kitty_id, price } => {
            if !s.owns(origin, kitty_id) {
                Some(Error::NotKittyOwner)
            } else {
                None
            }
        },
        Call::BuyKitty { kitty_id } => {
            if !s.registered(kitty_id) {
                Some(Error::InvalidKittyIndex)
            } else if s.kitties[kitty_id].owner == origin {
                Some(Error::BuyFromSelf)
            } else if s.kitties[kitty_id].price is None {
                Some(Error::KittyNotForSale)
            } else if s.full(origin) {
                Some(Error::ExceedMaxKittyOwned)
            } else {
                None
            }
        },
    }
}

/// What the host's ledger is to carry out, in this order and as a unit, before
/// a request that the registry does not turn down takes effect. Minting
/// reserves the deposit; buying moves the deposit from the seller's shoulders
/// to the buyer's and pays the asking price, keeping the buyer's account alive.
pub open spec fn ledger_calls(s: State, origin: AccountId, call: Call) -> Seq<LedgerCall> {
    match call {
        Call::Create => seq![LedgerCall::Reserve { who: origin, amount: s.deposit }],
        Call::BuyKitty { kitty_id } => {
            let kitty = s.kitties[kitty_id];
            seq![
                LedgerCall::Reserve { who: origin, amount: s.deposit },
                LedgerCall::Unreserve { who: kitty.owner, amount: s.deposit },
                LedgerCall::Transfer {
                    from: origin,
                    to: kitty.owner,
                    amount: kitty.price->Some_0,
                    keep_alive: true,
                },
            ]
        },
        _ => Seq::empty(),
    }
}

/// The error that an answer of the ledger amounts to.
pub open spec fn reply_error(reply: LedgerReply) -> Option<Error> {
    match reply {
        LedgerReply::Done => None,
        LedgerReply::ReserveRefused => Some(Error::InsufficientBalance),
        LedgerReply::TransferRefused => Some(Error::PaymentRefused),
    }
}

/// The error that the ledger's answer to `calls` amounts to. A request that
/// asked nothing of the ledger cannot fail on its account.
pub open spec fn ledger_refusal(calls: Seq<LedgerCall>, reply: LedgerReply) -> Option<Error> {
    if calls.len() == 0 {
        None
    } else {
        reply_error(reply)
    }
}

/// The attributes of the kitty that a minting request brings about.
pub open spec fn minted_dna(s: State, origin: AccountId, call: Call, r: RandomnessView) -> Seq<u8> {
    let fresh = fresh_dna(r.seed, origin, r.extrinsic_index);
    match call {
        Call::Breed { kitty_id1, kitty_id2 } => combine(
            fresh,
            s.kitties[kitty_id1].dna,
            s.kitties[kitty_id2].dna,
        ),
        _ => fresh,
    }
}

/// The state after a request that was not refused.
pub open spec fn applied(s: State, i: Input) -> State {
    match i.call {
        Call::Create | Call::Breed { .. } => s.minted(
            i.origin,
            minted_dna(s, i.origin, i.call, i.randomness),
            gender_of(i.randomness.gender_draw),
        ),
        Call::Transfer { new_owner, kitty_id } => s.moved(kitty_id, new_owner),
        Call::SellKitty { kitty_id, price } => s.priced(kitty_id, price),
        Call::BuyKitty { kitty_id } => s.moved(kitty_id, i.origin),
    }
}

/// What is announced after a request that was not refused.
pub open spec fn announced(s: State, i: Input) -> Event {
    match i.call {
        Call::Create | Call::Breed { .. } => Event::Created(i.origin, s.count),
        Call::Transfer { new_owner, kitty_id } => Event::Transferred(i.origin, new_owner, kitty_id),
        Call::SellKitty { kitty_id, price } => Event::PriceSet(i.origin, kitty_id, price),
        Call::BuyKitty { kitty_id } => Event::Transferred(
            s.kitties[kitty_id].owner,
            i.origin,
            kitty_id,
        ),
    }
}

/// Why the request fails, if it does: the registry's own checks come first,
/// the ledger's answer after them.
pub open spec fn failure(s: State, i: Input) -> Option<Error> {
    match refusal(s, i.origin, i.call) {
        Some(e) => Some(e),
        None => ledger_refusal(ledger_calls(s, i.origin, i.call), i.ledger),
    }
}

/// One request: the state it leaves and what it returns.
pub open spec fn step(s: State, i: Input) -> (State, Result<Event, Error>) {
    match failure(s, i) {
        Some(e) => (s, Err(e)),
        None => (applied(s, i), Ok(announced(s, i))),
    }
}

/// The state after a sequence of requests, served in order.
pub open spec fn run(s: State, inputs: Seq<Input>) -> State
    decreases inputs.len(),
{
    if inputs.len() == 0 {
        s
    } else {
        step(run(s, inputs.drop_last()), inputs.last()).0
    }
}

} // verus!
