//! What holds of the lifecycle as a whole, proved over the state machine of
//! [`crate::model`].

use crate::dna::{combine, cross};
use crate::model::{
    applied, failure, ledger_calls, mint_refusal, refusal, run, step, Input, State,
};
use crate::owned::KITTIES_OWNED_LIMIT;
use crate::types::{
    AccountId, Balance, Call, Error, Event, Gender, KittyIndex, LedgerCall, LedgerReply,
};
use vstd::prelude::*;

verus! {

/// The bytes of a mask, each with every bit flipped.
pub open spec fn complement(mask: Seq<u8>) -> Seq<u8> {
    Seq::new(mask.len(), |i: int| !mask[i])
}

/// Under a mask of all ones the child is the first parent, under a mask of all
/// zeros it is the second.
pub proof fn lemma_combine_extremes(mask: Seq<u8>, a: Seq<u8>, b: Seq<u8>)
    requires
        mask.len() == 16,
        a.len() == 16,
        b.len() == 16,
    ensures
        (forall|i: int| 0 <= i < 16 ==> mask[i] == 0xff) ==> combine(mask, a, b) == a,
        (forall|i: int| 0 <= i < 16 ==> mask[i] == 0x00) ==> combine(mask, a, b) == b,
{
    assert forall|x: u8, y: u8| #[trigger] cross(0xff, x, y) == x by {
        assert((0xffu8 & x) | (!0xffu8 & y) == x) by (bit_vector);
    }
    assert forall|x: u8, y: u8| #[trigger] cross(0x00, x, y) == y by {
        assert((0x00u8 & x) | (!0x00u8 & y) == y) by (bit_vector);
    }
}

/// Swapping the parents gives the child that the flipped mask gives.
pub proof fn lemma_combine_swapped(mask: Seq<u8>, a: Seq<u8>, b: Seq<u8>)
    requires
        mask.len() == 16,
    ensures
        combine(mask, b, a) == combine(complement(mask), a, b),
{
    assert forall|m: u8, x: u8, y: u8| #[trigger] cross(m, y, x) == cross(!m, x, y) by {
        assert((m & y) | (!m & x) == (!m & x) | (!(!m) & y)) by (bit_vector);
    }
}

/// The order of the parents matters whenever they differ: under one mask, two
/// parents give the same child in both orders only if they are equal.
pub proof fn lemma_combine_asymmetric(mask: Seq<u8>, a: Seq<u8>, b: Seq<u8>)
    requires
        mask.len() == 16,
        a.len() == 16,
        b.len() == 16,
    ensures
        combine(mask, a, b) == combine(mask, b, a) <==> a == b,
{
    if a == b {
    } else if combine(mask, a, b) == combine(mask, b, a) {
        assert forall|i: int| 0 <= i < 16 implies a[i] == b[i] by {
            let m = mask[i];
            let x = a[i];
            let y = b[i];
            assert(combine(mask, b, a)[i] == cross(m, y, x));
            assert((m & x) | (!m & y) == (m & y) | (!m & x) ==> x == y) by (bit_vector);
        }
        assert(a =~= b);
    }
}

/// Appending an item that a duplicate-free list lacks keeps it duplicate-free,
/// and the new list holds exactly the old items and the new one.
proof fn lemma_push_fresh(list: Seq<KittyIndex>, id: KittyIndex)
    requires
        list.no_duplicates(),
        !list.contains(id),
    ensures
        list.push(id).no_duplicates(),
        list.push(id).contains(id),
        forall|x: KittyIndex| list.contains(x) ==> #[trigger] list.push(id).contains(x),
{
    let after = list.push(id);
    assert(after[list.len() as int] == id);
    assert forall|x: KittyIndex| list.contains(x) implies #[trigger] after.contains(x) by {
        let k = choose|k: int| 0 <= k < list.len() && list[k] == x;
        assert(after[k] == x);
    }
}

/// Taking an item out of a duplicate-free list that holds it leaves a
/// duplicate-free list, one shorter, of exactly the other items.
proof fn lemma_remove_value(list: Seq<KittyIndex>, id: KittyIndex)
    requires
        list.no_duplicates(),
        list.contains(id),
    ensures
        list.remove_value(id).no_duplicates(),
        list.remove_value(id).len() == list.len() - 1,
        !list.remove_value(id).contains(id),
        forall|x: KittyIndex|
            x != id && list.contains(x) ==> #[trigger] list.remove_value(id).contains(x),
        forall|i: int|
            0 <= i < list.remove_value(id).len() ==> list.contains(
                #[trigger] list.remove_value(id)[i],
            ),
{
    list.index_of_first_ensures(id);
    let k = list.index_of_first(id)->Some_0;
    let after = list.remove(k);
    list.remove_ensures(k);
    assert forall|i: int| 0 <= i < after.len() implies list.contains(#[trigger] after[i])
        && after[i] != id by {
        assert(after[i] == list[if i < k { i } else { i + 1 }]);
    }
    assert forall|x: KittyIndex| x != id && list.contains(x) implies #[trigger] after.contains(x) by {
        let j = choose|j: int| 0 <= j < list.len() && list[j] == x;
        if j < k {
            assert(after[j] == x);
        } else {
            assert(after[j - 1] == x);
        }
    }
}

/// The state before anything was minted is well formed.
pub proof fn lemma_initial_wf(first: KittyIndex, deposit: Balance, max_owned: u32)
    requires
        max_owned <= KITTIES_OWNED_LIMIT,
    ensures
        State::initial(first, deposit, max_owned).wf(),
{
}

/// Minting keeps the state well formed.
pub proof fn lemma_minted_wf(s: State, owner: AccountId, dna: Seq<u8>, gender: Gender)
    requires
        s.wf(),
        mint_refusal(s, owner) is None,
    ensures
        s.minted(owner, dna, gender).wf(),
{
    let t = s.minted(owner, dna, gender);
    let id = s.count;
    // the counter's value is on no list yet, since every listed kitty exists
    assert(!s.owned[owner].contains(id));
    lemma_push_fresh(s.owned[owner], id);
    assert forall|x: KittyIndex| #[trigger] t.registered(x) implies x < t.count
        && t.owned[t.kitties[x].owner].contains(x) by {
        if x != id {
            assert(s.registered(x));
        }
    }
}

/// Passing a kitty to another account that has room keeps the state well formed.
pub proof fn lemma_moved_wf(s: State, id: KittyIndex, to: AccountId)
    requires
        s.wf(),
        s.registered(id),
        s.kitties[id].owner != to,
        !s.full(to),
    ensures
        s.moved(id, to).wf(),
{
    let t = s.moved(id, to);
    let from = s.kitties[id].owner;
    lemma_remove_value(s.owned[from], id);
    // the kitty is not on the receiver's list, since its owner is another account
    assert(!s.owned[to].contains(id));
    lemma_push_fresh(s.owned[to], id);
    assert forall|x: KittyIndex| #[trigger] t.registered(x) implies x < t.count
        && t.owned[t.kitties[x].owner].contains(x) by {
        if x != id {
            assert(s.registered(x));
        }
    }
}

/// Listing or delisting a kitty keeps the state well formed.
pub proof fn lemma_priced_wf(s: State, id: KittyIndex, price: Option<Balance>)
    requires
        s.wf(),
        s.registered(id),
    ensures
        s.priced(id, price).wf(),
{
    let t = s.priced(id, price);
    assert forall|x: KittyIndex| #[trigger] t.registered(x) implies x < t.count
        && t.owned[t.kitties[x].owner].contains(x) by {
        assert(s.registered(x));
    }
}

/// A request is served as a whole or not at all: when it fails, the state is
/// the one before it; either way the state it leaves is well formed.
pub proof fn lemma_step_all_or_nothing(s: State, i: Input)
    requires
        s.wf(),
    ensures
        step(s, i).0.wf(),
        step(s, i).1 is Err ==> step(s, i).0 == s,
        step(s, i).1 is Ok ==> step(s, i).0 == applied(s, i),
{
    if failure(s, i) is None {
        match i.call {
            Call::Create | Call::Breed { .. } => {
                let t = applied(s, i);
                lemma_minted_wf(s, i.origin, t.kitties[s.count].dna, t.kitties[s.count].gender);
            },
            Call::Transfer { new_owner, kitty_id } => {
                lemma_moved_wf(s, kitty_id, new_owner);
            },
            Call::SellKitty { kitty_id, price } => {
                lemma_priced_wf(s, kitty_id, price);
            },
            Call::BuyKitty { kitty_id } => {
                lemma_moved_wf(s, kitty_id, i.origin);
            },
        }
    }
}

/// In a well-formed state a kitty is on the list of exactly one account, its
/// owner according to the registry, and stands there once.
pub proof fn lemma_one_holder(s: State, id: KittyIndex, who: AccountId)
    requires
        s.wf(),
        s.registered(id),
    ensures
        s.owned[who].contains(id) <==> who == s.kitties[id].owner,
        forall|j: int, k: int|
            0 <= j < s.owned[who].len() && 0 <= k < s.owned[who].len() && s.owned[who][j] == id
                && s.owned[who][k] == id ==> j == k,
{
    assert(s.owned[who].no_duplicates());
}

/// A kitty on an account's list exists, and the registry names that account
/// as its owner.
pub proof fn lemma_listed_is_owned(s: State, who: AccountId, k: int)
    requires
        s.wf(),
        0 <= k < s.owned[who].len(),
    ensures
        s.owns(who, s.owned[who][k]),
{
}

/// The identifiers below `n`.
pub open spec fn below(n: KittyIndex) -> Set<KittyIndex> {
    Set::new(|id: KittyIndex| id < n)
}

/// There are `n` identifiers below `n`.
proof fn lemma_below_len(n: KittyIndex)
    ensures
        below(n).finite(),
        below(n).len() == n,
    decreases n,
{
    if n == 0 {
        assert(below(n) =~= Set::<KittyIndex>::empty());
    } else {
        let m = (n - 1) as KittyIndex;
        lemma_below_len(m);
        assert(below(n) =~= below(m).insert(m));
    }
}

/// The counter is never less than the number of kitties that exist.
pub proof fn lemma_counter_bounds_population(s: State)
    requires
        s.wf(),
    ensures
        s.kitties.dom().finite(),
        s.kitties.dom().len() <= s.count,
{
    lemma_below_len(s.count);
    assert forall|id: KittyIndex| s.kitties.dom().contains(id) implies below(s.count).contains(id) by {
        assert(s.registered(id));
    }
    vstd::set_lib::lemma_len_subset(s.kitties.dom(), below(s.count));
}

/// No request fails for want of a free identifier in the registry: the
/// counter's value is never in use.
pub proof fn lemma_requests_never_collide(s: State, i: Input)
    requires
        s.wf(),
    ensures
        !s.registered(s.count),
        step(s, i).1 != Err::<Event, Error>(Error::KittyAlreadyExists),
{
}

/// The registry and the ledger move together. A request that the registry
/// turns down fails before the ledger is asked anything. A request that it
/// does not turn down succeeds if the ledger did what it was asked, or was
/// asked nothing; if the ledger refused, the request fails and the state stays
/// as it was.
pub proof fn lemma_registry_follows_ledger(s: State, i: Input)
    ensures
        refusal(s, i.origin, i.call) matches Some(e) ==> step(s, i) == (s, Err::<Event, Error>(e)),
        refusal(s, i.origin, i.call) is None && (ledger_calls(s, i.origin, i.call).len() == 0
            || i.ledger == LedgerReply::Done) ==> step(s, i).1 is Ok,
        refusal(s, i.origin, i.call) is None && ledger_calls(s, i.origin, i.call).len() > 0
            && i.ledger != LedgerReply::Done ==> step(s, i).1 is Err && step(s, i).0 == s,
        !(i.call is Create) && !(i.call is BuyKitty) ==> ledger_calls(s, i.origin, i.call).len() == 0,
{
}

/// A kitty is forever: no request removes a kitty or changes its attributes or
/// its gender.
pub proof fn lemma_step_keeps_kitties(s: State, i: Input, id: KittyIndex)
    requires
        s.wf(),
        s.registered(id),
    ensures
        step(s, i).0.registered(id),
        step(s, i).0.kitties[id].dna == s.kitties[id].dna,
        step(s, i).0.kitties[id].gender == s.kitties[id].gender,
{
}

/// A kitty is forever, also over any sequence of requests.
pub proof fn lemma_run_keeps_kitties(s: State, inputs: Seq<Input>, id: KittyIndex)
    requires
        s.wf(),
        s.registered(id),
    ensures
        run(s, inputs).registered(id),
        run(s, inputs).kitties[id].dna == s.kitties[id].dna,
        run(s, inputs).kitties[id].gender == s.kitties[id].gender,
    decreases inputs.len(),
{
    if inputs.len() > 0 {
        lemma_run_keeps_kitties(s, inputs.drop_last(), id);
        lemma_run_wf(s, inputs.drop_last());
        lemma_step_keeps_kitties(run(s, inputs.drop_last()), inputs.last(), id);
    }
}

/// No request changes what the host settled: the maximum per account and the
/// deposit.
pub proof fn lemma_step_keeps_settings(s: State, i: Input)
    ensures
        step(s, i).0.max_owned == s.max_owned,
        step(s, i).0.deposit == s.deposit,
{
}

/// The state that a sequence of requests leads to is well formed. In
/// particular no account ever owns more kitties than the maximum that the
/// host settled at the start, and the registry and the ownership lists agree
/// on who owns what.
pub proof fn lemma_run_wf(s: State, inputs: Seq<Input>)
    requires
        s.wf(),
    ensures
        run(s, inputs).wf(),
        run(s, inputs).max_owned == s.max_owned,
        forall|a: AccountId| #[trigger] run(s, inputs).owned[a].len() <= s.max_owned,
    decreases inputs.len(),
{
    if inputs.len() > 0 {
        lemma_run_wf(s, inputs.drop_last());
        lemma_step_all_or_nothing(run(s, inputs.drop_last()), inputs.last());
    }
}

/// What the `k`-th request of a sequence returns.
pub open spec fn outcome(s: State, inputs: Seq<Input>, k: int) -> Result<Event, Error> {
    step(run(s, inputs.take(k)), inputs[k]).1
}

/// The counter never goes back: requests only ever raise it.
pub proof fn lemma_count_monotonic(s: State, inputs: Seq<Input>, j: int, k: int)
    requires
        0 <= j <= k <= inputs.len(),
    ensures
        run(s, inputs.take(j)).count <= run(s, inputs.take(k)).count,
    decreases k - j,
{
    if j < k {
        lemma_count_monotonic(s, inputs, j, k - 1);
        assert(inputs.take(k).drop_last() =~= inputs.take(k - 1));
    }
}

/// A minted kitty gets the counter's value as its identifier, an identifier
/// that no kitty had before, and the counter moves past it.
pub proof fn lemma_minted_id_is_fresh(s: State, i: Input, who: AccountId, id: KittyIndex)
    requires
        s.wf(),
        step(s, i).1 == Ok::<Event, Error>(Event::Created(who, id)),
    ensures
        id == s.count,
        !s.registered(id),
        step(s, i).0.registered(id),
        step(s, i).0.count == id + 1,
{
}

/// No identifier is handed out twice: of two kitties minted in the course of
/// any sequence of requests, the later one has the greater identifier.
pub proof fn lemma_minted_ids_increase(
    s: State,
    inputs: Seq<Input>,
    j: int,
    k: int,
    who_j: AccountId,
    id_j: KittyIndex,
    who_k: AccountId,
    id_k: KittyIndex,
)
    requires
        s.wf(),
        0 <= j < k < inputs.len(),
        outcome(s, inputs, j) == Ok::<Event, Error>(Event::Created(who_j, id_j)),
        outcome(s, inputs, k) == Ok::<Event, Error>(Event::Created(who_k, id_k)),
    ensures
        id_j < id_k,
{
    lemma_run_wf(s, inputs.take(j));
    lemma_run_wf(s, inputs.take(k));
    lemma_minted_id_is_fresh(run(s, inputs.take(j)), inputs[j], who_j, id_j);
    lemma_minted_id_is_fresh(run(s, inputs.take(k)), inputs[k], who_k, id_k);
    assert(inputs.take(j + 1).drop_last() =~= inputs.take(j));
    lemma_count_monotonic(s, inputs, j + 1, k);
}

/// Once every identifier has been handed out, minting fails with
/// `KittiesCountOverflow` and changes nothing: a request to create always, a
/// request to breed whenever its two parents are different kitties that exist.
pub proof fn lemma_counter_exhausted(s: State, i: Input)
    requires
        s.count == KittyIndex::MAX,
    ensures
        i.call is Create ==> step(s, i) == (s, Err::<Event, Error>(Error::KittiesCountOverflow)),
        i.call matches Call::Breed { kitty_id1, kitty_id2 } ==> (kitty_id1 != kitty_id2
            && s.registered(kitty_id1) && s.registered(kitty_id2) ==> step(s, i) == (
            s,
            Err::<Event, Error>(Error::KittiesCountOverflow),
        )),
        step(s, i).0.count == KittyIndex::MAX,
{
}

/// An account that owns as many kitties as one account may gets no more:
/// minting for it and transferring to it fail with `ExceedMaxKittyOwned` and
/// change nothing.
pub proof fn lemma_full_account_gets_no_more(s: State, i: Input)
    requires
        s.wf(),
    ensures
        i.call is Create && s.count < KittyIndex::MAX && s.full(i.origin) ==> step(s, i) == (
            s,
            Err::<Event, Error>(Error::ExceedMaxKittyOwned),
        ),
        i.call matches Call::Transfer { new_owner, kitty_id } ==> (s.owns(i.origin, kitty_id)
            && new_owner != i.origin && s.full(new_owner) ==> step(s, i) == (
            s,
            Err::<Event, Error>(Error::ExceedMaxKittyOwned),
        )),
{
}

/// A kitty that was just created is found in the registry under the
/// identifier that was announced, owned by the caller and not for sale.
pub proof fn lemma_create_then_get(s: State, i: Input, id: KittyIndex)
    requires
        s.wf(),
        i.call is Create,
        step(s, i).1 == Ok::<Event, Error>(Event::Created(i.origin, id)),
    ensures
        step(s, i).0.registered(id),
        step(s, i).0.kitties[id].owner == i.origin,
        step(s, i).0.kitties[id].price is None,
        step(s, i).0.owned[i.origin].last() == id,
{
}

/// A transfer to oneself and a transfer by an account that does not own the
/// kitty are turned down, the latter also where there is no such kitty; the
/// state stays as it was.
pub proof fn lemma_transfer_rejections(
    s: State,
    i: Input,
    new_owner: AccountId,
    kitty_id: KittyIndex,
)
    requires
        i.call == (Call::Transfer { new_owner, kitty_id }),
    ensures
        !s.owns(i.origin, kitty_id) ==> step(s, i) == (
            s,
            Err::<Event, Error>(Error::NotKittyOwner),
        ),
        s.owns(i.origin, kitty_id) && new_owner == i.origin ==> step(s, i) == (
            s,
            Err::<Event, Error>(Error::TransferToSelf),
        ),
{
}

/// A kitty that is not listed cannot be bought: the attempt of anyone but its
/// owner fails with `KittyNotForSale`, whatever the ledger answered.
pub proof fn lemma_buy_unlisted(s: State, i: Input, kitty_id: KittyIndex)
    requires
        i.call == (Call::BuyKitty { kitty_id }),
        s.registered(kitty_id),
        s.kitties[kitty_id].owner != i.origin,
        s.kitties[kitty_id].price is None,
    ensures
        step(s, i) == (s, Err::<Event, Error>(Error::KittyNotForSale)),
{
}

/// Where the ledger refused, a purchase changes nothing: the kitty keeps its
/// owner and stays listed at its price.
pub proof fn lemma_buy_refused_by_ledger(s: State, i: Input, kitty_id: KittyIndex)
    requires
        i.call == (Call::BuyKitty { kitty_id }),
        i.ledger != LedgerReply::Done,
    ensures
        step(s, i).1 is Err,
        step(s, i).0 == s,
        refusal(s, i.origin, i.call) is None ==> step(s, i).1 == Err::<Event, Error>(
            if i.ledger == LedgerReply::ReserveRefused {
                Error::InsufficientBalance
            } else {
                Error::PaymentRefused
            },
        ),
{
}

/// Listing and then buying: after the owner lists a kitty and another account
/// with room for it buys it with the ledger's consent, the buyer owns the
/// kitty, it is no longer for sale, the ledger was asked to pay the listed
/// price to the seller, and the passing from seller to buyer is announced.
pub proof fn lemma_list_then_buy(
    s: State,
    list: Input,
    buy: Input,
    kitty_id: KittyIndex,
    price: Balance,
)
    requires
        s.wf(),
        list.call == (Call::SellKitty { kitty_id, price: Some(price) }),
        buy.call == (Call::BuyKitty { kitty_id }),
        s.owns(list.origin, kitty_id),
        buy.origin != list.origin,
        !s.full(buy.origin),
        buy.ledger == LedgerReply::Done,
    ensures
        step(s, list).1 == Ok::<Event, Error>(Event::PriceSet(list.origin, kitty_id, Some(price))),
        step(step(s, list).0, buy).1 == Ok::<Event, Error>(
            Event::Transferred(list.origin, buy.origin, kitty_id),
        ),
        ledger_calls(step(s, list).0, buy.origin, buy.call)[2] == (LedgerCall::Transfer {
            from: buy.origin,
            to: list.origin,
            amount: price,
            keep_alive: true,
        }),
        step(step(s, list).0, buy).0.kitties[kitty_id].owner == buy.origin,
        step(step(s, list).0, buy).0.kitties[kitty_id].price is None,
        step(step(s, list).0, buy).0.owned[buy.origin].last() == kitty_id,
        !step(step(s, list).0, buy).0.owned[list.origin].contains(kitty_id),
{
    let listed = step(s, list).0;
    lemma_step_all_or_nothing(s, list);
    lemma_remove_value(listed.owned[list.origin], kitty_id);
}

} // verus!
