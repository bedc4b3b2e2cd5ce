//! The plain data that the registry stores, takes and hands out.

use vstd::prelude::*;

verus! {

/// An authenticated account, as the host identifies it.
pub type AccountId = u64;

/// An amount of currency or of tokens.
pub type Balance = u128;

/// The identifier of a kitty: the value of the counter when it was minted.
pub type KittyIndex = u64;

/// The identifier of the first kitty, unless the host configures another.
pub const FIRST_KITTY_INDEX: KittyIndex = 0;

/// One of the two flavours a kitty is minted with.
#[derive(Clone, Copy, Debug, PartialEq, Eq, Structural)]
pub enum Gender {
    Male,
    Female,
}

/// What the registry records of one kitty. `dna` and `gender` never change
/// after minting; `owner` and `price` do.
#[derive(Clone, Copy, Debug, PartialEq, Eq)]
pub struct Kitty {
    /// Sixteen bytes of derived attributes.
    pub dna: [u8; 16],
    /// The asking price while the kitty is listed, `None` while it is not for sale.
    pub price: Option<Balance>,
    pub gender: Gender,
    pub owner: AccountId,
}

/// Why a request was turned down. A request that fails changes nothing.
#[derive(Clone, Copy, Debug, PartialEq, Eq, Structural)]
pub enum Error {
    /// Every identifier has been handed out; nothing can be minted any more.
    KittiesCountOverflow,
    /// The caller does not own the kitty it wants to transfer or list.
    NotKittyOwner,
    /// A kitty cannot be transferred to the account that already owns it.
    TransferToSelf,
    /// A kitty cannot be bought by the account that already owns it.
    BuyFromSelf,
    /// No kitty has this identifier.
    InvalidKittyIndex,
    /// A kitty cannot be bred with itself.
    SameParentIndex,
    /// The kitty is not listed for sale.
    KittyNotForSale,
    /// The receiving account already owns as many kitties as one account may.
    ExceedMaxKittyOwned,
    /// The ledger could not reserve the deposit from the caller.
    InsufficientBalance,
    /// The ledger could not move the price from the buyer to the seller.
    PaymentRefused,
    /// The registry was asked to record a kitty under an identifier in use.
    /// No request returns this: identifiers are handed out once.
    KittyAlreadyExists,
}

/// What the host is to announce after a request has taken effect.
#[derive(Clone, Copy, Debug, PartialEq, Eq)]
pub enum Event {
    /// A kitty was minted: its owner and its identifier.
    Created(AccountId, KittyIndex),
    /// A kitty changed hands, given away or sold: previous owner, new owner,
    /// identifier.
    Transferred(AccountId, AccountId, KittyIndex),
    /// An owner listed a kitty at a price, or delisted it with `None`.
    PriceSet(AccountId, KittyIndex, Option<Balance>),
}

/// One instruction for the host's balance ledger.
#[derive(Clone, Copy, Debug, PartialEq, Eq)]
pub enum LedgerCall {
    /// Earmark `amount` of `who`'s free balance.
    Reserve { who: AccountId, amount: Balance },
    /// Release up to `amount` of what `who` has earmarked.
    Unreserve { who: AccountId, amount: Balance },
    /// Move `amount` from `from` to `to`; with `keep_alive` the ledger must
    /// refuse a transfer that would close the sender's account.
    Transfer { from: AccountId, to: AccountId, amount: Balance, keep_alive: bool },
}

/// What the ledger answered to the instructions of one request. The host
/// carries them out as a unit: after a refusal none of them has taken effect.
#[derive(Clone, Copy, Debug, PartialEq, Eq, Structural)]
pub enum LedgerReply {
    /// Every instruction was carried out.
    Done,
    /// The ledger refused to reserve the deposit.
    ReserveRefused,
    /// The ledger refused the transfer of the price.
    TransferRefused,
}

/// A request to the registry, without its caller.
#[derive(Clone, Copy, Debug, PartialEq, Eq)]
pub enum Call {
    /// Mint a kitty with fresh attributes for the caller.
    Create,
    /// Give the caller's kitty to another account.
    Transfer { new_owner: AccountId, kitty_id: KittyIndex },
    /// Mint a kitty for the caller whose attributes cross those of two others.
    Breed { kitty_id1: KittyIndex, kitty_id2: KittyIndex },
    /// List the caller's kitty at a price, or delist it with `None`.
    SellKitty { kitty_id: KittyIndex, price: Option<Balance> },
    /// Buy a listed kitty for the caller at its asking price.
    BuyKitty { kitty_id: KittyIndex },
}

/// What the host's randomness source supplied for one request.
pub struct Randomness {
    /// The fresh seed, as the bytes the host encodes it to.
    pub seed: Vec<u8>,
    /// The position of the request within the unit the host is processing,
    /// which keeps two requests with one seed apart.
    pub extrinsic_index: Option<u32>,
    /// The leading byte of a second, independent draw; it decides the gender.
    pub gender_draw: u8,
}

/// A kitty's record as mathematical values.
pub struct KittyView {
    pub dna: Seq<u8>,
    pub price: Option<Balance>,
    pub gender: Gender,
    pub owner: AccountId,
}

impl View for Kitty {
    type V = KittyView;

    open spec fn view(&self) -> KittyView {
        KittyView { dna: self.dna@, price: self.price, gender: self.gender, owner: self.owner }
    }
}

/// A request's randomness as mathematical values.
pub struct RandomnessView {
    pub seed: Seq<u8>,
    pub extrinsic_index: Option<u32>,
    pub gender_draw: u8,
}

impl View for Randomness {
    type V = RandomnessView;

    open spec fn view(&self) -> RandomnessView {
        RandomnessView {
            seed: self.seed@,
            extrinsic_index: self.extrinsic_index,
            gender_draw: self.gender_draw,
        }
    }
}

} // verus!
