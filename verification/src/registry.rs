//! The asset registry: stores, operations and events.
//!
//! `Pallet` owns three stores — the asset counter, the genome store and the
//! ownership ledger — plus the ordered log of emitted events. Each operation
//! is one atomic transition: it checks its preconditions in order and either
//! fails with an [`Error`] and no state change, or performs all of its writes.
//!
//! The host supplies the caller identity, the randomness seed and the call
//! sequence number. Currency movement stays with the host: `buy` and `sell`
//! are split into a pure order phase (`buy_order`, `sell_order`) that says
//! what payment to perform, and a settlement phase (`buy`, `sell`) that takes
//! the payment outcome and reassigns ownership only if the payment succeeded.

use vstd::prelude::*;
use vstd::pervasive::VecAdditionalExecFns;
use crate::genome::{child_genome, combine_genomes, encode_payload, blake2_128, genome_for};

verus! {

/// An asset identifier. Ids are assigned in strictly increasing order
/// starting at 1; id 0 is never assigned.
pub type KittyIndex = u32;

/// A caller identity, authenticated by the host before the registry is
/// invoked.
pub type AccountId = u64;

/// An amount of the host's currency.
pub type Balance = u64;

/// An asset's immutable 16-byte genome.
pub struct Kitty(pub Vec<u8>);

impl Kitty {
    /// A genome is exactly 16 bytes.
    pub open spec fn wf(self) -> bool {
        self.0@.len() == 16
    }
}

/// Why an operation was rejected. Every error aborts the call with no state
/// change.
#[derive(Clone, Copy, PartialEq, Eq, Structural, Debug)]
pub enum Error {
    /// The next id would exceed the maximum representable id.
    CounterOverflow,
    /// The caller/seller check against the current owner failed.
    NotOwner,
    /// Breed was called with identical parent ids.
    SameParentIndex,
    /// The referenced asset id does not exist.
    InvalidAssetIndex,
    /// Buy or sell was called with caller == counterparty.
    SameOwner,
    /// The host reported that the payment failed.
    PaymentFailed,
}

/// An externally observable notification, recorded in order of emission.
#[derive(Clone, Copy, PartialEq, Eq, Structural, Debug)]
pub enum Event {
    /// `Created(owner, asset_id)`: emitted by both create and breed.
    Created(AccountId, KittyIndex),
    /// `Transferred(from, to, asset_id)`: emitted by transfer.
    Transferred(AccountId, AccountId, KittyIndex),
}

/// The payment the host must perform before settling a buy or sell.
#[derive(Clone, Copy, PartialEq, Eq, Structural, Debug)]
pub struct PaymentOrder {
    pub from: AccountId,
    pub to: AccountId,
    pub amount: Balance,
}

/// The registry: the asset counter, the genome store, the ownership ledger
/// and the event log.
pub struct Pallet {
    /// The next id to assign; absent before the first creation.
    count: Option<u32>,
    /// Genome of asset `i + 1` at index `i`; nothing is ever deleted.
    kitties: Vec<Kitty>,
    /// Owner of asset `i + 1` at index `i`; always paired with `kitties`.
    owners: Vec<AccountId>,
    /// Ordered log of emitted events.
    events: Vec<Event>,
}

/// No existing asset changed owner or genome between `pre` and `post`.
pub open spec fn unchanged_assets(pre: Pallet, post: Pallet) -> bool {
    forall|id: KittyIndex| #![auto]
        pre.asset_exists(id) ==> post.owner_spec(id) == pre.owner_spec(id)
            && post.genome_spec(id) == pre.genome_spec(id)
}

impl Pallet {
    /// The asset counter: the next id to assign, absent before the first
    /// creation.
    pub closed spec fn counter(self) -> Option<u32> {
        self.count
    }

    /// How many assets exist.
    pub closed spec fn n_assets(self) -> nat {
        self.kitties@.len()
    }

    /// The event log.
    pub closed spec fn events_spec(self) -> Seq<Event> {
        self.events@
    }

    /// An asset exists iff its id was assigned: ids run from 1 to the number
    /// of assets.
    pub open spec fn asset_exists(self, id: KittyIndex) -> bool {
        1 <= id && id as nat <= self.n_assets()
    }

    /// The current owner of asset `id` (meaningful when the asset exists).
    pub closed spec fn owner_spec(self, id: KittyIndex) -> AccountId {
        self.owners@[id as int - 1]
    }

    /// The genome of asset `id` (meaningful when the asset exists).
    pub closed spec fn genome_spec(self, id: KittyIndex) -> Seq<u8> {
        self.kitties@[id as int - 1].0@
    }

    /// The id the next successful creation will assign.
    pub open spec fn spec_next_id(self) -> KittyIndex {
        (self.n_assets() + 1) as KittyIndex
    }

    /// Whether another id can be assigned: creation fails with
    /// `CounterOverflow` once the next id would be the maximum value.
    pub open spec fn can_assign(self) -> bool {
        self.n_assets() + 1 < 0xffff_ffff
    }

    /// Well-formedness: the two per-asset stores run in step, every stored
    /// genome is 16 bytes, the counter is absent exactly while no asset
    /// exists and otherwise equals one past the highest assigned id, and the
    /// counter value is representable.
    pub closed spec fn wf(self) -> bool {
        &&& self.owners@.len() == self.kitties@.len()
        &&& self.kitties@.len() + 1 <= 0xffff_ffff
        &&& forall|i: int| 0 <= i < self.kitties@.len() ==> (#[trigger] self.kitties@[i]).wf()
        &&& match self.count {
            Option::None => self.kitties@.len() == 0,
            Option::Some(c) => self.kitties@.len() > 0 && c == self.kitties@.len() + 1,
        }
    }

    /// An empty registry: no assets, no counter, no events.
    pub fn new() -> (r: Pallet)
        ensures
            r.wf(),
            r.n_assets() == 0,
            r.counter() is None,
            r.events_spec() == Seq::<Event>::empty(),
    {
        Pallet { count: None, kitties: Vec::new(), owners: Vec::new(), events: Vec::new() }
    }

    /// GenomeGenerator: a deterministic 16-byte value derived from the
    /// host-supplied randomness seed, the caller identity and the call
    /// sequence number. Identical inputs always give identical output. The
    /// seed must fit the payload encoding's length limit of `u32::MAX`
    /// bytes.
    pub fn random_value(sender: AccountId, seed: &Vec<u8>, sequence_index: u32) -> (r: Vec<u8>)
        requires
            seed@.len() <= 0xffff_ffff,
        ensures
            r@ == genome_for(seed@, sender, sequence_index),
            r@.len() == 16,
    {
        let payload = encode_payload(seed, sender, sequence_index);
        blake2_128(&payload)
    }

    /// Whether asset `id` exists.
    fn has_asset(&self, id: KittyIndex) -> (r: bool)
        ensures
            r == self.asset_exists(id),
    {
        1 <= id && id as usize <= self.kitties.len()
    }

    /// The next id to assign, or `CounterOverflow` if it would be the
    /// maximum representable value.
    fn next_id(&self) -> (r: Result<KittyIndex, Error>)
        requires
            self.wf(),
        ensures
            self.can_assign() ==> r == Ok::<KittyIndex, Error>(self.spec_next_id()),
            !self.can_assign() ==> r == Err::<KittyIndex, Error>(Error::CounterOverflow),
    {
        match self.count {
            Some(id) => {
                if id == u32::MAX {
                    Err(Error::CounterOverflow)
                } else {
                    Ok(id)
                }
            },
            None => Ok(1),
        }
    }

    /// Create a fresh asset owned by the caller.
    ///
    /// Assigns the next id (the first call assigns 1), derives the genome
    /// from the seed, the caller and the sequence number, records the asset
    /// and its owner, advances the counter and emits `Created`. Fails with
    /// `CounterOverflow`, and writes nothing, once the next id would be the
    /// maximum representable value. The seed must fit the payload encoding's
    /// length limit of `u32::MAX` bytes.
    pub fn create(&mut self, caller: AccountId, seed: &Vec<u8>, sequence_index: u32) -> (r:
        Result<KittyIndex, Error>)
        requires
            old(self).wf(),
            seed@.len() <= 0xffff_ffff,
        ensures
            final(self).wf(),
            !old(self).can_assign() ==> r == Err::<KittyIndex, Error>(Error::CounterOverflow)
                && *final(self) == *old(self),
            old(self).can_assign() ==> r == Ok::<KittyIndex, Error>(old(self).spec_next_id())
                && final(self).n_assets() == old(self).n_assets() + 1
                && final(self).asset_exists(old(self).spec_next_id())
                && final(self).owner_spec(old(self).spec_next_id()) == caller
                && final(self).genome_spec(old(self).spec_next_id()) == genome_for(
                seed@,
                caller,
                sequence_index,
            )
                && final(self).counter() == Some((old(self).spec_next_id() + 1) as u32)
                && final(self).events_spec() == old(self).events_spec().push(
                Event::Created(caller, old(self).spec_next_id()),
            )
                && unchanged_assets(*old(self), *final(self)),
    {
        let kitty_id = match self.next_id() {
            Ok(id) => id,
            Err(e) => {
                return Err(e);
            },
        };
        let dna = Self::random_value(caller, seed, sequence_index);
        self.kitties.push(Kitty(dna));
        self.owners.push(caller);
        self.count = Some(kitty_id + 1);
        self.events.push(Event::Created(caller, kitty_id));
        Ok(kitty_id)
    }

    /// Breed a fresh asset from two existing parents, owned by the caller.
    ///
    /// Checks, in order: the parent ids differ (`SameParentIndex`), both
    /// parents exist (`InvalidAssetIndex`), and another id can be assigned
    /// (`CounterOverflow`). On success the child genome combines the two
    /// parent genomes under a selector derived exactly as in `create`, and
    /// the same `Created` event is emitted. The seed must fit the payload
    /// encoding's length limit of `u32::MAX` bytes.
    pub fn breed(
        &mut self,
        caller: AccountId,
        kitty_id_1: KittyIndex,
        kitty_id_2: KittyIndex,
        seed: &Vec<u8>,
        sequence_index: u32,
    ) -> (r: Result<KittyIndex, Error>)
        requires
            old(self).wf(),
            seed@.len() <= 0xffff_ffff,
        ensures
            final(self).wf(),
            kitty_id_1 == kitty_id_2 ==> r == Err::<KittyIndex, Error>(Error::SameParentIndex)
                && *final(self) == *old(self),
            kitty_id_1 != kitty_id_2 && !(old(self).asset_exists(kitty_id_1) && old(
                self,
            ).asset_exists(kitty_id_2)) ==> r == Err::<KittyIndex, Error>(Error::InvalidAssetIndex)
                && *final(self) == *old(self),
            kitty_id_1 != kitty_id_2 && old(self).asset_exists(kitty_id_1) && old(
                self,
            ).asset_exists(kitty_id_2) && !old(self).can_assign() ==> r == Err::<
                KittyIndex,
                Error,
            >(Error::CounterOverflow) && *final(self) == *old(self),
            kitty_id_1 != kitty_id_2 && old(self).asset_exists(kitty_id_1) && old(
                self,
            ).asset_exists(kitty_id_2) && old(self).can_assign() ==> r == Ok::<
                KittyIndex,
                Error,
            >(old(self).spec_next_id())
                && final(self).n_assets() == old(self).n_assets() + 1
                && final(self).asset_exists(old(self).spec_next_id())
                && final(self).owner_spec(old(self).spec_next_id()) == caller
                && final(self).genome_spec(old(self).spec_next_id()) == child_genome(
                genome_for(seed@, caller, sequence_index),
                old(self).genome_spec(kitty_id_1),
                old(self).genome_spec(kitty_id_2),
            )
                && final(self).counter() == Some((old(self).spec_next_id() + 1) as u32)
                && final(self).events_spec() == old(self).events_spec().push(
                Event::Created(caller, old(self).spec_next_id()),
            )
                && unchanged_assets(*old(self), *final(self)),
    {
        if kitty_id_1 == kitty_id_2 {
            return Err(Error::SameParentIndex);
        }
        if !self.has_asset(kitty_id_1) {
            return Err(Error::InvalidAssetIndex);
        }
        if !self.has_asset(kitty_id_2) {
            return Err(Error::InvalidAssetIndex);
        }
        let kitty_id = match self.next_id() {
            Ok(id) => id,
            Err(e) => {
                return Err(e);
            },
        };
        let selector = Self::random_value(caller, seed, sequence_index);
        let i1 = (kitty_id_1 - 1) as usize;
        let i2 = (kitty_id_2 - 1) as usize;
        let new_dna = combine_genomes(&selector, &self.kitties[i1].0, &self.kitties[i2].0);
        self.kitties.push(Kitty(new_dna));
        self.owners.push(caller);
        self.count = Some(kitty_id + 1);
        self.events.push(Event::Created(caller, kitty_id));
        Ok(kitty_id)
    }

    /// Transfer an asset to a new owner.
    ///
    /// The asset must exist (`InvalidAssetIndex`) and the caller must be its
    /// current owner (`NotOwner`). On success ownership moves exactly to the
    /// named recipient, no other asset is affected, and `Transferred` is
    /// emitted. No currency changes hands.
    pub fn transfer(&mut self, caller: AccountId, new_owner: AccountId, kitty_id: KittyIndex) -> (r:
        Result<(), Error>)
        requires
            old(self).wf(),
        ensures
            final(self).wf(),
            !old(self).asset_exists(kitty_id) ==> r == Err::<(), Error>(Error::InvalidAssetIndex)
                && *final(self) == *old(self),
            old(self).asset_exists(kitty_id) && old(self).owner_spec(kitty_id) != caller ==> r
                == Err::<(), Error>(Error::NotOwner) && *final(self) == *old(self),
            old(self).asset_exists(kitty_id) && old(self).owner_spec(kitty_id) == caller ==> r
                == Ok::<(), Error>(())
                && final(self).owner_spec(kitty_id) == new_owner
                && final(self).n_assets() == old(self).n_assets()
                && final(self).counter() == old(self).counter()
                && final(self).events_spec() == old(self).events_spec().push(
                Event::Transferred(caller, new_owner, kitty_id),
            )
                && (forall|k: KittyIndex| #![auto]
                old(self).asset_exists(k) && k != kitty_id ==> final(self).owner_spec(k) == old(
                    self,
                ).owner_spec(k))
                && (forall|k: KittyIndex| #![auto]
                old(self).asset_exists(k) ==> final(self).genome_spec(k) == old(self).genome_spec(
                    k,
                )),
    {
        if !self.has_asset(kitty_id) {
            return Err(Error::InvalidAssetIndex);
        }
        let idx = (kitty_id - 1) as usize;
        if self.owners[idx] != caller {
            return Err(Error::NotOwner);
        }
        self.owners.set(idx, new_owner);
        self.events.push(Event::Transferred(caller, new_owner, kitty_id));
        Ok(())
    }

    /// Validate a buy and say what payment the host must perform: `amount`
    /// moves from the caller to the seller. Reads only; the checks are the
    /// same as in [`Pallet::buy`]. A call with caller == seller never
    /// succeeds, whatever the ownership state.
    pub fn buy_order(
        &self,
        caller: AccountId,
        seller: AccountId,
        kitty_id: KittyIndex,
        amount: Balance,
    ) -> (r: Result<PaymentOrder, Error>)
        requires
            self.wf(),
        ensures
            !self.asset_exists(kitty_id) ==> r == Err::<PaymentOrder, Error>(
                Error::InvalidAssetIndex,
            ),
            self.asset_exists(kitty_id) && self.owner_spec(kitty_id) != seller ==> r == Err::<
                PaymentOrder,
                Error,
            >(Error::NotOwner),
            self.asset_exists(kitty_id) && self.owner_spec(kitty_id) == seller && caller == seller
                ==> r == Err::<PaymentOrder, Error>(Error::SameOwner),
            self.asset_exists(kitty_id) && self.owner_spec(kitty_id) == seller && caller != seller
                ==> r == Ok::<PaymentOrder, Error>(
                PaymentOrder { from: caller, to: seller, amount },
            ),
            caller == seller ==> r is Err,
    {
        if !self.has_asset(kitty_id) {
            return Err(Error::InvalidAssetIndex);
        }
        let idx = (kitty_id - 1) as usize;
        if self.owners[idx] != seller {
            return Err(Error::NotOwner);
        }
        if caller == seller {
            return Err(Error::SameOwner);
        }
        Ok(PaymentOrder { from: caller, to: seller, amount })
    }

    /// Settle a buy, given the outcome of the payment the host performed.
    ///
    /// The asset must exist (`InvalidAssetIndex`), the seller must be its
    /// current owner (`NotOwner`) and the caller must differ from the seller
    /// (`SameOwner`) — a call with caller == seller never succeeds, whatever
    /// the ownership state. Ownership moves to the caller if and only if the
    /// payment succeeded; a failed payment is `PaymentFailed` and leaves
    /// ownership unchanged. No event is emitted.
    pub fn buy(
        &mut self,
        caller: AccountId,
        seller: AccountId,
        kitty_id: KittyIndex,
        paid: bool,
    ) -> (r: Result<(), Error>)
        requires
            old(self).wf(),
        ensures
            final(self).wf(),
            !old(self).asset_exists(kitty_id) ==> r == Err::<(), Error>(Error::InvalidAssetIndex)
                && *final(self) == *old(self),
            old(self).asset_exists(kitty_id) && old(self).owner_spec(kitty_id) != seller ==> r
                == Err::<(), Error>(Error::NotOwner) && *final(self) == *old(self),
            old(self).asset_exists(kitty_id) && old(self).owner_spec(kitty_id) == seller && caller
                == seller ==> r == Err::<(), Error>(Error::SameOwner) && *final(self) == *old(
                self,
            ),
            old(self).asset_exists(kitty_id) && old(self).owner_spec(kitty_id) == seller && caller
                != seller && !paid ==> r == Err::<(), Error>(Error::PaymentFailed) && *final(self)
                == *old(self),
            old(self).asset_exists(kitty_id) && old(self).owner_spec(kitty_id) == seller && caller
                != seller && paid ==> r == Ok::<(), Error>(())
                && final(self).owner_spec(kitty_id) == caller
                && final(self).n_assets() == old(self).n_assets()
                && final(self).counter() == old(self).counter()
                && final(self).events_spec() == old(self).events_spec()
                && (forall|k: KittyIndex| #![auto]
                old(self).asset_exists(k) && k != kitty_id ==> final(self).owner_spec(k) == old(
                    self,
                ).owner_spec(k))
                && (forall|k: KittyIndex| #![auto]
                old(self).asset_exists(k) ==> final(self).genome_spec(k) == old(self).genome_spec(
                    k,
                )),
            caller == seller ==> r is Err && *final(self) == *old(self),
    {
        if !self.has_asset(kitty_id) {
            return Err(Error::InvalidAssetIndex);
        }
        let idx = (kitty_id - 1) as usize;
        if self.owners[idx] != seller {
            return Err(Error::NotOwner);
        }
        if caller == seller {
            return Err(Error::SameOwner);
        }
        if !paid {
            return Err(Error::PaymentFailed);
        }
        self.owners.set(idx, caller);
        Ok(())
    }

    /// Validate a sell and say what payment the host must perform: `amount`
    /// moves from the buyer to the caller. Reads only; the checks are the
    /// same as in [`Pallet::sell`]. A call with caller == buyer never
    /// succeeds, whatever the ownership state.
    pub fn sell_order(
        &self,
        caller: AccountId,
        buyer: AccountId,
        kitty_id: KittyIndex,
        amount: Balance,
    ) -> (r: Result<PaymentOrder, Error>)
        requires
            self.wf(),
        ensures
            !self.asset_exists(kitty_id) ==> r == Err::<PaymentOrder, Error>(
                Error::InvalidAssetIndex,
            ),
            self.asset_exists(kitty_id) && self.owner_spec(kitty_id) != caller ==> r == Err::<
                PaymentOrder,
                Error,
            >(Error::NotOwner),
            self.asset_exists(kitty_id) && self.owner_spec(kitty_id) == caller && caller == buyer
                ==> r == Err::<PaymentOrder, Error>(Error::SameOwner),
            self.asset_exists(kitty_id) && self.owner_spec(kitty_id) == caller && caller != buyer
                ==> r == Ok::<PaymentOrder, Error>(
                PaymentOrder { from: buyer, to: caller, amount },
            ),
            caller == buyer ==> r is Err,
    {
        if !self.has_asset(kitty_id) {
            return Err(Error::InvalidAssetIndex);
        }
        let idx = (kitty_id - 1) as usize;
        if self.owners[idx] != caller {
            return Err(Error::NotOwner);
        }
        if caller == buyer {
            return Err(Error::SameOwner);
        }
        Ok(PaymentOrder { from: buyer, to: caller, amount })
    }

    /// Settle a sell, given the outcome of the payment the host performed.
    ///
    /// The asset must exist (`InvalidAssetIndex`), the caller must be its
    /// current owner (`NotOwner`) and the buyer must differ from the caller
    /// (`SameOwner`) — a call with caller == buyer never succeeds, whatever
    /// the ownership state. Ownership moves to the buyer if and only if the
    /// payment succeeded; a failed payment is `PaymentFailed` and leaves
    /// ownership unchanged. No event is emitted.
    pub fn sell(
        &mut self,
        caller: AccountId,
        buyer: AccountId,
        kitty_id: KittyIndex,
        paid: bool,
    ) -> (r: Result<(), Error>)
        requires
            old(self).wf(),
        ensures
            final(self).wf(),
            !old(self).asset_exists(kitty_id) ==> r == Err::<(), Error>(Error::InvalidAssetIndex)
                && *final(self) == *old(self),
            old(self).asset_exists(kitty_id) && old(self).owner_spec(kitty_id) != caller ==> r
                == Err::<(), Error>(Error::NotOwner) && *final(self) == *old(self),
            old(self).asset_exists(kitty_id) && old(self).owner_spec(kitty_id) == caller && caller
                == buyer ==> r == Err::<(), Error>(Error::SameOwner) && *final(self) == *old(self),
            old(self).asset_exists(kitty_id) && old(self).owner_spec(kitty_id) == caller && caller
                != buyer && !paid ==> r == Err::<(), Error>(Error::PaymentFailed) && *final(self)
                == *old(self),
            old(self).asset_exists(kitty_id) && old(self).owner_spec(kitty_id) == caller && caller
                != buyer && paid ==> r == Ok::<(), Error>(())
                && final(self).owner_spec(kitty_id) == buyer
                && final(self).n_assets() == old(self).n_assets()
                && final(self).counter() == old(self).counter()
                && final(self).events_spec() == old(self).events_spec()
                && (forall|k: KittyIndex| #![auto]
                old(self).asset_exists(k) && k != kitty_id ==> final(self).owner_spec(k) == old(
                    self,
                ).owner_spec(k))
                && (forall|k: KittyIndex| #![auto]
                old(self).asset_exists(k) ==> final(self).genome_spec(k) == old(self).genome_spec(
                    k,
                )),
            caller == buyer ==> r is Err && *final(self) == *old(self),
    {
        if !self.has_asset(kitty_id) {
            return Err(Error::InvalidAssetIndex);
        }
        let idx = (kitty_id - 1) as usize;
        if self.owners[idx] != caller {
            return Err(Error::NotOwner);
        }
        if caller == buyer {
            return Err(Error::SameOwner);
        }
        if !paid {
            return Err(Error::PaymentFailed);
        }
        self.owners.set(idx, buyer);
        Ok(())
    }

    /// The asset counter, as stored: the next id to assign, or `None` before
    /// the first creation.
    pub fn kitties_count(&self) -> (r: Option<u32>)
        ensures
            r == self.counter(),
    {
        self.count
    }

    /// The current owner of asset `kitty_id`, or `None` if it does not
    /// exist.
    pub fn owner(&self, kitty_id: KittyIndex) -> (r: Option<AccountId>)
        requires
            self.wf(),
        ensures
            self.asset_exists(kitty_id) ==> r == Some(self.owner_spec(kitty_id)),
            !self.asset_exists(kitty_id) ==> r is None,
    {
        if self.has_asset(kitty_id) {
            Some(self.owners[(kitty_id - 1) as usize])
        } else {
            None
        }
    }

    /// The genome of asset `kitty_id`, or `None` if it does not exist.
    pub fn kitties(&self, kitty_id: KittyIndex) -> (r: Option<Kitty>)
        requires
            self.wf(),
        ensures
            self.asset_exists(kitty_id) ==> (r matches Some(k) && k.0@ == self.genome_spec(
                kitty_id,
            ) && k.wf()),
            !self.asset_exists(kitty_id) ==> r is None,
    {
        if self.has_asset(kitty_id) {
            Some(Kitty(copy_bytes(&self.kitties[(kitty_id - 1) as usize].0)))
        } else {
            None
        }
    }

    /// The ordered log of events emitted so far.
    pub fn events(&self) -> (r: &Vec<Event>)
        ensures
            r@ == self.events_spec(),
    {
        &self.events
    }
}

/// A fresh copy of a byte vector.
fn copy_bytes(src: &Vec<u8>) -> (r: Vec<u8>)
    ensures
        r@ == src@,
{
    let mut r: Vec<u8> = Vec::new();
    let mut i: usize = 0;
    while i < src.len()
        invariant
            i <= src@.len(),
            r@.len() == i,
            forall|j: int| 0 <= j < i ==> r@[j] == src@[j],
        decreases src@.len() - i,
    {
        r.push(src[i]);
        i = i + 1;
    }
    proof {
        assert(r@ =~= src@);
    }
    r
}

/// Law: ids start at 1 and never repeat — every existing asset's id lies
/// strictly below the id the next creation will assign, and in an empty
/// registry that next id is 1.
pub proof fn lemma_ids_start_at_one_and_stay_below_next(s: Pallet, id: KittyIndex)
    requires
        s.wf(),
    ensures
        s.asset_exists(id) ==> 1 <= id && id < s.spec_next_id(),
        s.n_assets() == 0 ==> s.spec_next_id() == 1,
{
}

/// Law: once initialized, the counter always equals the id the next creation
/// will assign; before the first creation it is absent and that id is 1.
pub proof fn lemma_counter_tracks_next_id(s: Pallet)
    requires
        s.wf(),
    ensures
        s.counter() matches Some(c) ==> c == s.spec_next_id(),
        s.counter() is None ==> s.n_assets() == 0 && s.spec_next_id() == 1,
{
}

/// Law: another id can be assigned exactly while the stored counter has not
/// reached the maximum representable id.
pub proof fn lemma_overflow_iff_counter_at_max(s: Pallet)
    requires
        s.wf(),
    ensures
        s.can_assign() <==> s.counter() != Some(0xffff_ffffu32),
{
}

/// Law: every existing asset has a well-formed 16-byte genome.
pub proof fn lemma_existing_genome_is_16_bytes(s: Pallet, id: KittyIndex)
    requires
        s.wf(),
        s.asset_exists(id),
    ensures
        s.genome_spec(id).len() == 16,
{
}

} // verus!
