use vstd::prelude::*;

use crate::store::{AccountId, BlockNumber, ClaimRecord, ClaimStore, copy_bytes};

verus! {

/// Why an operation was refused. A refused operation changes nothing.
#[derive(Clone, Copy, Debug, PartialEq, Eq, Structural)]
pub enum Error {
    /// The proof is already claimed.
    DuplicateClaim,
    /// The proof is not claimed, so it cannot be revoked or transferred.
    ClaimNotFound,
    /// The proof is claimed by another identity.
    NotOwner,
}

/// What a successful operation emits.
#[derive(Clone, Debug, PartialEq, Eq)]
pub enum Event {
    /// `[who, proof]`: a proof has been claimed.
    ClaimCreated(AccountId, Vec<u8>),
    /// `[who, proof]`: a claim has been revoked by its owner.
    ClaimRevoked(AccountId, Vec<u8>),
    /// `[from, to, proof]`: a claim has been handed to another identity.
    ClaimTransferred(AccountId, AccountId, Vec<u8>),
}

/// An event with its proof bytes as a sequence.
pub ghost enum EventView {
    ClaimCreated(AccountId, Seq<u8>),
    ClaimRevoked(AccountId, Seq<u8>),
    ClaimTransferred(AccountId, AccountId, Seq<u8>),
}

impl View for Event {
    type V = EventView;

    open spec fn view(&self) -> EventView {
        match self {
            Event::ClaimCreated(who, k) => EventView::ClaimCreated(*who, k@),
            Event::ClaimRevoked(who, k) => EventView::ClaimRevoked(*who, k@),
            Event::ClaimTransferred(from, to, k) => EventView::ClaimTransferred(*from, *to, k@),
        }
    }
}

/// The registry's contents as a map from proof bytes to records.
pub type Claims = Map<Seq<u8>, ClaimRecord>;

/// What `create_claim` by `who` on `k` at block `now` makes of `m`.
pub open spec fn create_step(m: Claims, who: AccountId, k: Seq<u8>, now: BlockNumber) -> Result<Claims, Error> {
    if m.contains_key(k) {
        Err(Error::DuplicateClaim)
    } else {
        Ok(m.insert(k, ClaimRecord { owner: who, registered_at: now }))
    }
}

/// The check that revoke and transfer share: `k` is claimed, and by `who`.
pub open spec fn owner_check(m: Claims, who: AccountId, k: Seq<u8>) -> Result<(), Error> {
    if !m.contains_key(k) {
        Err(Error::ClaimNotFound)
    } else if m[k].owner != who {
        Err(Error::NotOwner)
    } else {
        Ok(())
    }
}

/// What `revoke_claim` by `who` on `k` makes of `m`.
pub open spec fn revoke_step(m: Claims, who: AccountId, k: Seq<u8>) -> Result<Claims, Error> {
    match owner_check(m, who, k) {
        Ok(_) => Ok(m.remove(k)),
        Err(e) => Err(e),
    }
}

/// What `transfer_claim` by `who` of `k` to `to` at block `now` makes of `m`.
pub open spec fn transfer_step(
    m: Claims,
    who: AccountId,
    k: Seq<u8>,
    to: AccountId,
    now: BlockNumber,
) -> Result<Claims, Error> {
    match owner_check(m, who, k) {
        Ok(_) => Ok(m.remove(k).insert(k, ClaimRecord { owner: to, registered_at: now })),
        Err(e) => Err(e),
    }
}

/// `after` is `before` once an operation whose step gave `step` has run and
/// answered `r`: on success the claims are the step's and `e` was emitted; on
/// refusal the answer is the step's error and nothing changed.
pub open spec fn follows(
    before: Pallet,
    after: Pallet,
    step: Result<Claims, Error>,
    e: EventView,
    r: Result<(), Error>,
) -> bool {
    match step {
        Ok(m) => {
            &&& r == Ok::<(), Error>(())
            &&& after.claims() == m
            &&& after.emitted() == before.emitted().push(e)
        },
        Err(err) => {
            &&& r == Err::<(), Error>(err)
            &&& after.claims() == before.claims()
            &&& after.emitted() == before.emitted()
        },
    }
}

/// The host's view of the ledger: where it stands now.
pub trait Config {
    /// The current block number.
    fn block_number(&self) -> BlockNumber;
}

/// The registry: the table of claims and the events emitted so far.
pub struct Pallet {
    proofs: ClaimStore,
    events: Vec<Event>,
}

impl Pallet {
    /// The table of claims is well formed.
    pub closed spec fn wf(&self) -> bool {
        self.proofs.wf()
    }

    /// The claims, as a map from proof bytes to records.
    pub closed spec fn claims(&self) -> Claims {
        self.proofs.view()
    }

    /// The events emitted so far, oldest first.
    pub closed spec fn emitted(&self) -> Seq<EventView> {
        self.events@.map_values(|e: Event| e@)
    }

    /// An empty registry.
    pub fn new() -> (r: Self)
        ensures
            r.wf(),
            r.claims() == Claims::empty(),
            r.emitted() == Seq::<EventView>::empty(),
    {
        let r = Pallet { proofs: ClaimStore::new(), events: Vec::new() };
        assert(r.emitted() =~= Seq::<EventView>::empty());
        r
    }

    fn deposit_event(&mut self, e: Event)
        requires
            old(self).wf(),
        ensures
            final(self).wf(),
            final(self).claims() == old(self).claims(),
            final(self).emitted() == old(self).emitted().push(e@),
    {
        self.events.push(e);
        assert(self.emitted() =~= old(self).emitted().push(e@));
    }

    /// The record of `claim`, if it is claimed.
    pub fn proofs(&self, claim: &Vec<u8>) -> (r: Option<ClaimRecord>)
        requires
            self.wf(),
        ensures
            r == (if self.claims().contains_key(claim@) {
                Some(self.claims()[claim@])
            } else {
                None
            }),
    {
        self.proofs.get(claim)
    }

    /// Whether `claim` is claimed.
    pub fn contains(&self, claim: &Vec<u8>) -> (r: bool)
        requires
            self.wf(),
        ensures
            r == self.claims().contains_key(claim@),
    {
        self.proofs.contains(claim)
    }

    /// The events emitted so far, oldest first.
    pub fn events(&self) -> (r: &Vec<Event>)
        ensures
            r@.map_values(|e: Event| e@) == self.emitted(),
    {
        &self.events
    }

    /// `who` claims `claim` at block `now`; refused if it is already claimed.
    pub fn create_claim_at(&mut self, who: AccountId, claim: Vec<u8>, now: BlockNumber) -> (r: Result<(), Error>)
        requires
            old(self).wf(),
        ensures
            final(self).wf(),
            follows(
                *old(self),
                *final(self),
                create_step(old(self).claims(), who, claim@, now),
                EventView::ClaimCreated(who, claim@),
                r,
            ),
    {
        if self.proofs.contains(&claim) {
            return Err(Error::DuplicateClaim);
        }
        let key = copy_bytes(&claim);
        self.proofs.insert(key, ClaimRecord { owner: who, registered_at: now });
        self.deposit_event(Event::ClaimCreated(who, claim));
        Ok(())
    }

    /// Checks that `claim` is claimed, and by `who`.
    fn ensure_owner(&self, who: AccountId, claim: &Vec<u8>) -> (r: Result<(), Error>)
        requires
            self.wf(),
        ensures
            r == owner_check(self.claims(), who, claim@),
    {
        match self.proofs.get(claim) {
            None => Err(Error::ClaimNotFound),
            Some(record) => {
                if record.owner != who {
                    Err(Error::NotOwner)
                } else {
                    Ok(())
                }
            },
        }
    }

    /// The owner `who` gives up `claim`; refused if it is not claimed, or
    /// claimed by another identity, in that order.
    pub fn revoke_claim(&mut self, who: AccountId, claim: Vec<u8>) -> (r: Result<(), Error>)
        requires
            old(self).wf(),
        ensures
            final(self).wf(),
            follows(
                *old(self),
                *final(self),
                revoke_step(old(self).claims(), who, claim@),
                EventView::ClaimRevoked(who, claim@),
                r,
            ),
    {
        match self.ensure_owner(who, &claim) {
            Err(e) => Err(e),
            Ok(()) => {
                self.proofs.remove(&claim);
                self.deposit_event(Event::ClaimRevoked(who, claim));
                Ok(())
            },
        }
    }

    /// The owner `who` hands `claim` to `to` at block `now`; refused as
    /// `revoke_claim` is. Handing it to oneself is allowed.
    pub fn transfer_claim_at(
        &mut self,
        who: AccountId,
        claim: Vec<u8>,
        to: AccountId,
        now: BlockNumber,
    ) -> (r: Result<(), Error>)
        requires
            old(self).wf(),
        ensures
            final(self).wf(),
            follows(
                *old(self),
                *final(self),
                transfer_step(old(self).claims(), who, claim@, to, now),
                EventView::ClaimTransferred(who, to, claim@),
                r,
            ),
    {
        match self.ensure_owner(who, &claim) {
            Err(e) => Err(e),
            Ok(()) => {
                self.proofs.remove(&claim);
                let key = copy_bytes(&claim);
                self.proofs.insert(key, ClaimRecord { owner: to, registered_at: now });
                self.deposit_event(Event::ClaimTransferred(who, to, claim));
                Ok(())
            },
        }
    }

    /// `create_claim_at` at the block that `config` reports; the record
    /// holds that block, and in every other respect the contract is the same.
    pub fn create_claim<C: Config>(&mut self, config: &C, who: AccountId, claim: Vec<u8>) -> (r: Result<(), Error>)
        requires
            old(self).wf(),
        ensures
            final(self).wf(),
            follows(
                *old(self),
                *final(self),
                create_step(
                    old(self).claims(),
                    who,
                    claim@,
                    final(self).claims()[claim@].registered_at,
                ),
                EventView::ClaimCreated(who, claim@),
                r,
            ),
    {
        let now = config.block_number();
        self.create_claim_at(who, claim, now)
    }

    /// `transfer_claim_at` at the block that `config` reports; the record
    /// holds that block, and in every other respect the contract is the same.
    pub fn transfer_claim<C: Config>(
        &mut self,
        config: &C,
        who: AccountId,
        claim: Vec<u8>,
        to: AccountId,
    ) -> (r: Result<(), Error>)
        requires
            old(self).wf(),
        ensures
            final(self).wf(),
            follows(
                *old(self),
                *final(self),
                transfer_step(
                    old(self).claims(),
                    who,
                    claim@,
                    to,
                    final(self).claims()[claim@].registered_at,
                ),
                EventView::ClaimTransferred(who, to, claim@),
                r,
            ),
    {
        let now = config.block_number();
        self.transfer_claim_at(who, claim, to, now)
    }
}

} // verus!
