use vstd::prelude::*;

verus! {

/// Identity of a registrant, as handed over by the authenticator.
pub type AccountId = u64;

/// Opaque fixed-size identifier of the claimed content (its hash).
pub type ClaimId = u64;

/// Block height at which a transition runs.
pub type BlockNumber = u64;

/// What the registry stores for a claim: who holds it, and since when.
#[derive(Clone, Copy, Debug, PartialEq, Eq, Structural)]
pub struct ClaimRecord {
    pub owner: AccountId,
    pub created_at: BlockNumber,
}

/// Events handed to the runtime's event sink.
#[derive(Clone, Copy, Debug, PartialEq, Eq, Structural)]
pub enum Event {
    ClaimCreated { who: AccountId, claim: ClaimId },
    ClaimRevoked { who: AccountId, claim: ClaimId },
}

/// Why a call was refused. A refused call changes nothing.
#[derive(Clone, Copy, Debug, PartialEq, Eq, Structural)]
pub enum Error {
    /// The claim is already held by some account.
    AlreadyClaimed,
    /// No account holds the claim.
    NoSuchClaim,
    /// The claim is held by another account than the caller.
    NotClaimOwner,
}


/// The registry's outcome for `create_claim`: it succeeds exactly when the
/// claim is unheld.
pub open spec fn create_result(reg: Map<ClaimId, ClaimRecord>, claim: ClaimId) -> Result<(), Error> {
    if reg.contains_key(claim) {
        Err(Error::AlreadyClaimed)
    } else {
        Ok(())
    }
}

/// The registry after `create_claim(who, claim)` at block `now`.
pub open spec fn registry_after_create(
    reg: Map<ClaimId, ClaimRecord>,
    who: AccountId,
    claim: ClaimId,
    now: BlockNumber,
) -> Map<ClaimId, ClaimRecord> {
    if reg.contains_key(claim) {
        reg
    } else {
        reg.insert(claim, ClaimRecord { owner: who, created_at: now })
    }
}

/// The events that `create_claim(who, claim)` emits.
pub open spec fn events_of_create(
    reg: Map<ClaimId, ClaimRecord>,
    who: AccountId,
    claim: ClaimId,
) -> Seq<Event> {
    if reg.contains_key(claim) {
        seq![]
    } else {
        seq![Event::ClaimCreated { who, claim }]
    }
}

/// The registry's outcome for `revoke_claim`: the claim must be held, and by
/// the caller.
pub open spec fn revoke_result(
    reg: Map<ClaimId, ClaimRecord>,
    who: AccountId,
    claim: ClaimId,
) -> Result<(), Error> {
    if !reg.contains_key(claim) {
        Err(Error::NoSuchClaim)
    } else if reg[claim].owner != who {
        Err(Error::NotClaimOwner)
    } else {
        Ok(())
    }
}

/// The registry after `revoke_claim(who, claim)`.
pub open spec fn registry_after_revoke(
    reg: Map<ClaimId, ClaimRecord>,
    who: AccountId,
    claim: ClaimId,
) -> Map<ClaimId, ClaimRecord> {
    if revoke_result(reg, who, claim) is Ok {
        reg.remove(claim)
    } else {
        reg
    }
}

/// The events that `revoke_claim(who, claim)` emits.
pub open spec fn events_of_revoke(
    reg: Map<ClaimId, ClaimRecord>,
    who: AccountId,
    claim: ClaimId,
) -> Seq<Event> {
    if revoke_result(reg, who, claim) is Ok {
        seq![Event::ClaimRevoked { who, claim }]
    } else {
        seq![]
    }
}

/// What the registry needs from the runtime it runs in: the current block
/// height, and a sink for its events. An implementation must meet the
/// contracts below; the registry's own guarantees rest on them.
pub trait Config {
    /// The block height that the runtime currently reports.
    spec fn now(&self) -> BlockNumber;

    /// The events the sink has accepted so far, oldest first.
    spec fn deposited(&self) -> Seq<Event>;

    /// Reads the clock.
    fn block_number(&self) -> (r: BlockNumber)
        ensures
            r == self.now(),
    ;

    /// Hands an event to the sink; the clock does not move.
    fn deposit_event(&mut self, event: Event)
        ensures
            final(self).deposited() == old(self).deposited().push(event),
            final(self).now() == old(self).now(),
    ;
}

/// A runtime held in memory: a block counter set by its owner, and a log of
/// the events deposited.
pub struct InMemoryRuntime {
    block: BlockNumber,
    events: Vec<Event>,
}

impl InMemoryRuntime {
    /// A runtime at block `block`, with no events yet.
    pub fn new(block: BlockNumber) -> (r: Self)
        ensures
            r.now() == block,
            r.deposited() == Seq::<Event>::empty(),
    {
        InMemoryRuntime { block, events: Vec::new() }
    }

    /// Moves the clock on; block heights never decrease.
    pub fn set_block_number(&mut self, block: BlockNumber)
        requires
            old(self).now() <= block,
        ensures
            final(self).now() == block,
            final(self).deposited() == old(self).deposited(),
    {
        self.block = block;
    }

    /// The events deposited so far, oldest first.
    pub fn events(&self) -> (r: &Vec<Event>)
        ensures
            r@ == self.deposited(),
    {
        &self.events
    }
}

impl Config for InMemoryRuntime {
    closed spec fn now(&self) -> BlockNumber {
        self.block
    }

    closed spec fn deposited(&self) -> Seq<Event> {
        self.events@
    }

    /// Reads the clock.
    fn block_number(&self) -> (r: BlockNumber) {
        self.block
    }

    fn deposit_event(&mut self, event: Event) {
        self.events.push(event);
    }
}

/// The claim registry, over a runtime `T` that supplies the clock and the
/// event sink.
pub struct Pallet<T: Config> {
    claims: std::collections::HashMap<ClaimId, ClaimRecord>,
    runtime: T,
}

impl<T: Config> Pallet<T> {
    /// The registry's contents: each held claim with its record.
    pub closed spec fn registry(&self) -> Map<ClaimId, ClaimRecord> {
        self.claims@
    }

    /// The runtime the registry runs in.
    pub closed spec fn runtime_state(&self) -> T {
        self.runtime
    }

    /// An empty registry over `runtime`.
    pub fn new(runtime: T) -> (r: Self)
        ensures
            r.registry() == Map::<ClaimId, ClaimRecord>::empty(),
            r.runtime_state() == runtime,
    {
        Pallet { claims: std::collections::HashMap::new(), runtime }
    }

    /// The record of `claim`, if some account holds it.
    pub fn claim(&self, claim: ClaimId) -> (r: Option<ClaimRecord>)
        ensures
            r == (if self.registry().contains_key(claim) {
                Some(self.registry()[claim])
            } else {
                None
            }),
    {
        match self.claims.get(&claim) {
            Some(record) => Some(*record),
            None => None,
        }
    }

    /// How many claims are held.
    pub fn claim_count(&self) -> (r: usize)
        ensures
            r == self.registry().len(),
    {
        self.claims.len()
    }

    /// The runtime the registry runs in.
    pub fn runtime(&self) -> (r: &T)
        ensures
            *r == self.runtime_state(),
    {
        &self.runtime
    }

    /// Mutable access to the runtime, to move its clock or drain its sink.
    /// The registry itself is left alone.
    pub fn runtime_mut(&mut self) -> (r: &mut T)
        ensures
            *r == old(self).runtime_state(),
            final(self).runtime_state() == *final(r),
            final(self).registry() == old(self).registry(),
    {
        &mut self.runtime
    }

    /// Registers `who` as the holder of `claim` at the current block, unless
    /// some account already holds it.
    pub fn create_claim(&mut self, who: AccountId, claim: ClaimId) -> (r: Result<(), Error>)
        ensures
            r == create_result(old(self).registry(), claim),
            final(self).registry() == registry_after_create(
                old(self).registry(),
                who,
                claim,
                old(self).runtime_state().now(),
            ),
            final(self).runtime_state().deposited() == old(self).runtime_state().deposited()
                + events_of_create(old(self).registry(), who, claim),
            final(self).runtime_state().now() == old(self).runtime_state().now(),
            r is Err ==> *final(self) == *old(self),
    {
        if self.claims.contains_key(&claim) {
            return Err(Error::AlreadyClaimed);
        }
        let now = self.runtime.block_number();
        self.claims.insert(claim, ClaimRecord { owner: who, created_at: now });
        self.runtime.deposit_event(Event::ClaimCreated { who, claim });
        Ok(())
    }

    /// Gives up `claim`, which `who` must hold.
    pub fn revoke_claim(&mut self, who: AccountId, claim: ClaimId) -> (r: Result<(), Error>)
        ensures
            r == revoke_result(old(self).registry(), who, claim),
            final(self).registry() == registry_after_revoke(old(self).registry(), who, claim),
            final(self).runtime_state().deposited() == old(self).runtime_state().deposited()
                + events_of_revoke(old(self).registry(), who, claim),
            final(self).runtime_state().now() == old(self).runtime_state().now(),
            r is Err ==> *final(self) == *old(self),
    {
        let owner = match self.claims.get(&claim) {
            Some(record) => record.owner,
            None => {
                return Err(Error::NoSuchClaim);
            },
        };
        if owner != who {
            return Err(Error::NotClaimOwner);
        }
        self.claims.remove(&claim);
        self.runtime.deposit_event(Event::ClaimRevoked { who, claim });
        Ok(())
    }
}

} // verus!
