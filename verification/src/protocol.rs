//! The initialization protocol.
//!
//! A region's lock is constructed exactly once, by the owner. The owner
//! publishes completion through the initialization flag (a release-store);
//! a joiner polls the flag (acquire-loads) and reattaches to the lock bytes
//! only after observing it true, so it never reads a half-built lock.
//!
//! Two pieces model that protocol. `FlagWait` is the polling primitive, in a
//! bounded variant (the advisory "is this initialized yet" query, which gives
//! up after [`POLL_LIMIT`] polls) and an unbounded one (the attach path, which
//! waits for as long as it takes). `AttachFsm` is the per-process attach state
//! machine: it consumes what the driver observed (the open outcome, the flag)
//! and answers with the one action to take next. The driver performs the
//! action — it sleeps, constructs, publishes or reattaches — and reports back.

use vstd::prelude::*;

use crate::errors::StoreError;

verus! {

/// How many times a bounded wait polls the flag before giving up.
pub const POLL_LIMIT: u32 = 10;

/// How long a driver sleeps between two polls of the flag, in milliseconds.
pub const POLL_INTERVAL_MS: u64 = 100;

/// How long the owner holds the freshly constructed lock before publishing
/// readiness, in seconds (a demonstration delay, not a correctness need).
pub const CONSTRUCT_HOLD_SECS: u64 = 5;

/// What the calling process is to a region: its creator, or a late comer.
#[derive(Clone, Copy, PartialEq, Eq, Structural, Debug)]
pub enum Role {
    Owner,
    Joiner,
}

/// The role that a region handle's ownership bit encodes.
pub fn role_of(is_owner: bool) -> (r: Role)
    ensures
        r is Owner <==> is_owner,
{
    if is_owner {
        Role::Owner
    } else {
        Role::Joiner
    }
}

/// What an advisory readiness query can answer before any flag is read: the
/// owner has by definition not initialized anything observable yet, so it
/// reports not-ready at once; a joiner has to poll.
pub fn ready_before_polling(role: Role) -> (r: Option<bool>)
    ensures
        role is Owner ==> r == Some(false),
        role is Joiner ==> r is None,
{
    match role {
        Role::Owner => Some(false),
        Role::Joiner => None,
    }
}

/// Whether a wait for the flag is allowed to give up.
#[derive(Clone, Copy, PartialEq, Eq, Structural, Debug)]
pub enum WaitKind {
    /// Gives up after [`POLL_LIMIT`] polls; used by the advisory query.
    Bounded,
    /// Polls until the flag is seen true; used by the attach path.
    Unbounded,
}

/// What a waiter does after one look at the flag.
#[derive(Clone, Copy, PartialEq, Eq, Structural, Debug)]
pub enum WaitStep {
    /// The flag was true: the lock is safely reattachable.
    Ready,
    /// Bounded waits only: the polls are spent and the flag stayed false.
    GaveUp,
    /// Sleep for [`POLL_INTERVAL_MS`], yield, and look again.
    Sleep,
}

/// One wait for the initialization flag. The driver loops: it loads the flag
/// with acquire ordering, feeds the value to [`FlagWait::observe`], and obeys
/// the returned step until it is `Ready` or `GaveUp`.
pub struct FlagWait {
    /// Whether this wait gives up.
    pub kind: WaitKind,
    /// Polls answered `Sleep` so far; only counted for bounded waits.
    pub polls_used: u32,
}

impl FlagWait {
    /// A bounded wait never outlives its poll budget.
    pub open spec fn wf(self) -> bool {
        self.polls_used <= POLL_LIMIT
    }

    /// A fresh wait with a full poll budget.
    pub fn new(kind: WaitKind) -> (s: Self)
        ensures
            s.kind == kind,
            s.polls_used == 0,
            s.wf(),
    {
        FlagWait { kind, polls_used: 0 }
    }

    /// Answers one observation of the flag: ready as soon as it is true,
    /// give up when a bounded wait has no polls left, else sleep and retry.
    pub fn observe(&mut self, flag: bool) -> (r: WaitStep)
        requires
            old(self).wf(),
        ensures
            final(self).wf(),
            final(self).kind == old(self).kind,
            flag ==> r is Ready && *final(self) == *old(self),
            !flag && old(self).kind is Unbounded ==> r is Sleep && *final(self) == *old(self),
            !flag && old(self).kind is Bounded && old(self).polls_used == POLL_LIMIT ==> r
                is GaveUp && *final(self) == *old(self),
            !flag && old(self).kind is Bounded && old(self).polls_used < POLL_LIMIT ==> r is Sleep
                && final(self).polls_used == old(self).polls_used + 1,
    {
        if flag {
            WaitStep::Ready
        } else {
            match self.kind {
                WaitKind::Unbounded => WaitStep::Sleep,
                WaitKind::Bounded => {
                    if self.polls_used == POLL_LIMIT {
                        WaitStep::GaveUp
                    } else {
                        self.polls_used = self.polls_used + 1;
                        WaitStep::Sleep
                    }
                },
            }
        }
    }
}

/// Seals the outcome of constructing or reattaching the lock: success hands
/// the attach on, failure is fatal to it and surfaces with its cause.
pub fn lock_ready_outcome(failure: Option<String>) -> (r: Result<(), StoreError>)
    ensures
        failure is None ==> r is Ok,
        failure matches Some(c) ==> (r matches Err(e)
            && e matches StoreError::LockConstruction { cause } && cause@ == c@),
{
    match failure {
        None => Ok(()),
        Some(cause) => Err(StoreError::LockConstruction { cause }),
    }
}

/// A process-local attach state. `Ready` and `Reattached` are terminal and
/// permit unbounded get/set; no transition leaves them.
#[derive(Clone, Copy, PartialEq, Eq, Structural, Debug)]
pub enum AttachState {
    /// No region opened yet.
    Unattached,
    /// Owner: the region is open, the lock is being constructed in place.
    Constructing,
    /// Owner: the lock is built and readiness published.
    Ready,
    /// Joiner: the region is open, the flag has not been seen true.
    WaitingForFlag,
    /// Joiner: the flag was seen true and the lock handle rebuilt.
    Reattached,
}

/// What the driver observed since the last step.
#[derive(Clone, Copy, PartialEq, Eq, Structural, Debug)]
pub enum AttachEvent {
    /// The named region was opened or created, with the given role.
    Opened(Role),
    /// The lock was constructed in place over the region's lock bytes.
    Constructed,
    /// The initialization flag was loaded (with acquire ordering).
    FlagSeen(bool),
}

/// What the driver must do next.
#[derive(Clone, Copy, PartialEq, Eq, Structural, Debug)]
pub enum AttachAction {
    /// Construct the lock in place over the region's lock bytes.
    ConstructLock,
    /// Hold for [`CONSTRUCT_HOLD_SECS`], then release-store the flag.
    PublishReady,
    /// Load the initialization flag (sleeping [`POLL_INTERVAL_MS`] first
    /// when this repeats).
    PollFlag,
    /// Rebuild a lock handle over the already-constructed lock bytes.
    ReattachLock,
    /// Nothing: the event does not advance this state.
    Stay,
}

/// The transition relation of the attach machine.
pub open spec fn attach_next(s: AttachState, e: AttachEvent) -> (AttachState, AttachAction) {
    match (s, e) {
        (AttachState::Unattached, AttachEvent::Opened(Role::Owner)) => (
            AttachState::Constructing,
            AttachAction::ConstructLock,
        ),
        (AttachState::Unattached, AttachEvent::Opened(Role::Joiner)) => (
            AttachState::WaitingForFlag,
            AttachAction::PollFlag,
        ),
        (AttachState::Constructing, AttachEvent::Constructed) => (
            AttachState::Ready,
            AttachAction::PublishReady,
        ),
        (AttachState::WaitingForFlag, AttachEvent::FlagSeen(true)) => (
            AttachState::Reattached,
            AttachAction::ReattachLock,
        ),
        (AttachState::WaitingForFlag, AttachEvent::FlagSeen(false)) => (
            AttachState::WaitingForFlag,
            AttachAction::PollFlag,
        ),
        _ => (s, AttachAction::Stay),
    }
}

/// Whether a state permits get/set.
pub open spec fn attached(s: AttachState) -> bool {
    s is Ready || s is Reattached
}

/// The attach state machine, as a process drives it.
pub struct AttachFsm {
    /// The current state.
    pub state: AttachState,
}

impl AttachFsm {
    /// A fresh machine, before any region is opened.
    pub fn new() -> (s: Self)
        ensures
            s.state is Unattached,
    {
        AttachFsm { state: AttachState::Unattached }
    }

    /// Consumes one observation and answers with the next action, following
    /// [`attach_next`] exactly.
    pub fn step(&mut self, e: AttachEvent) -> (a: AttachAction)
        ensures
            (final(self).state, a) == attach_next(old(self).state, e),
    {
        let (next, action): (AttachState, AttachAction) = match (self.state, e) {
            (AttachState::Unattached, AttachEvent::Opened(Role::Owner)) => (
                AttachState::Constructing,
                AttachAction::ConstructLock,
            ),
            (AttachState::Unattached, AttachEvent::Opened(Role::Joiner)) => (
                AttachState::WaitingForFlag,
                AttachAction::PollFlag,
            ),
            (AttachState::Constructing, AttachEvent::Constructed) => (
                AttachState::Ready,
                AttachAction::PublishReady,
            ),
            (AttachState::WaitingForFlag, AttachEvent::FlagSeen(true)) => (
                AttachState::Reattached,
                AttachAction::ReattachLock,
            ),
            (AttachState::WaitingForFlag, AttachEvent::FlagSeen(false)) => (
                AttachState::WaitingForFlag,
                AttachAction::PollFlag,
            ),
            (s, _) => (s, AttachAction::Stay),
        };
        self.state = next;
        action
    }

    /// Whether get/set are permitted in the current state.
    pub fn is_attached(&self) -> (r: bool)
        ensures
            r == attached(self.state),
    {
        match self.state {
            AttachState::Ready => true,
            AttachState::Reattached => true,
            _ => false,
        }
    }
}

/// The state a run of the attach machine ends in, from `s0` through `events`.
pub open spec fn state_after(s0: AttachState, events: Seq<AttachEvent>) -> AttachState
    decreases events.len(),
{
    if events.len() == 0 {
        s0
    } else {
        attach_next(state_after(s0, events.drop_last()), events.last()).0
    }
}

/// The actions such a run answers, in order, one per event.
pub open spec fn actions_of(s0: AttachState, events: Seq<AttachEvent>) -> Seq<AttachAction>
    decreases events.len(),
{
    if events.len() == 0 {
        Seq::empty()
    } else {
        actions_of(s0, events.drop_last()).push(
            attach_next(state_after(s0, events.drop_last()), events.last()).1,
        )
    }
}

/// How many of a run's actions construct the lock.
pub open spec fn constructions(actions: Seq<AttachAction>) -> nat
    decreases actions.len(),
{
    if actions.len() == 0 {
        0
    } else {
        constructions(actions.drop_last()) + (if actions.last() is ConstructLock {
            1nat
        } else {
            0nat
        })
    }
}

/// Counting constructions distributes over appending one action.
pub proof fn lemma_constructions_push(actions: Seq<AttachAction>, a: AttachAction)
    ensures
        constructions(actions.push(a)) == constructions(actions) + (if a is ConstructLock {
            1nat
        } else {
            0nat
        }),
{
    assert(actions.push(a).drop_last() =~= actions);
    assert(actions.push(a).last() == a);
}

/// A run answers exactly one action per event.
pub proof fn lemma_actions_len(s0: AttachState, events: Seq<AttachEvent>)
    ensures
        actions_of(s0, events).len() == events.len(),
    decreases events.len(),
{
    if events.len() > 0 {
        lemma_actions_len(s0, events.drop_last());
    }
}

/// Each action of a run is the machine's answer to the event at the same
/// position, from the state the earlier events led to.
pub proof fn lemma_actions_index(s0: AttachState, events: Seq<AttachEvent>, i: int)
    requires
        0 <= i < events.len(),
    ensures
        actions_of(s0, events)[i] == attach_next(state_after(s0, events.take(i)), events[i]).1,
    decreases events.len(),
{
    lemma_actions_len(s0, events.drop_last());
    if i == events.len() - 1 {
        assert(events.take(i) =~= events.drop_last());
    } else {
        lemma_actions_index(s0, events.drop_last(), i);
        assert(events.drop_last().take(i) =~= events.take(i));
    }
}

/// The machine never returns to `Unattached`.
pub proof fn lemma_never_unattached_again(s0: AttachState, events: Seq<AttachEvent>)
    requires
        s0 !is Unattached,
    ensures
        state_after(s0, events) !is Unattached,
    decreases events.len(),
{
    if events.len() > 0 {
        lemma_never_unattached_again(s0, events.drop_last());
    }
}

/// Once a run has left `Unattached`, it never constructs the lock.
pub proof fn lemma_no_construct_after_leaving(s0: AttachState, events: Seq<AttachEvent>)
    requires
        s0 !is Unattached,
    ensures
        constructions(actions_of(s0, events)) == 0,
    decreases events.len(),
{
    if events.len() > 0 {
        lemma_no_construct_after_leaving(s0, events.drop_last());
        lemma_never_unattached_again(s0, events.drop_last());
        lemma_constructions_push(
            actions_of(s0, events.drop_last()),
            attach_next(state_after(s0, events.drop_last()), events.last()).1,
        );
    }
}

/// A run that constructed the lock has left `Unattached`.
pub proof fn lemma_construct_leaves_unattached(events: Seq<AttachEvent>)
    requires
        constructions(actions_of(AttachState::Unattached, events)) >= 1,
    ensures
        state_after(AttachState::Unattached, events) !is Unattached,
    decreases events.len(),
{
    if events.len() > 0 {
        let prior = state_after(AttachState::Unattached, events.drop_last());
        let last_step = attach_next(prior, events.last());
        lemma_constructions_push(
            actions_of(AttachState::Unattached, events.drop_last()),
            last_step.1,
        );
        if last_step.1 is ConstructLock {
            assert(last_step.0 is Constructing);
        } else {
            assert(constructions(actions_of(AttachState::Unattached, events.drop_last())) >= 1);
            lemma_construct_leaves_unattached(events.drop_last());
            assert(last_step.0 !is Unattached);
        }
    }
}

/// However a process drives the attach machine, it constructs the lock at
/// most once per region lifetime.
pub proof fn lemma_construct_at_most_once(events: Seq<AttachEvent>)
    ensures
        constructions(actions_of(AttachState::Unattached, events)) <= 1,
    decreases events.len(),
{
    if events.len() > 0 {
        lemma_construct_at_most_once(events.drop_last());
        let prior = state_after(AttachState::Unattached, events.drop_last());
        lemma_constructions_push(
            actions_of(AttachState::Unattached, events.drop_last()),
            attach_next(prior, events.last()).1,
        );
        if constructions(actions_of(AttachState::Unattached, events.drop_last())) >= 1 {
            lemma_construct_leaves_unattached(events.drop_last());
            assert(attach_next(prior, events.last()).1 !is ConstructLock);
        }
    }
}

/// Only an owner's opening of the region constructs the lock, and only from
/// `Unattached`.
pub proof fn lemma_construct_only_by_owner(s0: AttachState, events: Seq<AttachEvent>, i: int)
    requires
        0 <= i < events.len(),
        actions_of(s0, events)[i] is ConstructLock,
    ensures
        events[i] == AttachEvent::Opened(Role::Owner),
        state_after(s0, events.take(i)) is Unattached,
{
    lemma_actions_index(s0, events, i);
}

/// A run whose events never report owner-ship never constructs the lock.
pub proof fn lemma_joiner_never_constructs(events: Seq<AttachEvent>)
    requires
        forall|i: int|
            0 <= i < events.len() ==> events[i] != AttachEvent::Opened(Role::Owner),
    ensures
        constructions(actions_of(AttachState::Unattached, events)) == 0,
    decreases events.len(),
{
    if events.len() > 0 {
        lemma_joiner_never_constructs(events.drop_last());
        let prior = state_after(AttachState::Unattached, events.drop_last());
        assert(events.last() != AttachEvent::Opened(Role::Owner));
        lemma_constructions_push(
            actions_of(AttachState::Unattached, events.drop_last()),
            attach_next(prior, events.last()).1,
        );
        assert(attach_next(prior, events.last()).1 !is ConstructLock);
    }
}

/// Attaching to one region from an owner process and a joiner process makes
/// exactly one construction in total: the owner's run constructs once, the
/// joiner's never.
pub proof fn lemma_single_initialization(
    owner_events: Seq<AttachEvent>,
    joiner_events: Seq<AttachEvent>,
)
    requires
        owner_events.len() > 0,
        owner_events[0] == AttachEvent::Opened(Role::Owner),
        forall|i: int|
            0 <= i < joiner_events.len() ==> joiner_events[i] != AttachEvent::Opened(Role::Owner),
    ensures
        constructions(actions_of(AttachState::Unattached, owner_events)) == 1,
        constructions(actions_of(AttachState::Unattached, joiner_events)) == 0,
{
    lemma_construct_at_most_once(owner_events);
    lemma_joiner_never_constructs(joiner_events);
    lemma_actions_index(AttachState::Unattached, owner_events, 0);
    assert(owner_events.take(0) =~= Seq::<AttachEvent>::empty());
    assert(actions_of(AttachState::Unattached, owner_events)[0] is ConstructLock);
    lemma_some_construct_counts(actions_of(AttachState::Unattached, owner_events), 0);
}

/// A run with a constructing action at some position constructs at least
/// once.
pub proof fn lemma_some_construct_counts(actions: Seq<AttachAction>, i: int)
    requires
        0 <= i < actions.len(),
        actions[i] is ConstructLock,
    ensures
        constructions(actions) >= 1,
    decreases actions.len(),
{
    if i == actions.len() - 1 {
    } else {
        lemma_some_construct_counts(actions.drop_last(), i);
    }
}

/// A joiner reattaches to the lock only at a step that observed the
/// initialization flag true, from the waiting state — never before the
/// owner's publication was seen.
pub proof fn lemma_reattach_only_after_flag(s0: AttachState, events: Seq<AttachEvent>, i: int)
    requires
        0 <= i < events.len(),
        actions_of(s0, events)[i] is ReattachLock,
    ensures
        events[i] == AttachEvent::FlagSeen(true),
        state_after(s0, events.take(i)) is WaitingForFlag,
{
    lemma_actions_index(s0, events, i);
}

} // verus!
