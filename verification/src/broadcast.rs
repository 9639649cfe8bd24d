//! Fault-tolerant fan-out delivery.
//!
//! A broadcast walks the list of subscribed chats and classifies every
//! delivery failure: recipient-permanent failures deregister the chat and
//! the loop goes on, a migration re-targets the send once (best effort),
//! rate limiting and network trouble wait and retry the same chat, and any
//! unclassified error aborts the remaining fan-out.
//!
//! The machine only decides; performing a send and sleeping belong to the
//! caller, which feeds every send's result back in.

use vstd::prelude::*;

verus! {

/// Seconds waited before retrying a send that failed with a network error.
pub const NETWORK_RETRY_SECS: u64 = 10;

/// Classified outcome of one delivery attempt.
#[derive(Clone, Copy, PartialEq, Eq, Structural, Debug)]
pub enum DeliveryError {
    /// The recipient blocked the bot: permanent, deregister.
    RecipientBlocked,
    /// The chat does not exist any more: permanent, deregister.
    RecipientNotFound,
    /// The account was deactivated: permanent, deregister.
    RecipientDeactivated,
    /// Server-imposed cooldown, in seconds, before the same send may be
    /// retried.
    RateLimited(u64),
    /// The chat moved to a new id; the old id is dead.
    MigratedTo(i64),
    /// Connection-level failure: wait briefly and retry the same send.
    NetworkError,
    /// Anything else: globally wrong, stop the fan-out.
    Other,
}

/// Where the machine stands in the fan-out.
#[derive(Clone, Copy, PartialEq, Eq, Structural, Debug)]
pub enum BroadcastPhase {
    /// Delivering to the chat at the current index.
    Sending,
    /// Retrying the current position once against a migrated-to chat id.
    MigrationRetry(i64),
    /// A global error stopped the fan-out.
    Aborted,
}

/// Ghost image of a broadcast in progress.
pub struct BroadcastModel {
    pub chats: Seq<i64>,
    pub idx: int,
    pub phase: BroadcastPhase,
    pub delivered: Seq<i64>,
    pub removed: Seq<i64>,
    pub added: Seq<i64>,
    pub failure: Option<DeliveryError>,
}

/// A broadcast in progress: the fixed recipient list, the cursor, and the
/// bookkeeping of what delivery did to the active set.
pub struct BroadcastState {
    pub chats: Vec<i64>,
    pub idx: usize,
    pub phase: BroadcastPhase,
    pub delivered: Vec<i64>,
    pub removed: Vec<i64>,
    pub added: Vec<i64>,
    pub failure: Option<DeliveryError>,
}

impl View for BroadcastState {
    type V = BroadcastModel;

    open spec fn view(&self) -> BroadcastModel {
        BroadcastModel {
            chats: self.chats@,
            idx: self.idx as int,
            phase: self.phase,
            delivered: self.delivered@,
            removed: self.removed@,
            added: self.added@,
            failure: self.failure,
        }
    }
}

/// The machine at the start of a fan-out.
pub open spec fn initial_broadcast(chats: Seq<i64>) -> BroadcastModel {
    BroadcastModel {
        chats,
        idx: 0,
        phase: BroadcastPhase::Sending,
        delivered: Seq::empty(),
        removed: Seq::empty(),
        added: Seq::empty(),
        failure: None,
    }
}

/// Structural invariant of a broadcast in progress: the cursor stays
/// within the list, a migration retry happens at a live position, and an
/// aborted machine carries its error.
pub open spec fn broadcast_inv(s: BroadcastModel) -> bool {
    &&& 0 <= s.idx <= s.chats.len()
    &&& (s.phase is MigrationRetry ==> s.idx < s.chats.len())
    &&& (s.phase is Aborted ==> s.failure is Some)
}

/// Whether the machine still asks for a send.
pub open spec fn wants_send(s: BroadcastModel) -> bool {
    match s.phase {
        BroadcastPhase::Sending => 0 <= s.idx < s.chats.len(),
        BroadcastPhase::MigrationRetry(_) => true,
        BroadcastPhase::Aborted => false,
    }
}

/// The chat the next send must target.
pub open spec fn send_target(s: BroadcastModel) -> i64
    recommends
        wants_send(s),
{
    match s.phase {
        BroadcastPhase::MigrationRetry(new_chat) => new_chat,
        _ => s.chats[s.idx],
    }
}

/// How one send result transforms the machine.
pub open spec fn broadcast_step(s: BroadcastModel, r: Result<(), DeliveryError>) -> BroadcastModel
    recommends
        wants_send(s),
{
    match s.phase {
        BroadcastPhase::MigrationRetry(new_chat) => {
            // Best effort: a failed retry against the new id is swallowed.
            BroadcastModel {
                phase: BroadcastPhase::Sending,
                idx: s.idx + 1,
                delivered: if r is Ok {
                    s.delivered.push(new_chat)
                } else {
                    s.delivered
                },
                ..s
            }
        },
        _ => match r {
            Ok(()) => BroadcastModel {
                idx: s.idx + 1,
                delivered: s.delivered.push(s.chats[s.idx]),
                ..s
            },
            Err(DeliveryError::RecipientBlocked) | Err(DeliveryError::RecipientNotFound) | Err(
                DeliveryError::RecipientDeactivated,
            ) => BroadcastModel { idx: s.idx + 1, removed: s.removed.push(s.chats[s.idx]), ..s },
            Err(DeliveryError::MigratedTo(new_chat)) => BroadcastModel {
                phase: BroadcastPhase::MigrationRetry(new_chat),
                removed: s.removed.push(s.chats[s.idx]),
                added: s.added.push(new_chat),
                ..s
            },
            Err(DeliveryError::RateLimited(_)) | Err(DeliveryError::NetworkError) => s,
            Err(e) => BroadcastModel { phase: BroadcastPhase::Aborted, failure: Some(e), ..s },
        },
    }
}

/// The wait, in seconds, a send result imposes before the retry it asks
/// for; nothing when no wait-and-retry applies.
pub open spec fn broadcast_sleep(s: BroadcastModel, r: Result<(), DeliveryError>) -> Option<u64> {
    match s.phase {
        BroadcastPhase::MigrationRetry(_) => None,
        _ => match r {
            Err(DeliveryError::RateLimited(secs)) => Some(secs),
            Err(DeliveryError::NetworkError) => Some(NETWORK_RETRY_SECS),
            _ => None,
        },
    }
}

/// The machine after feeding a whole sequence of send results, stopping
/// early once no send is wanted.
pub open spec fn broadcast_run(s: BroadcastModel, script: Seq<Result<(), DeliveryError>>) -> BroadcastModel
    decreases script.len(),
{
    if script.len() == 0 || !wants_send(s) {
        s
    } else {
        broadcast_run(broadcast_step(s, script[0]), script.skip(1))
    }
}

impl BroadcastState {
    /// Begin a fan-out over the given chats.
    pub fn start(chats: Vec<i64>) -> (s: BroadcastState)
        ensures
            s@ == initial_broadcast(chats@),
            broadcast_inv(s@),
    {
        BroadcastState {
            chats,
            idx: 0,
            phase: BroadcastPhase::Sending,
            delivered: Vec::new(),
            removed: Vec::new(),
            added: Vec::new(),
            failure: None,
        }
    }

    /// The chat to send to next, or nothing when the fan-out is over.
    pub fn next_target(&self) -> (r: Option<i64>)
        ensures
            r is Some <==> wants_send(self@),
            r is Some ==> r->0 == send_target(self@),
    {
        match self.phase {
            BroadcastPhase::MigrationRetry(new_chat) => Some(new_chat),
            BroadcastPhase::Sending => if self.idx < self.chats.len() {
                Some(self.chats[self.idx])
            } else {
                None
            },
            BroadcastPhase::Aborted => None,
        }
    }

    /// Feed back the result of the send the machine asked for.  Returns
    /// the seconds to wait before the next send, when the result demands a
    /// wait-and-retry.
    pub fn on_result(&mut self, r: Result<(), DeliveryError>) -> (sleep: Option<u64>)
        requires
            broadcast_inv(old(self)@),
            wants_send(old(self)@),
        ensures
            broadcast_inv(final(self)@),
            final(self)@ == broadcast_step(old(self)@, r),
            sleep == broadcast_sleep(old(self)@, r),
    {
        let n = self.chats.len();
        assert(self@.idx < n);
        match self.phase {
            BroadcastPhase::MigrationRetry(new_chat) => {
                if r.is_ok() {
                    self.delivered.push(new_chat);
                }
                self.phase = BroadcastPhase::Sending;
                self.idx = self.idx + 1;
                None
            },
            _ => {
                let chat = self.chats[self.idx];
                match r {
                    Ok(()) => {
                        self.delivered.push(chat);
                        self.idx = self.idx + 1;
                        None
                    },
                    Err(DeliveryError::RecipientBlocked) | Err(DeliveryError::RecipientNotFound)
                        | Err(DeliveryError::RecipientDeactivated) => {
                        self.removed.push(chat);
                        self.idx = self.idx + 1;
                        None
                    },
                    Err(DeliveryError::MigratedTo(new_chat)) => {
                        self.removed.push(chat);
                        self.added.push(new_chat);
                        self.phase = BroadcastPhase::MigrationRetry(new_chat);
                        None
                    },
                    Err(DeliveryError::RateLimited(secs)) => Some(secs),
                    Err(DeliveryError::NetworkError) => Some(NETWORK_RETRY_SECS),
                    Err(e) => {
                        self.phase = BroadcastPhase::Aborted;
                        self.failure = Some(e);
                        None
                    },
                }
            },
        }
    }

    /// Whether the fan-out has finished cleanly.
    pub fn is_done(&self) -> (r: bool)
        requires
            broadcast_inv(self@),
        ensures
            r == (!wants_send(self@) && self@.failure is None),
    {
        match self.phase {
            BroadcastPhase::Sending => self.idx >= self.chats.len() && self.failure.is_none(),
            _ => false,
        }
    }
}

/// Drive a whole fan-out against a fixed script of send results: the k-th
/// script entry answers the k-th send the machine asks for.  Stops when the
/// machine is done, has aborted, or the script is exhausted.
pub fn run_broadcast(chats: Vec<i64>, script: Vec<Result<(), DeliveryError>>) -> (s: BroadcastState)
    ensures
        s@ == broadcast_run(initial_broadcast(chats@), script@),
{
    let ghost full = script@;
    let ghost chats0 = chats@;
    let mut state = BroadcastState::start(chats);
    let mut k: usize = 0;
    proof {
        assert(full.skip(0) =~= full);
    }
    while k < script.len() && state.next_target().is_some()
        invariant
            k <= script@.len(),
            script@ == full,
            broadcast_inv(state@),
            broadcast_run(initial_broadcast(chats0), full) == broadcast_run(
                state@,
                full.skip(k as int),
            ),
        decreases script@.len() - k,
    {
        proof {
            assert(full.skip(k as int)[0] == full[k as int]);
            assert(full.skip(k as int).skip(1) =~= full.skip(k as int + 1));
        }
        let _sleep = state.on_result(script[k]);
        k = k + 1;
    }
    state
}

/// Completeness law: when every send succeeds, every chat from the
/// cursor on is delivered to, in order, and nothing is removed or added.
pub proof fn lemma_all_ok_delivers_all(s: BroadcastModel, script: Seq<Result<(), DeliveryError>>)
    requires
        broadcast_inv(s),
        s.phase is Sending,
        script.len() == s.chats.len() - s.idx,
        forall|i: int| 0 <= i < script.len() ==> (#[trigger] script[i]) is Ok,
    ensures
        broadcast_run(s, script).delivered == s.delivered + s.chats.skip(s.idx),
        broadcast_run(s, script).removed == s.removed,
        broadcast_run(s, script).added == s.added,
        broadcast_run(s, script).failure == s.failure,
        !wants_send(broadcast_run(s, script)),
    decreases script.len(),
{
    if script.len() == 0 {
        assert(s.delivered + s.chats.skip(s.idx) =~= s.delivered);
    } else {
        let s1 = broadcast_step(s, script[0]);
        assert(s1.delivered =~= s.delivered.push(s.chats[s.idx]));
        assert(forall|i: int|
            0 <= i < script.skip(1).len() ==> (#[trigger] script.skip(1)[i]) is Ok);
        lemma_all_ok_delivers_all(s1, script.skip(1));
        assert(s.delivered.push(s.chats[s.idx]) + s.chats.skip(s.idx + 1) =~= s.delivered
            + s.chats.skip(s.idx));
    }
}

/// Isolation law: a recipient-permanent failure removes only that chat and
/// the machine keeps asking to send to the rest, exactly as a success
/// would advance it.
pub proof fn lemma_permanent_failure_isolated(s: BroadcastModel, e: DeliveryError)
    requires
        s.phase is Sending,
        wants_send(s),
        e is RecipientBlocked || e is RecipientNotFound || e is RecipientDeactivated,
    ensures
        broadcast_step(s, Err(e)).phase is Sending,
        broadcast_step(s, Err(e)).idx == s.idx + 1,
        broadcast_step(s, Err(e)).removed == s.removed.push(s.chats[s.idx]),
        broadcast_step(s, Err(e)).delivered == s.delivered,
        broadcast_step(s, Err(e)).failure == s.failure,
{
}

} // verus!
