//! The session state machine: call depth per execution, the activation
//! gate, and the events that entering and leaving a frame emit.

use crate::error::BridgeError;
use crate::event::{events_view, events_wf, EventView, WireEvent};
use crate::wire::{
    address_to_caddress, all_zero, bytes_to_csizedarray, hash_to_chash, Address, Hash32,
};
use vstd::prelude::*;

verus! {

/// Per-execution state of the bridge. `call_depth` counts the frames that
/// are open; the session is idle at depth 0 and recording above it.
#[derive(Clone, Copy, Debug, PartialEq, Eq, Structural)]
pub struct DepData {
    pub call_depth: u32,
    pub activated: bool,
}

/// The activation gate shared by all sessions: the current token, which is
/// also the transaction identifier sent when a recording opens. The zero
/// token switches instrumentation off.
#[derive(Clone, Copy, Debug, PartialEq, Eq)]
pub struct ActivationState {
    pub token: Hash32,
}

/// What the surrounding execution supplies when a recording opens.
#[derive(Clone, Debug, PartialEq, Eq)]
pub struct TxContext {
    /// Call data of the whole transaction.
    pub tx_data: Vec<u8>,
    /// The account that sent the transaction.
    pub origin: Address,
    /// Code now stored at the target of the outermost call.
    pub code: Vec<u8>,
    pub block: u64,
    pub timestamp: u64,
    /// Whether self-destruct follows the rules in force since Cancun.
    pub is_selfdestruct6780: bool,
    /// Whether the block carries a randomness beacon value.
    pub is_random: bool,
}

/// A `TxContext` with its buffers as sequences.
pub struct TxContextView {
    pub tx_data: Seq<u8>,
    pub origin: Seq<u8>,
    pub code: Seq<u8>,
    pub block: u64,
    pub timestamp: u64,
    pub is_selfdestruct6780: bool,
    pub is_random: bool,
}

impl View for TxContext {
    type V = TxContextView;

    open spec fn view(&self) -> TxContextView {
        TxContextView {
            tx_data: self.tx_data@,
            origin: self.origin@,
            code: self.code@,
            block: self.block,
            timestamp: self.timestamp,
            is_selfdestruct6780: self.is_selfdestruct6780,
            is_random: self.is_random,
        }
    }
}

/// Instrumentation is on for a session when the session itself is
/// activated and the activation token is not zero.
pub open spec fn spec_is_activated(activated: bool, token: Seq<u8>) -> bool {
    activated && !all_zero(token)
}

/// The events of entering a frame at the given depth: at depth 0 the opening
/// of the recording and then the entry, deeper only the entry.
pub open spec fn enter_events(
    depth: int,
    token: Seq<u8>,
    context: TxContextView,
    is_create: bool,
    input: Seq<u8>,
    addr: Seq<u8>,
) -> Seq<EventView> {
    let enter = EventView::CallEnter { to: addr, input };
    if depth == 0 {
        seq![
            EventView::OpenSession {
                is_create,
                address: addr,
                input: context.tx_data,
                block: context.block,
                timestamp: context.timestamp,
                origin: context.origin,
                tx_hash: token,
                code: if is_create {
                    Seq::<u8>::empty()
                } else {
                    context.code
                },
                is_selfdestruct6780: context.is_selfdestruct6780,
                is_random: context.is_random,
            },
            enter,
        ]
    } else {
        seq![enter]
    }
}

/// The events of leaving a frame at the given depth, which is at least 1:
/// the exit, and at depth 1 the closing of the recording after it.
pub open spec fn exit_events(depth: int, output: Seq<u8>, has_error: bool) -> Seq<EventView> {
    let exit = EventView::CallExit { output, has_error };
    if depth == 1 {
        seq![exit, EventView::CloseSession]
    } else {
        seq![exit]
    }
}

impl DepData {
    /// A live session cannot be reset: the call always fails and leaves the
    /// session as it was.
    pub fn clear(&mut self) -> (r: Result<(), BridgeError>)
        ensures
            r == Err::<(), BridgeError>(BridgeError::ClearUnsupported),
            *final(self) == *old(self),
    {
        Err(BridgeError::ClearUnsupported)
    }
}

/// An activation state after `activate`: whatever it held, its token is
/// now `hash`.
pub open spec fn gate_after_activate(gate: ActivationState, hash: Hash32) -> ActivationState {
    ActivationState { token: hash }
}

/// Sets the activation token. A non-zero token switches instrumentation on,
/// the zero token switches it off.
pub fn activate(gate: &mut ActivationState, hash: Hash32)
    ensures
        *final(gate) == gate_after_activate(*old(gate), hash),
{
    gate.token = hash;
}

/// Switches instrumentation off.
pub fn deactivate(gate: &mut ActivationState)
    ensures
        final(gate).token.spec_is_zero(),
{
    gate.token = Hash32::zero();
}

/// Whether the hooks of this session do anything.
pub fn is_activated(data: &DepData, gate: &ActivationState) -> (active: bool)
    ensures
        active == spec_is_activated(data.activated, gate.token@),
{
    if !data.activated {
        return false;
    }
    !gate.token.is_zero()
}

/// Whether the next entry would open a recording, so that the caller has to
/// gather the transaction's context for it.
pub fn opens_session(data: &DepData, gate: &ActivationState) -> (opens: bool)
    ensures
        opens == (spec_is_activated(data.activated, gate.token@) && data.call_depth == 0),
{
    is_activated(data, gate) && data.call_depth == 0
}

/// A call or creation frame is entered. With instrumentation off nothing
/// happens. Otherwise the depth grows by one and the events of
/// `enter_events` are returned; `context` is read only at depth 0. In
/// short, the hook does what `hook_depth` and `hook_events` say of an
/// entry.
pub fn on_enter(
    data: &mut DepData,
    gate: &ActivationState,
    context: &TxContext,
    is_create: bool,
    input: &Vec<u8>,
    addr: Address,
) -> (events: Vec<WireEvent>)
    requires
        spec_is_activated(old(data).activated, gate.token@) ==> old(data).call_depth < u32::MAX,
    ensures
        events_wf(events@),
        final(data).activated == old(data).activated,
        !spec_is_activated(old(data).activated, gate.token@) ==> {
            &&& events@.len() == 0
            &&& final(data).call_depth == old(data).call_depth
        },
        spec_is_activated(old(data).activated, gate.token@) ==> {
            &&& final(data).call_depth == old(data).call_depth + 1
            &&& events_view(events@) == enter_events(
                old(data).call_depth as int,
                gate.token@,
                context@,
                is_create,
                input@,
                addr@,
            )
        },
        ({
            let active = spec_is_activated(old(data).activated, gate.token@);
            let hook = Hook::Enter { context: context@, is_create, input: input@, addr: addr@ };
            &&& final(data).call_depth == hook_depth(active, old(data).call_depth as int, hook)
            &&& events_view(events@) == hook_events(
                active,
                old(data).call_depth as int,
                gate.token@,
                hook,
            )
        }),
{
    let mut events: Vec<WireEvent> = Vec::new();
    if !is_activated(data, gate) {
        assert(events_view(events@) =~= Seq::<EventView>::empty());
        return events;
    }
    if data.call_depth == 0 {
        let code = if is_create {
            let empty: Vec<u8> = Vec::new();
            bytes_to_csizedarray(&empty)
        } else {
            bytes_to_csizedarray(&context.code)
        };
        events.push(
            WireEvent::OpenSession {
                is_create,
                address: address_to_caddress(addr),
                input: bytes_to_csizedarray(&context.tx_data),
                block: context.block,
                timestamp: context.timestamp,
                origin: address_to_caddress(context.origin),
                tx_hash: hash_to_chash(gate.token),
                code,
                is_selfdestruct6780: context.is_selfdestruct6780,
                is_random: context.is_random,
            },
        );
    }
    events.push(
        WireEvent::CallEnter { to: address_to_caddress(addr), input: bytes_to_csizedarray(input) },
    );
    data.call_depth += 1;
    assert(events_view(events@) =~= enter_events(
        old(data).call_depth as int,
        gate.token@,
        context@,
        is_create,
        input@,
        addr@,
    ));
    events
}

/// A call or creation frame is left. With instrumentation off nothing
/// happens. With no frame open the exit is unmatched: it is refused and the
/// session stays as it was. Otherwise the depth shrinks by one and the
/// events of `exit_events` are returned. In short, an exit that is not
/// refused does what `hook_depth` and `hook_events` say of an exit.
pub fn on_exit(data: &mut DepData, gate: &ActivationState, output: &Vec<u8>, has_error: bool) -> (r:
    Result<Vec<WireEvent>, BridgeError>)
    ensures
        final(data).activated == old(data).activated,
        !spec_is_activated(old(data).activated, gate.token@) ==> {
            &&& r matches Ok(events)
            &&& events@.len() == 0
            &&& final(data).call_depth == old(data).call_depth
        },
        spec_is_activated(old(data).activated, gate.token@) && old(data).call_depth == 0 ==> {
            &&& r == Err::<Vec<WireEvent>, BridgeError>(BridgeError::UnmatchedExit)
            &&& final(data).call_depth == 0
        },
        spec_is_activated(old(data).activated, gate.token@) && old(data).call_depth > 0 ==> {
            &&& r matches Ok(events)
            &&& events_wf(events@)
            &&& events_view(events@) == exit_events(
                old(data).call_depth as int,
                output@,
                has_error,
            )
            &&& final(data).call_depth == old(data).call_depth - 1
        },
        ({
            let active = spec_is_activated(old(data).activated, gate.token@);
            let hook = Hook::Exit { output: output@, has_error };
            &&& final(data).call_depth == hook_depth(active, old(data).call_depth as int, hook)
            &&& r matches Ok(events) ==> events_view(events@) == hook_events(
                active,
                old(data).call_depth as int,
                gate.token@,
                hook,
            )
        }),
{
    let mut events: Vec<WireEvent> = Vec::new();
    if !is_activated(data, gate) {
        assert(events_view(events@) =~= Seq::<EventView>::empty());
        return Ok(events);
    }
    if data.call_depth == 0 {
        return Err(BridgeError::UnmatchedExit);
    }
    data.call_depth -= 1;
    events.push(WireEvent::CallExit { output: bytes_to_csizedarray(output), has_error });
    if data.call_depth == 0 {
        events.push(WireEvent::CloseSession);
    }
    assert(events_view(events@) =~= exit_events(old(data).call_depth as int, output@, has_error));
    Ok(events)
}

/// One hook call on a session, as the session machine sees it.
pub enum Hook {
    Enter { context: TxContextView, is_create: bool, input: Seq<u8>, addr: Seq<u8> },
    Exit { output: Seq<u8>, has_error: bool },
}

/// The depth that `on_enter` or `on_exit` leaves, from the depth it finds.
/// An unmatched exit is refused and leaves the depth at 0.
pub open spec fn hook_depth(active: bool, depth: int, hook: Hook) -> int {
    if !active {
        depth
    } else {
        match hook {
            Hook::Enter { .. } => depth + 1,
            Hook::Exit { .. } => if depth > 0 {
                depth - 1
            } else {
                depth
            },
        }
    }
}

/// The events that `on_enter` or `on_exit` returns at the given depth. An
/// unmatched exit is refused and emits nothing.
pub open spec fn hook_events(active: bool, depth: int, token: Seq<u8>, hook: Hook) -> Seq<
    EventView,
> {
    if !active {
        Seq::empty()
    } else {
        match hook {
            Hook::Enter { context, is_create, input, addr } => enter_events(
                depth,
                token,
                context,
                is_create,
                input,
                addr,
            ),
            Hook::Exit { output, has_error } => if depth > 0 {
                exit_events(depth, output, has_error)
            } else {
                Seq::empty()
            },
        }
    }
}

/// The depth of a session that was idle and then took the hook calls in
/// order.
pub open spec fn depth_after(active: bool, hooks: Seq<Hook>) -> int
    decreases hooks.len(),
{
    if hooks.len() == 0 {
        0
    } else {
        hook_depth(active, depth_after(active, hooks.drop_last()), hooks.last())
    }
}

/// All events of a session that was idle and then took the hook calls in
/// order.
pub open spec fn events_of(active: bool, token: Seq<u8>, hooks: Seq<Hook>) -> Seq<EventView>
    decreases hooks.len(),
{
    if hooks.len() == 0 {
        Seq::empty()
    } else {
        events_of(active, token, hooks.drop_last()) + hook_events(
            active,
            depth_after(active, hooks.drop_last()),
            token,
            hooks.last(),
        )
    }
}

/// Entries minus exits.
pub open spec fn nesting(hooks: Seq<Hook>) -> int
    decreases hooks.len(),
{
    if hooks.len() == 0 {
        0
    } else {
        nesting(hooks.drop_last()) + if hooks.last() is Enter {
            1int
        } else {
            -1int
        }
    }
}

/// The hook calls of one transaction: not empty, as many exits as entries,
/// and at least one frame open after every proper, non-empty prefix.
pub open spec fn balanced(hooks: Seq<Hook>) -> bool {
    &&& hooks.len() > 0
    &&& nesting(hooks) == 0
    &&& forall|k: int| 0 < k < hooks.len() ==> nesting(#[trigger] hooks.take(k)) > 0
}

/// What holds of a balanced run after each of its proper, non-empty
/// prefixes: the recording was opened by the first event, by no other, and
/// has not been closed.
proof fn lemma_balanced_prefix(token: Seq<u8>, hooks: Seq<Hook>, k: int)
    requires
        balanced(hooks),
        0 < k < hooks.len(),
    ensures
        depth_after(true, hooks.take(k)) == nesting(hooks.take(k)),
        events_of(true, token, hooks.take(k)).len() >= 2,
        forall|i: int|
            0 <= i < events_of(true, token, hooks.take(k)).len() ==> (events_of(
                true,
                token,
                hooks.take(k),
            )[i] is OpenSession <==> i == 0),
        forall|i: int|
            0 <= i < events_of(true, token, hooks.take(k)).len() ==> !(events_of(
                true,
                token,
                hooks.take(k),
            )[i] is CloseSession),
    decreases k,
{
    let prefix = hooks.take(k);
    assert(prefix.drop_last() =~= hooks.take(k - 1));
    assert(prefix.last() == hooks[k - 1]);
    if k == 1 {
        assert(hooks.take(0).len() == 0);
        assert(nesting(hooks.take(0)) == 0);
        assert(depth_after(true, hooks.take(0)) == 0);
        assert(events_of(true, token, hooks.take(0)).len() == 0);
        assert(nesting(prefix) > 0);
        assert(prefix.last() is Enter);
    } else {
        lemma_balanced_prefix(token, hooks, k - 1);
        assert(nesting(hooks.take(k - 1)) > 0);
        assert(nesting(prefix) > 0);
    }
}

/// For the hook calls of one transaction on an activated session, the
/// recording is opened exactly once, by the first event, and closed exactly
/// once, by the last.
pub proof fn lemma_session_pairing(token: Seq<u8>, hooks: Seq<Hook>)
    requires
        balanced(hooks),
    ensures
        depth_after(true, hooks) == 0,
        events_of(true, token, hooks).len() >= 4,
        forall|i: int|
            0 <= i < events_of(true, token, hooks).len() ==> (events_of(true, token, hooks)[i]
                is OpenSession <==> i == 0),
        forall|i: int|
            0 <= i < events_of(true, token, hooks).len() ==> (events_of(true, token, hooks)[i]
                is CloseSession <==> i == events_of(true, token, hooks).len() - 1),
        opens(events_of(true, token, hooks)) == 1,
        closes(events_of(true, token, hooks)) == 1,
{
    let n = hooks.len() as int;
    assert(hooks.take(0).len() == 0);
    assert(n != 1) by {
        if n == 1 {
            assert(hooks.drop_last() =~= hooks.take(0));
            assert(nesting(hooks) != 0);
        }
    }
    assert(hooks.drop_last() =~= hooks.take(n - 1));
    lemma_balanced_prefix(token, hooks, n - 1);
    assert(nesting(hooks.take(n - 1)) > 0);
    assert(hooks.last() is Exit);
    assert(depth_after(true, hooks.take(n - 1)) == 1);
    lemma_opened_by_first(events_of(true, token, hooks));
    lemma_recording_follows_depth(token, hooks);
}

/// A run whose first event, and no other, opens a recording opens one.
proof fn lemma_opened_by_first(events: Seq<EventView>)
    requires
        events.len() > 0,
        forall|i: int| 0 <= i < events.len() ==> (events[i] is OpenSession <==> i == 0),
    ensures
        opens(events) == 1,
    decreases events.len(),
{
    if events.len() == 1 {
        assert(events =~= seq![events[0]]);
        lemma_counts_one(events[0]);
    } else {
        let before = events.drop_last();
        assert forall|i: int| 0 <= i < before.len() implies (before[i] is OpenSession <==> i
            == 0) by {
            assert(before[i] == events[i]);
        }
        lemma_opened_by_first(before);
    }
}

/// How many events of a run open a recording.
pub open spec fn opens(events: Seq<EventView>) -> int
    decreases events.len(),
{
    if events.len() == 0 {
        0
    } else {
        opens(events.drop_last()) + if events.last() is OpenSession {
            1int
        } else {
            0int
        }
    }
}

/// How many events of a run close a recording.
pub open spec fn closes(events: Seq<EventView>) -> int
    decreases events.len(),
{
    if events.len() == 0 {
        0
    } else {
        closes(events.drop_last()) + if events.last() is CloseSession {
            1int
        } else {
            0int
        }
    }
}

/// The counts of a run followed by another are the sums of their counts.
proof fn lemma_counts_add(a: Seq<EventView>, b: Seq<EventView>)
    ensures
        opens(a + b) == opens(a) + opens(b),
        closes(a + b) == closes(a) + closes(b),
    decreases b.len(),
{
    if b.len() == 0 {
        assert(a + b =~= a);
    } else {
        assert((a + b).drop_last() =~= a + b.drop_last());
        assert((a + b).last() == b.last());
        lemma_counts_add(a, b.drop_last());
    }
}

/// The counts of a run of one event.
proof fn lemma_counts_one(event: EventView)
    ensures
        opens(seq![event]) == if event is OpenSession {
            1int
        } else {
            0int
        },
        closes(seq![event]) == if event is CloseSession {
            1int
        } else {
            0int
        },
{
    let run = seq![event];
    assert(run.len() == 1);
    assert(run.last() == event);
    assert(run.drop_last().len() == 0);
    assert(opens(run.drop_last()) == 0);
    assert(closes(run.drop_last()) == 0);
}

/// The counts of the events of one hook call: an entry at depth 0 opens, an
/// exit at depth 1 closes, and nothing else does either.
proof fn lemma_hook_counts(depth: int, token: Seq<u8>, hook: Hook)
    requires
        depth >= 0,
    ensures
        opens(hook_events(true, depth, token, hook)) == if hook is Enter && depth == 0 {
            1int
        } else {
            0int
        },
        closes(hook_events(true, depth, token, hook)) == if hook is Exit && depth == 1 {
            1int
        } else {
            0int
        },
{
    let events = hook_events(true, depth, token, hook);
    if events.len() == 2 {
        let first = events[0];
        let second = events[1];
        assert(events =~= seq![first] + seq![second]);
        lemma_counts_add(seq![first], seq![second]);
        lemma_counts_one(first);
        lemma_counts_one(second);
    } else if events.len() == 1 {
        let only = events[0];
        assert(events =~= seq![only]);
        lemma_counts_one(only);
    } else {
        assert(events.len() == 0);
    }
}

/// Whatever hook calls an activated session has taken, a recording is open
/// exactly while a frame is open: the recordings opened are one more than
/// those closed while the depth is above 0, and as many at depth 0.
pub proof fn lemma_recording_follows_depth(token: Seq<u8>, hooks: Seq<Hook>)
    ensures
        depth_after(true, hooks) >= 0,
        opens(events_of(true, token, hooks)) - closes(events_of(true, token, hooks)) == if depth_after(
            true,
            hooks,
        ) > 0 {
            1int
        } else {
            0int
        },
    decreases hooks.len(),
{
    if hooks.len() > 0 {
        let before = hooks.drop_last();
        lemma_recording_follows_depth(token, before);
        let depth = depth_after(true, before);
        lemma_hook_counts(depth, token, hooks.last());
        lemma_counts_add(
            events_of(true, token, before),
            hook_events(true, depth, token, hooks.last()),
        );
    }
}

/// With instrumentation off no hook call emits anything and the session
/// stays idle.
pub proof fn lemma_inactive_is_silent(token: Seq<u8>, hooks: Seq<Hook>)
    ensures
        depth_after(false, hooks) == 0,
        events_of(false, token, hooks).len() == 0,
    decreases hooks.len(),
{
    if hooks.len() > 0 {
        lemma_inactive_is_silent(token, hooks.drop_last());
    }
}

/// Activating twice with one token leaves the state as the first call left
/// it; switching off what is off leaves it as it was; and while the token
/// is zero no hook call of any session emits anything.
pub proof fn lemma_activation_idempotent(
    gate: ActivationState,
    hash: Hash32,
    off: ActivationState,
    activated: bool,
    hooks: Seq<Hook>,
)
    ensures
        gate_after_activate(gate_after_activate(gate, hash), hash) == gate_after_activate(
            gate,
            hash,
        ),
        gate.token.spec_is_zero() && off.token.spec_is_zero() ==> off == gate,
        gate.token.spec_is_zero() ==> {
            &&& depth_after(spec_is_activated(activated, gate.token@), hooks) == 0
            &&& events_of(spec_is_activated(activated, gate.token@), gate.token@, hooks).len()
                == 0
        },
{
    if gate.token.spec_is_zero() {
        lemma_inactive_is_silent(gate.token@, hooks);
        if off.token.spec_is_zero() {
            assert(gate.token.bytes =~= off.token.bytes);
        }
    }
}

} // verus!
