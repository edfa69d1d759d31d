//! The records that the bridge hands to the tracing engine, one per call of
//! the engine's interface.

use crate::wire::{CAddress, CHash, CSizedArray, CStack};
use vstd::prelude::*;

verus! {

/// One call into the tracing engine, with its arguments in wire form.
#[derive(Clone, Debug, PartialEq, Eq)]
pub enum WireEvent {
    /// A transaction recording starts.
    OpenSession {
        is_create: bool,
        address: CAddress,
        input: CSizedArray,
        block: u64,
        timestamp: u64,
        origin: CAddress,
        tx_hash: CHash,
        code: CSizedArray,
        is_selfdestruct6780: bool,
        is_random: bool,
    },
    /// The transaction recording ends.
    CloseSession,
    /// An instruction is about to run.
    Opcode {
        stack: CStack,
        memory: CSizedArray,
        address: CAddress,
        pc: u64,
        op: u8,
        is_invalid: bool,
        has_error: bool,
    },
    /// A call or creation frame is entered.
    CallEnter { to: CAddress, input: CSizedArray },
    /// A call or creation frame is left.
    CallExit { output: CSizedArray, has_error: bool },
    /// The instruction just run has failed.
    Fault { op: u8 },
}

/// What a `WireEvent` says, with every address, hash and buffer as the
/// bytes it holds.
pub enum EventView {
    OpenSession {
        is_create: bool,
        address: Seq<u8>,
        input: Seq<u8>,
        block: u64,
        timestamp: u64,
        origin: Seq<u8>,
        tx_hash: Seq<u8>,
        code: Seq<u8>,
        is_selfdestruct6780: bool,
        is_random: bool,
    },
    CloseSession,
    Opcode {
        stack: Seq<Seq<u8>>,
        memory: Seq<u8>,
        address: Seq<u8>,
        pc: u64,
        op: u8,
        is_invalid: bool,
        has_error: bool,
    },
    CallEnter { to: Seq<u8>, input: Seq<u8> },
    CallExit { output: Seq<u8>, has_error: bool },
    Fault { op: u8 },
}

impl WireEvent {
    /// Every buffer of the event records its own length.
    pub open spec fn wf(&self) -> bool {
        match *self {
            WireEvent::OpenSession { input, code, .. } => input.wf() && code.wf(),
            WireEvent::CloseSession => true,
            WireEvent::Opcode { stack, memory, .. } => stack.wf() && memory.wf(),
            WireEvent::CallEnter { input, .. } => input.wf(),
            WireEvent::CallExit { output, .. } => output.wf(),
            WireEvent::Fault { .. } => true,
        }
    }
}

impl View for WireEvent {
    type V = EventView;

    open spec fn view(&self) -> EventView {
        match *self {
            WireEvent::OpenSession {
                is_create,
                address,
                input,
                block,
                timestamp,
                origin,
                tx_hash,
                code,
                is_selfdestruct6780,
                is_random,
            } => EventView::OpenSession {
                is_create,
                address: address@,
                input: input@,
                block,
                timestamp,
                origin: origin@,
                tx_hash: tx_hash@,
                code: code@,
                is_selfdestruct6780,
                is_random,
            },
            WireEvent::CloseSession => EventView::CloseSession,
            WireEvent::Opcode { stack, memory, address, pc, op, is_invalid, has_error } => {
                EventView::Opcode {
                    stack: stack@,
                    memory: memory@,
                    address: address@,
                    pc,
                    op,
                    is_invalid,
                    has_error,
                }
            },
            WireEvent::CallEnter { to, input } => EventView::CallEnter { to: to@, input: input@ },
            WireEvent::CallExit { output, has_error } => EventView::CallExit {
                output: output@,
                has_error,
            },
            WireEvent::Fault { op } => EventView::Fault { op },
        }
    }
}

/// The views of a run of events, in order.
pub open spec fn events_view(events: Seq<WireEvent>) -> Seq<EventView> {
    Seq::new(events.len(), |i: int| events[i]@)
}

/// Every event of the run is well formed.
pub open spec fn events_wf(events: Seq<WireEvent>) -> bool {
    forall|i: int| 0 <= i < events.len() ==> (#[trigger] events[i]).wf()
}

} // verus!
