//! The hooks that the execution engine calls: one per instruction, one
//! after an instruction, and one on each side of a call or creation frame.
//! Each returns the events that its caller passes on to the tracing engine.
//!
//! An instruction takes two calls. `request_prefetch` names the chain state
//! that the tracing engine will ask for while it handles the instruction;
//! the caller looks it up and passes it to `dep_step`, which arms the relay
//! with it and returns the instruction's report.

use crate::error::BridgeError;
use crate::event::{events_view, events_wf, EventView, WireEvent};
use crate::relay::{cell_armed, PrefetchRelay};
use crate::session::{
    enter_events, exit_events, is_activated, on_enter, on_exit, spec_is_activated,
    ActivationState, DepData, TxContext,
};
use crate::wire::{
    address_to_caddress, bytes_to_csizedarray, encoded_stack, stack_limbs, stack_to_cstack,
    word_address, word_to_address, Address, Word,
};
use vstd::prelude::*;

verus! {

/// Size of the code of another account.
pub const EXTCODESIZE: u8 = 0x3b;

/// Copy of the code of another account.
pub const EXTCODECOPY: u8 = 0x3c;

/// Hash of the code of another account.
pub const EXTCODEHASH: u8 = 0x3f;

/// Creation of a contract at an address that follows from the nonce.
pub const CREATE: u8 = 0xf0;

/// Call of another account.
pub const CALL: u8 = 0xf1;

/// Call of another account's code on the caller's own storage.
pub const CALLCODE: u8 = 0xf2;

/// Like `CALLCODE`, with the sender and value of the calling frame.
pub const DELEGATECALL: u8 = 0xf4;

/// Call that may not change state.
pub const STATICCALL: u8 = 0xfa;

/// The interpreter as it stands before an instruction. `stack[0]` is the
/// top of the operand stack.
#[derive(Clone, Debug, PartialEq, Eq)]
pub struct StepState {
    /// The byte at the program counter.
    pub opcode: u8,
    pub pc: u64,
    pub stack: Vec<Word>,
    pub memory: Vec<u8>,
    /// The contract that is executing.
    pub address: Address,
    /// Whether the engine's error state is set.
    pub has_error: bool,
}

/// A `StepState` with its words as limbs and its buffers as sequences.
pub struct StepView {
    pub opcode: u8,
    pub pc: u64,
    pub stack: Seq<Seq<u64>>,
    pub memory: Seq<u8>,
    pub address: Seq<u8>,
    pub has_error: bool,
}

impl View for StepState {
    type V = StepView;

    open spec fn view(&self) -> StepView {
        StepView {
            opcode: self.opcode,
            pc: self.pc,
            stack: stack_limbs(self.stack@),
            memory: self.memory@,
            address: self.address@,
            has_error: self.has_error,
        }
    }
}

/// What has to be looked up in the chain state before an instruction is
/// reported, because the tracing engine will ask for it.
#[derive(Clone, Copy, Debug, PartialEq, Eq)]
pub enum PrefetchPlan {
    Nothing,
    /// The code stored at the address.
    Code { address: Address },
    /// The nonce of the address.
    Nonce { address: Address },
}

/// A `PrefetchPlan` with its address as bytes.
pub enum PlanView {
    Nothing,
    Code { address: Seq<u8> },
    Nonce { address: Seq<u8> },
}

impl View for PrefetchPlan {
    type V = PlanView;

    open spec fn view(&self) -> PlanView {
        match *self {
            PrefetchPlan::Nothing => PlanView::Nothing,
            PrefetchPlan::Code { address } => PlanView::Code { address: address@ },
            PrefetchPlan::Nonce { address } => PlanView::Nonce { address: address@ },
        }
    }
}

/// What was looked up for a `PrefetchPlan`.
#[derive(Clone, Debug, PartialEq, Eq)]
pub enum Prefetched {
    Nothing,
    Code { code: Vec<u8> },
    Nonce { nonce: u64 },
}

/// A `Prefetched` with its code as a sequence.
pub enum PrefetchedView {
    Nothing,
    Code { code: Seq<u8> },
    Nonce { nonce: u64 },
}

impl View for Prefetched {
    type V = PrefetchedView;

    open spec fn view(&self) -> PrefetchedView {
        match *self {
            Prefetched::Nothing => PrefetchedView::Nothing,
            Prefetched::Code { code } => PrefetchedView::Code { code: code@ },
            Prefetched::Nonce { nonce } => PrefetchedView::Nonce { nonce },
        }
    }
}

/// Whether the byte is one of the eight instructions that make the tracing
/// engine ask for chain state.
pub open spec fn needs_prefetch(opcode: u8) -> bool {
    opcode == EXTCODESIZE || opcode == EXTCODECOPY || opcode == EXTCODEHASH || opcode == CREATE
        || opcode == CALL || opcode == CALLCODE || opcode == DELEGATECALL || opcode == STATICCALL
}

/// Whether revm's instruction table has an instruction for the byte.
pub uninterp spec fn opcode_known(opcode: u8) -> bool;

/// `OpCode::new` of revm's interpreter. Trusted: whether it finds an
/// instruction depends on the byte alone, and it finds one for each of the
/// eight bytes of `needs_prefetch`.
#[verifier::external_body]
fn opcode_is_known(opcode: u8) -> (known: bool)
    ensures
        known == opcode_known(opcode),
        needs_prefetch(opcode) ==> known,
{
    revm::interpreter::OpCode::new(opcode).is_some()
}

/// The lookup that an instruction calls for. The three instructions that
/// read another account's code name it on top of the stack, the four
/// calling instructions one below the top; with too few words on the stack
/// nothing is looked up. `CREATE` needs the nonce of the executing contract.
/// No other byte needs anything.
pub open spec fn planned_prefetch(step: StepView) -> PlanView {
    let op = step.opcode;
    if op == EXTCODESIZE || op == EXTCODEHASH || op == EXTCODECOPY {
        if step.stack.len() >= 1 {
            PlanView::Code { address: word_address(step.stack[0]) }
        } else {
            PlanView::Nothing
        }
    } else if op == CALL || op == CALLCODE || op == DELEGATECALL || op == STATICCALL {
        if step.stack.len() >= 2 {
            PlanView::Code { address: word_address(step.stack[1]) }
        } else {
            PlanView::Nothing
        }
    } else if op == CREATE {
        PlanView::Nonce { address: step.address }
    } else {
        PlanView::Nothing
    }
}

/// The lookup that the instruction about to run calls for, given whether
/// its byte is an instruction at all: a byte that is none needs nothing.
pub fn plan_prefetch(known: bool, step: &StepState) -> (plan: PrefetchPlan)
    ensures
        plan@ == if known {
            planned_prefetch(step@)
        } else {
            PlanView::Nothing
        },
{
    let op = step.opcode;
    if !known {
        PrefetchPlan::Nothing
    } else if op == EXTCODESIZE || op == EXTCODEHASH || op == EXTCODECOPY {
        if step.stack.len() >= 1 {
            PrefetchPlan::Code { address: word_to_address(&step.stack[0]) }
        } else {
            PrefetchPlan::Nothing
        }
    } else if op == CALL || op == CALLCODE || op == DELEGATECALL || op == STATICCALL {
        if step.stack.len() >= 2 {
            PrefetchPlan::Code { address: word_to_address(&step.stack[1]) }
        } else {
            PrefetchPlan::Nothing
        }
    } else if op == CREATE {
        PrefetchPlan::Nonce { address: step.address }
    } else {
        PrefetchPlan::Nothing
    }
}

/// The lookup to make before `dep_step` is called for the same instruction.
/// With instrumentation off there is none.
pub fn request_prefetch(data: &DepData, gate: &ActivationState, step: &StepState) -> (plan:
    PrefetchPlan)
    ensures
        plan@ == if spec_is_activated(data.activated, gate.token@) {
            planned_prefetch(step@)
        } else {
            PlanView::Nothing
        },
{
    if !is_activated(data, gate) {
        return PrefetchPlan::Nothing;
    }
    plan_prefetch(opcode_is_known(step.opcode), step)
}

/// The nonce cell after arming for a plan with what was looked up: armed
/// when a nonce was planned and a nonce was found, else as it was.
pub open spec fn nonce_cell_after(
    cell: Option<(Seq<u8>, u64)>,
    plan: PlanView,
    fetched: PrefetchedView,
) -> Option<(Seq<u8>, u64)> {
    match (plan, fetched) {
        (PlanView::Nonce { address }, PrefetchedView::Nonce { nonce }) => cell_armed(
            address,
            nonce,
        ),
        _ => cell,
    }
}

/// The code cell after arming for a plan with what was looked up: armed
/// when code was planned and code was found, else as it was.
pub open spec fn code_cell_after(
    cell: Option<(Seq<u8>, Seq<u8>)>,
    plan: PlanView,
    fetched: PrefetchedView,
) -> Option<(Seq<u8>, Seq<u8>)> {
    match (plan, fetched) {
        (PlanView::Code { address }, PrefetchedView::Code { code }) => cell_armed(address, code),
        _ => cell,
    }
}

/// Arms the cell that the plan names with what was looked up for it. A
/// lookup of another kind than planned arms nothing.
pub fn arm_prefetch(relay: &mut PrefetchRelay, plan: PrefetchPlan, fetched: Prefetched)
    ensures
        final(relay).nonce_cell() == nonce_cell_after(old(relay).nonce_cell(), plan@, fetched@),
        final(relay).code_cell() == code_cell_after(old(relay).code_cell(), plan@, fetched@),
{
    match plan {
        PrefetchPlan::Nothing => {},
        PrefetchPlan::Code { address } => {
            match fetched {
                Prefetched::Code { code } => {
                    relay.arm_code(address, code);
                },
                _ => {},
            }
        },
        PrefetchPlan::Nonce { address } => {
            match fetched {
                Prefetched::Nonce { nonce } => {
                    relay.arm_nonce(address, nonce);
                },
                _ => {},
            }
        },
    }
}

/// The report of an instruction: the whole stack and memory, the executing
/// contract, the program counter, the instruction's byte, whether the byte
/// is no instruction, and the engine's error flag.
pub open spec fn opcode_event(known: bool, step: StepView) -> EventView {
    EventView::Opcode {
        stack: encoded_stack(step.stack),
        memory: step.memory,
        address: step.address,
        pc: step.pc,
        op: step.opcode,
        is_invalid: !known,
        has_error: step.has_error,
    }
}

/// Builds the report of an instruction, given whether its byte is an
/// instruction at all.
pub fn step_event(known: bool, step: &StepState) -> (event: WireEvent)
    ensures
        event.wf(),
        event@ == opcode_event(known, step@),
{
    WireEvent::Opcode {
        stack: stack_to_cstack(&step.stack),
        memory: bytes_to_csizedarray(&step.memory),
        address: address_to_caddress(step.address),
        pc: step.pc,
        op: step.opcode,
        is_invalid: !known,
        has_error: step.has_error,
    }
}

/// An instruction is about to run. With instrumentation off nothing
/// happens. Otherwise the relay is armed for the instruction with what the
/// caller looked up for `request_prefetch`, and the instruction's report is
/// returned.
pub fn dep_step(
    data: &DepData,
    gate: &ActivationState,
    relay: &mut PrefetchRelay,
    step: &StepState,
    fetched: Prefetched,
) -> (event: Option<WireEvent>)
    ensures
        !spec_is_activated(data.activated, gate.token@) ==> {
            &&& event is None
            &&& final(relay).nonce_cell() == old(relay).nonce_cell()
            &&& final(relay).code_cell() == old(relay).code_cell()
        },
        spec_is_activated(data.activated, gate.token@) ==> {
            let plan = planned_prefetch(step@);
            &&& event matches Some(e)
            &&& e.wf()
            &&& e@ == opcode_event(opcode_known(step.opcode), step@)
            &&& final(relay).nonce_cell() == nonce_cell_after(
                old(relay).nonce_cell(),
                plan,
                fetched@,
            )
            &&& final(relay).code_cell() == code_cell_after(
                old(relay).code_cell(),
                plan,
                fetched@,
            )
        },
{
    if !is_activated(data, gate) {
        return None;
    }
    let known = opcode_is_known(step.opcode);
    let plan = plan_prefetch(known, step);
    arm_prefetch(relay, plan, fetched);
    Some(step_event(known, step))
}

/// An instruction has run. When instrumentation is on and the engine's
/// error state is set, the instruction is reported as failed.
pub fn dep_step_end(data: &DepData, gate: &ActivationState, opcode: u8, has_error: bool) -> (event:
    Option<WireEvent>)
    ensures
        event matches Some(e) ==> e@ == (EventView::Fault { op: opcode }) && e.wf(),
        event is Some <==> spec_is_activated(data.activated, gate.token@) && has_error,
{
    if !is_activated(data, gate) {
        return None;
    }
    if has_error {
        Some(WireEvent::Fault { op: opcode })
    } else {
        None
    }
}

/// What a call frame is entered with.
#[derive(Clone, Debug, PartialEq, Eq)]
pub struct CallInputs {
    pub target_address: Address,
    pub input: Vec<u8>,
}

/// How the address of a created contract is derived.
#[derive(Clone, Copy, Debug, PartialEq, Eq)]
pub enum CreateScheme {
    /// From the creator and its nonce.
    Create,
    /// From the creator, a salt and the init code.
    Create2 { salt: Word },
}

/// What a creation frame is entered with.
#[derive(Clone, Debug, PartialEq, Eq)]
pub struct CreateInputs {
    pub caller: Address,
    pub scheme: CreateScheme,
    pub init_code: Vec<u8>,
}

/// The salt of a scheme that has one.
pub open spec fn scheme_salt(scheme: CreateScheme) -> Option<Seq<u64>> {
    match scheme {
        CreateScheme::Create => None,
        CreateScheme::Create2 { salt } => Some(salt@),
    }
}

/// The address at which a creation places its contract.
pub uninterp spec fn created_address_bytes(
    caller: Seq<u8>,
    salt: Option<Seq<u64>>,
    init_code: Seq<u8>,
    nonce: u64,
) -> Seq<u8>;

/// `CreateInputs::created_address` of revm's interpreter, on inputs with
/// the given creator, scheme and init code. Trusted: the address depends on
/// these and the nonce alone.
#[verifier::external_body]
fn created_address(inputs: &CreateInputs, nonce: u64) -> (address: Address)
    ensures
        address@ == created_address_bytes(
            inputs.caller@,
            scheme_salt(inputs.scheme),
            inputs.init_code@,
            nonce,
        ),
{
    let scheme = match inputs.scheme {
        CreateScheme::Create => revm::primitives::CreateScheme::Create,
        CreateScheme::Create2 { salt } => revm::primitives::CreateScheme::Create2 {
            salt: revm::primitives::U256::from_limbs(salt.limbs),
        },
    };
    let outside = revm::interpreter::CreateInputs {
        caller: revm::primitives::Address::from(inputs.caller.bytes),
        scheme,
        value: revm::primitives::U256::ZERO,
        init_code: revm::primitives::Bytes::copy_from_slice(&inputs.init_code),
        gas_limit: 0,
    };
    Address { bytes: outside.created_address(nonce).into_array() }
}

/// A call frame is entered: `on_enter` with the call's target and input.
pub fn dep_call(
    data: &mut DepData,
    gate: &ActivationState,
    context: &TxContext,
    inputs: &CallInputs,
) -> (events: Vec<WireEvent>)
    requires
        spec_is_activated(old(data).activated, gate.token@) ==> old(data).call_depth < u32::MAX,
    ensures
        events_wf(events@),
        final(data).activated == old(data).activated,
        !spec_is_activated(old(data).activated, gate.token@) ==> {
            &&& events@.len() == 0
            &&& final(data).call_depth == old(data).call_depth
        },
        spec_is_activated(old(data).activated, gate.token@) ==> {
            &&& final(data).call_depth == old(data).call_depth + 1
            &&& events_view(events@) == enter_events(
                old(data).call_depth as int,
                gate.token@,
                context@,
                false,
                inputs.input@,
                inputs.target_address@,
            )
        },
{
    on_enter(data, gate, context, false, &inputs.input, inputs.target_address)
}

/// A call frame is left: `on_exit` with the call's output and the engine's
/// error flag.
pub fn dep_call_end(
    data: &mut DepData,
    gate: &ActivationState,
    output: &Vec<u8>,
    has_error: bool,
) -> (r: Result<Vec<WireEvent>, BridgeError>)
    ensures
        final(data).activated == old(data).activated,
        !spec_is_activated(old(data).activated, gate.token@) ==> {
            &&& r matches Ok(events)
            &&& events@.len() == 0
            &&& final(data).call_depth == old(data).call_depth
        },
        spec_is_activated(old(data).activated, gate.token@) && old(data).call_depth == 0 ==> {
            &&& r == Err::<Vec<WireEvent>, BridgeError>(BridgeError::UnmatchedExit)
            &&& final(data).call_depth == 0
        },
        spec_is_activated(old(data).activated, gate.token@) && old(data).call_depth > 0 ==> {
            &&& r matches Ok(events)
            &&& events_wf(events@)
            &&& events_view(events@) == exit_events(
                old(data).call_depth as int,
                output@,
                has_error,
            )
            &&& final(data).call_depth == old(data).call_depth - 1
        },
{
    on_exit(data, gate, output, has_error)
}

/// A creation frame is entered: `on_enter` with the address at which the
/// contract will be placed, which follows from the creator's nonce, and
/// the init code as input.
pub fn dep_create(
    data: &mut DepData,
    gate: &ActivationState,
    context: &TxContext,
    inputs: &CreateInputs,
    caller_nonce: u64,
) -> (events: Vec<WireEvent>)
    requires
        spec_is_activated(old(data).activated, gate.token@) ==> old(data).call_depth < u32::MAX,
    ensures
        events_wf(events@),
        final(data).activated == old(data).activated,
        !spec_is_activated(old(data).activated, gate.token@) ==> {
            &&& events@.len() == 0
            &&& final(data).call_depth == old(data).call_depth
        },
        spec_is_activated(old(data).activated, gate.token@) ==> {
            &&& final(data).call_depth == old(data).call_depth + 1
            &&& events_view(events@) == enter_events(
                old(data).call_depth as int,
                gate.token@,
                context@,
                true,
                inputs.init_code@,
                created_address_bytes(
                    inputs.caller@,
                    scheme_salt(inputs.scheme),
                    inputs.init_code@,
                    caller_nonce,
                ),
            )
        },
{
    let addr = created_address(inputs, caller_nonce);
    on_enter(data, gate, context, true, &inputs.init_code, addr)
}

/// A creation frame is left: `on_exit` with the creation's output and the
/// engine's error flag.
pub fn dep_create_end(
    data: &mut DepData,
    gate: &ActivationState,
    output: &Vec<u8>,
    has_error: bool,
) -> (r: Result<Vec<WireEvent>, BridgeError>)
    ensures
        final(data).activated == old(data).activated,
        !spec_is_activated(old(data).activated, gate.token@) ==> {
            &&& r matches Ok(events)
            &&& events@.len() == 0
            &&& final(data).call_depth == old(data).call_depth
        },
        spec_is_activated(old(data).activated, gate.token@) && old(data).call_depth == 0 ==> {
            &&& r == Err::<Vec<WireEvent>, BridgeError>(BridgeError::UnmatchedExit)
            &&& final(data).call_depth == 0
        },
        spec_is_activated(old(data).activated, gate.token@) && old(data).call_depth > 0 ==> {
            &&& r matches Ok(events)
            &&& events_wf(events@)
            &&& events_view(events@) == exit_events(
                old(data).call_depth as int,
                output@,
                has_error,
            )
            &&& final(data).call_depth == old(data).call_depth - 1
        },
{
    on_exit(data, gate, output, has_error)
}

} // verus!
