use tracevm::error::BridgeError;
use tracevm::event::WireEvent;
use tracevm::session::{
    activate, deactivate, is_activated, on_enter, on_exit, opens_session, ActivationState, DepData,
    TxContext,
};
use tracevm::wire::{Address, CAddress, CHash, CSizedArray, Hash32};

fn addr(last: u8) -> Address {
    let mut bytes = [0u8; 20];
    bytes[19] = last;
    Address { bytes }
}

fn token(last: u8) -> Hash32 {
    let mut bytes = [0u8; 32];
    bytes[31] = last;
    bytes[0] = 0xaa;
    Hash32 { bytes }
}

fn live_gate() -> ActivationState {
    ActivationState { token: token(1) }
}

fn context() -> TxContext {
    TxContext {
        tx_data: vec![0xca, 0xfe],
        origin: addr(0x0a),
        code: vec![0x60, 0x01],
        block: 19_000_000,
        timestamp: 1_700_000_000,
        is_selfdestruct6780: true,
        is_random: false,
    }
}

fn buffer(data: &[u8]) -> CSizedArray {
    CSizedArray { data: data.to_vec(), size: data.len() }
}

fn is_open(event: &WireEvent) -> bool {
    matches!(event, WireEvent::OpenSession { .. })
}

fn is_close(event: &WireEvent) -> bool {
    matches!(event, WireEvent::CloseSession)
}

#[test]
fn first_enter_opens_session() {
    let mut data = DepData { call_depth: 0, activated: true };
    let events = on_enter(&mut data, &live_gate(), &context(), false, &vec![1, 2, 3], addr(0x0b));
    assert_eq!(data, DepData { call_depth: 1, activated: true });
    assert_eq!(
        events,
        vec![
            WireEvent::OpenSession {
                is_create: false,
                address: CAddress { data: addr(0x0b).bytes },
                input: buffer(&[0xca, 0xfe]),
                block: 19_000_000,
                timestamp: 1_700_000_000,
                origin: CAddress { data: addr(0x0a).bytes },
                tx_hash: CHash { data: token(1).bytes },
                code: buffer(&[0x60, 0x01]),
                is_selfdestruct6780: true,
                is_random: false,
            },
            WireEvent::CallEnter { to: CAddress { data: addr(0x0b).bytes }, input: buffer(&[1, 2, 3]) },
        ]
    );
}

#[test]
fn creation_opens_session_without_code() {
    let mut data = DepData { call_depth: 0, activated: true };
    let events = on_enter(&mut data, &live_gate(), &context(), true, &vec![9], addr(0x0c));
    assert_eq!(events.len(), 2);
    match &events[0] {
        WireEvent::OpenSession { is_create, code, input, .. } => {
            assert!(*is_create);
            assert_eq!(*code, buffer(&[]));
            assert_eq!(*input, buffer(&[0xca, 0xfe]));
        }
        other => panic!("unexpected event {:?}", other),
    }
    assert_eq!(
        events[1],
        WireEvent::CallEnter { to: CAddress { data: addr(0x0c).bytes }, input: buffer(&[9]) }
    );
}

#[test]
fn nested_enter_only_enters() {
    let mut data = DepData { call_depth: 3, activated: true };
    let events = on_enter(&mut data, &live_gate(), &context(), false, &vec![], addr(0x0d));
    assert_eq!(data.call_depth, 4);
    assert_eq!(
        events,
        vec![WireEvent::CallEnter { to: CAddress { data: addr(0x0d).bytes }, input: buffer(&[]) }]
    );
}

#[test]
fn last_exit_closes_session() {
    let mut data = DepData { call_depth: 1, activated: true };
    let events = on_exit(&mut data, &live_gate(), &vec![7, 7], true).unwrap();
    assert_eq!(data, DepData { call_depth: 0, activated: true });
    assert_eq!(
        events,
        vec![
            WireEvent::CallExit { output: buffer(&[7, 7]), has_error: true },
            WireEvent::CloseSession,
        ]
    );
}

#[test]
fn nested_exit_only_exits() {
    let mut data = DepData { call_depth: 2, activated: true };
    let events = on_exit(&mut data, &live_gate(), &vec![], false).unwrap();
    assert_eq!(data.call_depth, 1);
    assert_eq!(events, vec![WireEvent::CallExit { output: buffer(&[]), has_error: false }]);
}

#[test]
fn exit_without_enter_is_refused() {
    let mut data = DepData { call_depth: 0, activated: true };
    assert_eq!(on_exit(&mut data, &live_gate(), &vec![1], false), Err(BridgeError::UnmatchedExit));
    assert_eq!(data, DepData { call_depth: 0, activated: true });
}

#[test]
fn balanced_hooks_open_and_close_once() {
    let gate = live_gate();
    let mut data = DepData { call_depth: 0, activated: true };
    let mut events = Vec::new();
    events.extend(on_enter(&mut data, &gate, &context(), false, &vec![1], addr(1)));
    events.extend(on_enter(&mut data, &gate, &context(), true, &vec![2], addr(2)));
    events.extend(on_enter(&mut data, &gate, &context(), false, &vec![3], addr(3)));
    events.extend(on_exit(&mut data, &gate, &vec![3], false).unwrap());
    events.extend(on_exit(&mut data, &gate, &vec![2], true).unwrap());
    events.extend(on_enter(&mut data, &gate, &context(), false, &vec![4], addr(4)));
    events.extend(on_exit(&mut data, &gate, &vec![4], false).unwrap());
    events.extend(on_exit(&mut data, &gate, &vec![1], false).unwrap());
    assert_eq!(data.call_depth, 0);
    assert_eq!(events.len(), 10);
    assert_eq!(events.iter().filter(|e| is_open(e)).count(), 1);
    assert_eq!(events.iter().filter(|e| is_close(e)).count(), 1);
    assert!(is_open(&events[0]));
    assert!(is_close(&events[9]));
}

#[test]
fn second_transaction_opens_again() {
    let gate = live_gate();
    let mut data = DepData { call_depth: 0, activated: true };
    let mut opens = 0;
    let mut closes = 0;
    for _ in 0..2 {
        let entered = on_enter(&mut data, &gate, &context(), false, &vec![], addr(1));
        opens += entered.iter().filter(|e| is_open(e)).count();
        let left = on_exit(&mut data, &gate, &vec![], false).unwrap();
        closes += left.iter().filter(|e| is_close(e)).count();
    }
    assert_eq!((opens, closes), (2, 2));
}

#[test]
fn zero_token_silences_hooks() {
    let gate = ActivationState { token: Hash32::zero() };
    let mut data = DepData { call_depth: 0, activated: true };
    assert!(!is_activated(&data, &gate));
    assert!(!opens_session(&data, &gate));
    assert_eq!(on_enter(&mut data, &gate, &context(), false, &vec![1], addr(1)), vec![]);
    assert_eq!(data, DepData { call_depth: 0, activated: true });
    assert_eq!(on_exit(&mut data, &gate, &vec![1], false), Ok(vec![]));
    assert_eq!(data, DepData { call_depth: 0, activated: true });
}

#[test]
fn passive_session_is_silent() {
    let gate = live_gate();
    let mut data = DepData { call_depth: 0, activated: false };
    assert!(!is_activated(&data, &gate));
    assert_eq!(on_enter(&mut data, &gate, &context(), false, &vec![1], addr(1)), vec![]);
    assert_eq!(on_exit(&mut data, &gate, &vec![1], false), Ok(vec![]));
    assert_eq!(data, DepData { call_depth: 0, activated: false });
}

#[test]
fn activation_is_idempotent() {
    let mut gate = ActivationState { token: Hash32::zero() };
    let mut data = DepData { call_depth: 0, activated: true };

    deactivate(&mut gate);
    assert_eq!(gate, ActivationState { token: Hash32::zero() });
    assert_eq!(on_enter(&mut data, &gate, &context(), false, &vec![], addr(1)), vec![]);
    assert_eq!(data.call_depth, 0);

    activate(&mut gate, token(5));
    let once = gate;
    activate(&mut gate, token(5));
    assert_eq!(gate, once);
    assert_eq!(gate.token, token(5));
    assert!(is_activated(&data, &gate));
    assert!(opens_session(&data, &gate));
    assert_eq!(on_enter(&mut data, &gate, &context(), false, &vec![], addr(1)).len(), 2);
    assert!(!opens_session(&data, &gate));

    activate(&mut gate, Hash32::zero());
    assert!(!is_activated(&data, &gate));
    deactivate(&mut gate);
    assert_eq!(gate, ActivationState { token: Hash32::zero() });
    assert_eq!(on_exit(&mut data, &gate, &vec![], false), Ok(vec![]));
    assert_eq!(data.call_depth, 1);
}

#[test]
fn depth_counts_up_to_the_limit() {
    let mut data = DepData { call_depth: u32::MAX - 1, activated: true };
    let events = on_enter(&mut data, &live_gate(), &context(), false, &vec![], addr(1));
    assert_eq!(events.len(), 1);
    assert_eq!(data.call_depth, u32::MAX);
    let left = on_exit(&mut data, &live_gate(), &vec![], false).unwrap();
    assert_eq!(left.len(), 1);
    assert_eq!(data.call_depth, u32::MAX - 1);
}

#[test]
fn clear_is_refused() {
    let mut data = DepData { call_depth: 2, activated: true };
    assert_eq!(data.clear(), Err(BridgeError::ClearUnsupported));
    assert_eq!(data, DepData { call_depth: 2, activated: true });
}
