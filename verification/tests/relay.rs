use tracevm::error::BridgeError;
use tracevm::relay::PrefetchRelay;
use tracevm::wire::{address_to_caddress, Address, CSizedArray};

fn addr(last: u8) -> Address {
    let mut bytes = [0u8; 20];
    bytes[19] = last;
    Address { bytes }
}

#[test]
fn new_relay_is_empty() {
    let mut relay = PrefetchRelay::new();
    assert_eq!(relay.get_nonce(address_to_caddress(addr(1))), Err(BridgeError::PrefetchNotArmed));
    assert_eq!(relay.get_code(address_to_caddress(addr(1))), Err(BridgeError::PrefetchNotArmed));
}

#[test]
fn nonce_is_resolved_once() {
    let mut relay = PrefetchRelay::new();
    relay.arm_nonce(addr(7), 42);
    assert_eq!(relay.get_nonce(address_to_caddress(addr(7))), Ok(42));
    assert_eq!(relay.get_nonce(address_to_caddress(addr(7))), Err(BridgeError::PrefetchNotArmed));
    assert!(relay.nonce_address.is_zero());
}

#[test]
fn code_is_resolved_once() {
    let mut relay = PrefetchRelay::new();
    relay.arm_code(addr(9), vec![0x60, 0x00, 0xf3]);
    assert_eq!(
        relay.get_code(address_to_caddress(addr(9))),
        Ok(CSizedArray { data: vec![0x60, 0x00, 0xf3], size: 3 })
    );
    assert_eq!(relay.get_code(address_to_caddress(addr(9))), Err(BridgeError::PrefetchNotArmed));
    assert!(relay.code_address.is_zero());
}

#[test]
fn arming_again_overwrites() {
    let mut relay = PrefetchRelay::new();
    relay.arm_nonce(addr(1), 5);
    relay.arm_nonce(addr(2), 6);
    assert_eq!(relay.get_nonce(address_to_caddress(addr(1))), Ok(6));
    relay.arm_code(addr(1), vec![1]);
    relay.arm_code(addr(2), vec![2, 2]);
    assert_eq!(
        relay.get_code(address_to_caddress(addr(1))),
        Ok(CSizedArray { data: vec![2, 2], size: 2 })
    );
}

#[test]
fn cells_are_independent() {
    let mut relay = PrefetchRelay::new();
    relay.arm_nonce(addr(1), 5);
    assert_eq!(relay.get_code(address_to_caddress(addr(1))), Err(BridgeError::PrefetchNotArmed));
    relay.arm_code(addr(3), vec![]);
    assert_eq!(relay.get_nonce(address_to_caddress(addr(3))), Ok(5));
    assert_eq!(
        relay.get_code(address_to_caddress(addr(3))),
        Ok(CSizedArray { data: vec![], size: 0 })
    );
    assert_eq!(relay.get_nonce(address_to_caddress(addr(3))), Err(BridgeError::PrefetchNotArmed));
}

#[test]
fn requested_address_is_not_compared() {
    let mut relay = PrefetchRelay::new();
    relay.arm_nonce(addr(1), 11);
    assert_eq!(relay.get_nonce(address_to_caddress(addr(200))), Ok(11));
    relay.arm_nonce(addr(1), 12);
    assert_eq!(relay.get_nonce(address_to_caddress(Address::zero())), Ok(12));
}

#[test]
fn zero_address_arms_nothing() {
    let mut relay = PrefetchRelay::new();
    relay.arm_nonce(Address::zero(), 11);
    assert_eq!(relay.get_nonce(address_to_caddress(addr(1))), Err(BridgeError::PrefetchNotArmed));
    relay.arm_code(Address::zero(), vec![1, 2, 3]);
    assert_eq!(relay.get_code(address_to_caddress(addr(1))), Err(BridgeError::PrefetchNotArmed));
}
