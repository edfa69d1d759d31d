//! The prefetch relay: two single-slot cells, one for the nonce and one for
//! the code of an address. The dispatcher arms a cell just before it emits
//! the instruction that makes the tracing engine ask, and the engine's
//! question, which arrives while that emission is still running, empties it.

use crate::error::BridgeError;
use crate::wire::{all_zero, bytes_to_csizedarray, Address, CAddress, CSizedArray};
use vstd::prelude::*;

verus! {

/// Both cells. A cell whose address is the zero address is empty, whatever
/// value lies beside it.
#[derive(Clone, Debug, PartialEq, Eq)]
pub struct PrefetchRelay {
    pub nonce_address: Address,
    pub nonce: u64,
    pub code_address: Address,
    pub code: Vec<u8>,
}

/// A cell after `arm`: it holds the pair, unless the address is the zero
/// address, which leaves it empty.
pub open spec fn cell_armed<V>(address: Seq<u8>, value: V) -> Option<(Seq<u8>, V)> {
    if all_zero(address) {
        None
    } else {
        Some((address, value))
    }
}

/// What a question gets from a cell: the stored value, or nothing from an
/// empty cell.
pub open spec fn cell_resolved<V>(cell: Option<(Seq<u8>, V)>) -> Option<V> {
    match cell {
        Some((_, value)) => Some(value),
        None => None,
    }
}

/// A cell after a question: empty, whatever it held.
pub open spec fn cell_emptied<V>(cell: Option<(Seq<u8>, V)>) -> Option<(Seq<u8>, V)> {
    None
}

impl PrefetchRelay {
    /// The nonce cell: empty, or the armed address with its nonce.
    pub open spec fn nonce_cell(&self) -> Option<(Seq<u8>, u64)> {
        cell_armed(self.nonce_address@, self.nonce)
    }

    /// The code cell: empty, or the armed address with its code.
    pub open spec fn code_cell(&self) -> Option<(Seq<u8>, Seq<u8>)> {
        cell_armed(self.code_address@, self.code@)
    }

    /// A relay with both cells empty.
    pub fn new() -> (relay: PrefetchRelay)
        ensures
            relay.nonce_cell() is None,
            relay.code_cell() is None,
    {
        PrefetchRelay {
            nonce_address: Address::zero(),
            nonce: 0,
            code_address: Address::zero(),
            code: Vec::new(),
        }
    }

    /// Stores a nonce for the engine's next question, over whatever the
    /// nonce cell held. The code cell is not touched.
    pub fn arm_nonce(&mut self, address: Address, nonce: u64)
        ensures
            final(self).nonce_cell() == cell_armed(address@, nonce),
            final(self).code_cell() == old(self).code_cell(),
    {
        self.nonce_address = address;
        self.nonce = nonce;
    }

    /// Stores code for the engine's next question, over whatever the code
    /// cell held. The nonce cell is not touched.
    pub fn arm_code(&mut self, address: Address, code: Vec<u8>)
        ensures
            final(self).code_cell() == cell_armed(address@, code@),
            final(self).nonce_cell() == old(self).nonce_cell(),
    {
        self.code_address = address;
        self.code = code;
    }

    /// The engine asks for a nonce. An armed cell gives its nonce and is
    /// emptied; the address asked for is not compared with the one armed.
    /// An empty cell means that nothing was armed for this question.
    pub fn get_nonce(&mut self, _addr: CAddress) -> (r: Result<u64, BridgeError>)
        ensures
            final(self).nonce_cell() == cell_emptied(old(self).nonce_cell()),
            final(self).code_cell() == old(self).code_cell(),
            match cell_resolved(old(self).nonce_cell()) {
                Some(nonce) => r == Ok::<u64, BridgeError>(nonce),
                None => r == Err::<u64, BridgeError>(BridgeError::PrefetchNotArmed),
            },
    {
        if self.nonce_address.is_zero() {
            return Err(BridgeError::PrefetchNotArmed);
        }
        self.nonce_address = Address::zero();
        Ok(self.nonce)
    }

    /// The engine asks for code. An armed cell gives its code and is
    /// emptied; the address asked for is not compared with the one armed.
    /// An empty cell means that nothing was armed for this question.
    pub fn get_code(&mut self, _addr: CAddress) -> (r: Result<CSizedArray, BridgeError>)
        ensures
            final(self).code_cell() == cell_emptied(old(self).code_cell()),
            final(self).nonce_cell() == old(self).nonce_cell(),
            match cell_resolved(old(self).code_cell()) {
                Some(code) => r matches Ok(buffer) && buffer.wf() && buffer@ == code,
                None => r == Err::<CSizedArray, BridgeError>(BridgeError::PrefetchNotArmed),
            },
    {
        if self.code_address.is_zero() {
            return Err(BridgeError::PrefetchNotArmed);
        }
        self.code_address = Address::zero();
        Ok(bytes_to_csizedarray(&self.code))
    }
}

/// After a cell is armed with an address that is not the zero address, the
/// next question gets the armed value and empties the cell, and a second
/// question, with nothing armed in between, gets nothing.
pub proof fn lemma_prefetch_single_use<V>(address: Seq<u8>, value: V)
    requires
        !all_zero(address),
    ensures
        cell_resolved(cell_armed(address, value)) == Some(value),
        cell_emptied(cell_armed(address, value)) is None,
        cell_resolved(cell_emptied(cell_armed(address, value))) is None,
{
}

} // verus!
