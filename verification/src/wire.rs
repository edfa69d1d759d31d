//! Wire codec: interpreter-native values and the fixed-layout records that
//! cross the boundary to the tracing engine.

use crate::error::DecodeError;
use vstd::prelude::*;

verus! {

/// A 20-byte account identifier. The all-zero value stands for "unset".
#[derive(Clone, Copy, Debug, PartialEq, Eq)]
pub struct Address {
    pub bytes: [u8; 20],
}

/// A 32-byte opaque identifier.
#[derive(Clone, Copy, Debug, PartialEq, Eq)]
pub struct Hash32 {
    pub bytes: [u8; 32],
}

/// A 256-bit stack word, held as four 64-bit limbs, least significant first.
#[derive(Clone, Copy, Debug, PartialEq, Eq)]
pub struct Word {
    pub limbs: [u64; 4],
}

/// Wire form of an address: its 20 raw bytes.
#[derive(Clone, Copy, Debug, PartialEq, Eq)]
pub struct CAddress {
    pub data: [u8; 20],
}

/// Wire form of a 256-bit value: 32 bytes, most significant first.
#[derive(Clone, Copy, Debug, PartialEq, Eq)]
pub struct CHash {
    pub data: [u8; 32],
}

/// Wire form of a byte buffer: an owned copy with its explicit length.
#[derive(Clone, Debug, PartialEq, Eq)]
pub struct CSizedArray {
    pub data: Vec<u8>,
    pub size: usize,
}

/// Wire form of an operand stack: one `CHash` per word, in the order in
/// which the interpreter presents them, with the explicit count.
#[derive(Clone, Debug, PartialEq, Eq)]
pub struct CStack {
    pub data: Vec<CHash>,
    pub size: usize,
}

/// Whether every byte of the sequence is zero.
pub open spec fn all_zero(bytes: Seq<u8>) -> bool {
    forall|i: int| 0 <= i < bytes.len() ==> bytes[i] == 0u8
}

impl View for Address {
    type V = Seq<u8>;

    open spec fn view(&self) -> Seq<u8> {
        self.bytes@
    }
}

impl View for Hash32 {
    type V = Seq<u8>;

    open spec fn view(&self) -> Seq<u8> {
        self.bytes@
    }
}

impl View for Word {
    type V = Seq<u64>;

    open spec fn view(&self) -> Seq<u64> {
        self.limbs@
    }
}

impl View for CAddress {
    type V = Seq<u8>;

    open spec fn view(&self) -> Seq<u8> {
        self.data@
    }
}

impl View for CHash {
    type V = Seq<u8>;

    open spec fn view(&self) -> Seq<u8> {
        self.data@
    }
}

impl Address {
    /// Whether this is the reserved all-zero address.
    pub open spec fn spec_is_zero(&self) -> bool {
        all_zero(self@)
    }

    /// The reserved all-zero address.
    pub fn zero() -> (a: Address)
        ensures
            a.spec_is_zero(),
    {
        Address { bytes: [0u8; 20] }
    }

    /// Whether this is the reserved all-zero address.
    pub fn is_zero(&self) -> (z: bool)
        ensures
            z == self.spec_is_zero(),
    {
        let mut i: usize = 0;
        while i < 20
            invariant
                i <= 20,
                forall|j: int| 0 <= j < i ==> self@[j] == 0u8,
            decreases 20 - i,
        {
            if self.bytes[i] != 0 {
                return false;
            }
            i += 1;
        }
        true
    }
}

impl Hash32 {
    /// Whether this is the all-zero hash.
    pub open spec fn spec_is_zero(&self) -> bool {
        all_zero(self@)
    }

    /// The all-zero hash.
    pub fn zero() -> (h: Hash32)
        ensures
            h.spec_is_zero(),
    {
        Hash32 { bytes: [0u8; 32] }
    }

    /// Whether this is the all-zero hash.
    pub fn is_zero(&self) -> (z: bool)
        ensures
            z == self.spec_is_zero(),
    {
        let mut i: usize = 0;
        while i < 32
            invariant
                i <= 32,
                forall|j: int| 0 <= j < i ==> self@[j] == 0u8,
            decreases 32 - i,
        {
            if self.bytes[i] != 0 {
                return false;
            }
            i += 1;
        }
        true
    }
}

impl CSizedArray {
    /// The recorded length is the length of the bytes held.
    pub open spec fn wf(&self) -> bool {
        self.size == self.data@.len()
    }
}

impl View for CSizedArray {
    type V = Seq<u8>;

    open spec fn view(&self) -> Seq<u8> {
        self.data@
    }
}

impl CStack {
    /// The recorded count is the number of words held.
    pub open spec fn wf(&self) -> bool {
        self.size == self.data@.len()
    }
}

impl View for CStack {
    type V = Seq<Seq<u8>>;

    open spec fn view(&self) -> Seq<Seq<u8>> {
        Seq::new(self.data@.len(), |i: int| self.data@[i]@)
    }
}

/// Byte `i` (0 is the most significant) of the 256-bit value with the given
/// limbs, least significant limb first.
pub open spec fn be_byte(limbs: Seq<u64>, i: int) -> u8 {
    ((limbs[3 - i / 8] >> ((8 * (7 - i % 8)) as u64)) & 0xff) as u8
}

/// The 32 bytes, most significant first, of the 256-bit value with the given
/// limbs.
pub open spec fn be_bytes_of(limbs: Seq<u64>) -> Seq<u8> {
    Seq::new(32, |i: int| be_byte(limbs, i))
}

/// Limb `j` (0 is the least significant) of the 256-bit value written as 32
/// bytes, most significant first.
pub open spec fn limb_of(bytes: Seq<u8>, j: int) -> u64 {
    let o = 8 * (3 - j);
    (bytes[o] as u64) << 56 | (bytes[o + 1] as u64) << 48 | (bytes[o + 2] as u64) << 40 | (bytes[o
        + 3] as u64) << 32 | (bytes[o + 4] as u64) << 24 | (bytes[o + 5] as u64) << 16 | (bytes[o
        + 6] as u64) << 8 | (bytes[o + 7] as u64)
}

/// The four limbs, least significant first, of the 256-bit value written as
/// 32 bytes, most significant first.
pub open spec fn limbs_of(bytes: Seq<u8>) -> Seq<u64> {
    Seq::new(4, |j: int| limb_of(bytes, j))
}

/// The number that four limbs spell, least significant first.
pub open spec fn limbs_value(limbs: Seq<u64>) -> nat {
    (limbs[0] as nat) + (limbs[1] as nat) * 0x1_0000_0000_0000_0000 + (limbs[2] as nat)
        * 0x1_0000_0000_0000_0000_0000_0000_0000_0000 + (limbs[3] as nat)
        * 0x1_0000_0000_0000_0000_0000_0000_0000_0000_0000_0000_0000_0000
}

/// The number that bytes spell, most significant first.
pub open spec fn be_value(bytes: Seq<u8>) -> nat
    decreases bytes.len(),
{
    if bytes.len() == 0 {
        0
    } else {
        be_value(bytes.drop_last()) * 256 + bytes.last() as nat
    }
}

impl Word {
    /// The word's 32 bytes, most significant first.
    pub open spec fn be_bytes(&self) -> Seq<u8> {
        be_bytes_of(self@)
    }
}

/// `U256::to_be_bytes` of alloy_primitives (ruint's `Uint`), on the value
/// built by `U256::from_limbs`. Trusted: the result is the value's 32 bytes,
/// most significant first.
#[verifier::external_body]
fn u256_to_be_bytes(limbs: &[u64; 4]) -> (out: [u8; 32])
    ensures
        out@ == be_bytes_of(limbs@),
{
    alloy_primitives::U256::from_limbs(*limbs).to_be_bytes::<32>()
}

/// `U256::from_be_bytes` of alloy_primitives (ruint's `Uint`), handed out by
/// `into_limbs`. Trusted: the result holds the limbs of the value that the 32
/// bytes spell, most significant byte first.
#[verifier::external_body]
fn u256_from_be_bytes(bytes: &[u8; 32]) -> (out: [u64; 4])
    ensures
        out@ == limbs_of(bytes@),
{
    alloy_primitives::U256::from_be_bytes::<32>(*bytes).into_limbs()
}

/// Whether `c` is one of `0-9`, `a-f`, `A-F`.
pub open spec fn is_hex_digit(c: char) -> bool {
    ('0' <= c && c <= '9') || ('a' <= c && c <= 'f') || ('A' <= c && c <= 'F')
}

/// The value, 0 to 15, of a hexadecimal digit.
pub open spec fn hex_digit_value(c: char) -> int {
    if '0' <= c && c <= '9' {
        c as int - '0' as int
    } else if 'a' <= c && c <= 'f' {
        c as int - 'a' as int + 10
    } else {
        c as int - 'A' as int + 10
    }
}

/// Whether the text is exactly 64 hexadecimal digits.
pub open spec fn is_hex_word(text: Seq<char>) -> bool {
    text.len() == 64 && forall|i: int| 0 <= i < 64 ==> is_hex_digit(#[trigger] text[i])
}

/// The 32 bytes that 64 hexadecimal digits spell, two digits to a byte, the
/// high digit first.
pub open spec fn hex_word_bytes(text: Seq<char>) -> Seq<u8> {
    Seq::new(
        32,
        |i: int| (hex_digit_value(text[2 * i]) * 16 + hex_digit_value(text[2 * i + 1])) as u8,
    )
}

/// The error of the `hex` crate's decoders.
#[verifier::external_type_specification]
#[verifier::external_body]
pub struct ExFromHexError(hex::FromHexError);

/// `FromHex::from_hex` of the `hex` crate for `[u8; 32]`. Trusted: it
/// succeeds exactly on texts of 64 hexadecimal digits, either case, and then
/// returns the bytes they spell.
#[verifier::external_body]
fn hex_decode_word(text: &str) -> (r: Result<[u8; 32], hex::FromHexError>)
    ensures
        r is Ok <==> is_hex_word(text@),
        r matches Ok(bytes) ==> bytes@ == hex_word_bytes(text@),
{
    <[u8; 32] as hex::FromHex>::from_hex(text)
}

/// Decodes a text of exactly 64 hexadecimal digits into a hash. Any other
/// text, of another length or with another character, is rejected.
pub fn hex_to_hash(text: &str) -> (r: Result<Hash32, DecodeError>)
    ensures
        is_hex_word(text@) ==> (r matches Ok(hash) && hash@ == hex_word_bytes(text@)),
        !is_hex_word(text@) ==> r == Err::<Hash32, DecodeError>(DecodeError::MalformedHex),
{
    match hex_decode_word(text) {
        Ok(bytes) => Ok(Hash32 { bytes }),
        Err(_) => Err(DecodeError::MalformedHex),
    }
}

/// `Address::from_word` of alloy_primitives. Trusted: the address is the
/// last 20 of the word's 32 bytes.
#[verifier::external_body]
fn address_from_word(word: &[u8; 32]) -> (out: [u8; 20])
    ensures
        out@ == word@.subrange(12, 32),
{
    alloy_primitives::Address::from_word(alloy_primitives::FixedBytes(*word)).into_array()
}

/// The address that a stack word names: the low 20 bytes of its 32.
pub open spec fn word_address(limbs: Seq<u64>) -> Seq<u8> {
    be_bytes_of(limbs).subrange(12, 32)
}

/// Reads a stack word as an address.
pub fn word_to_address(word: &Word) -> (address: Address)
    ensures
        address@ == word_address(word@),
{
    let bytes = u256_to_be_bytes(&word.limbs);
    Address { bytes: address_from_word(&bytes) }
}

/// Copies the 20 raw bytes of an address into its wire form.
pub fn address_to_caddress(addr: Address) -> (c: CAddress)
    ensures
        c@ == addr@,
{
    CAddress { data: addr.bytes }
}

/// Copies the 32 raw bytes of a hash into its wire form.
pub fn hash_to_chash(hash: Hash32) -> (c: CHash)
    ensures
        c@ == hash@,
{
    CHash { data: hash.bytes }
}

/// The byte of the filler pattern at position `i`: `de ad be ef`, repeated.
pub open spec fn deadbeef_byte(i: int) -> u8 {
    if i % 4 == 0 {
        0xde
    } else if i % 4 == 1 {
        0xad
    } else if i % 4 == 2 {
        0xbe
    } else {
        0xef
    }
}

/// The filler value that marks a slot not yet written.
pub fn deadbeef_chash() -> (c: CHash)
    ensures
        c@ == Seq::new(32, |i: int| deadbeef_byte(i)),
{
    CHash {
        data: [
            0xde, 0xad, 0xbe, 0xef, 0xde, 0xad, 0xbe, 0xef, 0xde, 0xad, 0xbe, 0xef, 0xde, 0xad, 0xbe, 0xef,
            0xde, 0xad, 0xbe, 0xef, 0xde, 0xad, 0xbe, 0xef, 0xde, 0xad, 0xbe, 0xef, 0xde, 0xad, 0xbe, 0xef,
        ],
    }
}

/// Copies a byte buffer into its wire form.
pub fn bytes_to_csizedarray(data: &Vec<u8>) -> (c: CSizedArray)
    ensures
        c.wf(),
        c@ == data@,
{
    let mut copy: Vec<u8> = Vec::new();
    let mut i: usize = 0;
    while i < data.len()
        invariant
            i <= data.len(),
            copy@ == data@.subrange(0, i as int),
        decreases data.len() - i,
    {
        copy.push(data[i]);
        i += 1;
    }
    CSizedArray { data: copy, size: data.len() }
}

/// The limbs of each word of a stack, in order.
pub open spec fn stack_limbs(stack: Seq<Word>) -> Seq<Seq<u64>> {
    Seq::new(stack.len(), |i: int| stack[i]@)
}

/// The wire form of a stack: each word's 32 bytes, most significant first,
/// in the order of the stack.
pub open spec fn encoded_stack(stack: Seq<Seq<u64>>) -> Seq<Seq<u8>> {
    Seq::new(stack.len(), |i: int| be_bytes_of(stack[i]))
}

/// The stack that a wire form spells: the limbs of each 32-byte entry, in
/// the order of the entries.
pub open spec fn decoded_stack(wire: Seq<Seq<u8>>) -> Seq<Seq<u64>> {
    Seq::new(wire.len(), |i: int| limbs_of(wire[i]))
}

/// Encodes an operand stack: entry `i` of the result is word `i` of the
/// stack as 32 bytes, most significant first. The empty stack is valid.
pub fn stack_to_cstack(stack: &Vec<Word>) -> (c: CStack)
    ensures
        c.wf(),
        c@.len() == stack@.len(),
        forall|i: int| 0 <= i < stack@.len() ==> c@[i] == (#[trigger] stack@[i]).be_bytes(),
        c@ == encoded_stack(stack_limbs(stack@)),
{
    let n = stack.len();
    let mut cstack: Vec<CHash> = vec![deadbeef_chash(); n];
    let mut i: usize = 0;
    while i < n
        invariant
            n == stack.len(),
            i <= n,
            cstack.len() == n,
            forall|j: int| 0 <= j < i ==> cstack[j]@ == stack[j].be_bytes(),
        decreases n - i,
    {
        let word: Word = stack[i];
        cstack.set(i, CHash { data: u256_to_be_bytes(&word.limbs) });
        i += 1;
    }
    let c = CStack { data: cstack, size: n };
    assert(c@ =~= encoded_stack(stack_limbs(stack@)));
    c
}

/// Decodes a wire stack: word `i` of the result is the value that entry `i`
/// spells.
pub fn cstack_to_stack(wire: &CStack) -> (stack: Vec<Word>)
    ensures
        stack@.len() == wire@.len(),
        forall|i: int| 0 <= i < wire@.len() ==> (#[trigger] stack@[i])@ == limbs_of(wire@[i]),
        stack_limbs(stack@) == decoded_stack(wire@),
{
    let n = wire.data.len();
    let mut stack: Vec<Word> = Vec::new();
    let mut i: usize = 0;
    while i < n
        invariant
            n == wire.data.len(),
            i <= n,
            stack.len() == i,
            forall|j: int| 0 <= j < i ==> stack[j]@ == limbs_of(wire.data[j]@),
        decreases n - i,
    {
        let entry: CHash = wire.data[i];
        stack.push(Word { limbs: u256_from_be_bytes(&entry.data) });
        i += 1;
    }
    assert(stack_limbs(stack@) =~= decoded_stack(wire@));
    stack
}

/// One limb is the eight bytes cut from it, put together again.
proof fn lemma_limb_round_trip(x: u64)
    ensures
        (((x >> 56) & 0xff) as u8 as u64) << 56 | (((x >> 48) & 0xff) as u8 as u64) << 48 | (((x
            >> 40) & 0xff) as u8 as u64) << 40 | (((x >> 32) & 0xff) as u8 as u64) << 32 | (((x
            >> 24) & 0xff) as u8 as u64) << 24 | (((x >> 16) & 0xff) as u8 as u64) << 16 | (((x
            >> 8) & 0xff) as u8 as u64) << 8 | (((x >> 0) & 0xff) as u8 as u64) == x,
{
    assert((((x >> 56) & 0xff) as u8 as u64) << 56 | (((x >> 48) & 0xff) as u8 as u64) << 48 | (((x
        >> 40) & 0xff) as u8 as u64) << 40 | (((x >> 32) & 0xff) as u8 as u64) << 32 | (((x >> 24)
        & 0xff) as u8 as u64) << 24 | (((x >> 16) & 0xff) as u8 as u64) << 16 | (((x >> 8) & 0xff) as u8 as u64)
        << 8 | (((x >> 0) & 0xff) as u8 as u64) == x) by (bit_vector);
}

/// 256 to the power `n`.
pub open spec fn pow256(n: nat) -> nat
    decreases n,
{
    if n == 0 {
        1
    } else {
        256 * pow256((n - 1) as nat)
    }
}

/// The number that two runs of bytes spell together: the first run moves
/// up by the length of the second.
proof fn lemma_be_value_concat(a: Seq<u8>, b: Seq<u8>)
    ensures
        be_value(a + b) == be_value(a) * pow256(b.len()) + be_value(b),
    decreases b.len(),
{
    if b.len() == 0 {
        assert(a + b =~= a);
        assert(pow256(b.len()) == 1);
        assert(be_value(b) == 0);
    } else {
        let b1 = b.drop_last();
        assert((a + b).drop_last() =~= a + b1);
        assert((a + b).last() == b.last());
        lemma_be_value_concat(a, b1);
        let va = be_value(a) as int;
        let p = pow256(b1.len()) as int;
        let vb = be_value(b1) as int;
        assert(be_value(a + b) == be_value(a + b1) * 256 + b.last() as nat);
        assert(be_value(b) == vb * 256 + b.last() as nat);
        assert(pow256(b.len()) == 256 * p);
        assert((va * p + vb) * 256 == va * (256 * p) + vb * 256) by (nonlinear_arith);
    }
}

/// The eight bytes cut from a limb, most significant first.
spec fn limb_bytes(x: u64) -> Seq<u8> {
    seq![
        ((x >> 56) & 0xff) as u8,
        ((x >> 48) & 0xff) as u8,
        ((x >> 40) & 0xff) as u8,
        ((x >> 32) & 0xff) as u8,
        ((x >> 24) & 0xff) as u8,
        ((x >> 16) & 0xff) as u8,
        ((x >> 8) & 0xff) as u8,
        ((x >> 0) & 0xff) as u8,
    ]
}

/// One limb is the number that its eight bytes spell.
proof fn lemma_limb_value(x: u64)
    ensures
        be_value(limb_bytes(x)) == x,
{
    let b0 = ((x >> 56) & 0xff) as u8;
    let b1 = ((x >> 48) & 0xff) as u8;
    let b2 = ((x >> 40) & 0xff) as u8;
    let b3 = ((x >> 32) & 0xff) as u8;
    let b4 = ((x >> 24) & 0xff) as u8;
    let b5 = ((x >> 16) & 0xff) as u8;
    let b6 = ((x >> 8) & 0xff) as u8;
    let b7 = ((x >> 0) & 0xff) as u8;
    assert(x == (b0 as u64) * 0x100_0000_0000_0000 + (b1 as u64) * 0x1_0000_0000_0000 + (b2 as u64)
        * 0x100_0000_0000 + (b3 as u64) * 0x1_0000_0000 + (b4 as u64) * 0x100_0000 + (b5 as u64)
        * 0x1_0000 + (b6 as u64) * 0x100 + (b7 as u64)) by (bit_vector)
        requires
            b0 == ((x >> 56) & 0xff) as u8,
            b1 == ((x >> 48) & 0xff) as u8,
            b2 == ((x >> 40) & 0xff) as u8,
            b3 == ((x >> 32) & 0xff) as u8,
            b4 == ((x >> 24) & 0xff) as u8,
            b5 == ((x >> 16) & 0xff) as u8,
            b6 == ((x >> 8) & 0xff) as u8,
            b7 == ((x >> 0) & 0xff) as u8,
    ;
    let s = limb_bytes(x);
    let s7 = s.drop_last();
    let s6 = s7.drop_last();
    let s5 = s6.drop_last();
    let s4 = s5.drop_last();
    let s3 = s4.drop_last();
    let s2 = s3.drop_last();
    let s1 = s2.drop_last();
    let s0 = s1.drop_last();
    assert(s0.len() == 0);
    assert(be_value(s0) == 0);
    assert(be_value(s1) == b0);
    assert(be_value(s2) == b0 * 0x100 + b1);
    assert(be_value(s3) == b0 * 0x1_0000 + b1 * 0x100 + b2);
    assert(be_value(s4) == b0 * 0x100_0000 + b1 * 0x1_0000 + b2 * 0x100 + b3);
    assert(be_value(s5) == b0 * 0x1_0000_0000 + b1 * 0x100_0000 + b2 * 0x1_0000 + b3 * 0x100 + b4);
    assert(be_value(s6) == b0 * 0x100_0000_0000 + b1 * 0x1_0000_0000 + b2 * 0x100_0000 + b3
        * 0x1_0000 + b4 * 0x100 + b5);
    assert(be_value(s7) == b0 * 0x1_0000_0000_0000 + b1 * 0x100_0000_0000 + b2 * 0x1_0000_0000 + b3
        * 0x100_0000 + b4 * 0x1_0000 + b5 * 0x100 + b6);
}

/// The 32 bytes of a word spell the number that the word holds: they are
/// its big-endian form.
pub proof fn lemma_be_bytes_value(limbs: Seq<u64>)
    requires
        limbs.len() == 4,
    ensures
        be_value(be_bytes_of(limbs)) == limbs_value(limbs),
{
    let g3 = limb_bytes(limbs[3]);
    let g2 = limb_bytes(limbs[2]);
    let g1 = limb_bytes(limbs[1]);
    let g0 = limb_bytes(limbs[0]);
    assert(be_bytes_of(limbs) =~= ((g3 + g2) + g1) + g0);
    lemma_limb_value(limbs[3]);
    lemma_limb_value(limbs[2]);
    lemma_limb_value(limbs[1]);
    lemma_limb_value(limbs[0]);
    lemma_be_value_concat(g3, g2);
    lemma_be_value_concat(g3 + g2, g1);
    lemma_be_value_concat((g3 + g2) + g1, g0);
    assert(pow256(8) == 0x1_0000_0000_0000_0000) by {
        reveal_with_fuel(pow256, 9);
    }
    let p = 0x1_0000_0000_0000_0000int;
    let v3 = limbs[3] as int;
    let v2 = limbs[2] as int;
    let v1 = limbs[1] as int;
    let v0 = limbs[0] as int;
    assert(((v3 * p + v2) * p + v1) * p + v0 == v0 + v1 * p + v2 * (p * p) + v3 * (p * p * p))
        by (nonlinear_arith);
    assert(p * p == 0x1_0000_0000_0000_0000_0000_0000_0000_0000int) by (nonlinear_arith)
        requires
            p == 0x1_0000_0000_0000_0000int,
    ;
    assert(p * p * p == 0x1_0000_0000_0000_0000_0000_0000_0000_0000_0000_0000_0000_0000int)
        by (nonlinear_arith)
        requires
            p == 0x1_0000_0000_0000_0000int,
    ;
}

/// Limb `j` read back from the bytes of a word is limb `j` of the word.
proof fn lemma_limb_of_be_bytes(limbs: Seq<u64>, j: int)
    requires
        limbs.len() == 4,
        0 <= j < 4,
    ensures
        limb_of(be_bytes_of(limbs), j) == limbs[j],
{
    let b = be_bytes_of(limbs);
    let o = 8 * (3 - j);
    let x = limbs[j];
    lemma_limb_round_trip(x);
    assert(b[o] == ((x >> 56) & 0xff) as u8);
    assert(b[o + 1] == ((x >> 48) & 0xff) as u8);
    assert(b[o + 2] == ((x >> 40) & 0xff) as u8);
    assert(b[o + 3] == ((x >> 32) & 0xff) as u8);
    assert(b[o + 4] == ((x >> 24) & 0xff) as u8);
    assert(b[o + 5] == ((x >> 16) & 0xff) as u8);
    assert(b[o + 6] == ((x >> 8) & 0xff) as u8);
    assert(b[o + 7] == ((x >> 0) & 0xff) as u8);
}

/// Decoding the 32 bytes of a word gives the word back.
pub proof fn lemma_word_round_trip(limbs: Seq<u64>)
    requires
        limbs.len() == 4,
    ensures
        limbs_of(be_bytes_of(limbs)) == limbs,
{
    assert forall|j: int| 0 <= j < 4 implies limbs_of(be_bytes_of(limbs))[j] == limbs[j] by {
        lemma_limb_of_be_bytes(limbs, j);
    }
    assert(limbs_of(be_bytes_of(limbs)) =~= limbs);
}

/// Encoding a stack of any length and decoding the wire form gives the same
/// words in the same order.
pub proof fn lemma_stack_round_trip(stack: Seq<Seq<u64>>)
    requires
        forall|i: int| 0 <= i < stack.len() ==> (#[trigger] stack[i]).len() == 4,
    ensures
        encoded_stack(stack).len() == stack.len(),
        decoded_stack(encoded_stack(stack)) == stack,
{
    assert forall|i: int| 0 <= i < stack.len() implies decoded_stack(encoded_stack(stack))[i]
        == stack[i] by {
        lemma_word_round_trip(stack[i]);
    }
    assert(decoded_stack(encoded_stack(stack)) =~= stack);
}

} // verus!
