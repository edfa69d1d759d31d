//! The return channel: the queue of textual trace records that the tracing
//! engine hands back, and the decoding of a record into an event log.

use crate::error::DecodeError;
use crate::wire::{hex_to_hash, hex_word_bytes, is_hex_word, Address, Hash32};
use vstd::prelude::*;
use vstd::string::StringExecFns;
use vstd::utf8::encode_utf8;

verus! {

/// The first-in-first-out queue of the `queues` crate.
#[verifier::external_type_specification]
#[verifier::external_body]
#[verifier::reject_recursive_types(T)]
pub struct ExQueue<T: Clone>(queues::Queue<T>);

/// The records that a queue holds, oldest first.
pub uninterp spec fn queue_contents(queue: queues::Queue<String>) -> Seq<Seq<char>>;

/// `Queue::new` of the `queues` crate. Trusted: the new queue is empty.
#[verifier::external_body]
fn queue_new() -> (queue: queues::Queue<String>)
    ensures
        queue_contents(queue) == Seq::<Seq<char>>::empty(),
{
    queues::Queue::new()
}

/// `IsQueue::add` of the `queues` crate on a `Queue`. Trusted: the record
/// becomes the newest of the queue and the others stay as they are.
#[verifier::external_body]
fn queue_add(queue: &mut queues::Queue<String>, record: String)
    ensures
        queue_contents(*final(queue)) == queue_contents(*old(queue)).push(record@),
{
    let _ = queues::IsQueue::add(queue, record);
}

/// `IsQueue::remove` of the `queues` crate on a `Queue`. Trusted: from a
/// queue that holds records it takes the oldest and returns it; an empty
/// queue stays empty and gives nothing.
#[verifier::external_body]
fn queue_remove(queue: &mut queues::Queue<String>) -> (oldest: Option<String>)
    ensures
        match oldest {
            Some(record) => {
                &&& queue_contents(*old(queue)).len() > 0
                &&& record@ == queue_contents(*old(queue))[0]
                &&& queue_contents(*final(queue)) == queue_contents(*old(queue)).drop_first()
            },
            None => {
                &&& queue_contents(*old(queue)).len() == 0
                &&& queue_contents(*final(queue)) == queue_contents(*old(queue))
            },
        },
{
    queues::IsQueue::remove(queue).ok()
}

/// The records that the tracing engine has handed back and that have not
/// been pulled yet.
pub struct TraceCallbackData {
    queue: queues::Queue<String>,
}

impl View for TraceCallbackData {
    type V = Seq<Seq<char>>;

    closed spec fn view(&self) -> Seq<Seq<char>> {
        queue_contents(self.queue)
    }
}

/// A queue after `push`: the record is its newest.
pub open spec fn pushed(queue: Seq<Seq<char>>, record: Seq<char>) -> Seq<Seq<char>> {
    queue.push(record)
}

/// What `dequeue` returns from a queue, and the queue it leaves: the oldest
/// record and the rest, or nothing and the empty queue.
pub open spec fn pulled(queue: Seq<Seq<char>>) -> (Option<Seq<char>>, Seq<Seq<char>>) {
    if queue.len() == 0 {
        (None, queue)
    } else {
        (Some(queue[0]), queue.drop_first())
    }
}

impl TraceCallbackData {
    /// A queue with no record.
    pub fn new() -> (data: TraceCallbackData)
        ensures
            data@ == Seq::<Seq<char>>::empty(),
    {
        TraceCallbackData { queue: queue_new() }
    }

    /// Appends a record as the newest.
    pub fn push(&mut self, data: &str)
        ensures
            final(self)@ == pushed(old(self)@, data@),
    {
        queue_add(&mut self.queue, data.to_owned());
    }

    /// Takes the oldest record out of the queue. An empty queue gives
    /// nothing and stays empty.
    pub fn dequeue(&mut self) -> (oldest: Option<String>)
        ensures
            final(self)@ == pulled(old(self)@).1,
            match oldest {
                Some(record) => pulled(old(self)@).0 == Some(record@),
                None => pulled(old(self)@).0 is None,
            },
    {
        queue_remove(&mut self.queue)
    }

    /// Takes the oldest record out of the queue and decodes it. An empty
    /// queue gives nothing. Otherwise `parse` is called once, on the text of
    /// the oldest record, and what it returns is decoded as `decoded_parsed`
    /// says: `None` from `parse` stands for text that is no record.
    pub fn pull<F: Fn(&str) -> Option<TraceRecord>>(&mut self, parse: F) -> (r: Option<
        Result<DecodedLog, DecodeError>,
    >)
        requires
            forall|text: &str| #[trigger] parse.requires((text,)),
        ensures
            final(self)@ == pulled(old(self)@).1,
            match r {
                None => pulled(old(self)@).0 is None,
                Some(outcome) => {
                    &&& pulled(old(self)@).0 matches Some(oldest)
                    &&& exists|text: &str, parsed: Option<TraceRecord>|
                        {
                            &&& text@ == oldest
                            &&& #[trigger] parse.ensures((text,), parsed)
                            &&& decoding_view(outcome) == decoded_parsed(parsed_view(parsed))
                        }
                },
            },
    {
        match self.dequeue() {
            None => None,
            Some(text) => {
                let oldest: &str = text.as_str();
                let parsed = parse(oldest);
                let ghost witness = parsed;
                let outcome = decode_parsed(parsed);
                assert(parse.ensures((oldest,), witness));
                Some(outcome)
            },
        }
    }
}

/// A queue after the records were pushed in order.
pub open spec fn pushed_all(queue: Seq<Seq<char>>, records: Seq<Seq<char>>) -> Seq<Seq<char>>
    decreases records.len(),
{
    if records.len() == 0 {
        queue
    } else {
        pushed(pushed_all(queue, records.drop_last()), records.last())
    }
}

/// What `n` calls of `dequeue` return, in order, and the queue they leave.
pub open spec fn pulled_times(queue: Seq<Seq<char>>, n: nat) -> (
    Seq<Option<Seq<char>>>,
    Seq<Seq<char>>,
)
    decreases n,
{
    if n == 0 {
        (Seq::empty(), queue)
    } else {
        let (first, rest) = pulled(queue);
        let (later, left) = pulled_times(rest, (n - 1) as nat);
        (seq![first] + later, left)
    }
}

/// Pushing records onto a queue appends them in order.
proof fn lemma_pushed_all(queue: Seq<Seq<char>>, records: Seq<Seq<char>>)
    ensures
        pushed_all(queue, records) == queue + records,
    decreases records.len(),
{
    if records.len() == 0 {
        assert(queue + records =~= queue);
    } else {
        lemma_pushed_all(queue, records.drop_last());
        assert(queue + records =~= (queue + records.drop_last()).push(records.last()));
    }
}

/// Taking as many records as a queue holds returns them oldest first and
/// leaves the queue empty.
proof fn lemma_pulled_all(queue: Seq<Seq<char>>)
    ensures
        pulled_times(queue, queue.len()).0 == Seq::new(
            queue.len(),
            |i: int| Some(queue[i]),
        ),
        pulled_times(queue, queue.len()).1.len() == 0,
    decreases queue.len(),
{
    if queue.len() > 0 {
        lemma_pulled_all(queue.drop_first());
    }
    assert(pulled_times(queue, queue.len()).0 =~= Seq::new(
        queue.len(),
        |i: int| Some(queue[i]),
    ));
}

/// Records pushed onto an empty queue come out of it in the order in which
/// they went in, and once as many were taken as had been pushed the queue
/// gives nothing.
pub proof fn lemma_queue_fifo(records: Seq<Seq<char>>)
    ensures
        ({
            let filled = pushed_all(Seq::empty(), records);
            let (returned, drained) = pulled_times(filled, records.len());
            &&& returned.len() == records.len()
            &&& forall|i: int| 0 <= i < records.len() ==> returned[i] == Some(records[i])
            &&& pulled(drained).0 is None
        }),
{
    lemma_pushed_all(Seq::empty(), records);
    assert(Seq::<Seq<char>>::empty() + records =~= records);
    lemma_pulled_all(records);
}

/// The four storage accesses that a trace record can report.
#[derive(Clone, Copy, Debug, PartialEq, Eq, Structural)]
pub enum StorageOp {
    Sload,
    Sstore,
    Tload,
    Tstore,
}

/// The storage access that a record's operation name stands for.
pub open spec fn spec_parse_opcode(name: Seq<char>) -> Option<StorageOp> {
    if name == "sstore"@ {
        Some(StorageOp::Sstore)
    } else if name == "sload"@ {
        Some(StorageOp::Sload)
    } else if name == "tstore"@ {
        Some(StorageOp::Tstore)
    } else if name == "tload"@ {
        Some(StorageOp::Tload)
    } else {
        None
    }
}

/// The signature of the event that reports a storage access.
pub open spec fn spec_event_signature(op: StorageOp) -> Seq<char> {
    match op {
        StorageOp::Sload => "SLOAD(bytes32,bytes32,string[])"@,
        StorageOp::Sstore => "SSTORE(bytes32,bytes32,string[])"@,
        StorageOp::Tload => "TLOAD(bytes32,bytes32,string[])"@,
        StorageOp::Tstore => "TSTORE(bytes32,bytes32,string[])"@,
    }
}

/// The four storage accesses have four different event signatures, and
/// each is read from its own name alone.
pub proof fn lemma_schemas_distinct(a: StorageOp, b: StorageOp)
    ensures
        spec_event_signature(a) == spec_event_signature(b) ==> a == b,
        spec_parse_opcode("sload"@) == Some(StorageOp::Sload),
        spec_parse_opcode("sstore"@) == Some(StorageOp::Sstore),
        spec_parse_opcode("tload"@) == Some(StorageOp::Tload),
        spec_parse_opcode("tstore"@) == Some(StorageOp::Tstore),
{
    reveal_strlit("SLOAD(bytes32,bytes32,string[])");
    reveal_strlit("SSTORE(bytes32,bytes32,string[])");
    reveal_strlit("TLOAD(bytes32,bytes32,string[])");
    reveal_strlit("TSTORE(bytes32,bytes32,string[])");
    reveal_strlit("sload");
    reveal_strlit("sstore");
    reveal_strlit("tload");
    reveal_strlit("tstore");
    assert("SLOAD(bytes32,bytes32,string[])"@[0] == 'S');
    assert("TLOAD(bytes32,bytes32,string[])"@[0] == 'T');
    assert("SSTORE(bytes32,bytes32,string[])"@[0] == 'S');
    assert("TSTORE(bytes32,bytes32,string[])"@[0] == 'T');
    assert("SLOAD(bytes32,bytes32,string[])"@.len() == 31);
    assert("TLOAD(bytes32,bytes32,string[])"@.len() == 31);
    assert("SSTORE(bytes32,bytes32,string[])"@.len() == 32);
    assert("TSTORE(bytes32,bytes32,string[])"@.len() == 32);
    assert("sload"@.len() == 5);
    assert("tload"@.len() == 5);
    assert("sstore"@.len() == 6);
    assert("tstore"@.len() == 6);
    assert("sload"@[0] == 's');
    assert("tload"@[0] == 't');
    assert("sstore"@[0] == 's');
    assert("tstore"@[0] == 't');
}

/// Reads a record's operation name. Names are matched exactly.
pub fn parse_opcode(name: &String) -> (op: Option<StorageOp>)
    ensures
        op == spec_parse_opcode(name@),
{
    if *name == "sstore".to_owned() {
        Some(StorageOp::Sstore)
    } else if *name == "sload".to_owned() {
        Some(StorageOp::Sload)
    } else if *name == "tstore".to_owned() {
        Some(StorageOp::Tstore)
    } else if *name == "tload".to_owned() {
        Some(StorageOp::Tload)
    } else {
        None
    }
}

/// The signature of the event that reports a storage access.
pub fn event_signature(op: StorageOp) -> (signature: &'static str)
    ensures
        signature@ == spec_event_signature(op),
{
    match op {
        StorageOp::Sload => "SLOAD(bytes32,bytes32,string[])",
        StorageOp::Sstore => "SSTORE(bytes32,bytes32,string[])",
        StorageOp::Tload => "TLOAD(bytes32,bytes32,string[])",
        StorageOp::Tstore => "TSTORE(bytes32,bytes32,string[])",
    }
}

/// The Keccak-256 digest of a byte string.
pub uninterp spec fn keccak256_digest(data: Seq<u8>) -> Seq<u8>;

/// `keccak256` of alloy_primitives. Trusted: the digest depends on the
/// bytes alone.
#[verifier::external_body]
fn keccak256(data: &[u8]) -> (digest: [u8; 32])
    ensures
        digest@ == keccak256_digest(data@),
{
    alloy_primitives::keccak256(data).0
}

/// The first topic of the event that reports a storage access: the digest
/// of the event's signature.
pub open spec fn spec_signature_hash(op: StorageOp) -> Seq<u8> {
    keccak256_digest(encode_utf8(spec_event_signature(op)))
}

/// The first topic of the event that reports a storage access.
pub fn signature_hash(op: StorageOp) -> (topic: Hash32)
    ensures
        topic@ == spec_signature_hash(op),
{
    Hash32 { bytes: keccak256(event_signature(op).as_bytes()) }
}

/// The data of an event with the fields `(bytes32, bytes32, string[])`, in
/// the contract ABI's encoding.
pub uninterp spec fn abi_event_data(key: Seq<u8>, value: Seq<u8>, offsets: Seq<Seq<char>>) -> Seq<
    u8,
>;

/// `SolType::abi_encode_sequence` of alloy_sol_types for the tuple type
/// `(bytes32, bytes32, string[])`. Trusted: the encoding depends on the
/// three values alone, and it starts with the two 32-byte values as they
/// are, the key first.
#[verifier::external_body]
fn abi_encode_event_data(key: &[u8; 32], value: &[u8; 32], offsets: &Vec<String>) -> (data: Vec<u8>)
    ensures
        data@ == abi_event_data(key@, value@, offsets.deep_view()),
        data@.len() >= 64,
        data@.subrange(0, 32) == key@,
        data@.subrange(32, 64) == value@,
{
    <(
        alloy_sol_types::sol_data::FixedBytes<32>,
        alloy_sol_types::sol_data::FixedBytes<32>,
        alloy_sol_types::sol_data::Array<alloy_sol_types::sol_data::String>,
    ) as alloy_sol_types::SolType>::abi_encode_sequence(&(*key, *value, offsets.clone()))
}

/// A trace record as parsed from its text.
#[derive(Clone, Debug, PartialEq, Eq)]
pub struct TraceRecord {
    /// Name of the storage operation.
    pub opcode: String,
    /// The storage key, 64 hexadecimal digits.
    pub key: String,
    /// The value read or written, 64 hexadecimal digits.
    pub value: String,
    pub offsets: Vec<(String, String)>,
}

/// A `TraceRecord` with its texts as sequences of characters.
pub struct TraceRecordView {
    pub opcode: Seq<char>,
    pub key: Seq<char>,
    pub value: Seq<char>,
    pub offsets: Seq<(Seq<char>, Seq<char>)>,
}

impl View for TraceRecord {
    type V = TraceRecordView;

    open spec fn view(&self) -> TraceRecordView {
        TraceRecordView {
            opcode: self.opcode@,
            key: self.key@,
            value: self.value@,
            offsets: Seq::new(
                self.offsets@.len(),
                |i: int| (self.offsets@[i].0@, self.offsets@[i].1@),
            ),
        }
    }
}

/// The event log that a trace record decodes to.
#[derive(Clone, Debug, PartialEq, Eq)]
pub struct DecodedLog {
    /// Always the zero address.
    pub address: Address,
    pub topics: Vec<Hash32>,
    pub data: Vec<u8>,
}

/// A `DecodedLog` with its address, topics and data as bytes.
pub struct DecodedLogView {
    pub address: Seq<u8>,
    pub topics: Seq<Seq<u8>>,
    pub data: Seq<u8>,
}

impl View for DecodedLog {
    type V = DecodedLogView;

    open spec fn view(&self) -> DecodedLogView {
        DecodedLogView {
            address: self.address@,
            topics: Seq::new(self.topics@.len(), |i: int| self.topics@[i]@),
            data: self.data@,
        }
    }
}

/// Each pair of offsets as one text: the first, a space, the second.
pub open spec fn flattened_offsets(offsets: Seq<(Seq<char>, Seq<char>)>) -> Seq<Seq<char>> {
    Seq::new(offsets.len(), |i: int| offsets[i].0 + seq![' '] + offsets[i].1)
}

/// Joins each pair of offsets with a space, in the order of the pairs.
pub fn flatten_offsets(offsets: &Vec<(String, String)>) -> (flat: Vec<String>)
    ensures
        flat.deep_view() == flattened_offsets(
            Seq::new(offsets@.len(), |i: int| (offsets@[i].0@, offsets@[i].1@)),
        ),
{
    let ghost pairs = Seq::new(offsets@.len(), |i: int| (offsets@[i].0@, offsets@[i].1@));
    let mut flat: Vec<String> = Vec::new();
    let mut i: usize = 0;
    while i < offsets.len()
        invariant
            i <= offsets.len(),
            flat.len() == i,
            pairs == Seq::new(offsets@.len(), |k: int| (offsets@[k].0@, offsets@[k].1@)),
            forall|j: int| 0 <= j < i ==> flat@[j]@ == #[trigger] flattened_offsets(pairs)[j],
        decreases offsets.len() - i,
    {
        let pair = &offsets[i];
        let joined = pair.0.clone().concat(" ").concat(pair.1.as_str());
        proof {
            reveal_strlit(" ");
            assert(" "@ =~= seq![' ']);
        }
        flat.push(joined);
        i += 1;
    }
    assert(flat.deep_view() =~= flattened_offsets(pairs));
    flat
}

/// The 20 zero bytes of the zero address.
pub open spec fn zero_address() -> Seq<u8> {
    Seq::new(20, |i: int| 0u8)
}

/// What a record decodes to. A key or value that is not 64 hexadecimal
/// digits is refused first, then an operation name that is none of the
/// four. Else the log carries the zero address, the signature hash of the
/// operation's event as its only topic, and as data the ABI encoding of the
/// key, the value and the flattened offsets.
pub open spec fn decoded(record: TraceRecordView) -> Result<DecodedLogView, DecodeError> {
    if !is_hex_word(record.key) || !is_hex_word(record.value) {
        Err(DecodeError::MalformedHex)
    } else {
        match spec_parse_opcode(record.opcode) {
            None => Err(DecodeError::UnknownOpcode),
            Some(op) => Ok(
                DecodedLogView {
                    address: zero_address(),
                    topics: seq![spec_signature_hash(op)],
                    data: abi_event_data(
                        hex_word_bytes(record.key),
                        hex_word_bytes(record.value),
                        flattened_offsets(record.offsets),
                    ),
                },
            ),
        }
    }
}

/// The view of the result of a decoding.
pub open spec fn decoding_view(r: Result<DecodedLog, DecodeError>) -> Result<
    DecodedLogView,
    DecodeError,
> {
    match r {
        Ok(log) => Ok(log@),
        Err(e) => Err(e),
    }
}

/// Decodes a parsed trace record into its event log, as `decoded` says. The
/// log has one topic, and its data starts with the key and the value, 32
/// bytes each.
pub fn decode_record(record: &TraceRecord) -> (r: Result<DecodedLog, DecodeError>)
    ensures
        decoding_view(r) == decoded(record@),
        r matches Ok(log) ==> {
            &&& log.address.spec_is_zero()
            &&& log.topics@.len() == 1
            &&& spec_parse_opcode(record.opcode@) matches Some(op)
            &&& log.topics@[0]@ == spec_signature_hash(op)
            &&& log.data@.len() >= 64
            &&& log.data@.subrange(0, 32) == hex_word_bytes(record.key@)
            &&& log.data@.subrange(32, 64) == hex_word_bytes(record.value@)
        },
{
    let key = match hex_to_hash(record.key.as_str()) {
        Ok(key) => key,
        Err(e) => {
            return Err(e);
        },
    };
    let value = match hex_to_hash(record.value.as_str()) {
        Ok(value) => value,
        Err(e) => {
            return Err(e);
        },
    };
    let offsets = flatten_offsets(&record.offsets);
    let op = match parse_opcode(&record.opcode) {
        Some(op) => op,
        None => {
            return Err(DecodeError::UnknownOpcode);
        },
    };
    let data = abi_encode_event_data(&key.bytes, &value.bytes, &offsets);
    let mut topics: Vec<Hash32> = Vec::new();
    topics.push(signature_hash(op));
    let log = DecodedLog { address: Address::zero(), topics, data };
    assert(log@.topics =~= seq![spec_signature_hash(op)]);
    assert(log@.address =~= zero_address());
    Ok(log)
}

/// What the outcome of parsing a record's text decodes to: text that is no
/// record is refused, a record decodes as `decoded` says.
pub open spec fn decoded_parsed(parsed: Option<TraceRecordView>) -> Result<
    DecodedLogView,
    DecodeError,
> {
    match parsed {
        None => Err(DecodeError::MalformedRecord),
        Some(record) => decoded(record),
    }
}

/// The view of the outcome of parsing a record's text.
pub open spec fn parsed_view(parsed: Option<TraceRecord>) -> Option<TraceRecordView> {
    match parsed {
        Some(record) => Some(record@),
        None => None,
    }
}

/// Decodes the outcome of parsing a record's text: `None` stands for text
/// that is no record.
pub fn decode_parsed(parsed: Option<TraceRecord>) -> (r: Result<DecodedLog, DecodeError>)
    ensures
        decoding_view(r) == decoded_parsed(parsed_view(parsed)),
{
    match parsed {
        None => Err(DecodeError::MalformedRecord),
        Some(record) => decode_record(&record),
    }
}

} // verus!
