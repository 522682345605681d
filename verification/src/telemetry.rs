//! Telemetry: messages, the sinks that deliver them, and the client that
//! binds a message API to one sink.

pub mod grpc;
pub mod mqtt;

use std::ops::DerefMut;
use std::sync::Arc;
use std::sync::Mutex;
use std::sync::MutexGuard;
use vstd::prelude::*;
use vstd::string::StringExecFns;
use vstd::string::StringSliceAdditionalSpecFns;

verus! {

/// An error of a telemetry operation, with a message for a reader.
#[derive(Debug, Clone)]
pub struct TelemetryError {
    pub message: String,
}

impl TelemetryError {
    /// An error that carries `message`.
    pub fn new(message: &str) -> (r: Self)
        ensures
            r.message@ == message@,
    {
        TelemetryError { message: String::from_str(message) }
    }

    /// The text of the error: its message behind a fixed label.
    pub open spec fn text(&self) -> Seq<char> {
        "TelemetryError: "@ + self.message@
    }

    /// Renders the error for a reader.
    pub fn to_string(&self) -> (r: String)
        ensures
            r@ == self.text(),
    {
        String::from_str("TelemetryError: ").concat(self.message.as_str())
    }
}

/// What a telemetry operation returns.
pub type TelemetryResult<T> = Result<T, TelemetryError>;

/// `serde_json::Value`, a JSON value of any shape. The library carries it
/// and never looks inside.
#[verifier::external_type_specification]
#[verifier::external_body]
pub struct ExJsonValue(serde_json::Value);

/// The JSON text that `serde_json::to_string` gives for a string.
pub uninterp spec fn json_of_text(text: Seq<char>) -> Seq<char>;

/// The JSON text that `serde_json::to_string` gives for a JSON value.
pub uninterp spec fn json_of_value(value: serde_json::Value) -> Seq<char>;

/// `serde_json::to_string` on a string slice. The crate documents two causes
/// of failure, an impl of `Serialize` that fails and a map whose keys are not
/// strings; a string slice has neither, so a text always comes back. The
/// text itself is not stated here, only named.
#[verifier::external_body]
fn encode_text(text: &str) -> (r: String)
    ensures
        r@ == json_of_text(text@),
{
    serde_json::to_string(text).expect("serialization should succeed")
}

/// `serde_json::to_string` on a `serde_json::Value`. The impl of `Serialize`
/// for `Value` hands each variant to the serializer and fails only where the
/// serializer does, and the maps of a `Value` are keyed by strings, so a text
/// always comes back. The text itself is not stated here, only named.
#[verifier::external_body]
fn encode_value(value: &serde_json::Value) -> (r: String)
    ensures
        r@ == json_of_value(*value),
{
    serde_json::to_string(value).expect("serialization should succeed")
}

/// The wire form of a message: a JSON object of two members, `topic` first
/// and `payload` second, without white space, given the JSON text of each.
pub open spec fn wire_text(topic_json: Seq<char>, payload_json: Seq<char>) -> Seq<char> {
    "{\"topic\":"@ + topic_json + ",\"payload\":"@ + payload_json + "}"@
}

/// Puts the JSON text of a topic and of a payload into the wire form.
pub fn frame(topic_json: &str, payload_json: &str) -> (r: String)
    ensures
        r@ == wire_text(topic_json@, payload_json@),
{
    String::from_str("{\"topic\":").concat(topic_json).concat(",\"payload\":").concat(
        payload_json,
    ).concat("}")
}

/// A topic with a structured payload.
#[derive(Debug, PartialEq, Eq)]
pub struct TelemetryMessage {
    pub topic: String,
    pub payload: serde_json::Value,
}

impl TelemetryMessage {
    /// A message for `topic`. Any topic is taken, the empty one too.
    pub fn new(topic: &str, payload: serde_json::Value) -> (r: Self)
        ensures
            r.topic@ == topic@,
            r.payload == payload,
    {
        TelemetryMessage { topic: String::from_str(topic), payload }
    }

    /// The message in the wire form, as text.
    pub open spec fn wire(&self) -> Seq<char> {
        wire_text(json_of_text(self.topic@), json_of_value(self.payload))
    }

    /// The message in the wire form, as the bytes that a sink is handed.
    pub open spec fn wire_bytes(&self) -> Seq<u8> {
        vstd::utf8::encode_utf8(self.wire())
    }

    /// The record that a send of the message leaves in a log: its topic and
    /// its wire form.
    pub open spec fn record(&self) -> Record {
        (self.topic@, self.wire_bytes())
    }

    /// The message as JSON text in the wire form.
    pub fn to_json(&self) -> (r: String)
        ensures
            r@ == self.wire(),
    {
        let topic_json = encode_text(self.topic.as_str());
        let payload_json = encode_value(&self.payload);
        frame(topic_json.as_str(), payload_json.as_str())
    }
}

/// What delivers bytes to a named topic. A transport joins the library by
/// implementing `send`.
pub trait TelemetrySink: Send + Sync {
    /// Whether `r` is a result that `send` may give for `payload` under
    /// `topic`. A sink that says nothing of itself may give any result.
    open spec fn outcome(&self, topic: Seq<char>, payload: Seq<u8>, r: TelemetryResult<()>) -> bool {
        true
    }

    /// Delivers `payload` to `topic`.
    fn send(&self, topic: &str, payload: &[u8]) -> (r: TelemetryResult<()>)
        ensures
            self.outcome(topic@, payload@, r),
    ;
}

/// The text that the `{:?}` format of std gives for a slice of bytes.
pub uninterp spec fn debug_text(bytes: Seq<u8>) -> Seq<char>;

/// `format!` with `{:?}` on a slice of bytes: the `Debug` rendering of the
/// slice. The text is named, not described.
#[verifier::external_body]
fn debug_of_bytes(bytes: &[u8]) -> (r: String)
    ensures
        r@ == debug_text(bytes@),
{
    format!("{:?}", bytes)
}

/// A sink that accepts everything and keeps nothing.
pub struct MockSink;

impl MockSink {
    /// The line that describes a send: the topic in single quotes, then the
    /// payload as std renders a slice of bytes for debugging.
    pub open spec fn trace_text(topic: Seq<char>, payload: Seq<u8>) -> Seq<char> {
        "MockSink sending to '"@ + topic + "': "@ + debug_text(payload)
    }

    /// Composes the line that describes a send, for a diagnostic stream.
    pub fn trace(topic: &str, payload: &[u8]) -> (line: String)
        ensures
            line@ == MockSink::trace_text(topic@, payload@),
    {
        let rendered = debug_of_bytes(payload);
        String::from_str("MockSink sending to '").concat(topic).concat("': ").concat(
            rendered.as_str(),
        )
    }
}

impl TelemetrySink for MockSink {
    open spec fn outcome(&self, topic: Seq<char>, payload: Seq<u8>, r: TelemetryResult<()>) -> bool {
        r is Ok
    }

    /// Accepts the call. Always succeeds.
    fn send(&self, topic: &str, payload: &[u8]) -> (r: TelemetryResult<()>)
        ensures
            r is Ok,
    {
        Ok(())
    }
}

/// Sends messages and raw bytes through the one sink it was made with.
pub struct TelemetryClient<S: TelemetrySink + ?Sized> {
    sink: Arc<S>,
}

impl<S: TelemetrySink + ?Sized> TelemetryClient<S> {
    /// A client bound to `sink`.
    pub fn new(sink: Arc<S>) -> (r: Self)
        ensures
            r.sink() == sink,
    {
        TelemetryClient { sink }
    }

    /// The sink that the client is bound to.
    pub closed spec fn sink(&self) -> Arc<S> {
        self.sink
    }

    /// Sends `msg` as JSON text in the wire form, under its own topic: one
    /// call of the sink, whose result is returned as it is.
    pub fn send_message(&self, msg: &TelemetryMessage) -> (r: TelemetryResult<()>)
        ensures
            self.sink().outcome(msg.topic@, msg.wire_bytes(), r),
    {
        let payload = msg.to_json();
        self.sink.send(msg.topic.as_str(), payload.as_str().as_bytes())
    }

    /// Hands `data` to the sink as it is, under `topic`: one call of the sink,
    /// whose result is returned as it is.
    pub fn send_binary(&self, topic: &str, data: &[u8]) -> (r: TelemetryResult<()>)
        ensures
            self.sink().outcome(topic@, data@, r),
    {
        self.sink.send(topic, data)
    }
}

/// `std::sync::Mutex`. What it protects changes under shared handles, so no
/// spec function reads it.
#[verifier::external_type_specification]
#[verifier::external_body]
#[verifier::reject_recursive_types(T)]
pub struct ExMutex<T: ?Sized>(Mutex<T>);

/// `std::sync::MutexGuard`: the lock, held.
#[verifier::external_type_specification]
#[verifier::external_body]
#[verifier::reject_recursive_types(T)]
pub struct ExMutexGuard<'a, T: ?Sized + 'a>(MutexGuard<'a, T>);

/// The records of the log that `lock` was made around: what it held when it
/// was created, whatever was recorded since.
pub uninterp spec fn log_at_creation(lock: Mutex<Vec<(String, Vec<u8>)>>) -> Seq<
    (Seq<char>, Seq<u8>),
>;

/// `Mutex::new`: a new lock around `log`. The contract says only what the
/// lock was made around; what it holds later, under shared handles, is not
/// stated.
#[verifier::external_body]
fn lock_around(log: Vec<(String, Vec<u8>)>) -> (lock: Mutex<Vec<(String, Vec<u8>)>>)
    ensures
        log_at_creation(lock) == records_of(log),
{
    Mutex::new(log)
}

/// `Mutex::lock`: waits for the lock and returns its guard, or, where an
/// earlier holder panicked, the error of the poisoned lock, rendered by its
/// `to_string`. Whether the lock is poisoned is not a matter of the
/// arguments, so nothing is stated of the result. A thread that holds the
/// guard already must not call it: std leaves open whether such a call
/// panics or waits for ever.
#[verifier::external_body]
fn lock_or_describe<'a, T>(lock: &'a Mutex<T>) -> (r: Result<MutexGuard<'a, T>, String>) {
    match lock.lock() {
        Ok(guard) => Ok(guard),
        Err(poisoned) => Err(poisoned.to_string()),
    }
}

/// The records of the log under `guard`: what the lock protects while this
/// guard holds it.
pub uninterp spec fn log_under(guard: MutexGuard<Vec<(String, Vec<u8>)>>) -> Seq<
    (Seq<char>, Seq<u8>),
>;

/// `DerefMut::deref_mut` of a lock's guard: the log that the lock protects.
/// The holder of the guard is the only one to reach the log, so the log under
/// the guard is what the reference shows at first, and what the reference
/// leaves is the log under the guard afterwards. Which records the log holds
/// is not stated.
#[verifier::external_body]
fn guarded<'a, 'b>(guard: &'a mut MutexGuard<'b, Vec<(String, Vec<u8>)>>) -> (value: &'a mut Vec<
    (String, Vec<u8>),
>)
    ensures
        records_of(*value) == log_under(*old(guard)),
        records_of(*final(value)) == log_under(*final(guard)),
{
    guard.deref_mut()
}

/// A record of an in-memory sink: a topic and the bytes sent under it.
pub type Record = (Seq<char>, Seq<u8>);

/// The records that `log` holds, oldest first.
pub open spec fn records_of(log: Vec<(String, Vec<u8>)>) -> Seq<Record> {
    Seq::new(log@.len(), |i: int| (log@[i].0@, log@[i].1@))
}

/// Appends the record of one send to `log`. Nothing is merged or dropped: the
/// records before stay as they are, in their order.
pub fn append_record(log: &mut Vec<(String, Vec<u8>)>, topic: &str, payload: &[u8])
    ensures
        records_of(*final(log)) == records_of(*old(log)).push((topic@, payload@)),
{
    log.push((String::from_str(topic), vstd::slice::slice_to_vec(payload)));
    assert(records_of(*log) =~= records_of(*old(log)).push((topic@, payload@)));
}

/// The log that the sends of `sends`, issued one after the other, leave of
/// `log`: each appends its record, as `append_record` does on a plain log
/// and `record_under_lock` on the log under a guard.
pub open spec fn log_after(log: Seq<Record>, sends: Seq<Record>) -> Seq<Record>
    decreases sends.len(),
{
    if sends.len() == 0 {
        log
    } else {
        log_after(log.push(sends.first()), sends.drop_first())
    }
}

/// Sends issued one after the other are recorded in the order of issue: the
/// log afterwards is the log before with the records of the sends behind it,
/// none lost, merged or moved. On a log without records, the log afterwards
/// is the sequence of the sends itself.
pub proof fn lemma_sends_recorded_in_order(log: Seq<Record>, sends: Seq<Record>)
    ensures
        log_after(log, sends) == log + sends,
        log.len() == 0 ==> log_after(log, sends) == sends,
    decreases sends.len(),
{
    if sends.len() == 0 {
        assert(log + sends =~= log);
    } else {
        lemma_sends_recorded_in_order(log.push(sends.first()), sends.drop_first());
        assert(log.push(sends.first()) + sends.drop_first() =~= log + sends);
    }
    if log.len() == 0 {
        assert(log + sends =~= sends);
    }
}

/// A message sent as JSON and bytes sent as they are, one after the other,
/// leave two records behind those of the log, in that order: the message's
/// topic with its wire form, then the other topic with exactly the bytes
/// that were given.
pub proof fn lemma_message_then_binary(
    log: Seq<Record>,
    msg: TelemetryMessage,
    topic: Seq<char>,
    data: Seq<u8>,
)
    ensures
        log_after(log, seq![msg.record(), (topic, data)]) == log.push(msg.record()).push(
            (topic, data),
        ),
        log_after(log, seq![msg.record(), (topic, data)]).last() == (topic, data),
{
    let sends = seq![msg.record(), (topic, data)];
    lemma_sends_recorded_in_order(log, sends);
    assert(log + sends =~= log.push(msg.record()).push((topic, data)));
}

/// The label in front of the description of a poisoned lock.
pub open spec fn lock_failure_label() -> Seq<char> {
    "lock poisoned: "@
}

/// The error of a send that found the lock poisoned, given the description of
/// the poisoning.
pub fn lock_failure(description: &str) -> (e: TelemetryError)
    ensures
        e.message@ == lock_failure_label() + description@,
{
    TelemetryError { message: String::from_str("lock poisoned: ").concat(description) }
}

/// Whether `e` reports a poisoned lock: its message is the label and a
/// description behind it.
pub open spec fn is_lock_failure(e: TelemetryError) -> bool {
    exists|description: Seq<char>| e.message@ == lock_failure_label() + description
}

/// A sink that keeps every record in memory, in the order of the sends,
/// behind a lock that its handles share.
pub struct InMemorySink {
    pub records: Arc<Mutex<Vec<(String, Vec<u8>)>>>,
}

impl InMemorySink {
    /// The records that the sink's log held when the sink was made.
    pub open spec fn records_at_creation(&self) -> Seq<Record> {
        log_at_creation(*self.records)
    }

    /// A sink with a log of its own, which holds no record.
    pub fn new() -> (r: Self)
        ensures
            r.records_at_creation() == Seq::<Record>::empty(),
    {
        let log: Vec<(String, Vec<u8>)> = Vec::new();
        assert(records_of(log) =~= Seq::<Record>::empty());
        InMemorySink { records: Arc::new(lock_around(log)) }
    }

    /// Another handle to the log, for reading what was recorded.
    pub fn records_arc(&self) -> (r: Arc<Mutex<Vec<(String, Vec<u8>)>>>)
        ensures
            r == self.records,
    {
        Arc::clone(&self.records)
    }
}

impl Default for InMemorySink {
    /// A sink with a log of its own, which holds no record.
    fn default() -> (r: Self)
        ensures
            r.records_at_creation() == Seq::<Record>::empty(),
    {
        InMemorySink::new()
    }
}

/// Records one send once the lock has answered. With the guard, the record
/// is appended to the log under the guard, behind the records that are
/// there, and the send succeeds. With the description of a poisoned lock,
/// nothing changes, and the send fails with that description behind the
/// label.
pub fn record_under_lock<'a>(
    locked: &mut Result<MutexGuard<'a, Vec<(String, Vec<u8>)>>, String>,
    topic: &str,
    payload: &[u8],
) -> (r: TelemetryResult<()>)
    ensures
        match *old(locked) {
            Ok(before) => r is Ok && (*final(locked) matches Ok(after) && log_under(after)
                == log_under(before).push((topic@, payload@))),
            Err(description) => *final(locked) == *old(locked) && (r matches Err(e) && e.message@
                == lock_failure_label() + description@),
        },
{
    match locked {
        Ok(guard) => {
            let log = guarded(guard);
            append_record(log, topic, payload);
            Ok(())
        },
        Err(description) => Err(lock_failure(description.as_str())),
    }
}

impl TelemetrySink for InMemorySink {
    open spec fn outcome(&self, topic: Seq<char>, payload: Seq<u8>, r: TelemetryResult<()>) -> bool {
        match r {
            Ok(_) => true,
            Err(e) => is_lock_failure(e),
        }
    }

    /// Appends the record to the log under the lock. Fails, with nothing
    /// recorded, where the lock is poisoned. Not to be called by a thread
    /// that holds a guard of the log.
    fn send(&self, topic: &str, payload: &[u8]) -> (r: TelemetryResult<()>)
        ensures
            r matches Err(e) ==> is_lock_failure(e),
    {
        let mut locked = lock_or_describe(&self.records);
        record_under_lock(&mut locked, topic, payload)
    }
}

} // verus!
