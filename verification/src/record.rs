//! The record encoder: serializes one value into a byte buffer and frames it
//! as a single newline-delimited record. Pure data transformation, no I/O.

use vstd::prelude::*;
use crate::chunk::bytes_from_vec;
use crate::chunk::bytes_view;

verus! {

/// The record delimiter: the newline byte that ends every record and may
/// appear nowhere else in it.
pub const DELIMITER: u8 = 0x0A;

/// One application value of the demo feed: the record schema the encoder
/// knows how to put on the wire.
#[derive(Clone)]
pub struct User {
    pub name: String,
    pub age: i8,
}

/// The error type of the `serde_json` serializer.
#[verifier::external_type_specification]
#[verifier::external_body]
pub struct ExSerdeJsonError(serde_json::Error);

/// A value could not be serialized into the wire format. Wraps the
/// serializer's own error unchanged; the encoder never retries and never
/// substitutes an error of its own. No value of this feed's record schema
/// actually triggers it — `Event::ndjson` promises success — but it is the
/// error an encode-result sequence carries when its producer fails.
#[derive(Debug)]
pub struct EncodingError {
    pub source: serde_json::Error,
}

/// The compact JSON serialization of a record with the given `name` and
/// `age` members, exactly as `serde_json` produces it.
pub uninterp spec fn user_json(name: Seq<char>, age: i8) -> Seq<u8>;

/// A byte sequence is one well-framed record: nonempty, ending in exactly one
/// delimiter byte, with no delimiter anywhere before the end.
pub open spec fn is_framed(s: Seq<u8>) -> bool {
    &&& s.len() > 0
    &&& s.last() == DELIMITER
    &&& forall|i: int| 0 <= i < s.len() - 1 ==> s[i] != DELIMITER
}

/// One encoded record: a delimiter-terminated byte buffer, still in its
/// mutable builder form until `commit` freezes it for the transport. Once
/// built, the buffer is only moved, never changed.
pub struct Event {
    buffer: Vec<u8>,
}

impl View for Event {
    type V = Seq<u8>;

    closed spec fn view(&self) -> Seq<u8> {
        self.buffer@
    }
}

/// Relies on `serde_json::to_vec` over a two-member JSON object built from
/// the record's fields, `name` first and `age` second (the `preserve_order`
/// map keeps that insertion order): the compact formatter emits no
/// whitespace and escapes every control character inside strings, so no raw
/// newline byte can appear anywhere in its output. The call always succeeds:
/// the serializer fails only on a writer error, a non-string map key or an
/// unrepresentable number, and here the writer is a `Vec` (infallible), both
/// keys are strings, and the values are a string and a finite integer.
#[verifier::external_body]
fn user_to_json(u: &User) -> (r: Result<Vec<u8>, serde_json::Error>)
    ensures
        r is Ok,
        r matches Ok(payload) ==> payload@ == user_json(u.name@, u.age),
        r matches Ok(payload) ==> forall|i: int| 0 <= i < payload@.len() ==> payload@[i] != DELIMITER,
{
    let mut object = serde_json::Map::new();
    object.insert(String::from("name"), serde_json::Value::String(u.name.clone()));
    object.insert(String::from("age"), serde_json::Value::from(u.age));
    serde_json::to_vec(&serde_json::Value::Object(object))
}

/// Frames one serialized payload as a record: appends exactly one delimiter
/// byte to the payload, in place, and seals it as an `Event`.
pub fn frame_record(payload: Vec<u8>) -> (r: Event)
    requires
        forall|i: int| 0 <= i < payload@.len() ==> payload@[i] != DELIMITER,
    ensures
        r@ == payload@.push(DELIMITER),
        is_framed(r@),
{
    let mut buffer = payload;
    buffer.push(DELIMITER);
    Event { buffer }
}

impl Event {
    /// Builds one `Event` from a value: serializes it to its compact JSON
    /// bytes and appends the record delimiter. Every value of this record
    /// schema is representable in JSON, so success is owed on every input;
    /// were the serializer ever to fail, its error would pass through
    /// unchanged and no partial record would be exposed.
    pub fn ndjson(data: User) -> (r: Result<Event, EncodingError>)
        ensures
            r is Ok,
            r matches Ok(e) ==> e@ == user_json(data.name@, data.age).push(DELIMITER),
            r matches Ok(e) ==> is_framed(e@),
    {
        match user_to_json(&data) {
            Ok(payload) => Ok(frame_record(payload)),
            Err(source) => Err(EncodingError { source }),
        }
    }

    /// Freezes the finished record into its immutable wire form: the one
    /// conversion in the pipeline, performed exactly once per record at the
    /// moment of hand-off.
    pub fn commit(self) -> (r: bytes::Bytes)
        ensures
            bytes_view(r) == self@,
    {
        bytes_from_vec(self.buffer)
    }
}

/// Framing round trip, write side: stripping the final delimiter from a
/// framed record recovers exactly the serialized payload, so a reader that
/// splits records on the delimiter hands its parser the serializer's own
/// bytes, unchanged.
pub proof fn lemma_delimiter_strip(payload: Seq<u8>, rec: Seq<u8>)
    requires
        rec == payload.push(DELIMITER),
    ensures
        rec.len() == payload.len() + 1,
        rec.last() == DELIMITER,
        rec.drop_last() == payload,
{
    assert(rec.drop_last() =~= payload);
}

} // verus!
