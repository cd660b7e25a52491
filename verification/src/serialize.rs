use crate::decode::decode_value;
use crate::error::Error;
use crate::format::{encodable, encode_term, parse_message, parse_value};
use crate::marker::Marker;
use crate::message::Message;
use crate::message_codec::decode_message;
use crate::term::Term;
use crate::value::{
    value_view, Date, DateTimeOffset, DateTimeZoneId, Duration, LocalDateTime, LocalTime, Node,
    Path, Point2D, Point3D, Relationship, Time, UnboundRelationship, Value, SIGNATURE_DATE,
    SIGNATURE_DATE_TIME_OFFSET, SIGNATURE_DATE_TIME_ZONE_ID, SIGNATURE_DURATION,
    SIGNATURE_LOCAL_DATE_TIME, SIGNATURE_LOCAL_TIME, SIGNATURE_NODE, SIGNATURE_PATH,
    SIGNATURE_POINT_2D, SIGNATURE_POINT_3D, SIGNATURE_RELATIONSHIP, SIGNATURE_TIME,
    SIGNATURE_UNBOUND_RELATIONSHIP,
};
use bytes::{Buf, Bytes};
use vstd::prelude::*;

verus! {

/// The byte buffer of the `bytes` crate, carried through as it is.
#[verifier::external_type_specification]
#[verifier::external_body]
pub struct ExBytes(bytes::Bytes);

/// What a buffer holds: the bytes from its start to its end.
pub uninterp spec fn bytes_content(b: Bytes) -> Seq<u8>;

/// `Bytes::from` of the `bytes` crate on a vector: the buffer takes the
/// vector over and holds its bytes.
#[verifier::external_body]
fn bytes_from_vec(v: Vec<u8>) -> (b: Bytes)
    ensures
        bytes_content(b) == v@,
{
    Bytes::from(v)
}

/// `Bytes::as_ref` of the `bytes` crate: the bytes that the buffer holds, as a slice.
#[verifier::external_body]
fn bytes_slice(b: &Bytes) -> (s: &[u8])
    ensures
        s@ == bytes_content(*b),
{
    b.as_ref()
}

/// `Buf::advance` of the `bytes` crate on a buffer: the start of the buffer
/// moves on by `n` bytes. The call panics where the buffer holds fewer.
#[verifier::external_body]
fn bytes_advance(b: &mut Bytes, n: usize)
    requires
        n <= bytes_content(*old(b)).len(),
    ensures
        bytes_content(*final(b)) == bytes_content(*old(b)).skip(n as int),
{
    b.advance(n)
}

/// What can be written to the wire.
pub trait Serialize: Sized {
    /// The term that is written.
    spec fn wire(&self) -> Term;

    /// The bytes of `self` in a buffer. Fails exactly where a length in
    /// `self` exceeds what the format can write.
    fn try_into_bytes(self) -> (r: Result<Bytes, Error>)
        ensures
            match r {
                Ok(b) => encodable(self.wire()) && bytes_content(b) == encode_term(self.wire()),
                Err(e) => e == Error::ValueTooLarge && !encodable(self.wire()),
            },
    ;
}

/// What can be read from the wire.
pub trait Deserialize: Sized {
    /// What stands at the start of the bytes: a term and the number of bytes
    /// it takes, or the error that the bytes are refused with.
    spec fn parsed(bytes: Seq<u8>) -> Result<(Term, int), Error>;

    /// The term that `self` is.
    spec fn term(&self) -> Term;

    /// Reads what stands at the start of the buffer and moves the start of
    /// the buffer behind it. Where the bytes are refused the buffer stays as
    /// it is.
    fn try_from_bytes(bytes: &mut Bytes) -> (r: Result<Self, Error>)
        ensures
            match Self::parsed(bytes_content(*old(bytes))) {
                Ok((t, n)) => r matches Ok(v) && v.term() == t && bytes_content(*final(bytes))
                    == bytes_content(*old(bytes)).skip(n),
                Err(e) => r matches Err(f) && f == e && bytes_content(*final(bytes))
                    == bytes_content(*old(bytes)),
            },
    ;
}

/// A composite of the format: a signature and fields.
pub trait Structure: Marker + Serialize {
    /// The byte that tells the kind of the structure.
    fn get_signature(&self) -> (signature: u8)
        ensures
            self.wire() matches Term::Structure(s, _) && s == signature,
    ;
}

/// The bytes of a value in a buffer.
pub fn value_into_bytes(v: &Value) -> (r: Result<Bytes, Error>)
    ensures
        match r {
            Ok(b) => encodable(v@) && bytes_content(b) == encode_term(v@),
            Err(e) => e == Error::ValueTooLarge && !encodable(v@),
        },
{
    match v.encode() {
        Ok(bytes) => Ok(bytes_from_vec(bytes)),
        Err(e) => Err(e),
    }
}

impl Serialize for Value {
    open spec fn wire(&self) -> Term {
        self@
    }

    fn try_into_bytes(self) -> (r: Result<Bytes, Error>) {
        value_into_bytes(&self)
    }
}

impl Deserialize for Value {
    open spec fn parsed(bytes: Seq<u8>) -> Result<(Term, int), Error> {
        parse_value(bytes, 0)
    }

    open spec fn term(&self) -> Term {
        self@
    }

    fn try_from_bytes(bytes: &mut Bytes) -> (r: Result<Self, Error>) {
        let decoded = decode_value(bytes_slice(bytes), 0);
        match decoded {
            Ok((v, n)) => {
                bytes_advance(bytes, n);
                Ok(v)
            },
            Err(e) => Err(e),
        }
    }
}

impl Serialize for Message {
    open spec fn wire(&self) -> Term {
        self@
    }

    fn try_into_bytes(self) -> (r: Result<Bytes, Error>) {
        match self.encode() {
            Ok(bytes) => Ok(bytes_from_vec(bytes)),
            Err(e) => Err(e),
        }
    }
}

impl Deserialize for Message {
    open spec fn parsed(bytes: Seq<u8>) -> Result<(Term, int), Error> {
        parse_message(bytes, 0)
    }

    open spec fn term(&self) -> Term {
        self@
    }

    fn try_from_bytes(bytes: &mut Bytes) -> (r: Result<Self, Error>) {
        let decoded = decode_message(bytes_slice(bytes), 0);
        match decoded {
            Ok((m, n)) => {
                bytes_advance(bytes, n);
                Ok(m)
            },
            Err(e) => Err(e),
        }
    }
}

impl Structure for Message {
    fn get_signature(&self) -> (signature: u8) {
        match self {
            Message::Init(_) => crate::catalog::SIGNATURE_INIT,
            Message::Hello(_) => crate::catalog::SIGNATURE_HELLO,
            Message::Run(_) => crate::catalog::SIGNATURE_RUN,
            Message::RunWithMetadata(_) => crate::catalog::SIGNATURE_RUN,
            Message::PullAll => crate::catalog::SIGNATURE_PULL,
            Message::Pull(_) => crate::catalog::SIGNATURE_PULL,
            Message::DiscardAll => crate::catalog::SIGNATURE_DISCARD,
            Message::Discard(_) => crate::catalog::SIGNATURE_DISCARD,
            Message::AckFailure => crate::catalog::SIGNATURE_ACK_FAILURE,
            Message::Reset => crate::catalog::SIGNATURE_RESET,
            Message::Goodbye => crate::catalog::SIGNATURE_GOODBYE,
            Message::Begin(_) => crate::catalog::SIGNATURE_BEGIN,
            Message::Commit => crate::catalog::SIGNATURE_COMMIT,
            Message::Rollback => crate::catalog::SIGNATURE_ROLLBACK,
            Message::Success(_) => crate::catalog::SIGNATURE_SUCCESS,
            Message::Failure(_) => crate::catalog::SIGNATURE_FAILURE,
            Message::Ignored => crate::catalog::SIGNATURE_IGNORED,
            Message::Record(_) => crate::catalog::SIGNATURE_RECORD,
        }
    }
}

impl Serialize for Node {
    open spec fn wire(&self) -> Term {
        value_view(Value::Node(*self))
    }

    fn try_into_bytes(self) -> (r: Result<Bytes, Error>) {
        value_into_bytes(&Value::Node(self))
    }
}

impl Structure for Node {
    fn get_signature(&self) -> (signature: u8) {
        SIGNATURE_NODE
    }
}

impl Serialize for Relationship {
    open spec fn wire(&self) -> Term {
        value_view(Value::Relationship(*self))
    }

    fn try_into_bytes(self) -> (r: Result<Bytes, Error>) {
        value_into_bytes(&Value::Relationship(self))
    }
}

impl Structure for Relationship {
    fn get_signature(&self) -> (signature: u8) {
        SIGNATURE_RELATIONSHIP
    }
}

impl Serialize for UnboundRelationship {
    open spec fn wire(&self) -> Term {
        value_view(Value::UnboundRelationship(*self))
    }

    fn try_into_bytes(self) -> (r: Result<Bytes, Error>) {
        value_into_bytes(&Value::UnboundRelationship(self))
    }
}

impl Structure for UnboundRelationship {
    fn get_signature(&self) -> (signature: u8) {
        SIGNATURE_UNBOUND_RELATIONSHIP
    }
}

impl Serialize for Path {
    open spec fn wire(&self) -> Term {
        value_view(Value::Path(*self))
    }

    fn try_into_bytes(self) -> (r: Result<Bytes, Error>) {
        value_into_bytes(&Value::Path(self))
    }
}

impl Structure for Path {
    fn get_signature(&self) -> (signature: u8) {
        SIGNATURE_PATH
    }
}

impl Serialize for Date {
    open spec fn wire(&self) -> Term {
        value_view(Value::Date(*self))
    }

    fn try_into_bytes(self) -> (r: Result<Bytes, Error>) {
        value_into_bytes(&Value::Date(self))
    }
}

impl Structure for Date {
    fn get_signature(&self) -> (signature: u8) {
        SIGNATURE_DATE
    }
}

impl Serialize for Time {
    open spec fn wire(&self) -> Term {
        value_view(Value::Time(*self))
    }

    fn try_into_bytes(self) -> (r: Result<Bytes, Error>) {
        value_into_bytes(&Value::Time(self))
    }
}

impl Structure for Time {
    fn get_signature(&self) -> (signature: u8) {
        SIGNATURE_TIME
    }
}

impl Serialize for LocalTime {
    open spec fn wire(&self) -> Term {
        value_view(Value::LocalTime(*self))
    }

    fn try_into_bytes(self) -> (r: Result<Bytes, Error>) {
        value_into_bytes(&Value::LocalTime(self))
    }
}

impl Structure for LocalTime {
    fn get_signature(&self) -> (signature: u8) {
        SIGNATURE_LOCAL_TIME
    }
}

impl Serialize for DateTimeOffset {
    open spec fn wire(&self) -> Term {
        value_view(Value::DateTimeOffset(*self))
    }

    fn try_into_bytes(self) -> (r: Result<Bytes, Error>) {
        value_into_bytes(&Value::DateTimeOffset(self))
    }
}

impl Structure for DateTimeOffset {
    fn get_signature(&self) -> (signature: u8) {
        SIGNATURE_DATE_TIME_OFFSET
    }
}

impl Serialize for DateTimeZoneId {
    open spec fn wire(&self) -> Term {
        value_view(Value::DateTimeZoneId(*self))
    }

    fn try_into_bytes(self) -> (r: Result<Bytes, Error>) {
        value_into_bytes(&Value::DateTimeZoneId(self))
    }
}

impl Structure for DateTimeZoneId {
    fn get_signature(&self) -> (signature: u8) {
        SIGNATURE_DATE_TIME_ZONE_ID
    }
}

impl Serialize for LocalDateTime {
    open spec fn wire(&self) -> Term {
        value_view(Value::LocalDateTime(*self))
    }

    fn try_into_bytes(self) -> (r: Result<Bytes, Error>) {
        value_into_bytes(&Value::LocalDateTime(self))
    }
}

impl Structure for LocalDateTime {
    fn get_signature(&self) -> (signature: u8) {
        SIGNATURE_LOCAL_DATE_TIME
    }
}

impl Serialize for Duration {
    open spec fn wire(&self) -> Term {
        value_view(Value::Duration(*self))
    }

    fn try_into_bytes(self) -> (r: Result<Bytes, Error>) {
        value_into_bytes(&Value::Duration(self))
    }
}

impl Structure for Duration {
    fn get_signature(&self) -> (signature: u8) {
        SIGNATURE_DURATION
    }
}

impl Serialize for Point2D {
    open spec fn wire(&self) -> Term {
        value_view(Value::Point2D(*self))
    }

    fn try_into_bytes(self) -> (r: Result<Bytes, Error>) {
        value_into_bytes(&Value::Point2D(self))
    }
}

impl Structure for Point2D {
    fn get_signature(&self) -> (signature: u8) {
        SIGNATURE_POINT_2D
    }
}

impl Serialize for Point3D {
    open spec fn wire(&self) -> Term {
        value_view(Value::Point3D(*self))
    }

    fn try_into_bytes(self) -> (r: Result<Bytes, Error>) {
        value_into_bytes(&Value::Point3D(self))
    }
}

impl Structure for Point3D {
    fn get_signature(&self) -> (signature: u8) {
        SIGNATURE_POINT_3D
    }
}

} // verus!
