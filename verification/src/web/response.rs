//! The JSON envelope in which the web layer answers: a status, optional
//! metadata, and either data or an error.

use indexmap::IndexMap;
use vstd::prelude::*;

verus! {

#[verifier::external_type_specification]
#[verifier::external_body]
#[verifier::reject_recursive_types(K)]
#[verifier::reject_recursive_types(V)]
#[verifier::reject_recursive_types(S)]
pub struct ExIndexMap<K, V, S>(indexmap::IndexMap<K, V, S>);

#[verifier::external_type_specification]
#[verifier::external_body]
pub struct ExJsonValue(serde_json::Value);

/// The names of the fields that an `IndexMap` of extra error fields holds, in
/// the order in which they were inserted.
pub uninterp spec fn field_names(fields: IndexMap<String, serde_json::Value>) -> Seq<Seq<char>>;

/// Calls `IndexMap::default`, which builds a map with no entries; the
/// contract claims that it holds no field.
#[verifier::external_body]
fn no_additional_fields() -> (res: IndexMap<String, serde_json::Value>)
    ensures
        field_names(res) == Seq::<Seq<char>>::empty(),
{
    IndexMap::default()
}

/// An HTTP status code: an integer from 100 to 999.
#[derive(Clone, Copy, Debug, PartialEq, Eq, Structural)]
pub struct StatusCode {
    code: u16,
}

impl StatusCode {
    #[verifier::type_invariant]
    spec fn in_range(self) -> bool {
        100 <= self.code <= 999
    }

    /// The number of the status code.
    pub closed spec fn value(self) -> u16 {
        self.code
    }

    /// The status code with the given number, if it lies from 100 to 999.
    pub fn from_u16(code: u16) -> (res: Option<StatusCode>)
        ensures
            res is Some <==> 100 <= code <= 999,
            res matches Some(status) ==> status.value() == code,
    {
        if 100 <= code && code <= 999 {
            Some(StatusCode { code })
        } else {
            None
        }
    }

    /// The number of the status code.
    pub fn as_u16(&self) -> (res: u16)
        ensures
            res == self.value(),
            100 <= res <= 999,
    {
        proof {
            use_type_invariant(self);
        }
        self.code
    }

    /// The status code `200 OK`.
    pub closed spec fn ok_code() -> StatusCode {
        StatusCode { code: 200 }
    }

    /// The number of `ok_code` is 200.
    pub proof fn lemma_ok_code_value()
        ensures
            StatusCode::ok_code().value() == 200,
    {
    }

    /// `200 OK`.
    pub fn ok() -> (res: StatusCode)
        ensures
            res == StatusCode::ok_code(),
            res.value() == 200,
    {
        StatusCode { code: 200 }
    }

    /// `400 Bad Request`.
    pub fn bad_request() -> (res: StatusCode)
        ensures
            res.value() == 400,
    {
        StatusCode { code: 400 }
    }

    /// `404 Not Found`.
    pub fn not_found() -> (res: StatusCode)
        ensures
            res.value() == 404,
    {
        StatusCode { code: 404 }
    }

    /// `500 Internal Server Error`.
    pub fn internal_server_error() -> (res: StatusCode)
        ensures
            res.value() == 500,
    {
        StatusCode { code: 500 }
    }
}

/// The kind of an error that the web layer reports.
#[derive(Clone, Copy, Debug, PartialEq, Eq, Structural)]
pub enum ErrorType {
    Unknown,
    Internal,
    Validation,
    Execution,
    NotComplete,
    NotFound,
    Unauthorized,
    Request,
}

/// An error reported in an envelope.
#[derive(Debug)]
pub struct Error {
    /// The kind of the error.
    pub type_: ErrorType,
    /// A code that identifies the error, if any.
    pub code: Option<String>,
    /// What went wrong.
    pub message: String,
    /// Further fields, written beside the others.
    pub additional_fields: IndexMap<String, serde_json::Value>,
}

impl Error {
    /// An error of the given kind and message, with no code and no further
    /// field.
    pub fn new(type_: ErrorType, message: String) -> (res: Error)
        ensures
            res.type_ == type_,
            res.code is None,
            res.message == message,
            field_names(res.additional_fields).len() == 0,
    {
        Error { type_, code: None, message, additional_fields: no_additional_fields() }
    }
}

/// What an envelope carries: data, or an error.
#[derive(Debug)]
pub enum Payload<R> {
    Data(Box<R>),
    Error(Box<Error>),
}

impl<R> Payload<R> {
    /// Carries data.
    pub fn ok(data: R) -> (res: Payload<R>)
        ensures
            res == Payload::<R>::Data(Box::new(data)),
    {
        Payload::Data(Box::new(data))
    }

    /// Carries an error.
    pub fn err(error: Error) -> (res: Payload<R>)
        ensures
            res == Payload::<R>::Error(Box::new(error)),
    {
        Payload::Error(Box::new(error))
    }
}

impl<R> From<Error> for Payload<R> {
    fn from(error: Error) -> (res: Payload<R>) {
        Payload::err(error)
    }
}

impl<R> vstd::std_specs::convert::FromSpecImpl<Error> for Payload<R> {
    open spec fn obeys_from_spec() -> bool {
        true
    }

    open spec fn from_spec(error: Error) -> Payload<R> {
        Payload::<R>::Error(Box::new(error))
    }
}

/// An answer of the web layer: an HTTP status, metadata if any, and the
/// payload if any.
#[derive(Debug)]
pub struct EncapsulatedJson<T, M = ()> {
    pub status_code: StatusCode,
    pub metadata: Option<M>,
    pub result: Option<Payload<T>>,
}

impl<T, M> EncapsulatedJson<T, M> {
    /// An answer `200 OK` that carries `data`.
    pub fn ok(data: T) -> (res: EncapsulatedJson<T, M>)
        ensures
            res.status_code.value() == 200,
            res.metadata is None,
            res.result == Some(Payload::<T>::Data(Box::new(data))),
    {
        EncapsulatedJson { status_code: StatusCode::ok(), metadata: None, result: Some(Payload::ok(data)) }
    }

    /// The same answer with another HTTP status.
    pub fn status_code(self, status_code: StatusCode) -> (res: EncapsulatedJson<T, M>)
        ensures
            res == (EncapsulatedJson { status_code, ..self }),
    {
        let EncapsulatedJson { status_code: _, metadata, result } = self;
        EncapsulatedJson { status_code, metadata, result }
    }
}

impl<M> EncapsulatedJson<(), M> {
    /// An answer `400 Bad Request` that carries `error`.
    pub fn err(error: Error) -> (res: EncapsulatedJson<(), M>)
        ensures
            res.status_code.value() == 400,
            res.metadata is None,
            res.result == Some(Payload::<()>::Error(Box::new(error))),
    {
        EncapsulatedJson {
            status_code: StatusCode::bad_request(),
            metadata: None,
            result: Some(Payload::err(error)),
        }
    }
}

impl<T> From<(StatusCode, T)> for EncapsulatedJson<T, ()> {
    fn from(parts: (StatusCode, T)) -> (res: EncapsulatedJson<T, ()>) {
        let (status_code, data) = parts;
        EncapsulatedJson { status_code, metadata: None, result: Some(Payload::ok(data)) }
    }
}

impl<T> vstd::std_specs::convert::FromSpecImpl<(StatusCode, T)> for EncapsulatedJson<T, ()> {
    open spec fn obeys_from_spec() -> bool {
        true
    }

    open spec fn from_spec(parts: (StatusCode, T)) -> EncapsulatedJson<T, ()> {
        EncapsulatedJson {
            status_code: parts.0,
            metadata: None,
            result: Some(Payload::<T>::Data(Box::new(parts.1))),
        }
    }
}

impl From<StatusCode> for EncapsulatedJson<(), ()> {
    fn from(status_code: StatusCode) -> (res: EncapsulatedJson<(), ()>) {
        EncapsulatedJson { status_code, metadata: None, result: None }
    }
}

impl vstd::std_specs::convert::FromSpecImpl<StatusCode> for EncapsulatedJson<(), ()> {
    open spec fn obeys_from_spec() -> bool {
        true
    }

    open spec fn from_spec(status_code: StatusCode) -> EncapsulatedJson<(), ()> {
        EncapsulatedJson { status_code, metadata: None, result: None }
    }
}

impl<T, M> From<Option<T>> for EncapsulatedJson<T, M> {
    fn from(data: Option<T>) -> (res: EncapsulatedJson<T, M>) {
        let result = match data {
            Some(data) => Some(Payload::ok(data)),
            None => None,
        };
        EncapsulatedJson { status_code: StatusCode::ok(), metadata: None, result }
    }
}

impl<T, M> vstd::std_specs::convert::FromSpecImpl<Option<T>> for EncapsulatedJson<T, M> {
    open spec fn obeys_from_spec() -> bool {
        true
    }

    open spec fn from_spec(data: Option<T>) -> EncapsulatedJson<T, M> {
        EncapsulatedJson {
            status_code: StatusCode::ok_code(),
            metadata: None,
            result: match data {
                Some(d) => Some(Payload::<T>::Data(Box::new(d))),
                None => None,
            },
        }
    }
}

} // verus!
