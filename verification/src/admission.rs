//! The admission review protocol of Kubernetes: the request that the API
//! server sends to a webhook and the response the webhook returns.

use vstd::prelude::*;

use crate::object::{DynamicObject, TypeMeta};
use crate::patch::PatchOperation;

verus! {

/// The kind of an admission review.
pub open spec fn review_kind() -> Seq<char> {
    "AdmissionReview"@
}

/// The API version of an admission review in version `v1beta1`.
pub open spec fn review_api_version_v1beta1() -> Seq<char> {
    "admission.k8s.io/v1beta1"@
}

/// The message of a review that carries no request.
pub open spec fn convert_review_error_message() -> Seq<char> {
    "failed to convert AdmissionReview into AdmissionRequest"@
}

/// The reason given in the status of an invalid response.
pub open spec fn invalid_request_reason() -> Seq<char> {
    "InvalidRequest"@
}

/// The operation that an admission request asks to admit.
#[derive(Clone, Copy, Debug, PartialEq, Eq, Structural)]
pub enum Operation {
    Create,
    Update,
    Delete,
    Connect,
}

/// A request for admission of an object.
#[derive(Debug)]
pub struct AdmissionRequest {
    /// Copied from the review that carries the request.
    pub types: TypeMeta,
    /// The identifier of the request, which the response must repeat.
    pub uid: String,
    pub operation: Operation,
    /// The object to admit; absent for deletions.
    pub object: Option<DynamicObject>,
    /// The object as it stood before an update.
    pub old_object: Option<DynamicObject>,
}

/// Whether an operation succeeded, as a status summarises it.
#[derive(Clone, Copy, Debug, PartialEq, Eq, Structural)]
pub enum StatusSummary {
    Success,
    Failure,
}

/// The status of an admission response.
#[derive(Debug)]
pub struct Status {
    pub status: Option<StatusSummary>,
    /// The suggested HTTP code; 0 where none is suggested.
    pub code: u16,
    pub message: String,
    pub reason: String,
}

impl Status {
    /// Whether the status is the empty one that a fresh response carries.
    pub open spec fn is_empty(&self) -> bool {
        &&& self.status is None
        &&& self.code == 0
        &&& self.message@.len() == 0
        &&& self.reason@.len() == 0
    }

    /// The empty status.
    pub fn empty() -> (res: Status)
        ensures
            res.is_empty(),
    {
        Status { status: None, code: 0, message: String::new(), reason: String::new() }
    }

    /// A status of failure with a message and a reason.
    pub fn failure(message: String, reason: String) -> (res: Status)
        ensures
            res.status == Some(StatusSummary::Failure),
            res.code == 0,
            res.message == message,
            res.reason == reason,
    {
        Status { status: Some(StatusSummary::Failure), code: 0, message, reason }
    }
}

/// The answer of a webhook to an admission request.
#[derive(Debug)]
pub struct AdmissionResponse {
    /// Copied from the request.
    pub types: TypeMeta,
    /// The identifier of the request answered.
    pub uid: String,
    /// Whether the request is admitted.
    pub allowed: bool,
    /// Why the request was refused, where it was.
    pub result: Status,
    /// The JSON Patch that the webhook applies to the object, if any.
    pub patch: Option<Vec<PatchOperation>>,
}

impl AdmissionResponse {
    /// Whether the response answers `request`: it repeats its type and its
    /// identifier.
    pub open spec fn answers(&self, request: &AdmissionRequest) -> bool {
        self.types == request.types && self.uid == request.uid
    }

    /// The response that admits `request` as it is.
    pub fn from(request: &AdmissionRequest) -> (res: AdmissionResponse)
        ensures
            res.answers(request),
            res.allowed,
            res.result.is_empty(),
            res.patch is None,
    {
        AdmissionResponse {
            types: request.types.clone(),
            uid: request.uid.clone(),
            allowed: true,
            result: Status::empty(),
            patch: None,
        }
    }

    /// The response to a review whose request could not be read: it refuses,
    /// answers no request, and says why.
    pub fn invalid(reason: String) -> (res: AdmissionResponse)
        ensures
            res.types.kind@ == review_kind(),
            res.types.api_version@ == review_api_version_v1beta1(),
            res.uid@.len() == 0,
            !res.allowed,
            res.result.status == Some(StatusSummary::Failure),
            res.result.code == 0,
            res.result.message == reason,
            res.result.reason@ == invalid_request_reason(),
            res.patch is None,
    {
        let types = TypeMeta {
            kind: String::from_str("AdmissionReview"),
            api_version: String::from_str("admission.k8s.io/v1beta1"),
        };
        AdmissionResponse {
            types,
            uid: String::new(),
            allowed: false,
            result: Status::failure(reason, String::from_str("InvalidRequest")),
            patch: None,
        }
    }

    /// Refuses the request, with a reason for the caller.
    pub fn deny(self, reason: String) -> (res: AdmissionResponse)
        ensures
            res == (AdmissionResponse {
                allowed: false,
                result: Status { message: reason, ..self.result },
                ..self
            }),
    {
        let AdmissionResponse { types, uid, allowed: _, result, patch } = self;
        let Status { status, code, message: _, reason: status_reason } = result;
        AdmissionResponse {
            types,
            uid,
            allowed: false,
            result: Status { status, code, message: reason, reason: status_reason },
            patch,
        }
    }

    /// Attaches a JSON Patch to the response.
    pub fn with_patch(self, patch: Vec<PatchOperation>) -> (res: AdmissionResponse)
        ensures
            res == (AdmissionResponse { patch: Some(patch), ..self }),
    {
        let AdmissionResponse { types, uid, allowed, result, patch: _ } = self;
        AdmissionResponse { types, uid, allowed, result, patch: Some(patch) }
    }

    /// Wraps the response in a review that carries no request.
    pub fn into_review(self) -> (res: AdmissionReview)
        ensures
            res.types == self.types,
            res.request is None,
            res.response == Some(self),
    {
        let types = self.types.clone();
        AdmissionReview { types, request: None, response: Some(self) }
    }
}

/// The document exchanged between the API server and a webhook: a request on
/// the way in, a response on the way out.
#[derive(Debug)]
pub struct AdmissionReview {
    pub types: TypeMeta,
    pub request: Option<AdmissionRequest>,
    pub response: Option<AdmissionResponse>,
}

/// A review that carries no request.
#[derive(Debug)]
pub struct ConvertAdmissionReviewError;

impl ConvertAdmissionReviewError {
    /// The message of the error.
    pub fn to_string(&self) -> (res: String)
        ensures
            res@ == convert_review_error_message(),
    {
        String::from_str("failed to convert AdmissionReview into AdmissionRequest")
    }
}

impl AdmissionReview {
    /// The request that the review carries, which takes the type of the
    /// review.
    pub fn try_into_request(self) -> (res: Result<AdmissionRequest, ConvertAdmissionReviewError>)
        ensures
            match self.request {
                Some(request) => res == Ok::<AdmissionRequest, ConvertAdmissionReviewError>(
                    AdmissionRequest { types: self.types, ..request },
                ),
                None => res is Err,
            },
    {
        let AdmissionReview { types, request, response: _ } = self;
        match request {
            Some(request) => {
                let AdmissionRequest { types: _, uid, operation, object, old_object } = request;
                Ok(AdmissionRequest { types, uid, operation, object, old_object })
            },
            None => Err(ConvertAdmissionReviewError),
        }
    }
}

} // verus!
