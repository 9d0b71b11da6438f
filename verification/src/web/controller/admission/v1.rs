//! Version 1 of the admission webhooks: the mutating webhook fills in the
//! defaults of a doge, the validating webhook refuses changes to the fields of
//! a doge that must not change.

use vstd::prelude::*;

use crate::admission::{
    AdmissionRequest, AdmissionResponse, AdmissionReview, Operation, StatusSummary,
};
use crate::crd::v1alpha1::{Doge, Spec, SpecError};
use crate::domain::{DogeConfig, MutatingConfig};
use crate::object::{DynamicObject, SpecField};
use crate::patch::{PatchOperation, PatchValue};
use crate::text::option_string_equals;
use crate::web::error::Error;
use crate::web::response::{EncapsulatedJson, Payload};

#[allow(unused_imports)]
use crate::admission::{
    convert_review_error_message, invalid_request_reason, review_api_version_v1beta1,
    review_kind,
};
#[allow(unused_imports)]
use crate::object::is_doge;
#[allow(unused_imports)]
use crate::patch::{adds_string, replaces_number};
#[allow(unused_imports)]
use crate::web::error::immutable_field_message;

verus! {

/// The path of the image of a doge.
pub open spec fn image_path() -> Seq<char> {
    "/spec/image"@
}

/// The path of the number of a doge.
pub open spec fn number_path() -> Seq<char> {
    "/spec/number"@
}

/// Whether `ops` is the patch that gives a doge with specification `spec`
/// the defaults of `config`: the default image where it names none, then the
/// default number in every case.
pub open spec fn is_defaults_patch(ops: Seq<PatchOperation>, spec: Spec, config: DogeConfig) -> bool {
    if spec.image is None {
        &&& ops.len() == 2
        &&& adds_string(ops[0], image_path(), config.default_image@)
        &&& replaces_number(ops[1], number_path(), config.default_number)
    } else {
        &&& ops.len() == 1
        &&& replaces_number(ops[0], number_path(), config.default_number)
    }
}

/// Why a webhook refuses an object.
pub enum Refusal {
    /// The specification of the object does not read as a doge's; the
    /// message of the deserializer.
    InvalidSpec(Seq<char>),
    /// The change of a field that must not change; the name of the field.
    ImmutableField(Seq<char>),
}

impl Refusal {
    /// The reason that a refusal gives the caller.
    pub open spec fn message(self) -> Seq<char> {
        match self {
            Refusal::InvalidSpec(m) => m,
            Refusal::ImmutableField(field) => immutable_field_message(field),
        }
    }
}

/// Why a webhook refuses an object.
#[derive(Debug)]
pub enum AdmissionError {
    /// The specification of the object does not read as a doge's.
    Spec(SpecError),
    /// The web layer refuses the change.
    Web(Error),
}

impl View for AdmissionError {
    type V = Refusal;

    open spec fn view(&self) -> Refusal {
        match self {
            AdmissionError::Spec(e) => Refusal::InvalidSpec(e.message@),
            AdmissionError::Web(Error::ImmutableField { field }) => Refusal::ImmutableField(
                field@,
            ),
        }
    }
}

impl AdmissionError {
    /// The message of the error.
    pub fn to_string(&self) -> (res: String)
        ensures
            res@ == self@.message(),
    {
        match self {
            AdmissionError::Spec(e) => e.to_string(),
            AdmissionError::Web(e) => e.to_string(),
        }
    }
}

/// The characters of an optional string.
pub open spec fn option_view(o: Option<String>) -> Option<Seq<char>> {
    match o {
        Some(s) => Some(s@),
        None => None,
    }
}

/// Why an update that turns the object `old` into `doge` is refused, if it
/// is: the old object does not read as a doge, or the update renames the
/// doge, or it changes its image.
pub open spec fn update_refusal(doge: Doge, old: DynamicObject) -> Option<Refusal> {
    match old.spec {
        SpecField::Malformed(m) => Some(Refusal::InvalidSpec(m@)),
        SpecField::Parsed(old_spec) => if option_view(doge.metadata.name) != option_view(
            old.metadata.name,
        ) {
            Some(Refusal::ImmutableField("metadata.name"@))
        } else if option_view(doge.spec.image) != option_view(old_spec.image) {
            Some(Refusal::ImmutableField("spec.image"@))
        } else {
            None
        },
        _ => None,
    }
}

/// Why the validating webhook refuses `doge` under `operation`, if it does:
/// only updates that come with the old object are checked.
pub open spec fn doge_refusal(operation: Operation, doge: Doge, old: Option<DynamicObject>) -> Option<
    Refusal,
> {
    if operation == Operation::Update && old is Some {
        update_refusal(doge, old->0)
    } else {
        None
    }
}

/// Why the validating webhook refuses `obj` under `operation`, if it does:
/// objects of other kinds pass, a doge must read as one and pass
/// `doge_refusal`.
pub open spec fn validation_refusal(
    operation: Operation,
    obj: DynamicObject,
    old: Option<DynamicObject>,
) -> Option<Refusal> {
    if is_doge(obj) {
        match obj.spec {
            SpecField::Malformed(m) => Some(Refusal::InvalidSpec(m@)),
            SpecField::Parsed(spec) => doge_refusal(
                operation,
                Doge { metadata: obj.metadata, spec },
                old,
            ),
            _ => None,
        }
    } else {
        None
    }
}

/// Whether the mutating webhook can read `obj`: a doge's data holds a field
/// `spec`.
pub open spec fn mutation_readable(obj: DynamicObject) -> bool {
    is_doge(obj) ==> obj.spec.is_present()
}

/// Whether the validating webhook can read `obj` and `old`: a doge's data
/// holds a field `spec`, and so does the old object's where an update of a
/// doge that reads as one is checked against it.
pub open spec fn validation_readable(
    operation: Operation,
    obj: DynamicObject,
    old: Option<DynamicObject>,
) -> bool {
    is_doge(obj) ==> {
        &&& obj.spec.is_present()
        &&& (obj.spec is Parsed && operation == Operation::Update && old is Some)
            ==> old->0.spec.is_present()
    }
}

/// Whether a response admits the object as it is.
pub open spec fn admits_unchanged(r: AdmissionResponse) -> bool {
    r.allowed && r.result.is_empty() && r.patch is None
}

/// Whether a response refuses the object with the reason `message`.
pub open spec fn refuses(r: AdmissionResponse, message: Seq<char>) -> bool {
    &&& !r.allowed
    &&& r.result.status is None
    &&& r.result.code == 0
    &&& r.result.reason@.len() == 0
    &&& r.result.message@ == message
    &&& r.patch is None
}

/// Whether `r` is what the mutating webhook answers for `object`: a doge
/// that reads as one is admitted with the patch of its defaults, a doge that
/// does not is refused, anything else is admitted as it is.
pub open spec fn mutation_outcome(
    r: AdmissionResponse,
    object: Option<DynamicObject>,
    config: DogeConfig,
) -> bool {
    match object {
        Some(obj) => if is_doge(obj) {
            match obj.spec {
                SpecField::Parsed(spec) => {
                    &&& r.allowed
                    &&& r.result.is_empty()
                    &&& r.patch matches Some(p) && is_defaults_patch(p@, spec, config)
                },
                SpecField::Malformed(m) => refuses(r, m@),
                _ => false,
            }
        } else {
            admits_unchanged(r)
        },
        None => admits_unchanged(r),
    }
}

/// Whether `r` is what the validating webhook answers for `object` under
/// `operation`: it refuses exactly where `validation_refusal` says, and never
/// patches.
pub open spec fn validation_outcome(
    r: AdmissionResponse,
    operation: Operation,
    object: Option<DynamicObject>,
    old: Option<DynamicObject>,
) -> bool {
    match object {
        Some(obj) => match validation_refusal(operation, obj, old) {
            Some(refusal) => refuses(r, refusal.message()),
            None => admits_unchanged(r),
        },
        None => admits_unchanged(r),
    }
}

/// What a handler answers: a review as it is, or, where the review carries
/// no request, a review wrapped in the envelope of the web layer.
#[derive(Debug)]
pub enum HandlerReply {
    Review(AdmissionReview),
    Enveloped(EncapsulatedJson<AdmissionReview, ()>),
}

/// Whether `reply` is the answer to a review that carries no request: `200
/// OK` with an invalid response that answers no request and says why.
pub open spec fn is_invalid_reply(reply: HandlerReply) -> bool {
    &&& reply matches HandlerReply::Enveloped(env)
    &&& env.status_code.value() == 200
    &&& env.metadata is None
    &&& env.result matches Some(Payload::Data(review))
    &&& review.request is None
    &&& review.response matches Some(r)
    &&& r.types == review.types
    &&& r.types.kind@ == review_kind()
    &&& r.types.api_version@ == review_api_version_v1beta1()
    &&& r.uid@.len() == 0
    &&& !r.allowed
    &&& r.result.status == Some(StatusSummary::Failure)
    &&& r.result.code == 0
    &&& r.result.message@ == convert_review_error_message()
    &&& r.result.reason@ == invalid_request_reason()
    &&& r.patch is None
}

/// Whether `reply` is a review whose response answers `request`, which came
/// in a review of type `types`; `response` is that response.
pub open spec fn answers_request(
    reply: HandlerReply,
    types: crate::object::TypeMeta,
    request: AdmissionRequest,
    response: AdmissionResponse,
) -> bool {
    &&& reply matches HandlerReply::Review(review)
    &&& review.types == types
    &&& review.request is None
    &&& review.response == Some(response)
    &&& response.types == types
    &&& response.uid == request.uid
}

/// The patch that gives `doge` the defaults of `config`: the default image
/// where the doge names none, and the default number.
pub fn mutate_doge(doge: &Doge, config: &MutatingConfig) -> (patches: Vec<PatchOperation>)
    ensures
        is_defaults_patch(patches@, doge.spec, config.default_doge),
{
    let mut patches: Vec<PatchOperation> = Vec::new();
    if doge.spec.image.is_none() {
        patches.push(
            PatchOperation::Add {
                path: String::from_str("/spec/image"),
                value: PatchValue::String(config.default_doge.default_image.clone()),
            },
        );
    }
    patches.push(
        PatchOperation::Replace {
            path: String::from_str("/spec/number"),
            value: PatchValue::Number(config.default_doge.default_number),
        },
    );
    patches
}

/// Mutates an object: a doge is given its defaults by a patch on `res`;
/// objects of other kinds, or of no declared kind, leave `res` as it is.
pub fn mutate(res: AdmissionResponse, obj: &DynamicObject, config: &MutatingConfig) -> (out: Result<
    AdmissionResponse,
    AdmissionError,
>)
    requires
        mutation_readable(*obj),
    ensures
        !is_doge(*obj) ==> out == Ok::<AdmissionResponse, AdmissionError>(res),
        obj.types is None || obj.types->0.kind@ != "Doge"@ ==> out == Ok::<
            AdmissionResponse,
            AdmissionError,
        >(res),
        is_doge(*obj) ==> match obj.spec {
            SpecField::Parsed(spec) => {
                &&& out matches Ok(r)
                &&& out->Ok_0 == (AdmissionResponse { patch: out->Ok_0.patch, ..res })
                &&& out->Ok_0.patch matches Some(p)
                &&& is_defaults_patch(out->Ok_0.patch->0@, spec, config.default_doge)
            },
            SpecField::Malformed(m) => out is Err && out->Err_0@ == Refusal::InvalidSpec(m@),
            _ => false,
        },
{
    if obj.is_doge() {
        let doge = match Doge::try_from(obj.clone()) {
            Ok(doge) => doge,
            Err(e) => {
                return Err(AdmissionError::Spec(e));
            },
        };
        let patches = mutate_doge(&doge, config);
        Ok(res.with_patch(patches))
    } else {
        Ok(res)
    }
}

/// Checks a doge under `operation`: an update that comes with the old object
/// must keep the name and the image of the doge.
pub fn validate_doge(
    operation: &Operation,
    doge: &Doge,
    maybe_old_obj: &Option<DynamicObject>,
) -> (out: Result<(), AdmissionError>)
    requires
        *operation == Operation::Update && maybe_old_obj is Some
            ==> maybe_old_obj->0.spec.is_present(),
    ensures
        out is Ok <==> doge_refusal(*operation, *doge, *maybe_old_obj) is None,
        out matches Err(e) ==> Some(e@) == doge_refusal(*operation, *doge, *maybe_old_obj),
        *operation != Operation::Update || maybe_old_obj is None ==> out is Ok,
        ({
            &&& *operation == Operation::Update
            &&& maybe_old_obj is Some
            &&& maybe_old_obj->0.spec is Parsed
            &&& ((doge.metadata.name is Some != maybe_old_obj->0.metadata.name is Some) || (
            doge.metadata.name is Some && maybe_old_obj->0.metadata.name is Some
                && doge.metadata.name->0@ != maybe_old_obj->0.metadata.name->0@))
        }) ==> (out matches Err(AdmissionError::Web(Error::ImmutableField { field }))
            && field@ == "metadata.name"@),
        ({
            &&& *operation == Operation::Update
            &&& maybe_old_obj is Some
            &&& maybe_old_obj->0.spec matches SpecField::Parsed(old_spec)
            &&& doge.metadata.name is Some == maybe_old_obj->0.metadata.name is Some
            &&& (doge.metadata.name is Some ==> doge.metadata.name->0@
                == maybe_old_obj->0.metadata.name->0@)
            &&& ((doge.spec.image is Some != old_spec.image is Some) || (doge.spec.image is Some
                && old_spec.image is Some && doge.spec.image->0@ != old_spec.image->0@))
        }) ==> (out matches Err(AdmissionError::Web(Error::ImmutableField { field }))
            && field@ == "spec.image"@),
{
    if *operation == Operation::Update {
        if let Some(old_obj) = maybe_old_obj {
            let old_doge = match Doge::try_from(old_obj.clone()) {
                Ok(old_doge) => old_doge,
                Err(e) => {
                    return Err(AdmissionError::Spec(e));
                },
            };
            if !option_string_equals(&doge.metadata.name, &old_doge.metadata.name) {
                let field = String::from_str("metadata.name");
                proof {
                    reveal_strlit("metadata.name");
                }
                return Err(AdmissionError::Web(Error::ImmutableField { field }));
            }
            if !option_string_equals(&doge.spec.image, &old_doge.spec.image) {
                let field = String::from_str("spec.image");
                proof {
                    reveal_strlit("spec.image");
                }
                return Err(AdmissionError::Web(Error::ImmutableField { field }));
            }
        }
    }
    Ok(())
}

/// Validates an object under `operation`: objects of other kinds, or of no
/// declared kind, pass with `res` as it is; a doge must read as one and pass
/// `validate_doge`.
pub fn validate(
    operation: &Operation,
    res: AdmissionResponse,
    obj: &DynamicObject,
    maybe_old_obj: &Option<DynamicObject>,
) -> (out: Result<AdmissionResponse, AdmissionError>)
    requires
        validation_readable(*operation, *obj, *maybe_old_obj),
    ensures
        out is Ok <==> validation_refusal(*operation, *obj, *maybe_old_obj) is None,
        out matches Ok(r) ==> r == res,
        out matches Err(e) ==> Some(e@) == validation_refusal(*operation, *obj, *maybe_old_obj),
{
    if obj.is_doge() {
        let doge = match Doge::try_from(obj.clone()) {
            Ok(doge) => doge,
            Err(e) => {
                return Err(AdmissionError::Spec(e));
            },
        };
        match validate_doge(operation, &doge, maybe_old_obj) {
            Ok(()) => Ok(res),
            Err(e) => Err(e),
        }
    } else {
        Ok(res)
    }
}

/// Whether the mutating webhook can read every object of `review`.
pub open spec fn review_mutation_readable(review: AdmissionReview) -> bool {
    match review.request {
        Some(request) => match request.object {
            Some(obj) => mutation_readable(obj),
            None => true,
        },
        None => true,
    }
}

/// Whether the validating webhook can read every object of `review`.
pub open spec fn review_validation_readable(review: AdmissionReview) -> bool {
    match review.request {
        Some(request) => match request.object {
            Some(obj) => validation_readable(request.operation, obj, request.old_object),
            None => true,
        },
        None => true,
    }
}

/// The answer of the webhook to a review that carries no request: an invalid
/// response, in the envelope of the web layer.
fn invalid_review_reply() -> (reply: HandlerReply)
    ensures
        is_invalid_reply(reply),
{
    let reason = crate::admission::ConvertAdmissionReviewError.to_string();
    let review = AdmissionResponse::invalid(reason).into_review();
    HandlerReply::Enveloped(EncapsulatedJson::<AdmissionReview, ()>::ok(review))
}

/// The mutating webhook: answers a review with a response to its request
/// that gives a doge its defaults, or refuses a doge that does not read as
/// one. A review without a request is answered as invalid.
pub fn mutate_handler(config: &MutatingConfig, body: AdmissionReview) -> (reply: HandlerReply)
    requires
        review_mutation_readable(body),
    ensures
        body.request is None ==> is_invalid_reply(reply),
        body.request matches Some(request) ==> {
            &&& reply matches HandlerReply::Review(review)
            &&& reply->Review_0.response matches Some(r)
            &&& answers_request(reply, body.types, request, reply->Review_0.response->0)
            &&& mutation_outcome(
                reply->Review_0.response->0,
                request.object,
                config.default_doge,
            )
        },
{
    let ghost body_types = body.types;
    let request = match body.try_into_request() {
        Ok(request) => request,
        Err(_) => {
            return invalid_review_reply();
        },
    };
    assert(request.types == body_types);
    let mut res = AdmissionResponse::from(&request);
    if let Some(obj) = &request.object {
        // the rules work on a fresh response, `res` stays for a refusal
        let fresh = AdmissionResponse::from(&request);
        res = match mutate(fresh, obj, config) {
            Ok(res) => res,
            Err(err) => res.deny(err.to_string()),
        };
    }
    HandlerReply::Review(res.into_review())
}

/// The validating webhook: answers a review with a response to its request
/// that refuses exactly what `validation_refusal` refuses. A review without a
/// request is answered as invalid.
pub fn validate_handler(body: AdmissionReview) -> (reply: HandlerReply)
    requires
        review_validation_readable(body),
    ensures
        body.request is None ==> is_invalid_reply(reply),
        body.request matches Some(request) ==> {
            &&& reply matches HandlerReply::Review(review)
            &&& reply->Review_0.response matches Some(r)
            &&& answers_request(reply, body.types, request, reply->Review_0.response->0)
            &&& validation_outcome(
                reply->Review_0.response->0,
                request.operation,
                request.object,
                request.old_object,
            )
        },
{
    let ghost body_types = body.types;
    let request = match body.try_into_request() {
        Ok(request) => request,
        Err(_) => {
            return invalid_review_reply();
        },
    };
    assert(request.types == body_types);
    let mut res = AdmissionResponse::from(&request);
    if let Some(obj) = &request.object {
        // the rules work on a fresh response, `res` stays for a refusal
        let fresh = AdmissionResponse::from(&request);
        res = match validate(&request.operation, fresh, obj, &request.old_object) {
            Ok(res) => res,
            Err(err) => res.deny(err.to_string()),
        };
    }
    HandlerReply::Review(res.into_review())
}

/// An update of a doge that keeps its name and its image, checked against an
/// old object that reads as a doge, is admitted.
pub proof fn lemma_update_keeping_name_and_image_is_admitted(
    obj: DynamicObject,
    old: DynamicObject,
    spec: Spec,
    old_spec: Spec,
)
    requires
        is_doge(obj),
        obj.spec == SpecField::Parsed(spec),
        old.spec == SpecField::Parsed(old_spec),
        option_view(obj.metadata.name) == option_view(old.metadata.name),
        option_view(spec.image) == option_view(old_spec.image),
    ensures
        validation_refusal(Operation::Update, obj, Some(old)) is None,
{
}

/// Only updates are checked against the old object: under any other
/// operation, a doge that reads as one is admitted whatever the old object.
pub proof fn lemma_only_updates_are_checked(
    operation: Operation,
    obj: DynamicObject,
    old: Option<DynamicObject>,
)
    requires
        operation != Operation::Update,
        obj.spec is Parsed,
    ensures
        validation_refusal(operation, obj, old) is None,
{
}

/// Objects that are not doges pass both webhooks untouched: the validating
/// webhook refuses none, and the mutating webhook's answer admits the object
/// as it is.
pub proof fn lemma_other_kinds_pass(
    r: AdmissionResponse,
    operation: Operation,
    obj: DynamicObject,
    old: Option<DynamicObject>,
    config: DogeConfig,
)
    requires
        !is_doge(obj),
    ensures
        validation_refusal(operation, obj, old) is None,
        mutation_outcome(r, Some(obj), config) <==> admits_unchanged(r),
{
}

/// A doge whose specification does not read as one is refused by both
/// webhooks, with the same reason.
pub proof fn lemma_malformed_doge_refused_by_both(
    r: AdmissionResponse,
    operation: Operation,
    obj: DynamicObject,
    old: Option<DynamicObject>,
    config: DogeConfig,
    message: String,
)
    requires
        is_doge(obj),
        obj.spec == SpecField::Malformed(message),
    ensures
        validation_refusal(operation, obj, old) == Some(Refusal::InvalidSpec(message@)),
        mutation_outcome(r, Some(obj), config) <==> refuses(r, message@),
        validation_outcome(r, operation, Some(obj), old) <==> refuses(r, message@),
{
}

/// The patch of the defaults always ends by setting the number to its
/// default, and adds the image exactly where the doge names none.
pub proof fn lemma_defaults_patch_shape(ops: Seq<PatchOperation>, spec: Spec, config: DogeConfig)
    requires
        is_defaults_patch(ops, spec, config),
    ensures
        ops.len() >= 1,
        replaces_number(ops.last(), number_path(), config.default_number),
        (exists|i: int| 0 <= i < ops.len() && #[trigger] ops[i] is Add) <==> spec.image is None,
{
    if spec.image is None {
        assert(ops[0] is Add);
    } else {
        assert forall|i: int| 0 <= i < ops.len() implies !(#[trigger] ops[i] is Add) by {
            assert(i == 0);
        }
    }
}

/// The image and the number of a doge's specification after the operations
/// `ops` of a JSON Patch, applied in order: an operation that writes a string
/// at the image path sets the image, one that writes a number at the number
/// path sets the number, and others leave both as they are.
pub open spec fn patched_image_and_number(
    image: Option<Seq<char>>,
    number: u64,
    ops: Seq<PatchOperation>,
) -> (Option<Seq<char>>, u64)
    decreases ops.len(),
{
    if ops.len() == 0 {
        (image, number)
    } else {
        let (path, value) = match ops[0] {
            PatchOperation::Add { path, value } => (path, value),
            PatchOperation::Replace { path, value } => (path, value),
        };
        let (image1, number1) = match value {
            PatchValue::String(s) => if path@ == image_path() {
                (Some(s@), number)
            } else {
                (image, number)
            },
            PatchValue::Number(n) => if path@ == number_path() {
                (image, n)
            } else {
                (image, number)
            },
        };
        patched_image_and_number(image1, number1, ops.subrange(1, ops.len() as int))
    }
}

/// The patch of the defaults does what the mutating webhook is for: after
/// it, a doge keeps the image it named, or has the default image where it
/// named none, and has the default number.
pub proof fn lemma_defaults_patch_gives_defaults(
    ops: Seq<PatchOperation>,
    spec: Spec,
    config: DogeConfig,
)
    requires
        is_defaults_patch(ops, spec, config),
    ensures
        patched_image_and_number(option_view(spec.image), spec.number, ops) == (
            match spec.image {
                Some(image) => Some(image@),
                None => Some(config.default_image@),
            },
            config.default_number,
        ),
{
    reveal_strlit("/spec/image");
    reveal_strlit("/spec/number");
    assert(image_path() != number_path()) by {
        assert(image_path()[6] != number_path()[6]);
    }
    reveal_with_fuel(patched_image_and_number, 3);
    let rest = ops.subrange(1, ops.len() as int);
    if spec.image is None {
        let last = rest.subrange(1, rest.len() as int);
        assert(last.len() == 0);
        assert(rest[0] == ops[1]);
        assert(patched_image_and_number(option_view(spec.image), spec.number, ops)
            == patched_image_and_number(Some(config.default_image@), spec.number, rest));
        assert(patched_image_and_number(Some(config.default_image@), spec.number, rest)
            == patched_image_and_number(Some(config.default_image@), config.default_number, last));
    } else {
        assert(rest.len() == 0);
        assert(patched_image_and_number(option_view(spec.image), spec.number, ops)
            == patched_image_and_number(option_view(spec.image), config.default_number, rest));
    }
}

/// An update of an object of kind `Doge` whose specification reads as a
/// doge's, checked against an old object that reads as one, is refused for
/// its name whenever the name changes: one of the two names is missing and
/// the other is not, or both are there with different characters.
pub proof fn lemma_rename_is_refused(
    obj: DynamicObject,
    spec: Spec,
    old: DynamicObject,
    old_spec: Spec,
)
    requires
        obj.types is Some,
        obj.types->0.kind@ == "Doge"@,
        obj.spec == SpecField::Parsed(spec),
        old.spec == SpecField::Parsed(old_spec),
        (obj.metadata.name is Some != old.metadata.name is Some) || (obj.metadata.name is Some
            && old.metadata.name is Some && obj.metadata.name->0@ != old.metadata.name->0@),
    ensures
        validation_refusal(Operation::Update, obj, Some(old)) == Some(
            Refusal::ImmutableField("metadata.name"@),
        ),
        Refusal::ImmutableField("metadata.name"@).message()
            == "Cannot mutate immutable field `"@ + "metadata.name"@ + "`"@,
{
}

/// An update of an object of kind `Doge` that keeps its name, checked
/// against an old object that reads as a doge, is refused for its image
/// whenever the image changes: one of the two images is missing and the
/// other is not, or both are there with different characters.
pub proof fn lemma_image_change_is_refused(
    obj: DynamicObject,
    spec: Spec,
    old: DynamicObject,
    old_spec: Spec,
)
    requires
        obj.types is Some,
        obj.types->0.kind@ == "Doge"@,
        obj.spec == SpecField::Parsed(spec),
        old.spec == SpecField::Parsed(old_spec),
        obj.metadata.name is Some == old.metadata.name is Some,
        obj.metadata.name is Some ==> obj.metadata.name->0@ == old.metadata.name->0@,
        (spec.image is Some != old_spec.image is Some) || (spec.image is Some
            && old_spec.image is Some && spec.image->0@ != old_spec.image->0@),
    ensures
        validation_refusal(Operation::Update, obj, Some(old)) == Some(
            Refusal::ImmutableField("spec.image"@),
        ),
        Refusal::ImmutableField("spec.image"@).message()
            == "Cannot mutate immutable field `"@ + "spec.image"@ + "`"@,
{
}

/// An object whose kind is not the text `Doge`, or that declares no kind,
/// passes both webhooks untouched: the validating webhook refuses it under no
/// operation, and the mutating webhook admits it as it is.
pub proof fn lemma_kind_other_than_doge_passes(
    r: AdmissionResponse,
    operation: Operation,
    obj: DynamicObject,
    old: Option<DynamicObject>,
    config: DogeConfig,
)
    requires
        obj.types is None || obj.types->0.kind@ != "Doge"@,
    ensures
        validation_refusal(operation, obj, old) is None,
        mutation_outcome(r, Some(obj), config) <==> (r.allowed && r.result.is_empty()
            && r.patch is None),
{
}

/// The mutating webhook's answer for an object of kind `Doge` whose
/// specification reads as a doge's admits it with a patch, whatever the
/// image: the patch ends by replacing `/spec/number` with the default number,
/// and it adds the default image at `/spec/image`, as its first of two
/// operations, exactly where the doge names no image.
pub proof fn lemma_parsed_doge_is_patched(
    r: AdmissionResponse,
    obj: DynamicObject,
    spec: Spec,
    config: DogeConfig,
)
    requires
        obj.types is Some,
        obj.types->0.kind@ == "Doge"@,
        obj.spec == SpecField::Parsed(spec),
        mutation_outcome(r, Some(obj), config),
    ensures
        r.allowed,
        r.result.is_empty(),
        r.patch is Some,
        r.patch->0@.len() >= 1,
        replaces_number(r.patch->0@.last(), "/spec/number"@, config.default_number),
        spec.image is None ==> r.patch->0@.len() == 2 && adds_string(
            r.patch->0@[0],
            "/spec/image"@,
            config.default_image@,
        ),
        spec.image is Some ==> r.patch->0@.len() == 1,
{
}

} // verus!
