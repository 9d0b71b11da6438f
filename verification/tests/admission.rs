use admission_webhook::admission::{
    AdmissionRequest, AdmissionResponse, AdmissionReview, Operation, StatusSummary,
};
use admission_webhook::crd::v1alpha1::{Doge, Spec};
use admission_webhook::domain::{DogeConfig, DogeStatus, MutatingConfig};
use admission_webhook::object::{DynamicObject, ObjectMeta, SpecField, TypeMeta};
use admission_webhook::patch::{PatchOperation, PatchValue};
use admission_webhook::web::controller::admission::v1::{
    mutate, mutate_doge, mutate_handler, validate, validate_doge, validate_handler,
    AdmissionError, HandlerReply,
};
use admission_webhook::web::error::Error;
use admission_webhook::web::response::Payload;

fn types(api_version: &str, kind: &str) -> TypeMeta {
    TypeMeta { api_version: api_version.to_string(), kind: kind.to_string() }
}

fn spec(image: Option<&str>, number: u64) -> Spec {
    Spec { image: image.map(|s| s.to_string()), number, doge_status: DogeStatus::Normal }
}

fn doge_object(name: Option<&str>, field: SpecField) -> DynamicObject {
    DynamicObject {
        types: Some(types("app.demo/v1alpha1", "Doge")),
        metadata: ObjectMeta { name: name.map(|s| s.to_string()) },
        spec: field,
    }
}

fn config() -> MutatingConfig {
    MutatingConfig {
        default_doge: DogeConfig {
            default_image: "doge/doge:doge".to_string(),
            default_number: 87,
            default_status: DogeStatus::Normal,
        },
    }
}

fn request(operation: Operation, object: Option<DynamicObject>, old: Option<DynamicObject>) -> AdmissionRequest {
    AdmissionRequest {
        types: types("", ""),
        uid: "705ab4f5-6393-11e8-b7cc-42010a800002".to_string(),
        operation,
        object,
        old_object: old,
    }
}

fn review(request: Option<AdmissionRequest>) -> AdmissionReview {
    AdmissionReview {
        types: types("admission.k8s.io/v1", "AdmissionReview"),
        request,
        response: None,
    }
}

fn response_of(reply: HandlerReply) -> (AdmissionReview, AdmissionResponse) {
    match reply {
        HandlerReply::Review(mut review) => {
            let r = review.response.take().unwrap();
            (review, r)
        }
        HandlerReply::Enveloped(_) => panic!("enveloped"),
    }
}

fn is_add_image(op: &PatchOperation, image: &str) -> bool {
    matches!(op, PatchOperation::Add { path, value: PatchValue::String(s) }
        if path == "/spec/image" && s == image)
}

fn is_replace_number(op: &PatchOperation, n: u64) -> bool {
    matches!(op, PatchOperation::Replace { path, value: PatchValue::Number(m) }
        if path == "/spec/number" && *m == n)
}

#[test]
fn defaults_patch_without_image() {
    let doge = Doge { metadata: ObjectMeta { name: None }, spec: spec(None, 3) };
    let ops = mutate_doge(&doge, &config());
    assert_eq!(ops.len(), 2);
    assert!(is_add_image(&ops[0], "doge/doge:doge"));
    assert!(is_replace_number(&ops[1], 87));
}

#[test]
fn defaults_patch_with_image() {
    let doge = Doge { metadata: ObjectMeta { name: None }, spec: spec(Some("my/doge"), 3) };
    let ops = mutate_doge(&doge, &config());
    assert_eq!(ops.len(), 1);
    assert!(is_replace_number(&ops[0], 87));
}

#[test]
fn spec_default() {
    let s = Spec::default();
    assert!(s.image.is_none());
    assert_eq!(s.number, 0);
    assert_eq!(s.doge_status, DogeStatus::Normal);
}

#[test]
fn doge_from_object() {
    let obj = doge_object(Some("shiba"), SpecField::Parsed(spec(Some("i"), 1)));
    let doge = Doge::try_from(obj).unwrap();
    assert_eq!(doge.metadata.name.as_deref(), Some("shiba"));
    assert_eq!(doge.spec.image.as_deref(), Some("i"));
    let obj = doge_object(Some("shiba"), SpecField::Malformed("missing field `number`".to_string()));
    assert_eq!(Doge::try_from(obj).unwrap_err().to_string(), "missing field `number`");
}

#[test]
fn object_kind() {
    assert!(doge_object(None, SpecField::Absent).is_doge());
    let mut obj = doge_object(None, SpecField::Absent);
    obj.types = Some(types("v1", "Pod"));
    assert!(!obj.is_doge());
    obj.types = None;
    assert!(!obj.is_doge());
}

#[test]
fn response_from_request_admits() {
    let req = request(Operation::Create, None, None);
    let res = AdmissionResponse::from(&req);
    assert_eq!(res.uid, req.uid);
    assert!(res.allowed);
    assert!(res.patch.is_none());
    assert!(res.result.status.is_none());
    assert_eq!(res.result.message, "");
}

#[test]
fn deny_keeps_uid() {
    let req = request(Operation::Create, None, None);
    let res = AdmissionResponse::from(&req).deny("no".to_string());
    assert_eq!(res.uid, req.uid);
    assert!(!res.allowed);
    assert_eq!(res.result.message, "no");
    assert_eq!(res.result.code, 0);
}

#[test]
fn invalid_response() {
    let res = AdmissionResponse::invalid("why".to_string());
    assert_eq!(res.uid, "");
    assert!(!res.allowed);
    assert_eq!(res.result.status, Some(StatusSummary::Failure));
    assert_eq!(res.result.message, "why");
    assert_eq!(res.result.reason, "InvalidRequest");
    assert_eq!(res.types.kind, "AdmissionReview");
    assert_eq!(res.types.api_version, "admission.k8s.io/v1beta1");
}

#[test]
fn review_request_takes_review_types() {
    let req = review(Some(request(Operation::Delete, None, None))).try_into_request().unwrap();
    assert_eq!(req.types.api_version, "admission.k8s.io/v1");
    assert_eq!(req.types.kind, "AdmissionReview");
    assert_eq!(req.operation, Operation::Delete);
    let err = review(None).try_into_request().unwrap_err();
    assert_eq!(err.to_string(), "failed to convert AdmissionReview into AdmissionRequest");
}

#[test]
fn mutate_other_kinds_untouched() {
    let req = request(Operation::Create, None, None);
    let mut obj = doge_object(None, SpecField::NotAnObject);
    obj.types = Some(types("v1", "Pod"));
    let res = mutate(AdmissionResponse::from(&req), &obj, &config()).unwrap();
    assert!(res.allowed && res.patch.is_none());
    obj.types = None;
    let res = mutate(AdmissionResponse::from(&req), &obj, &config()).unwrap();
    assert!(res.allowed && res.patch.is_none());
}

#[test]
fn mutate_malformed_doge_fails() {
    let req = request(Operation::Create, None, None);
    let obj = doge_object(None, SpecField::Malformed("invalid type".to_string()));
    match mutate(AdmissionResponse::from(&req), &obj, &config()) {
        Err(e @ AdmissionError::Spec(_)) => assert_eq!(e.to_string(), "invalid type"),
        _ => panic!(),
    }
}

#[test]
fn validate_doge_rules() {
    let new = Doge { metadata: ObjectMeta { name: Some("a".to_string()) }, spec: spec(Some("img"), 1) };
    let same = Some(doge_object(Some("a"), SpecField::Parsed(spec(Some("img"), 2))));
    let renamed = Some(doge_object(Some("b"), SpecField::Parsed(spec(Some("img"), 1))));
    let reimaged = Some(doge_object(Some("a"), SpecField::Parsed(spec(None, 1))));
    let broken = Some(doge_object(Some("a"), SpecField::Malformed("bad".to_string())));
    assert!(validate_doge(&Operation::Update, &new, &same).is_ok());
    assert!(validate_doge(&Operation::Update, &new, &None).is_ok());
    assert!(validate_doge(&Operation::Create, &new, &renamed).is_ok());
    match validate_doge(&Operation::Update, &new, &renamed) {
        Err(AdmissionError::Web(Error::ImmutableField { field })) => assert_eq!(field, "metadata.name"),
        _ => panic!(),
    }
    match validate_doge(&Operation::Update, &new, &reimaged) {
        Err(e @ AdmissionError::Web(_)) => {
            assert_eq!(e.to_string(), "Cannot mutate immutable field `spec.image`")
        }
        _ => panic!(),
    }
    match validate_doge(&Operation::Update, &new, &broken) {
        Err(e @ AdmissionError::Spec(_)) => assert_eq!(e.to_string(), "bad"),
        _ => panic!(),
    }
}

#[test]
fn validate_name_checked_before_image() {
    let new = Doge { metadata: ObjectMeta { name: Some("a".to_string()) }, spec: spec(Some("x"), 1) };
    let both = Some(doge_object(Some("b"), SpecField::Parsed(spec(Some("y"), 1))));
    match validate_doge(&Operation::Update, &new, &both) {
        Err(AdmissionError::Web(Error::ImmutableField { field })) => assert_eq!(field, "metadata.name"),
        _ => panic!(),
    }
}

#[test]
fn validate_other_kinds_pass() {
    let req = request(Operation::Update, None, None);
    let mut obj = doge_object(Some("a"), SpecField::Absent);
    obj.types = Some(types("v1", "ConfigMap"));
    let old = Some(doge_object(Some("b"), SpecField::Absent));
    let res = validate(&Operation::Update, AdmissionResponse::from(&req), &obj, &old).unwrap();
    assert!(res.allowed);
}

#[test]
fn mutate_handler_without_request_is_invalid() {
    match mutate_handler(&config(), review(None)) {
        HandlerReply::Enveloped(env) => {
            assert_eq!(env.status_code.as_u16(), 200);
            assert!(env.metadata.is_none());
            match env.result {
                Some(Payload::Data(review)) => {
                    let r = review.response.unwrap();
                    assert!(!r.allowed);
                    assert_eq!(r.uid, "");
                    assert_eq!(r.result.message, "failed to convert AdmissionReview into AdmissionRequest");
                    assert_eq!(r.result.reason, "InvalidRequest");
                    assert_eq!(review.types.kind, "AdmissionReview");
                    assert_eq!(review.types.api_version, "admission.k8s.io/v1beta1");
                }
                _ => panic!(),
            }
        }
        HandlerReply::Review(_) => panic!(),
    }
}

#[test]
fn validate_handler_without_request_is_invalid() {
    assert!(matches!(validate_handler(review(None)), HandlerReply::Enveloped(_)));
}

#[test]
fn mutate_handler_patches_doge() {
    let obj = doge_object(Some("shiba"), SpecField::Parsed(spec(None, 5)));
    let (review, r) = response_of(mutate_handler(&config(), review(Some(request(Operation::Create, Some(obj), None)))));
    assert_eq!(review.types.api_version, "admission.k8s.io/v1");
    assert_eq!(r.uid, "705ab4f5-6393-11e8-b7cc-42010a800002");
    assert!(r.allowed);
    let ops = r.patch.unwrap();
    assert_eq!(ops.len(), 2);
    assert!(is_add_image(&ops[0], "doge/doge:doge"));
    assert!(is_replace_number(&ops[1], 87));
}

#[test]
fn mutate_handler_denies_malformed_doge() {
    let obj = doge_object(Some("shiba"), SpecField::Malformed("unknown variant `Sleepy`".to_string()));
    let (_, r) = response_of(mutate_handler(&config(), review(Some(request(Operation::Create, Some(obj), None)))));
    assert_eq!(r.uid, "705ab4f5-6393-11e8-b7cc-42010a800002");
    assert!(!r.allowed);
    assert!(r.patch.is_none());
    assert_eq!(r.result.message, "unknown variant `Sleepy`");
}

#[test]
fn mutate_handler_without_object_admits() {
    let (_, r) = response_of(mutate_handler(&config(), review(Some(request(Operation::Delete, None, None)))));
    assert!(r.allowed);
    assert!(r.patch.is_none());
}

#[test]
fn validate_handler_refuses_rename() {
    let obj = doge_object(Some("new"), SpecField::Parsed(spec(Some("i"), 1)));
    let old = doge_object(Some("old"), SpecField::Parsed(spec(Some("i"), 1)));
    let (_, r) = response_of(validate_handler(review(Some(request(Operation::Update, Some(obj), Some(old))))));
    assert_eq!(r.uid, "705ab4f5-6393-11e8-b7cc-42010a800002");
    assert!(!r.allowed);
    assert_eq!(r.result.message, "Cannot mutate immutable field `metadata.name`");
    assert!(r.patch.is_none());
}

#[test]
fn validate_handler_admits_unchanged_update() {
    let obj = doge_object(Some("same"), SpecField::Parsed(spec(Some("i"), 1)));
    let old = doge_object(Some("same"), SpecField::Parsed(spec(Some("i"), 9)));
    let (_, r) = response_of(validate_handler(review(Some(request(Operation::Update, Some(obj), Some(old))))));
    assert!(r.allowed);
    assert!(r.patch.is_none());
}

#[test]
fn validate_handler_admits_create_of_any_doge() {
    let obj = doge_object(Some("new"), SpecField::Parsed(spec(None, 1)));
    let old = doge_object(Some("old"), SpecField::Parsed(spec(Some("i"), 1)));
    let (_, r) = response_of(validate_handler(review(Some(request(Operation::Create, Some(obj), Some(old))))));
    assert!(r.allowed);
}

#[test]
fn malformed_doge_refused_by_both_webhooks() {
    let make = || doge_object(Some("a"), SpecField::Malformed("expected u64".to_string()));
    let (_, m) = response_of(mutate_handler(&config(), review(Some(request(Operation::Update, Some(make()), None)))));
    let (_, v) = response_of(validate_handler(review(Some(request(Operation::Update, Some(make()), None)))));
    assert!(!m.allowed && !v.allowed);
    assert_eq!(m.result.message, v.result.message);
}
