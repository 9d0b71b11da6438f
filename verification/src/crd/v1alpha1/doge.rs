//! The `Doge` custom resource (group `app.demo`, version `v1alpha1`, kind
//! `Doge`, namespaced).

use vstd::prelude::*;

use crate::domain::DogeStatus;
use crate::object::{DynamicObject, ObjectMeta, SpecField};

verus! {

/// The specification of a doge.
#[derive(Debug)]
pub struct Spec {
    /// The image of the doge; the mutating webhook fills in a default where
    /// it is absent.
    pub image: Option<String>,
    /// The number of the doge.
    pub number: u64,
    /// The status of the doge.
    pub doge_status: DogeStatus,
}

impl Default for Spec {
    /// The specification that names no image, with number 0 and the default
    /// status.
    fn default() -> (res: Spec)
        ensures
            res.image is None,
            res.number == 0,
            res.doge_status == DogeStatus::Normal,
    {
        Spec { image: None, number: 0, doge_status: DogeStatus::default() }
    }
}

impl Clone for Spec {
    fn clone(&self) -> (res: Self)
        ensures
            res == *self,
    {
        let image = match &self.image {
            Some(s) => Some(s.clone()),
            None => None,
        };
        Spec { image, number: self.number, doge_status: self.doge_status }
    }
}

/// A doge: the metadata of the object and its specification.
#[derive(Debug)]
pub struct Doge {
    pub metadata: ObjectMeta,
    pub spec: Spec,
}

/// Why the specification of an object could not be read as a doge's: the
/// message of the deserializer.
#[derive(Debug)]
pub struct SpecError {
    pub message: String,
}

impl SpecError {
    /// The message of the error.
    pub fn to_string(&self) -> (res: String)
        ensures
            res@ == self.message@,
    {
        self.message.clone()
    }
}

impl Doge {
    /// Reads a doge from an object: its metadata, and the field `spec` of its
    /// data read as a doge's specification. The data must be a JSON object that
    /// holds a field `spec`.
    pub fn try_from(obj: DynamicObject) -> (res: Result<Doge, SpecError>)
        requires
            obj.spec.is_present(),
        ensures
            match obj.spec {
                SpecField::Parsed(spec) => res == Ok::<Doge, SpecError>(
                    Doge { metadata: obj.metadata, spec },
                ),
                SpecField::Malformed(message) => res == Err::<Doge, SpecError>(
                    SpecError { message },
                ),
                _ => false,
            },
    {
        let DynamicObject { types: _, metadata, spec } = obj;
        match spec {
            SpecField::Parsed(spec) => Ok(Doge { metadata, spec }),
            SpecField::Malformed(message) => Err(SpecError { message }),
            _ => {
                assert(false);
                Err(SpecError { message: String::new() })
            },
        }
    }
}

} // verus!
