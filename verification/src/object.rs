//! Kubernetes objects as the webhook sees them: their type, their name, and
//! what the field `spec` of their data reads as.

use vstd::prelude::*;

use crate::crd::v1alpha1::Spec;

verus! {

/// The API version and the kind of an object.
#[derive(Debug)]
pub struct TypeMeta {
    pub api_version: String,
    pub kind: String,
}

impl Clone for TypeMeta {
    fn clone(&self) -> (res: Self)
        ensures
            res == *self,
    {
        TypeMeta { api_version: self.api_version.clone(), kind: self.kind.clone() }
    }
}

/// The metadata of an object that the rules read.
#[derive(Debug)]
pub struct ObjectMeta {
    /// The name of the object.
    pub name: Option<String>,
}

impl Clone for ObjectMeta {
    fn clone(&self) -> (res: Self)
        ensures
            res == *self,
    {
        let name = match &self.name {
            Some(s) => Some(s.clone()),
            None => None,
        };
        ObjectMeta { name }
    }
}

/// What the field `spec` in the data of an object reads as.
#[derive(Debug)]
pub enum SpecField {
    /// The data is not a JSON object.
    NotAnObject,
    /// The data is a JSON object without a field `spec`.
    Absent,
    /// The field `spec` reads as a doge's specification.
    Parsed(Spec),
    /// The field `spec` does not read as a doge's specification; the message
    /// of the deserializer says why.
    Malformed(String),
}

impl SpecField {
    /// Whether the data holds a field `spec` at all.
    pub open spec fn is_present(&self) -> bool {
        self is Parsed || self is Malformed
    }
}

impl Clone for SpecField {
    fn clone(&self) -> (res: Self)
        ensures
            res == *self,
    {
        match self {
            SpecField::NotAnObject => SpecField::NotAnObject,
            SpecField::Absent => SpecField::Absent,
            SpecField::Parsed(spec) => SpecField::Parsed(spec.clone()),
            SpecField::Malformed(m) => SpecField::Malformed(m.clone()),
        }
    }
}

/// An object of any kind.
#[derive(Debug)]
pub struct DynamicObject {
    /// The type of the object, where it names one.
    pub types: Option<TypeMeta>,
    pub metadata: ObjectMeta,
    /// The field `spec` of the data of the object.
    pub spec: SpecField,
}

impl Clone for DynamicObject {
    fn clone(&self) -> (res: Self)
        ensures
            res == *self,
    {
        let types = match &self.types {
            Some(t) => Some(t.clone()),
            None => None,
        };
        DynamicObject { types, metadata: self.metadata.clone(), spec: self.spec.clone() }
    }
}

/// The kind of the doge resource.
pub open spec fn doge_kind() -> Seq<char> {
    "Doge"@
}

/// Whether an object declares itself a `Doge`.
pub open spec fn is_doge(obj: DynamicObject) -> bool {
    obj.types is Some && obj.types->0.kind@ == doge_kind()
}

impl DynamicObject {
    /// Whether the object declares itself a `Doge`.
    pub fn is_doge(&self) -> (res: bool)
        ensures
            res == is_doge(*self),
            res <==> (self.types is Some && self.types->0.kind@ == "Doge"@),
    {
        match &self.types {
            Some(types) => {
                let kind = String::from_str("Doge");
                proof {
                    reveal_strlit("Doge");
                }
                types.kind == kind
            },
            None => false,
        }
    }
}

} // verus!
