use vstd::prelude::*;

verus! {

/// Package metadata as served by the registry: the document body for one
/// package name.  The cache never looks inside it; it is stored, returned
/// and persisted as an opaque, immutable value.  Callers that need the
/// structured form decode this body themselves.
#[derive(Debug, PartialEq, Eq)]
pub struct PackageMetadata {
    body: String,
}

impl View for PackageMetadata {
    type V = Seq<char>;

    closed spec fn view(&self) -> Seq<char> {
        self.body@
    }
}

impl Clone for PackageMetadata {
    fn clone(&self) -> (r: Self)
        ensures
            r == *self,
    {
        PackageMetadata { body: self.body.clone() }
    }
}

impl PackageMetadata {
    /// Wraps one registry document body.
    pub fn new(body: String) -> (r: Self)
        ensures
            r@ == body@,
    {
        PackageMetadata { body }
    }

    /// The document body this value was built from.
    pub fn body(&self) -> (r: &String)
        ensures
            r@ == self@,
    {
        &self.body
    }
}

} // verus!
