//! The components of an artboard: a snapshot of its component names.

use vstd::prelude::*;

use crate::encoding::string_from_utf8;
use crate::scene::SceneError;

verus! {

/// The component names of one artboard, taken as a snapshot. Access is by
/// position.
#[derive(Debug)]
pub struct Components {
    names: Vec<Vec<u8>>,
}

impl View for Components {
    type V = Seq<Seq<u8>>;

    closed spec fn view(&self) -> Seq<Seq<u8>> {
        self.names@.map_values(|n: Vec<u8>| n@)
    }
}

impl Components {
    pub(crate) fn new(names: Vec<Vec<u8>>) -> (r: Components)
        ensures
            r@ == names@.map_values(|n: Vec<u8>| n@),
    {
        Components { names }
    }

    pub fn len(&self) -> (r: usize)
        ensures
            r == self@.len(),
    {
        self.names.len()
    }

    /// The raw identifier bytes of the component at this position.
    pub fn name_bytes(&self, i: usize) -> (r: &Vec<u8>)
        requires
            i < self@.len(),
        ensures
            r@ == self@[i as int],
    {
        &self.names[i]
    }

    /// The identifier of the component at this position; fails, recoverably,
    /// exactly when its bytes are not valid UTF-8.
    pub fn name(&self, i: usize) -> (r: Result<String, SceneError>)
        requires
            i < self@.len(),
        ensures
            r is Ok <==> vstd::utf8::valid_utf8(self@[i as int]),
            r matches Ok(s) ==> s@ == vstd::utf8::decode_utf8(self@[i as int]),
    {
        let bytes = vstd::slice::slice_to_vec(self.names[i].as_slice());
        match string_from_utf8(bytes) {
            Some(s) => Ok(s),
            None => Err(SceneError::InvalidNameEncoding),
        }
    }
}

} // verus!
