//! The message without fields.

use vstd::prelude::*;
use vstd::std_specs::convert::FromSpecImpl;

use crate::text::owned;

verus! {

/// A message without fields, for requests and responses that carry nothing.
#[derive(Clone, Copy, Debug, PartialEq, Eq, Structural, Hash, Default)]
pub struct Empty;

impl Empty {
    /// The length of the message on the wire: nothing.
    #[must_use]
    pub fn encoded_len(&self) -> (r: usize)
        ensures
            r == 0,
    {
        0
    }

    /// The address under which the type of the message is known.
    #[must_use]
    pub fn type_url() -> (r: String)
        ensures
            r@ == "type.googleapis.com/google.protobuf.Empty"@,
    {
        owned("type.googleapis.com/google.protobuf.Empty")
    }
}

impl From<()> for Empty {
    fn from(unit: ()) -> (r: Self) {
        Empty
    }
}

impl FromSpecImpl<()> for Empty {
    open spec fn obeys_from_spec() -> bool {
        true
    }

    open spec fn from_spec(unit: ()) -> Self {
        Empty
    }
}

} // verus!
