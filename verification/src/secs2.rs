//! SECS-II message text as the endpoint carries it.

use vstd::prelude::*;

verus! {

/// One SECS-II item in its encoded form.
///
/// The endpoint never looks inside a message body: it asks whether a body is
/// there and how many bytes it occupies on the wire.
#[derive(Clone, Debug, PartialEq, Eq)]
pub struct SecsItem {
    /// Item header and data bytes, exactly as they stand on the wire.
    pub encoded: Vec<u8>,
}

impl SecsItem {
    /// Wraps an encoded item.
    pub fn new(encoded: Vec<u8>) -> (r: Self)
        ensures
            r.encoded == encoded,
    {
        SecsItem { encoded }
    }

    /// Returns the number of wire bytes of the item.
    pub fn encoded_length(&self) -> (r: usize)
        ensures
            r == self.encoded@.len(),
    {
        self.encoded.len()
    }
}

/// A SECS-II item or limit that cannot be represented.
#[derive(Clone, Debug, PartialEq, Eq)]
pub struct SecsItemError {
    /// Diagnostic of the SECS-II layer.
    pub description: String,
}

/// Wire bytes of an optional message body.
pub open spec fn spec_text_length(body: Option<SecsItem>) -> nat {
    match body {
        Some(item) => item.encoded@.len(),
        None => 0,
    }
}

/// Returns the wire bytes of an optional message body; a missing body has none.
pub fn text_length(body: &Option<SecsItem>) -> (r: usize)
    ensures
        r == spec_text_length(*body),
{
    match body {
        Some(item) => item.encoded_length(),
        None => 0,
    }
}

} // verus!
