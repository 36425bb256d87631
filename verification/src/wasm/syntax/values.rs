//! Value-level pieces of the module grammar that are not numbers:
//! currently only names.

use vstd::prelude::*;

verus! {

/// A name, as used for exports and imports.  Encoded in the binary format
/// as a length-prefixed UTF-8 byte sequence.
#[derive(Debug)]
pub struct Name(pub String);

} // verus!
