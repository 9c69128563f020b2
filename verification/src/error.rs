//! The errors of the conversions from wire codes.
use vstd::prelude::*;

use crate::constants::tss::TPM2_ALG_ID;

verus! {

/// Why a wire code could not be turned into a typed value.
#[derive(Copy, Clone, Debug, PartialEq, Eq, Hash, Structural)]
pub enum Error {
    /// The registry assigns `code` to none of the enumeration's variants.
    UnrecognizedIdentifier { code: TPM2_ALG_ID },
}

} // verus!
