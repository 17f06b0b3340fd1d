//! What the service is configured with.

use vstd::prelude::*;

verus! {

/// The public address of the service, as it appears in the links that are
/// mailed out.
#[derive(Debug, PartialEq)]
pub struct AppConfig {
    pub url: String,
}

} // verus!
