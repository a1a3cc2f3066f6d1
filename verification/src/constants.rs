//! Constants shared by the request formatter.

use vstd::prelude::*;

verus! {

/// The base URL of the API; every request URL starts with it.
pub const API_URL: &'static str = "https://api.darksky.net";

} // verus!
