//! Demo selection helpers shared by the example drivers.

use vstd::prelude::*;

verus! {

/// Name of the demo scene picked through a URL query string. Without a
/// browser location to inspect, no name is ever provided; drivers fall back
/// to their command-line arguments.
pub fn demo_name_from_url() -> (r: Option<String>)
    ensures
        r is None,
{
    None
}

} // verus!

