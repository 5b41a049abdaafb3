//! Where the day files are kept: a marker file in the working directory
//! names the store root.
use crate::store::StoreError;
use vstd::prelude::*;

verus! {

/// The marker file, in the working directory, whose text is the store root.
pub const MARKER_FILE_NAME: &'static str = ".buildstreak";

/// The name of the store directory that initialization creates.
pub fn dirname() -> (r: String)
    ensures
        r@ == "buildstreak"@,
{
    String::from_str("buildstreak")
}

/// The store root named by the marker file's text (`None`: there is no
/// marker file). The text is taken as it stands.
pub fn resolve_root(marker: Option<String>) -> (r: Result<String, StoreError>)
    ensures
        marker is None ==> r == Err::<String, StoreError>(StoreError::NotInitialized),
        marker is Some ==> r is Ok && r->Ok_0@ == marker->Some_0@,
{
    match marker {
        Some(root) => Ok(root),
        None => Err(StoreError::NotInitialized),
    }
}

} // verus!
