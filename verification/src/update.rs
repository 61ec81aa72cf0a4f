use vstd::prelude::*;

verus! {

/// What an update check reports to the user interface: whether a newer
/// release exists, and its version and release notes when it does.
pub struct UpdateInfo {
    pub available: bool,
    pub version: Option<String>,
    pub body: Option<String>,
}

impl UpdateInfo {
    /// An update is available at `version`, with optional release notes.
    pub fn found(version: String, body: Option<String>) -> (r: Self)
        ensures
            r.available,
            r.version == Some(version),
            r.body == body,
    {
        UpdateInfo { available: true, version: Some(version), body }
    }

    /// The running version is current.
    pub fn up_to_date() -> (r: Self)
        ensures
            !r.available,
            r.version is None,
            r.body is None,
    {
        UpdateInfo { available: false, version: None, body: None }
    }
}

} // verus!
