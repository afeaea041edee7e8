use vstd::prelude::*;

verus! {

#[verifier::external_type_specification]
#[verifier::external_body]
pub struct ExPathBuf(std::path::PathBuf);

/// Where the application keeps its data.
pub struct Settings {
    pub location: std::path::PathBuf,
}

impl Settings {
    /// Settings that store data at `location`.
    pub fn new(location: std::path::PathBuf) -> (r: Settings)
        ensures
            r.location == location,
    {
        Settings { location }
    }
}

/// A database location in connection-string form.
pub struct DatabaseSettings {
    pub location: String,
}

} // verus!
