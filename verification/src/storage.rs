use vstd::prelude::*;

verus! {

/// The well-known machine folders the tool can keep its data under.
pub enum Folder {
    Local,
    LocalSettings,
    Temp,
}

} // verus!
