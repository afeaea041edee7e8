use vstd::prelude::*;

use crate::domain::Scope;

verus! {

/// What a caller supplies to create a task: a description and an optional
/// scope tag.
#[derive(Debug)]
pub struct NewTask {
    pub description: String,
    pub scope: Option<Scope>,
}

} // verus!
