use vstd::prelude::*;

verus! {

/// What `str::to_lowercase` yields for the given characters.
pub uninterp spec fn lowercase_of(s: Seq<char>) -> Seq<char>;

/// Relies on `str::to_lowercase`: the result is a function of the input
/// characters alone.
#[verifier::external_body]
fn lowercase(s: &str) -> (r: String)
    ensures
        r@ == lowercase_of(s@),
{
    s.to_lowercase()
}

/// A task's optional category tag; its text is kept lowercased.
#[derive(Debug)]
pub struct Scope(String);

impl View for Scope {
    type V = Seq<char>;

    closed spec fn view(&self) -> Seq<char> {
        self.0@
    }
}

impl Scope {
    /// Lowercases the tag text and wraps it.
    pub fn new(value: String) -> (r: Scope)
        ensures
            r@ == lowercase_of(value@),
    {
        Scope(lowercase(value.as_str()))
    }

    /// The tag text.
    pub fn as_ref(&self) -> (r: &str)
        ensures
            r@ == self@,
    {
        self.0.as_str()
    }
}

} // verus!
