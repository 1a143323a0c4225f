use vstd::prelude::*;

verus! {

/// The single error kind of the library: a generic I/O-style failure carrying
/// a descriptive message. The library draws no finer distinctions; which
/// operation failed is told by the message alone.
#[derive(Debug)]
pub struct EzError {
    message: String,
}

impl EzError {
    /// The characters of the descriptive message.
    pub closed spec fn spec_message(&self) -> Seq<char> {
        self.message@
    }

    /// Builds an error from a message.
    pub fn new(message: &str) -> (r: EzError)
        ensures
            r.spec_message() == message@,
    {
        EzError { message: message.to_owned() }
    }

    /// The descriptive message.
    pub fn message(&self) -> (r: &str)
        ensures
            r@ == self.spec_message(),
    {
        self.message.as_str()
    }
}

} // verus!
