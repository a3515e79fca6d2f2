use vstd::prelude::*;

verus! {

/// An error that can be handed between tasks: it carries a message only.
pub struct SendableError {
    pub message: String,
}

impl SendableError {
    /// Builds an error from its message.
    pub fn new(message: String) -> (r: Self)
        ensures
            r.message@ == message@,
    {
        SendableError { message }
    }

    /// Builds an error from a borrowed message.
    pub fn from_message(message: &str) -> (r: Self)
        ensures
            r.message@ == message@,
    {
        SendableError { message: String::from_str(message) }
    }

    /// The text that describes the error, prefixed by the kind of error.
    pub fn to_string(&self) -> (r: String)
        ensures
            r@ == "SendableError: "@ + self.message@,
    {
        let r = String::from_str("SendableError: ");
        r.concat(self.message.as_str())
    }
}

} // verus!
