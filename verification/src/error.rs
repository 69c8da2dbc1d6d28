//! Why a sign-in did not go through.

use vstd::prelude::*;

verus! {

/// A sentence for the user: what went wrong and, where they can, what to do
/// about it.
#[derive(Debug, Clone)]
pub struct SignInError {
    pub message: String,
}

impl View for SignInError {
    type V = Seq<char>;

    open spec fn view(&self) -> Seq<char> {
        self.message@
    }
}

impl SignInError {
    /// The error that says `message`.
    pub fn other(message: String) -> (r: SignInError)
        ensures
            r@ == message@,
    {
        SignInError { message }
    }

    /// The sentence to show.
    pub fn to_string(&self) -> (r: String)
        ensures
            r@ == self@,
    {
        self.message.clone()
    }
}

/// `r` with its error taken as the sentence it says.
pub open spec fn outcome<T>(r: Result<T, SignInError>) -> Result<T, Seq<char>> {
    match r {
        Ok(value) => Ok(value),
        Err(error) => Err(error@),
    }
}

} // verus!
