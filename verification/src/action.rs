//! Actions against a function service, and the one the client ships with.

use vstd::prelude::*;
use crate::error::ErrorKind;
use crate::request::{get, get_of, member_url, member_url_of, Request, FUNCTIONS_URL};

verus! {

/// The function that `SupaAction` looks at.
pub const SUPA_FUNCTION: &'static str = "move-did";

/// What can be done against a function service. Each method plans its
/// work and leaves the sending to a shell.
pub trait Action {
    type Error;

    /// Creates whatever the action stands for.
    fn create(&self) -> Result<(), Self::Error>;

    /// Plans the request that shows what the action stands for.
    fn info(&self) -> Result<Request, Self::Error>;
}

/// The action that looks at one fixed function of the service.
#[derive(Clone, Debug, PartialEq, Eq)]
pub struct SupaAction {
    url: String,
}

impl View for SupaAction {
    type V = Seq<char>;

    /// The address the action looks at.
    closed spec fn view(&self) -> Seq<char> {
        self.url@
    }
}

impl SupaAction {
    /// The action on the function `move-did`.
    pub fn new() -> (action: SupaAction)
        ensures
            action@ == member_url_of(FUNCTIONS_URL@, SUPA_FUNCTION@),
    {
        SupaAction { url: member_url(FUNCTIONS_URL, SUPA_FUNCTION) }
    }

    /// The address the action looks at.
    pub fn url(&self) -> (url: &str)
        ensures
            url@ == self@,
    {
        self.url.as_str()
    }
}

impl Action for SupaAction {
    type Error = ErrorKind;

    /// There is nothing to create: this always succeeds and plans nothing.
    fn create(&self) -> (outcome: Result<(), ErrorKind>)
        ensures
            outcome is Ok,
    {
        Ok(())
    }

    /// Plans one GET of the action's address; the answer is shown as it
    /// comes.
    fn info(&self) -> (outcome: Result<Request, ErrorKind>)
        ensures
            outcome matches Ok(request) && request@ == get_of(self@),
    {
        Ok(get(self.url.clone()))
    }
}

} // verus!
