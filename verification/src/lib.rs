//! Greeting messages for the Nova Launcher front end.
//!
//! The desktop shell around this library forwards a user's name to
//! [`greet`] and shows the returned line of text. The message layout is
//! pinned down by the spec function [`greeting`], so a caller knows the
//! exact character sequence it receives for every name.
use vstd::prelude::*;
use vstd::string::StringExecFns;

verus! {

/// The greeting shown for a user named `name`: the name framed by a
/// fixed salutation and a fixed welcome.
pub open spec fn greeting(name: Seq<char>) -> Seq<char> {
    "Hello, "@ + name + "! Welcome to Nova Launcher!"@
}

/// Builds the greeting string for `name`.
pub fn greet(name: &str) -> (r: String)
    ensures
        r@ == greeting(name@),
{
    let s = "Hello, ".to_owned();
    let s = s.concat(name);
    s.concat("! Welcome to Nova Launcher!")
}

} // verus!
