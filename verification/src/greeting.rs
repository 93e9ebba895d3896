//! The greeting echo: a fixed template around a caller-supplied name.

use vstd::prelude::*;
use vstd::string::*;

verus! {

/// The exact greeting text for a name.
pub open spec fn greet_spec(name: Seq<char>) -> Seq<char> {
    "Hello, "@ + name + "! You've been greeted from Rust!"@
}

/// Greets a name with the fixed template. Total: no validation, no failure.
pub fn greet(name: &str) -> (s: String)
    ensures
        s@ == greet_spec(name@),
{
    let mut s = String::from_str("Hello, ");
    s.append(name);
    s.append("! You've been greeted from Rust!");
    proof {
        assert(s@ =~= greet_spec(name@));
    }
    s
}

} // verus!
