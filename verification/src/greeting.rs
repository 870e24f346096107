use vstd::prelude::*;
use vstd::string::StringExecFns;

verus! {

/// The greeting for `name`.
pub fn greet(name: &str) -> (text: String)
    ensures
        text@ == "Hello, "@ + name@ + "! You've been greeted from Rust!"@,
{
    let text = String::from_str("Hello, ");
    let text = text.concat(name);
    text.concat("! You've been greeted from Rust!")
}

} // verus!
