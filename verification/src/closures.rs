//! Calling a function and saying so.

use vstd::prelude::*;
use vstd::string::StringExecFns;
use crate::text::{decimal, decimal_string};

verus! {

/// The line that announces a call on `input`.
pub open spec fn call_line(input: int) -> Seq<char> {
    "Calling function on "@ + decimal(input)
}

/// Calls `func` on `input`, and gives the line that announces the call
/// together with what the call returned.
pub fn apply_with_log<F: FnOnce(i32) -> i32>(func: F, input: i32) -> (logged: (String, i32))
    requires
        call_requires(func, (input,)),
    ensures
        logged.0@ == call_line(input as int),
        call_ensures(func, (input,), logged.1),
{
    let mut line = "Calling function on ".to_owned();
    line.append(decimal_string(input as i64).as_str());
    (line, func(input))
}

} // verus!
