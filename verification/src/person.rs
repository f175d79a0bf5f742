//! People and what is said of them.

use vstd::prelude::*;
use vstd::string::StringExecFns;
use crate::text::{decimal, decimal_string};

verus! {

/// A person with a name and an age in years.
#[derive(Debug)]
pub struct Person {
    pub name: String,
    pub age: u8,
}

/// The sentence that tells how old somebody is.
pub open spec fn description(name: Seq<char>, age: u8) -> Seq<char> {
    name + " is "@ + decimal(age as int) + " years old"@
}

/// Tells in one sentence how old the person is.
pub fn describe(person: &Person) -> (line: String)
    ensures
        line@ == description(person.name@, person.age),
{
    let mut line = person.name.clone();
    line.append(" is ");
    let years = decimal_string(person.age as i64);
    line.append(years.as_str());
    line.append(" years old");
    line
}

} // verus!
