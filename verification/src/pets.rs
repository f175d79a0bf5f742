//! Animals, and the pets among them that talk.

use vstd::prelude::*;
use vstd::string::StringExecFns;

verus! {

/// An animal stands on some number of legs.
pub trait Animal {
    /// The number of legs of the animal.
    spec fn legs(&self) -> nat;

    /// Counts the legs of the animal.
    fn leg_count(&self) -> (count: u32)
        ensures
            count == self.legs(),
    ;
}

/// A pet is an animal that introduces itself.
pub trait Pet: Animal {
    /// What the pet says of itself.
    spec fn speech(&self) -> Seq<char>;

    /// Lets the pet introduce itself.
    fn talk(&self) -> (said: String)
        ensures
            said@ == self.speech(),
    ;

    /// Asks the pet for its name and gives the exchange: the question,
    /// followed by what the pet says.
    fn greet(&self) -> (exchange: String)
        ensures
            exchange@ == "What's your name? "@ + self.speech(),
    {
        let mut exchange = "What's your name? ".to_owned();
        let said = self.talk();
        exchange.append(said.as_str());
        exchange
    }
}

/// A dog, by name and age.
#[derive(Debug)]
pub struct Dog {
    pub name: String,
    pub age: i8,
}

impl Animal for Dog {
    open spec fn legs(&self) -> nat {
        4
    }

    fn leg_count(&self) -> (count: u32) {
        4
    }
}

impl Pet for Dog {
    open spec fn speech(&self) -> Seq<char> {
        "My name is "@ + self.name@ + "!"@
    }

    fn talk(&self) -> (said: String) {
        let mut said = "My name is ".to_owned();
        said.append(self.name.as_str());
        said.append("!");
        said
    }
}

} // verus!
