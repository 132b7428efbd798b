//! A record with an associated function and a method.

use vstd::prelude::*;
use vstd::string::*;

verus! {

/// A person by name and age.
#[derive(Debug)]
pub struct Person {
    pub first_name: String,
    pub last_name: String,
    pub age: u8,
}

impl Person {
    /// A person with the given names and age.
    pub fn new(first_name: &str, last_name: &str, age: u8) -> (person: Person)
        ensures
            person.first_name@ == first_name@,
            person.last_name@ == last_name@,
            person.age == age,
    {
        Person { first_name: first_name.to_owned(), last_name: last_name.to_owned(), age }
    }

    /// The first name, a space and the last name.
    pub open spec fn spec_full_name(&self) -> Seq<char> {
        self.first_name@ + " "@ + self.last_name@
    }

    /// The first name and the last name with one space between them.
    pub fn full_name(&self) -> (name: String)
        ensures
            name@ == self.spec_full_name(),
    {
        let mut name = self.first_name.clone();
        name.append(" ");
        name.append(self.last_name.as_str());
        name
    }
}

} // verus!
