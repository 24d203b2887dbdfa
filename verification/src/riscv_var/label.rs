//! Names of basic blocks.
use vstd::prelude::*;

verus! {

/// The name of a basic block.
#[derive(Debug, PartialEq)]
pub struct Label {
    pub name: String,
}

impl Label {
    pub fn new(name: String) -> (l: Self)
        ensures
            l.name@ == name@,
    {
        Label { name }
    }
}

impl Clone for Label {
    fn clone(&self) -> (r: Self)
        ensures
            r.name@ == self.name@,
    {
        Label { name: self.name.clone() }
    }
}

} // verus!
