//! Names of LLVM values: a string, or a sequential number.
use vstd::prelude::*;
use crate::gensym::{decimal, decimal_string};

verus! {

broadcast use vstd::string::group_string_axioms;

/// A name of an LLVM value: a string name, or just a sequential number
/// (as in `%3`).
#[derive(PartialEq, Eq, PartialOrd, Ord, Debug, Hash)]
pub enum Name {
    Name(Box<String>),
    Number(usize),
}

/// Mathematical model of [`Name`].
pub enum NameV {
    Name(Seq<char>),
    Number(usize),
}

impl View for Name {
    type V = NameV;

    open spec fn view(&self) -> NameV {
        match self {
            Name::Name(s) => NameV::Name((**s)@),
            Name::Number(n) => NameV::Number(*n),
        }
    }
}

impl Clone for Name {
    fn clone(&self) -> (r: Self)
        ensures
            r@ == self@,
    {
        match self {
            Name::Name(s) => Name::Name(Box::new((**s).clone())),
            Name::Number(n) => Name::Number(*n),
        }
    }
}

/// The textual form of a name: `%` and the string or the number.
pub open spec fn show_name(n: NameV) -> Seq<char> {
    match n {
        NameV::Name(s) => "%"@ + s,
        NameV::Number(k) => "%"@ + decimal(k as nat),
    }
}

impl Name {
    /// The name `s`, or, where `s` is empty, the next number from `ctr`,
    /// which then moves on.
    pub fn name_or_num(s: String, ctr: &mut usize) -> (r: Self)
        requires
            s@.len() == 0 ==> *old(ctr) < usize::MAX,
        ensures
            s@.len() == 0 ==> r@ == NameV::Number(*old(ctr)) && *final(ctr) == *old(ctr) + 1,
            s@.len() != 0 ==> r@ == NameV::Name(s@) && *final(ctr) == *old(ctr),
    {
        if s.as_str().is_empty() {
            let rval = Name::Number(*ctr);
            *ctr += 1;
            rval
        } else {
            Name::Name(Box::new(s))
        }
    }

    /// The textual form of the name.
    pub fn to_string(&self) -> (s: String)
        ensures
            s@ == show_name(self@),
    {
        let mut s = "%".to_string();
        match self {
            Name::Name(n) => s.append((**n).as_str()),
            Name::Number(k) => s.append(decimal_string(*k as u64).as_str()),
        }
        s
    }
}

} // verus!
