//! The name shown for a character. It plays no part in a fight.

use vstd::prelude::*;
use vstd::string::StringExecFns;

verus! {

#[derive(Debug, Clone, PartialEq, Eq, Hash)]
pub struct Name(pub String);

impl View for Name {
    type V = Seq<char>;

    open spec fn view(&self) -> Seq<char> {
        self.0@
    }
}

impl Name {
    pub fn new(name: &str) -> (r: Self)
        ensures
            r@ == name@,
    {
        Name(String::from_str(name))
    }

    pub fn as_str(&self) -> (r: &str)
        ensures
            r@ == self@,
    {
        self.0.as_str()
    }

    /// Empties the name.
    pub fn clear(&mut self)
        ensures
            final(self)@ == Seq::<char>::empty(),
    {
        self.0 = String::new();
    }
}

impl Default for Name {
    fn default() -> (r: Self)
        ensures
            r@ == "Hans Dampf"@,
    {
        Name(String::from_str("Hans Dampf"))
    }
}

} // verus!
