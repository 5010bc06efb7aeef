//! Truthiness of configuration values: a boolean is truthy when set, a string
//! when non-empty.

use vstd::prelude::*;

verus! {

pub trait Truthy {
    spec fn spec_truthy(&self) -> bool;

    fn truthy(&self) -> (r: bool)
        ensures
            r == self.spec_truthy(),
    ;
}

impl Truthy for bool {
    open spec fn spec_truthy(&self) -> bool {
        *self
    }

    fn truthy(&self) -> (r: bool)
        ensures
            r == self.spec_truthy(),
    {
        *self
    }
}

impl Truthy for &str {
    open spec fn spec_truthy(&self) -> bool {
        self@.len() > 0
    }

    fn truthy(&self) -> (r: bool)
        ensures
            r == self.spec_truthy(),
    {
        !self.is_empty()
    }
}

} // verus!
