//! A contract that stores one flag.

use vstd::prelude::*;

verus! {

/// The contract's storage: a single flag.
pub struct Erc20 {
    value: bool,
}

impl View for Erc20 {
    type V = bool;

    closed spec fn view(&self) -> bool {
        self.value
    }
}

impl Erc20 {
    /// A contract whose flag is `init_value`.
    pub fn new(init_value: bool) -> (contract: Erc20)
        ensures
            contract@ == init_value,
    {
        Erc20 { value: init_value }
    }

    /// The flag.
    pub fn get(&self) -> (value: bool)
        ensures
            value == self@,
    {
        self.value
    }

    /// Turns the flag over.
    pub fn flip(&mut self)
        ensures
            final(self)@ == !old(self)@,
    {
        self.value = !self.value;
    }
}

impl Default for Erc20 {
    /// A contract whose flag is not set.
    fn default() -> (contract: Erc20)
        ensures
            contract@ == false,
    {
        Erc20 { value: false }
    }
}

} // verus!
