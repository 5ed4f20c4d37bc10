//! Values of a closed kind, each with a number of its own.

use vstd::prelude::*;

verus! {

/// A value of a closed kind. Every value has a code, and no two values share
/// one: hashed collections store the code in place of the value.
pub trait Tag: Sized {
    /// The code of the value.
    spec fn code_of(self) -> u8;

    /// Computes the code of the value.
    fn code(&self) -> (c: u8)
        ensures
            c == self.code_of(),
    ;

    /// Values with the same code are the same value.
    proof fn lemma_code_is_injective(a: Self, b: Self)
        requires
            a.code_of() == b.code_of(),
        ensures
            a == b,
    ;
}

} // verus!
