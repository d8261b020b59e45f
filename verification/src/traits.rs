use vstd::prelude::*;

verus! {

/// Something that either holds what it stands for or does not.
pub trait Valid {
    /// The fact that `valid` reports.
    spec fn is_valid(&self) -> bool;

    /// Whether the value holds what it stands for.
    fn valid(&self) -> (r: bool)
        ensures
            r == self.is_valid(),
    ;

    /// The negation of `valid`.
    fn invalid(&self) -> (r: bool)
        ensures
            r == !self.is_valid(),
    {
        !self.valid()
    }
}

} // verus!
