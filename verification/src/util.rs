//! What every enumeration of the wizard offers.

use vstd::prelude::*;

verus! {

/// An enumeration that lists the values a menu offers, in the order in
/// which they are declared.
pub trait EnumIter: Sized {
    /// The values, in order.
    spec fn variants() -> Seq<Self>;

    /// The values, in order.
    fn iter() -> (all: Vec<Self>)
        ensures
            all@ == Self::variants(),
    ;
}

/// An enumeration whose values the wizard shows by name.
pub trait EnumString: Sized {
    /// The name under which the wizard shows the value.
    spec fn label(&self) -> Seq<char>;

    /// The name under which the wizard shows the value.
    fn to_string(&self) -> (s: String)
        ensures
            s@ == self.label(),
    ;
}

/// The names under which the wizard shows the values.
pub open spec fn labels<T: EnumString>(values: Seq<T>) -> Seq<Seq<char>> {
    Seq::new(values.len(), |i: int| values[i].label())
}

} // verus!
