//! Structs and enums: an empty struct, a tuple struct with an explicit
//! default, and a plain enumeration of countries.

use vstd::prelude::*;
use vstd::string::StringExecFns;

verus! {

/// A struct with no fields at all.
#[derive(Debug)]
pub struct EmptyStruct {}

/// A tuple struct holding a single owned string.
#[derive(Debug, Clone)]
pub struct TupleStruct(pub String);

impl Default for TupleStruct {
    /// The default tuple struct holds the empty string.
    fn default() -> (r: Self)
        ensures
            r.0@ == Seq::<char>::empty(),
    {
        TupleStruct(String::new())
    }
}

/// Struct demonstration: builds an empty struct, a tuple struct holding
/// `"example"`, and a defaulted tuple struct holding the empty string,
/// each pinned by the contract.
pub fn structs() -> (r: (EmptyStruct, TupleStruct, TupleStruct))
    ensures
        r.1.0@ == "example"@,
        r.2.0@ == Seq::<char>::empty(),
{
    let empty = EmptyStruct {};

    let tuple = TupleStruct(String::from_str("example"));

    let defaulted = TupleStruct::default();

    (empty, tuple, defaulted)
}

/// A closed enumeration of countries.
#[derive(Debug, Clone, Copy, PartialEq, Eq, Structural)]
pub enum Countries {
    UnitedStates,
    Canada,
    Mexico,
}

/// The position of a country in the enumeration's declaration order.
pub open spec fn spec_country_index(c: Countries) -> u32 {
    match c {
        Countries::UnitedStates => 0,
        Countries::Canada => 1,
        Countries::Mexico => 2,
    }
}

/// Converts a country to its position in the declaration order: the first
/// listed variant yields `0`, the next `1`, the last `2`.
pub fn country_index(c: Countries) -> (n: u32)
    ensures
        n == spec_country_index(c),
{
    match c {
        Countries::UnitedStates => 0,
        Countries::Canada => 1,
        Countries::Mexico => 2,
    }
}

/// Enum demonstration: picks the variant `Canada` and converts the first
/// listed variant to an integer. The contract proves the chosen variant
/// and that the first variant converts to `0`.
pub fn enums() -> (r: (Countries, u32))
    ensures
        r.0 == Countries::Canada,
        r.1 == 0,
{
    let country = Countries::Canada;
    let first_as_integer = country_index(Countries::UnitedStates);
    (country, first_as_integer)
}

/// A repository-wide alias mapping string keys to the closed enumeration
/// of countries.
pub type MyMap = std::collections::HashMap<String, Countries>;

} // verus!
