//! Shadowed variables and string building.

use vstd::prelude::*;
use vstd::string::StringExecFns;

verus! {

/// Shadowing demonstration: the binding `a` starts as `"555"` and is
/// shadowed by the same text with `"a"` appended. The companion numeric
/// binding starts at five and a half and is shadowed by that value plus
/// two and a half; fractional numbers stay outside verified code, so the
/// sum is returned as the integer it is exactly equal to. The pair is
/// proved to be `"555a"` and `8`.
pub fn variables() -> (r: (String, u64))
    ensures
        r.0@ == "555a"@,
        r.1 == 8,
{
    let a = "555".to_owned();
    let a = a.concat("a");
    proof {
        reveal_strlit("555");
        reveal_strlit("a");
        reveal_strlit("555a");
        assert(a@ =~= "555a"@);
    }
    let b: u64 = 8;
    (a, b)
}

/// String building demonstration: an empty `String` grows by appending,
/// a string slice is converted to an owned `String`, and an owned string
/// is cloned. Returns the three strings, proved to read `"Howdy!"`,
/// `"toast"` and `"toast"`.
pub fn strings() -> (r: (String, String, String))
    ensures
        r.0@ == "Howdy!"@,
        r.1@ == "toast"@,
        r.2@ == "toast"@,
{
    let base = "toast";

    let mut a = String::new();
    a.append("Howdy!");
    proof {
        assert(a@ =~= "Howdy!"@);
    }

    let converted = base.to_owned();

    let copy = converted.clone();

    (a, converted, copy)
}

} // verus!
