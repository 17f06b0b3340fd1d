//! Joining pieces of text.

use vstd::prelude::*;
use vstd::string::*;

verus! {

/// The text `a` followed by `b` followed by `c`.
pub fn join3(a: &str, b: &str, c: &str) -> (joined: String)
    ensures
        joined@ == a@ + b@ + c@,
{
    let mut joined = String::from_str(a);
    joined.append(b);
    joined.append(c);
    joined
}

/// The text `a` followed by `b`, `c` and `d`.
pub fn join4(a: &str, b: &str, c: &str, d: &str) -> (joined: String)
    ensures
        joined@ == a@ + b@ + c@ + d@,
{
    let mut joined = join3(a, b, c);
    joined.append(d);
    joined
}

} // verus!
