use vstd::prelude::*;

verus! {

pub open spec fn root_greeting() -> Seq<char> {
    "Hello, World!"@
}

/// The greeting served at the root path.
pub fn hello() -> (r: &'static str)
    ensures
        r@ == root_greeting(),
{
    "Hello, World!"
}

} // verus!
