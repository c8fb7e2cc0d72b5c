//! The payload of a native bridge: a fixed greeting text.
//!
//! A managed-runtime caller reaches this library through a bridge function
//! that hands over opaque runtime handles and expects one text value back.
//! Everything the bridge returns is computed here: a constant string, built
//! fresh on every call, independent of any caller-supplied input. The bridge
//! itself (symbol naming, handle plumbing, conversion into the runtime's
//! string object) lives outside the library.

use vstd::prelude::*;

verus! {

/// The one text value the library ever produces, as a sequence of characters.
pub open spec fn greeting() -> Seq<char> {
    "XDDDDDD"@
}

/// Build the greeting afresh.
///
/// The result is exactly `greeting()`: the same fixed text on every call,
/// whatever the caller holds or passes around the call. The function touches
/// no state outside its own frame and cannot fail or panic.
pub fn hello_world() -> (s: String)
    ensures
        s@ == greeting(),
{
    String::from_str("XDDDDDD")
}

/// Every invocation returns the same fixed value: two results that each meet
/// the contract of `hello_world` are equal, whenever and wherever the two
/// calls were made.
pub proof fn lemma_same_value_every_call(r1: Seq<char>, r2: Seq<char>)
    requires
        r1 == greeting(),
        r2 == greeting(),
    ensures
        r1 == r2,
{
}

/// The result is never derived from a caller-supplied argument: a result of
/// `hello_world` equals such an argument only when the argument happens to
/// coincide with the fixed greeting itself.
pub proof fn lemma_independent_of_argument(result: Seq<char>, argument: Seq<char>)
    requires
        result == greeting(),
    ensures
        result == argument <==> argument == greeting(),
{
}

} // verus!
