pub mod fast_storage;
pub mod message_handlers;
pub mod guarantees;

use vstd::prelude::*;

verus! {

/// A display name made of two generated names, joined by a space.
pub fn generate_name(first: &str, second: &str) -> (r: String)
    ensures
        r@ == first@ + " "@ + second@,
{
    let mut name = String::from_str(first);
    name.append(" ");
    name.append(second);
    name
}

} // verus!
