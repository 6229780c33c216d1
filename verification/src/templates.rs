//! The instruction texts of the collaboration modes.

use vstd::prelude::*;

verus! {

/// The plan mode instructions for the Gemini wire protocol: the common instructions, and the
/// addendum on a new line.
pub fn plan_for_gemini(plan: &str, addendum: &str) -> (result: String)
    ensures
        result@ == plan@ + "\n"@ + addendum@,
{
    let mut text = plan.to_owned();
    text.append("\n");
    text.append(addendum);
    text
}

} // verus!
