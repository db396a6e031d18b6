use vstd::prelude::*;
use vstd::std_specs::cmp::PartialEqSpec;
use vstd::string::*;

use super::plugin::PluginTestError;

verus! {

/// How much of the daemon an error takes down.
#[derive(Clone, Copy, Debug, PartialEq, Eq)]
pub enum ErrorLevel {
    Recoverable,
    PartialBreakage,
    Critical,
}

/// Passes where `condition` holds, and fails with a message otherwise.
pub fn plug_assert(condition: bool) -> (result: Result<(), PluginTestError>)
    ensures
        condition ==> result is Ok,
        !condition ==> (result matches Err(error) && error@ == "false is not true"@),
{
    if !condition {
        return Err(PluginTestError::new("false is not true"));
    }
    Ok(())
}

/// The message of a failed comparison of two values, given how each prints.
pub open spec fn unequal_text(left: Seq<char>, right: Seq<char>) -> Seq<char> {
    left + " is not equal to "@ + right
}

/// Passes where the two values are equal, and fails with a message that
/// shows both otherwise.
pub fn plug_assert_eq<T: PartialEq + std::fmt::Display>(left: T, right: T) -> (result: Result<
    (),
    PluginTestError,
>)
    ensures
        T::obeys_eq_spec() ==> (result is Ok <==> left.eq_spec(&right)),
        result matches Err(error) ==> exists|shown_left: String, shown_right: String|
            {
                &&& #[trigger] to_string_from_display_ensures(&left, shown_left)
                &&& #[trigger] to_string_from_display_ensures(&right, shown_right)
                &&& error@ == unequal_text(shown_left@, shown_right@)
            },
{
    if left != right {
        let shown_left = left.to_string();
        let shown_right = right.to_string();
        let mut text = shown_left.clone();
        text.append(" is not equal to ");
        text.append(shown_right.as_str());
        return Err(PluginTestError::new(text.as_str()));
    }
    Ok(())
}

} // verus!
