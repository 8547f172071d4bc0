use vstd::prelude::*;
use vstd::string::*;

verus! {

/// Takes over what a formatter made of `content`: the formatted text where
/// the formatter succeeded, and otherwise `content` stays as it is.
pub fn handle_pretty_print_result<E>(content: &mut String, result: Result<String, E>)
    ensures
        final(content)@ == match result {
            Ok(pretty) => pretty@,
            Err(_) => old(content)@,
        },
{
    match result {
        Ok(pretty) => {
            *content = pretty;
        },
        Err(_) => {},
    }
}

} // verus!
