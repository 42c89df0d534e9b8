//! What the settings mean once they have been read from the environment.

use vstd::prelude::*;
use vstd::string::StringExecFns;

verus! {

/// The complaint about a required setting that is not set.
pub open spec fn missing_message(name: Seq<char>) -> Seq<char> {
    "Could not get the "@ + name + " env variable"@
}

/// The value of the required setting `name`, given what the environment
/// holds for it; where it holds nothing, the complaint to fail with.
pub fn get_env(name: &str, value: Option<String>) -> (r: Result<String, String>)
    ensures
        match r {
            Ok(found) => value == Some(found),
            Err(message) => value is None && message@ == missing_message(name@),
        },
{
    match value {
        Some(found) => Ok(found),
        None => {
            let message = String::from_str("Could not get the ").concat(name).concat(
                " env variable",
            );
            Err(message)
        },
    }
}

/// Whether events are pulled by polling: yes unless the setting says
/// `false`. An absent setting, and one that is neither `true` nor `false`,
/// leaves the default, which is to poll.
pub open spec fn polling_chosen(setting: Option<Seq<char>>) -> bool {
    !(setting matches Some(text) && text == "false"@)
}

/// Chooses between polling and the webhook from the setting's text.
pub fn use_polling(setting: Option<String>) -> (polling: bool)
    ensures
        polling == polling_chosen(
            match setting {
                Some(text) => Some(text@),
                None => None,
            },
        ),
{
    match setting {
        Some(text) => !text.eq(&"false".to_owned()),
        None => true,
    }
}

} // verus!
