//! The dialogue in which a chat sets itself up.

use vstd::prelude::*;
use vstd::string::StringExecFns;

verus! {

/// How far a chat has come in the dialogue.
#[derive(Clone, Debug)]
pub enum State {
    /// The chat has said nothing yet.
    Start,
    /// The chat has named its group.
    GroupName { group: String },
}

impl Default for State {
    fn default() -> (state: State)
        ensures
            state == State::Start,
    {
        State::Start
    }
}

/// What a chat is asked at the start of the dialogue.
pub open spec fn start_text() -> Seq<char> {
    "Привет. Введи свою группу"@
}

/// Writes what a chat is asked at the start of the dialogue.
pub fn start() -> (text: String)
    ensures
        text@ == start_text(),
{
    String::from_str("Привет. Введи свою группу")
}

} // verus!
