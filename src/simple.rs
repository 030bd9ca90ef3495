use vstd::prelude::*;
use crate::command::{str_eq, Command};

verus! {

/// The JSON string literal that serde_json writes for a text (quotes and escapes).
pub uninterp spec fn json_string_of(s: Seq<char>) -> Seq<char>;

/// The text that a JSON string literal holds, as serde_json reads it; `None` where the
/// input is not one JSON string.
pub uninterp spec fn json_string_value(t: Seq<char>) -> Option<Seq<char>>;

/// Relies on `serde_json::to_string` on a `str`: the text as a JSON string literal.
/// Serializing a `str` into memory does not fail.
#[verifier::external_body]
fn to_json_string(s: &str) -> (r: String)
    ensures
        r@ == json_string_of(s@),
{
    serde_json::to_string(s).unwrap_or_default()
}

/// Relies on `serde_json::from_str::<String>`: the text of a JSON string literal, or an
/// error where the input is not one.
#[verifier::external_body]
fn from_json_string(t: &str) -> (r: Option<String>)
    ensures
        r is Some <==> json_string_value(t@) is Some,
        r is Some ==> r->0@ == json_string_value(t@)->0,
{
    serde_json::from_str::<String>(t).ok()
}

/// The one-step dialogue: the first text of a conversation is kept, in the state itself,
/// as the user's name.
pub enum State {
    Start,
    GotUser(String),
}

pub enum StateModel {
    Start,
    GotUser(Seq<char>),
}

impl View for State {
    type V = StateModel;

    open spec fn view(&self) -> StateModel {
        match self {
            State::Start => StateModel::Start,
            State::GotUser(n) => StateModel::GotUser(n@),
        }
    }
}

/// What becomes of the stored state once a message has been handled.
pub enum Change {
    Stay,
    Update(State),
    Remove,
}

pub enum ChangeModel {
    Stay,
    Update(StateModel),
    Remove,
}

impl View for Change {
    type V = ChangeModel;

    open spec fn view(&self) -> ChangeModel {
        match self {
            Change::Stay => ChangeModel::Stay,
            Change::Update(s) => ChangeModel::Update(s@),
            Change::Remove => ChangeModel::Remove,
        }
    }
}

pub open spec fn start_prefix() -> Seq<char> {
    "{\"GotUser\":"@
}

/// The stored text of a state, as serde_json writes this enum: the unit variant as a JSON
/// string, the other as an object with the variant's name as its one key.
pub open spec fn simple_state_json(s: StateModel) -> Seq<char> {
    match s {
        StateModel::Start => "\"Start\""@,
        StateModel::GotUser(n) => start_prefix() + json_string_of(n) + "}"@,
    }
}

/// The state a stored text holds, in the compact form that `encode` writes.
pub open spec fn simple_state_of(t: Seq<char>) -> Option<StateModel> {
    let p = start_prefix();
    if t == "\"Start\""@ {
        Some(StateModel::Start)
    } else if t.len() > p.len() && t.subrange(0, p.len() as int) == p && t.last() == '}' {
        match json_string_value(t.subrange(p.len() as int, t.len() - 1)) {
            Some(n) => Some(StateModel::GotUser(n)),
            None => None,
        }
    } else {
        None
    }
}

impl State {
    /// The text to store for this state.
    pub fn encode(&self) -> (r: String)
        ensures
            r@ == simple_state_json(self@),
    {
        match self {
            State::Start => String::from_str("\"Start\""),
            State::GotUser(n) => {
                let mut r = String::from_str("{\"GotUser\":");
                let j = to_json_string(n.as_str());
                r.append(j.as_str());
                r.append("}");
                r
            },
        }
    }

    /// Reads a stored text back into a state; a text that holds none gives `None`.
    pub fn decode(t: &str) -> (r: Option<State>)
        ensures
            match simple_state_of(t@) {
                Some(s) => r is Some && r->0@ == s,
                None => r is None,
            },
    {
        proof {
            reveal_strlit("{\"GotUser\":");
        }
        if str_eq(t, "\"Start\"") {
            return Some(State::Start);
        }
        let len = t.unicode_len();
        let plen: usize = 11;
        if len <= plen || t.get_char(len - 1) != '}' || !str_eq(
            t.substring_char(0, plen),
            "{\"GotUser\":",
        ) {
            return None;
        }
        match from_json_string(t.substring_char(plen, len - 1)) {
            Some(n) => Some(State::GotUser(n)),
            None => None,
        }
    }
}

/// The prompt for a text sent in `Start` by a user named `name`.
pub open spec fn greeting_text(name: Seq<char>) -> Seq<char> {
    "Your full name is "@ + name + ". Now use /get or /reset."@
}

/// A message in `Start`: a text is kept as the user's name; without one, the name is
/// asked for.
pub fn start(text: Option<&str>) -> (r: (Change, String))
    ensures
        match text {
            Some(n) => r.0@ == ChangeModel::Update(StateModel::GotUser(n@)) && r.1@
                == greeting_text(n@),
            None => r.0@ == ChangeModel::Stay && r.1@ == "Please, send me your username."@,
        },
{
    match text {
        Some(name) => {
            let mut report = String::from_str("Your full name is ");
            report.append(name);
            report.append(". Now use /get or /reset.");
            (Change::Update(State::GotUser(String::from_str(name))), report)
        },
        None => (Change::Stay, String::from_str("Please, send me your username.")),
    }
}

/// A command from a user whose name is kept: `/get` shows the name, `/reset` forgets it.
pub fn got_username(name: &str, cmd: Command) -> (r: (Change, String))
    ensures
        match cmd {
            Command::Get => r.0@ == ChangeModel::Stay && r.1@ == "Here is your username: "@
                + name@ + "."@,
            Command::Reset => r.0@ == ChangeModel::Remove && r.1@
                == "Your username was reset."@,
        },
{
    match cmd {
        Command::Get => {
            let mut r = String::from_str("Here is your username: ");
            r.append(name);
            r.append(".");
            (Change::Stay, r)
        },
        Command::Reset => (Change::Remove, String::from_str("Your username was reset.")),
    }
}

/// The prompt for any message that is not a command while a name is kept.
pub fn invalid_command() -> (r: String)
    ensures
        r@ == "Please, send /get or /reset."@,
{
    String::from_str("Please, send /get or /reset.")
}

} // verus!
