use vstd::prelude::*;
use crate::command::str_eq;

verus! {

/// Where a conversation stands in the identification steps.
#[derive(Clone, Copy, Debug, PartialEq, Eq, Structural)]
pub enum State {
    Start,
    RequestLogin,
    RequestFullName,
    IdentifiedUser,
}

/// What becomes of a conversation's stored record once a message has been handled.
#[derive(Clone, Copy, Debug, PartialEq, Eq, Structural)]
pub enum Next {
    /// The record is left as it is.
    Stay,
    /// A new snapshot holding this state is appended.
    Update(State),
    /// All snapshots of the conversation are deleted.
    Remove,
}

pub open spec fn state_name(s: State) -> Seq<char> {
    match s {
        State::Start => "Start"@,
        State::RequestLogin => "RequestLogin"@,
        State::RequestFullName => "RequestFullName"@,
        State::IdentifiedUser => "IdentifiedUser"@,
    }
}

/// The stored text of a state: its name as a JSON string.
pub open spec fn state_json(s: State) -> Seq<char> {
    seq!['"'] + state_name(s) + seq!['"']
}

pub open spec fn is_json_space(c: char) -> bool {
    c == ' ' || c == '\t' || c == '\n' || c == '\r'
}

/// The first position at or after `i` that is not JSON white space (or the end).
pub open spec fn json_start(s: Seq<char>, i: int) -> int
    decreases s.len() - i,
{
    if i < 0 || i >= s.len() || !is_json_space(s[i]) {
        i
    } else {
        json_start(s, i + 1)
    }
}

/// The last position at or before `j` that follows no JSON white space (or the start).
pub open spec fn json_end(s: Seq<char>, j: int) -> int
    decreases j,
{
    if j <= 0 || j > s.len() || !is_json_space(s[j - 1]) {
        j
    } else {
        json_end(s, j - 1)
    }
}

/// The state that a stored text holds: the JSON string of a state's name, with JSON white
/// space allowed around it. Any other text holds no state.
pub open spec fn state_of_json(s: Seq<char>) -> Option<State> {
    let a = json_start(s, 0);
    if a >= s.len() {
        None
    } else {
        let body = s.subrange(a, json_end(s, s.len() as int));
        if body == state_json(State::Start) {
            Some(State::Start)
        } else if body == state_json(State::RequestLogin) {
            Some(State::RequestLogin)
        } else if body == state_json(State::RequestFullName) {
            Some(State::RequestFullName)
        } else if body == state_json(State::IdentifiedUser) {
            Some(State::IdentifiedUser)
        } else {
            None
        }
    }
}

/// The authoritative snapshot of a conversation's history: the most recent one.
pub open spec fn latest(history: Seq<Seq<char>>) -> Option<Seq<char>> {
    if history.len() == 0 {
        None
    } else {
        Some(history.last())
    }
}

/// What a read of the dialogue store gives for a history: the state of its latest
/// snapshot, or nothing where there is none or it does not decode.
pub open spec fn stored_state(history: Seq<Seq<char>>) -> Option<State> {
    match latest(history) {
        Some(t) => state_of_json(t),
        None => None,
    }
}

/// A conversation's history after `next` has been applied to it.
pub open spec fn history_after(history: Seq<Seq<char>>, next: Next) -> Seq<Seq<char>> {
    match next {
        Next::Stay => history,
        Next::Update(s) => history.push(state_json(s)),
        Next::Remove => Seq::empty(),
    }
}

/// The state a conversation is handled in: the stored one, or `Start` where none is stored.
pub open spec fn current_state(stored: Option<State>) -> State {
    match stored {
        Some(s) => s,
        None => State::Start,
    }
}

/// The text to store for a state.
pub fn encode_state(s: State) -> (r: String)
    ensures
        r@ == state_json(s),
{
    proof {
        reveal_strlit("\"Start\"");
        reveal_strlit("\"RequestLogin\"");
        reveal_strlit("\"RequestFullName\"");
        reveal_strlit("\"IdentifiedUser\"");
        reveal_strlit("Start");
        reveal_strlit("RequestLogin");
        reveal_strlit("RequestFullName");
        reveal_strlit("IdentifiedUser");
    }
    let r = match s {
        State::Start => String::from_str("\"Start\""),
        State::RequestLogin => String::from_str("\"RequestLogin\""),
        State::RequestFullName => String::from_str("\"RequestFullName\""),
        State::IdentifiedUser => String::from_str("\"IdentifiedUser\""),
    };
    assert(r@ =~= state_json(s));
    r
}

fn is_json_space_char(c: char) -> (r: bool)
    ensures
        r == is_json_space(c),
{
    c == ' ' || c == '\t' || c == '\n' || c == '\r'
}

fn json_start_from(s: &str, len: usize) -> (r: usize)
    requires
        len == s@.len(),
    ensures
        r == json_start(s@, 0),
        r <= len,
{
    let mut j: usize = 0;
    while j < len && is_json_space_char(s.get_char(j))
        invariant
            len == s@.len(),
            j <= len,
            json_start(s@, j as int) == json_start(s@, 0),
        decreases len - j,
    {
        j = j + 1;
    }
    j
}

fn json_end_from(s: &str, len: usize) -> (r: usize)
    requires
        len == s@.len(),
    ensures
        r == json_end(s@, len as int),
        r <= len,
{
    let mut j: usize = len;
    while j > 0 && is_json_space_char(s.get_char(j - 1))
        invariant
            len == s@.len(),
            j <= len,
            json_end(s@, j as int) == json_end(s@, len as int),
        decreases j,
    {
        j = j - 1;
    }
    j
}

proof fn lemma_json_end_after_start(s: Seq<char>, j: int)
    requires
        0 <= json_start(s, 0) < s.len(),
        json_start(s, 0) < j <= s.len(),
    ensures
        json_start(s, 0) < json_end(s, j) <= j,
    decreases j,
{
    lemma_json_start_stops(s, 0);
    if j > 0 && is_json_space(s[j - 1]) {
        lemma_json_end_after_start(s, j - 1);
    }
}

proof fn lemma_json_start_stops(s: Seq<char>, i: int)
    requires
        0 <= i <= s.len(),
    ensures
        i <= json_start(s, i) <= s.len(),
        json_start(s, i) < s.len() ==> !is_json_space(s[json_start(s, i)]),
    decreases s.len() - i,
{
    if i < s.len() && is_json_space(s[i]) {
        lemma_json_start_stops(s, i + 1);
    }
}

/// Reads a stored text back into a state; a text that holds none gives `None`.
pub fn decode_state(text: &str) -> (r: Option<State>)
    ensures
        r == state_of_json(text@),
{
    let len = text.unicode_len();
    let a = json_start_from(text, len);
    if a >= len {
        return None;
    }
    let b = json_end_from(text, len);
    proof {
        lemma_json_end_after_start(text@, len as int);
    }
    let body = text.substring_char(a, b);
    proof {
        reveal_strlit("\"Start\"");
        reveal_strlit("\"RequestLogin\"");
        reveal_strlit("\"RequestFullName\"");
        reveal_strlit("\"IdentifiedUser\"");
        reveal_strlit("Start");
        reveal_strlit("RequestLogin");
        reveal_strlit("RequestFullName");
        reveal_strlit("IdentifiedUser");
        assert("\"Start\""@ =~= state_json(State::Start));
        assert("\"RequestLogin\""@ =~= state_json(State::RequestLogin));
        assert("\"RequestFullName\""@ =~= state_json(State::RequestFullName));
        assert("\"IdentifiedUser\""@ =~= state_json(State::IdentifiedUser));
    }
    if str_eq(body, "\"Start\"") {
        Some(State::Start)
    } else if str_eq(body, "\"RequestLogin\"") {
        Some(State::RequestLogin)
    } else if str_eq(body, "\"RequestFullName\"") {
        Some(State::RequestFullName)
    } else if str_eq(body, "\"IdentifiedUser\"") {
        Some(State::IdentifiedUser)
    } else {
        None
    }
}

/// The state to handle a message in, from what a read of the store gave.
pub fn state_or_start(stored: Option<State>) -> (r: State)
    ensures
        r == current_state(stored),
{
    match stored {
        Some(s) => s,
        None => State::Start,
    }
}

/// The state to handle a message in, from the latest stored snapshot, if any.
pub fn state_from_record(record: Option<&str>) -> (r: State)
    ensures
        r == current_state(
            match record {
                Some(t) => state_of_json(t@),
                None => None,
            },
        ),
{
    match record {
        Some(t) => state_or_start(decode_state(t)),
        None => State::Start,
    }
}

/// The text to append for a change of state, if the change appends one.
pub fn snapshot_for(next: Next) -> (r: Option<String>)
    ensures
        match next {
            Next::Update(s) => r is Some && r->0@ == state_json(s),
            _ => r is None,
        },
{
    match next {
        Next::Update(s) => Some(encode_state(s)),
        _ => None,
    }
}

proof fn lemma_state_json_decodes(s: State)
    ensures
        state_of_json(state_json(s)) == Some(s),
{
    reveal_strlit("Start");
    reveal_strlit("RequestLogin");
    reveal_strlit("RequestFullName");
    reveal_strlit("IdentifiedUser");
    let t = state_json(s);
    assert(json_start(t, 0) == 0);
    assert(json_end(t, t.len() as int) == t.len());
    assert(t.subrange(0, t.len() as int) =~= t);
    assert(state_json(State::Start).len() == 7);
    assert(state_json(State::RequestLogin).len() == 14);
    assert(state_json(State::RequestFullName).len() == 17);
    assert(state_json(State::IdentifiedUser).len() == 16);
    assert(state_json(State::RequestFullName)[8] == 'F');
    assert(state_json(State::IdentifiedUser)[8] == 'i');
}

/// A conversation without any stored snapshot reads as absent, and is handled as `Start`.
pub proof fn lemma_absent_is_start(history: Seq<Seq<char>>)
    requires
        history.len() == 0,
    ensures
        stored_state(history) is None,
        current_state(stored_state(history)) == State::Start,
{
}

/// Read after write: once a state has been stored, a read gives that state back.
pub proof fn lemma_read_after_update(history: Seq<Seq<char>>, s: State)
    ensures
        stored_state(history_after(history, Next::Update(s))) == Some(s),
        current_state(stored_state(history_after(history, Next::Update(s)))) == s,
{
    lemma_state_json_decodes(s);
}

/// After removal a conversation reads as absent, so its next message is handled as `Start`.
pub proof fn lemma_removed_is_start(history: Seq<Seq<char>>)
    ensures
        stored_state(history_after(history, Next::Remove)) is None,
        current_state(stored_state(history_after(history, Next::Remove))) == State::Start,
{
}

} // verus!
