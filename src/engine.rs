use vstd::prelude::*;
use crate::command::{parse_command, Command};
use crate::dialogue::{current_state, history_after, stored_state, Next, State};
use crate::user::{parse_name, FullName};

verus! {

/// What the transport hands over of an inbound message.
pub struct Inbound {
    /// The message's text, if it has one.
    pub text: Option<String>,
    /// The sender's public handle, where the chat shows one.
    pub username: Option<String>,
    /// The sender's first name, as the chat shows it.
    pub first_name: Option<String>,
    /// The sender's last name, as the chat shows it.
    pub last_name: Option<String>,
}

/// The answers of the profile store gathered so far while handling one message.
pub struct Lookups {
    /// The login recorded for the conversation: `None` while not read yet.
    pub stored_login: Option<Option<String>>,
    /// Whether a name is on file for the login asked about: `None` while not read yet.
    pub name_on_file: Option<bool>,
}

/// The prompt sent back for a message.
pub enum Reply {
    SayHello,
    AskLogin,
    AskFullName,
    RepeatFullName,
    InvalidFullName,
    Identified,
    YourLogin(String),
    WasReset,
    UseCommands,
}

pub enum ReplyModel {
    SayHello,
    AskLogin,
    AskFullName,
    RepeatFullName,
    InvalidFullName,
    Identified,
    YourLogin(Seq<char>),
    WasReset,
    UseCommands,
}

impl View for Reply {
    type V = ReplyModel;

    open spec fn view(&self) -> ReplyModel {
        match self {
            Reply::SayHello => ReplyModel::SayHello,
            Reply::AskLogin => ReplyModel::AskLogin,
            Reply::AskFullName => ReplyModel::AskFullName,
            Reply::RepeatFullName => ReplyModel::RepeatFullName,
            Reply::InvalidFullName => ReplyModel::InvalidFullName,
            Reply::Identified => ReplyModel::Identified,
            Reply::YourLogin(l) => ReplyModel::YourLogin(l@),
            Reply::WasReset => ReplyModel::WasReset,
            Reply::UseCommands => ReplyModel::UseCommands,
        }
    }
}

/// A name to record under a login.
pub struct NameRecord {
    pub login: String,
    pub name: FullName,
}

/// The decision on one message: the profile writes to make, in this order (login, then
/// name), then the change to the dialogue record, then the prompt to send.
pub struct Outcome {
    /// A login to record for the conversation.
    pub record_login: Option<String>,
    /// A name to record under a login.
    pub record_name: Option<NameRecord>,
    pub next: Next,
    pub reply: Reply,
}

pub struct OutcomeModel {
    pub record_login: Option<Seq<char>>,
    pub record_name: Option<(Seq<char>, (Seq<char>, Seq<char>))>,
    pub next: Next,
    pub reply: ReplyModel,
}

/// One step of handling a message: a read the decision waits for, or the decision.
pub enum Step {
    /// Read the login recorded for the conversation.
    ReadLogin,
    /// Read whether a name is on file for this login.
    ReadName(String),
    Done(Outcome),
}

pub enum StepModel {
    ReadLogin,
    ReadName(Seq<char>),
    Done(OutcomeModel),
}

impl View for Outcome {
    type V = OutcomeModel;

    open spec fn view(&self) -> OutcomeModel {
        OutcomeModel {
            record_login: opt_view(self.record_login),
            record_name: match self.record_name {
                Some(n) => Some((n.login@, n.name@)),
                None => None,
            },
            next: self.next,
            reply: self.reply@,
        }
    }
}

impl View for Step {
    type V = StepModel;

    open spec fn view(&self) -> StepModel {
        match self {
            Step::ReadLogin => StepModel::ReadLogin,
            Step::ReadName(l) => StepModel::ReadName(l@),
            Step::Done(o) => StepModel::Done(o@),
        }
    }
}

pub open spec fn opt_view(o: Option<String>) -> Option<Seq<char>> {
    match o {
        Some(s) => Some(s@),
        None => None,
    }
}

pub open spec fn lookup_view(o: Option<Option<String>>) -> Option<Option<Seq<char>>> {
    match o {
        Some(l) => Some(opt_view(l)),
        None => None,
    }
}

/// The name that the chat itself shows, when it shows both parts.
pub open spec fn name_hint(m: &Inbound) -> Option<(Seq<char>, Seq<char>)> {
    match (m.first_name, m.last_name) {
        (Some(f), Some(l)) => Some((f@, l@)),
        _ => None,
    }
}

pub open spec fn done(
    record_login: Option<Seq<char>>,
    record_name: Option<(Seq<char>, (Seq<char>, Seq<char>))>,
    next: Next,
    reply: ReplyModel,
) -> StepModel {
    StepModel::Done(OutcomeModel { record_login, record_name, next, reply })
}

/// Once a login is secured (and recorded, where `recorded` holds it): a name that the chat
/// shows is recorded and the user is identified; else a name on file identifies the user;
/// else the full name is asked for.
pub open spec fn name_step(
    login: Seq<char>,
    recorded: Option<Seq<char>>,
    hint: Option<(Seq<char>, Seq<char>)>,
    name_on_file: Option<bool>,
) -> StepModel {
    match hint {
        Some(n) => done(
            recorded,
            Some((login, n)),
            Next::Update(State::IdentifiedUser),
            ReplyModel::Identified,
        ),
        None => match name_on_file {
            None => StepModel::ReadName(login),
            Some(true) => done(
                recorded,
                None,
                Next::Update(State::IdentifiedUser),
                ReplyModel::Identified,
            ),
            Some(false) => done(
                recorded,
                None,
                Next::Update(State::RequestFullName),
                ReplyModel::AskFullName,
            ),
        },
    }
}

/// The step for a stored login that a decision needs: read it, or, where none is
/// recorded, go back to asking for it.
pub open spec fn with_login(
    stored_login: Option<Option<Seq<char>>>,
    found: spec_fn(Seq<char>) -> StepModel,
) -> StepModel {
    match stored_login {
        None => StepModel::ReadLogin,
        Some(None) => done(None, None, Next::Update(State::RequestLogin), ReplyModel::AskLogin),
        Some(Some(l)) => found(l),
    }
}

/// The transition table: what a message does in each state, given the profile answers
/// read so far.
pub open spec fn decide_spec(
    state: State,
    text: Option<Seq<char>>,
    username: Option<Seq<char>>,
    hint: Option<(Seq<char>, Seq<char>)>,
    bot: Seq<char>,
    stored_login: Option<Option<Seq<char>>>,
    name_on_file: Option<bool>,
) -> StepModel {
    match state {
        State::Start => {
            if text is None {
                done(None, None, Next::Stay, ReplyModel::SayHello)
            } else {
                match username {
                    Some(u) => name_step(u, Some(u), hint, name_on_file),
                    None => with_login(
                        stored_login,
                        |l: Seq<char>| name_step(l, None, hint, name_on_file),
                    ),
                }
            }
        },
        State::RequestLogin => match text {
            Some(t) => name_step(t, Some(t), hint, name_on_file),
            None => done(None, None, Next::Stay, ReplyModel::AskLogin),
        },
        State::RequestFullName => match text {
            None => done(None, None, Next::Stay, ReplyModel::RepeatFullName),
            Some(t) => match parse_name(t) {
                None => done(None, None, Next::Stay, ReplyModel::InvalidFullName),
                Some(n) => with_login(
                    stored_login,
                    |l: Seq<char>|
                        done(
                            None,
                            Some((l, n)),
                            Next::Update(State::IdentifiedUser),
                            ReplyModel::Identified,
                        ),
                ),
            },
        },
        State::IdentifiedUser => match text {
            Some(t) => match parse_command(t, bot) {
                Some(Command::Get) => with_login(
                    stored_login,
                    |l: Seq<char>| done(None, None, Next::Stay, ReplyModel::YourLogin(l)),
                ),
                Some(Command::Reset) => done(None, None, Next::Remove, ReplyModel::WasReset),
                None => done(None, None, Next::Stay, ReplyModel::UseCommands),
            },
            None => done(None, None, Next::Stay, ReplyModel::UseCommands),
        },
    }
}

fn clone_opt(o: &Option<String>) -> (r: Option<String>)
    ensures
        opt_view(r) == opt_view(*o),
{
    match o {
        Some(s) => Some(s.clone()),
        None => None,
    }
}

fn done_step(
    record_login: Option<String>,
    record_name: Option<NameRecord>,
    next: Next,
    reply: Reply,
) -> (r: Step)
    ensures
        r@ == done(
            opt_view(record_login),
            match record_name {
                Some(n) => Some((n.login@, n.name@)),
                None => None,
            },
            next,
            reply@,
        ),
{
    Step::Done(Outcome { record_login, record_name, next, reply })
}

fn name_step_exec(
    login: &String,
    record: bool,
    hint: Option<FullName>,
    name_on_file: Option<bool>,
) -> (r: Step)
    ensures
        r@ == name_step(
            login@,
            if record {
                Some(login@)
            } else {
                None
            },
            match hint {
                Some(n) => Some(n@),
                None => None,
            },
            name_on_file,
        ),
{
    let recorded = if record {
        Some(login.clone())
    } else {
        None
    };
    match hint {
        Some(n) => done_step(
            recorded,
            Some(NameRecord { login: login.clone(), name: n }),
            Next::Update(State::IdentifiedUser),
            Reply::Identified,
        ),
        None => match name_on_file {
            None => Step::ReadName(login.clone()),
            Some(true) => done_step(
                recorded,
                None,
                Next::Update(State::IdentifiedUser),
                Reply::Identified,
            ),
            Some(false) => done_step(
                recorded,
                None,
                Next::Update(State::RequestFullName),
                Reply::AskFullName,
            ),
        },
    }
}

/// Decides what a message does in `state`, for the bot named `bot_name`, given the
/// profile answers in `seen`. Where the decision waits for a read, the step names it; the
/// caller makes the read, records the answer in `seen` and asks again.
pub fn decide(state: State, msg: &Inbound, bot_name: &str, seen: &Lookups) -> (r: Step)
    ensures
        r@ == decide_spec(
            state,
            opt_view(msg.text),
            opt_view(msg.username),
            name_hint(msg),
            bot_name@,
            lookup_view(seen.stored_login),
            seen.name_on_file,
        ),
{
    let hint = FullName::try_new(clone_opt(&msg.first_name), clone_opt(&msg.last_name));
    match state {
        State::Start => {
            if msg.text.is_none() {
                return done_step(None, None, Next::Stay, Reply::SayHello);
            }
            match &msg.username {
                Some(u) => name_step_exec(u, true, hint, seen.name_on_file),
                None => match &seen.stored_login {
                    None => Step::ReadLogin,
                    Some(None) => done_step(
                        None,
                        None,
                        Next::Update(State::RequestLogin),
                        Reply::AskLogin,
                    ),
                    Some(Some(l)) => name_step_exec(l, false, hint, seen.name_on_file),
                },
            }
        },
        State::RequestLogin => match &msg.text {
            Some(t) => name_step_exec(t, true, hint, seen.name_on_file),
            None => done_step(None, None, Next::Stay, Reply::AskLogin),
        },
        State::RequestFullName => match &msg.text {
            None => done_step(None, None, Next::Stay, Reply::RepeatFullName),
            Some(t) => match FullName::try_from_str(t.as_str()) {
                None => done_step(None, None, Next::Stay, Reply::InvalidFullName),
                Some(n) => match &seen.stored_login {
                    None => Step::ReadLogin,
                    Some(None) => done_step(
                        None,
                        None,
                        Next::Update(State::RequestLogin),
                        Reply::AskLogin,
                    ),
                    Some(Some(l)) => done_step(
                        None,
                        Some(NameRecord { login: l.clone(), name: n }),
                        Next::Update(State::IdentifiedUser),
                        Reply::Identified,
                    ),
                },
            },
        },
        State::IdentifiedUser => {
            let cmd = match &msg.text {
                Some(t) => Command::parse(t.as_str(), bot_name),
                None => None,
            };
            match cmd {
                Some(Command::Get) => match &seen.stored_login {
                    None => Step::ReadLogin,
                    Some(None) => done_step(
                        None,
                        None,
                        Next::Update(State::RequestLogin),
                        Reply::AskLogin,
                    ),
                    Some(Some(l)) => done_step(
                        None,
                        None,
                        Next::Stay,
                        Reply::YourLogin(l.clone()),
                    ),
                },
                Some(Command::Reset) => done_step(None, None, Next::Remove, Reply::WasReset),
                None => done_step(None, None, Next::Stay, Reply::UseCommands),
            }
        },
    }
}

/// The text of a prompt.
pub open spec fn reply_text(r: ReplyModel) -> Seq<char> {
    match r {
        ReplyModel::SayHello => "Say hello to start the dialogue."@,
        ReplyModel::AskLogin => "Please send me your username."@,
        ReplyModel::AskFullName => "Please send me your full name (first and last name)."@,
        ReplyModel::RepeatFullName => "Please send me your full name."@,
        ReplyModel::InvalidFullName => "Invalid full name."@,
        ReplyModel::Identified =>
            "You are identified. Use /get to get your user information and /reset to flush it."@,
        ReplyModel::YourLogin(l) => "Here is your username: "@ + l + "."@,
        ReplyModel::WasReset =>
            "Your username was reset. Write any message to start the dialogue again."@,
        ReplyModel::UseCommands => "Please, send /get or /reset."@,
    }
}

impl Reply {
    /// The text sent to the user for this prompt.
    pub fn text(&self) -> (r: String)
        ensures
            r@ == reply_text(self@),
    {
        match self {
            Reply::SayHello => String::from_str("Say hello to start the dialogue."),
            Reply::AskLogin => String::from_str("Please send me your username."),
            Reply::AskFullName => String::from_str(
                "Please send me your full name (first and last name).",
            ),
            Reply::RepeatFullName => String::from_str("Please send me your full name."),
            Reply::InvalidFullName => String::from_str("Invalid full name."),
            Reply::Identified => String::from_str(
                "You are identified. Use /get to get your user information and /reset to flush it.",
            ),
            Reply::YourLogin(l) => {
                let mut r = String::from_str("Here is your username: ");
                r.append(l.as_str());
                r.append(".");
                r
            },
            Reply::WasReset => String::from_str(
                "Your username was reset. Write any message to start the dialogue again.",
            ),
            Reply::UseCommands => String::from_str("Please, send /get or /reset."),
        }
    }
}

impl Lookups {
    /// No answers read yet.
    pub fn new() -> (r: Lookups)
        ensures
            r.stored_login is None,
            r.name_on_file is None,
    {
        Lookups { stored_login: None, name_on_file: None }
    }
}

/// Handling settles: once both profile answers are in, the step is a decision, not a read.
/// So a caller that answers each read it is asked for gets a decision within three steps.
pub proof fn lemma_answers_settle(
    state: State,
    text: Option<Seq<char>>,
    username: Option<Seq<char>>,
    hint: Option<(Seq<char>, Seq<char>)>,
    bot: Seq<char>,
    stored_login: Option<Seq<char>>,
    name_on_file: bool,
)
    ensures
        decide_spec(
            state,
            text,
            username,
            hint,
            bot,
            Some(stored_login),
            Some(name_on_file),
        ) is Done,
{
}

/// A `/reset` from an identified user removes the dialogue record without any profile
/// write, and the conversation's next message is then handled in `Start`.
pub proof fn lemma_reset_returns_to_start(
    text: Seq<char>,
    username: Option<Seq<char>>,
    hint: Option<(Seq<char>, Seq<char>)>,
    bot: Seq<char>,
    stored_login: Option<Option<Seq<char>>>,
    name_on_file: Option<bool>,
    history: Seq<Seq<char>>,
)
    requires
        parse_command(text, bot) == Some(Command::Reset),
    ensures
        decide_spec(
            State::IdentifiedUser,
            Some(text),
            username,
            hint,
            bot,
            stored_login,
            name_on_file,
        ) == done(None, None, Next::Remove, ReplyModel::WasReset),
        current_state(stored_state(history_after(history, Next::Remove))) == State::Start,
{
}

} // verus!
