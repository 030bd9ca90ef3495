use bot_core::command::Command;
use bot_core::dialogue::{state_from_record, Next, State};
use bot_core::engine::{decide, Inbound, Lookups, Outcome, Reply, Step};

const BOT: &str = "dialogue_bot";

fn msg(text: Option<&str>, username: Option<&str>, names: Option<(&str, &str)>) -> Inbound {
    Inbound {
        text: text.map(|t| t.to_string()),
        username: username.map(|u| u.to_string()),
        first_name: names.map(|n| n.0.to_string()),
        last_name: names.map(|n| n.1.to_string()),
    }
}

/// Runs one message to its decision, answering each read from the given profile
/// (the login of the conversation, and the logins that have a name on file).
fn run(state: State, m: &Inbound, login: Option<&str>, named: &[&str]) -> (Outcome, Vec<String>) {
    let mut seen = Lookups::new();
    let mut reads = Vec::new();
    for _ in 0..3 {
        match decide(state, m, BOT, &seen) {
            Step::ReadLogin => {
                reads.push("login".to_string());
                seen.stored_login = Some(login.map(|l| l.to_string()));
            }
            Step::ReadName(l) => {
                reads.push(format!("name:{l}"));
                seen.name_on_file = Some(named.contains(&l.as_str()));
            }
            Step::Done(o) => return (o, reads),
        }
    }
    panic!("no decision after three steps");
}

fn login_of(o: &Outcome) -> Option<String> {
    o.record_login.clone()
}

fn name_of(o: &Outcome) -> Option<(String, String, String)> {
    o.record_name
        .as_ref()
        .map(|n| (n.login.clone(), n.name.first.clone(), n.name.last.clone()))
}

#[test]
fn scenario_new_user_with_handle() {
    let state = state_from_record(None);
    assert_eq!(state, State::Start);
    let (o, reads) = run(state, &msg(Some("hello"), Some("ada"), None), None, &[]);
    assert_eq!(reads, vec!["name:ada".to_string()]);
    assert_eq!(login_of(&o), Some("ada".to_string()));
    assert!(name_of(&o).is_none());
    assert_eq!(o.next, Next::Update(State::RequestFullName));
    assert!(matches!(o.reply, Reply::AskFullName));
    assert_eq!(o.reply.text(), "Please send me your full name (first and last name).");
}

#[test]
fn scenario_full_name_identifies() {
    let (o, reads) = run(State::RequestFullName, &msg(Some("Ada Lovelace"), None, None), Some("ada"), &[]);
    assert_eq!(reads, vec!["login".to_string()]);
    assert!(login_of(&o).is_none());
    assert_eq!(name_of(&o), Some(("ada".to_string(), "Ada".to_string(), "Lovelace".to_string())));
    assert_eq!(o.next, Next::Update(State::IdentifiedUser));
    assert!(matches!(o.reply, Reply::Identified));
    assert_eq!(
        o.reply.text(),
        "You are identified. Use /get to get your user information and /reset to flush it."
    );
}

#[test]
fn scenario_get_replies_login() {
    let (o, _) = run(State::IdentifiedUser, &msg(Some("/get"), None, None), Some("ada"), &["ada"]);
    assert_eq!(o.next, Next::Stay);
    assert!(login_of(&o).is_none() && name_of(&o).is_none());
    let text = o.reply.text();
    assert_eq!(text, "Here is your username: ada.");
    assert!(text.contains("ada"));
}

#[test]
fn reset_removes_record_and_restarts() {
    let (o, reads) = run(State::IdentifiedUser, &msg(Some("/reset"), None, None), Some("ada"), &["ada"]);
    assert!(reads.is_empty());
    assert_eq!(o.next, Next::Remove);
    assert!(matches!(o.reply, Reply::WasReset));
    assert_eq!(
        o.reply.text(),
        "Your username was reset. Write any message to start the dialogue again."
    );
    // the record is gone: the next message reads as absent and is handled in Start
    let state = state_from_record(None);
    assert_eq!(state, State::Start);
    let (o, _) = run(state, &msg(Some("hi"), None, None), Some("ada"), &["ada"]);
    assert_eq!(o.next, Next::Update(State::IdentifiedUser));
}

#[test]
fn start_without_text_says_hello() {
    let (o, reads) = run(State::Start, &msg(None, Some("ada"), None), None, &[]);
    assert!(reads.is_empty());
    assert_eq!(o.next, Next::Stay);
    assert_eq!(o.reply.text(), "Say hello to start the dialogue.");
}

#[test]
fn start_with_handle_and_chat_name() {
    let (o, reads) = run(State::Start, &msg(Some("hi"), Some("ada"), Some(("Ada", "Lovelace"))), None, &[]);
    assert!(reads.is_empty());
    assert_eq!(login_of(&o), Some("ada".to_string()));
    assert_eq!(name_of(&o), Some(("ada".to_string(), "Ada".to_string(), "Lovelace".to_string())));
    assert_eq!(o.next, Next::Update(State::IdentifiedUser));
}

#[test]
fn start_with_stored_login_and_name() {
    let (o, reads) = run(State::Start, &msg(Some("hi"), None, None), Some("ada"), &["ada"]);
    assert_eq!(reads, vec!["login".to_string(), "name:ada".to_string()]);
    assert!(login_of(&o).is_none());
    assert_eq!(o.next, Next::Update(State::IdentifiedUser));
    assert!(matches!(o.reply, Reply::Identified));
}

#[test]
fn start_without_any_login_asks_for_it() {
    let (o, _) = run(State::Start, &msg(Some("hi"), None, None), None, &[]);
    assert_eq!(o.next, Next::Update(State::RequestLogin));
    assert_eq!(o.reply.text(), "Please send me your username.");
}

#[test]
fn request_login_records_text() {
    let (o, reads) = run(State::RequestLogin, &msg(Some("ada"), None, None), None, &[]);
    assert_eq!(reads, vec!["name:ada".to_string()]);
    assert_eq!(login_of(&o), Some("ada".to_string()));
    assert_eq!(o.next, Next::Update(State::RequestFullName));
    let (o, _) = run(State::RequestLogin, &msg(Some("ada"), None, None), None, &["ada"]);
    assert_eq!(o.next, Next::Update(State::IdentifiedUser));
}

#[test]
fn request_login_without_text_repeats() {
    let (o, _) = run(State::RequestLogin, &msg(None, None, None), None, &[]);
    assert_eq!(o.next, Next::Stay);
    assert!(matches!(o.reply, Reply::AskLogin));
}

#[test]
fn request_full_name_invalid_and_missing() {
    let (o, _) = run(State::RequestFullName, &msg(Some("   "), None, None), Some("ada"), &[]);
    assert_eq!(o.next, Next::Stay);
    assert_eq!(o.reply.text(), "Invalid full name.");
    let (o, _) = run(State::RequestFullName, &msg(None, None, None), Some("ada"), &[]);
    assert_eq!(o.next, Next::Stay);
    assert_eq!(o.reply.text(), "Please send me your full name.");
}

#[test]
fn request_full_name_without_login_goes_back() {
    let (o, _) = run(State::RequestFullName, &msg(Some("Ada Lovelace"), None, None), None, &[]);
    assert!(name_of(&o).is_none());
    assert_eq!(o.next, Next::Update(State::RequestLogin));
    assert!(matches!(o.reply, Reply::AskLogin));
}

#[test]
fn get_without_login_goes_back() {
    let (o, _) = run(State::IdentifiedUser, &msg(Some("/get"), None, None), None, &[]);
    assert_eq!(o.next, Next::Update(State::RequestLogin));
}

#[test]
fn unknown_input_when_identified() {
    for t in [Some("hello"), Some("/start"), Some("/get@other_bot"), None] {
        let (o, _) = run(State::IdentifiedUser, &msg(t, None, None), Some("ada"), &[]);
        assert_eq!(o.next, Next::Stay);
        assert_eq!(o.reply.text(), "Please, send /get or /reset.");
    }
}

#[test]
fn command_parsing() {
    assert_eq!(Command::parse("/get", BOT), Some(Command::Get));
    assert_eq!(Command::parse("/reset", BOT), Some(Command::Reset));
    assert_eq!(Command::parse("/get now please", BOT), Some(Command::Get));
    assert_eq!(Command::parse("/get@Dialogue_Bot", BOT), Some(Command::Get));
    assert_eq!(Command::parse("/reset@other_bot", BOT), None);
    assert_eq!(Command::parse("/GET", BOT), None);
    assert_eq!(Command::parse(" /get", BOT), None);
    assert_eq!(Command::parse("get", BOT), None);
    assert_eq!(Command::parse("", BOT), None);
}

#[test]
fn two_answers_always_decide() {
    let states = [State::Start, State::RequestLogin, State::RequestFullName, State::IdentifiedUser];
    let texts = [None, Some("x"), Some("/get"), Some("Ada Lovelace")];
    for s in states {
        for t in texts {
            for login in [None, Some("ada".to_string())] {
                let seen = Lookups { stored_login: Some(login.clone()), name_on_file: Some(false) };
                assert!(matches!(decide(s, &msg(t, None, None), BOT, &seen), Step::Done(_)));
            }
        }
    }
}
