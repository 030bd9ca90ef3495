use vstd::prelude::*;

verus! {

/// The commands that an identified user can send.
#[derive(Clone, Copy, Debug, PartialEq, Eq, Structural)]
pub enum Command {
    Get,
    Reset,
}

/// The first position at or after `i` that holds `c` (or the end).
pub open spec fn find_char(s: Seq<char>, c: char, i: int) -> int
    decreases s.len() - i,
{
    if i < 0 || i >= s.len() || s[i] == c {
        i
    } else {
        find_char(s, c, i + 1)
    }
}

/// The code of a character with ASCII capitals taken to lower case.
pub open spec fn ascii_lower(c: char) -> int {
    if 'A' <= c && c <= 'Z' {
        (c as u32) + 32
    } else {
        c as int
    }
}

/// Equality of two texts when ASCII letters are compared without regard to case.
pub open spec fn eq_ignore_ascii_case(a: Seq<char>, b: Seq<char>) -> bool {
    a.len() == b.len() && forall|i: int| 0 <= i < a.len() ==> ascii_lower(a[i]) == ascii_lower(b[i])
}

/// The leading word of a message (up to its first `' '`).
pub open spec fn command_word(s: Seq<char>) -> Seq<char> {
    s.subrange(0, find_char(s, ' ', 0))
}

/// The command a message holds, for a bot named `bot`. The leading word is a command
/// name, `/get` or `/reset`, optionally followed by `@` and a bot name, which must then
/// name this bot (ASCII case ignored); whatever follows the leading word is ignored.
pub open spec fn parse_command(s: Seq<char>, bot: Seq<char>) -> Option<Command> {
    let w = command_word(s);
    let q = find_char(w, '@', 0);
    let name = w.subrange(0, q);
    let addressed = q >= w.len() || eq_ignore_ascii_case(
        w.subrange(q + 1, find_char(w, '@', q + 1)),
        bot,
    );
    if !addressed {
        None
    } else if name == "/get"@ {
        Some(Command::Get)
    } else if name == "/reset"@ {
        Some(Command::Reset)
    } else {
        None
    }
}

fn find_char_from(s: &str, len: usize, c: char, i: usize) -> (r: usize)
    requires
        len == s@.len(),
        i <= len,
    ensures
        r == find_char(s@, c, i as int),
        i <= r <= len,
{
    let mut j: usize = i;
    while j < len && s.get_char(j) != c
        invariant
            len == s@.len(),
            i <= j <= len,
            find_char(s@, c, j as int) == find_char(s@, c, i as int),
        decreases len - j,
    {
        j = j + 1;
    }
    j
}

fn lower_char(c: char) -> (r: u32)
    ensures
        r == ascii_lower(c),
{
    if 'A' <= c && c <= 'Z' {
        (c as u32) + 32
    } else {
        c as u32
    }
}

fn str_eq_ignore_ascii_case(a: &str, b: &str) -> (r: bool)
    ensures
        r == eq_ignore_ascii_case(a@, b@),
{
    let n = a.unicode_len();
    if n != b.unicode_len() {
        return false;
    }
    let mut i: usize = 0;
    while i < n
        invariant
            n == a@.len(),
            n == b@.len(),
            i <= n,
            forall|k: int| 0 <= k < i ==> ascii_lower(a@[k]) == ascii_lower(b@[k]),
        decreases n - i,
    {
        if lower_char(a.get_char(i)) != lower_char(b.get_char(i)) {
            return false;
        }
        i = i + 1;
    }
    true
}

/// Whether two texts are equal, character by character.
pub fn str_eq(a: &str, b: &str) -> (r: bool)
    ensures
        r == (a@ == b@),
{
    let n = a.unicode_len();
    if n != b.unicode_len() {
        return false;
    }
    let mut i: usize = 0;
    while i < n
        invariant
            n == a@.len(),
            n == b@.len(),
            i <= n,
            forall|k: int| 0 <= k < i ==> a@[k] == b@[k],
        decreases n - i,
    {
        if a.get_char(i) != b.get_char(i) {
            return false;
        }
        i = i + 1;
    }
    assert(a@ =~= b@);
    true
}

impl Command {
    /// Reads the command that a message text holds for the bot named `bot_name`.
    pub fn parse(text: &str, bot_name: &str) -> (r: Option<Command>)
        ensures
            r == parse_command(text@, bot_name@),
    {
        let len = text.unicode_len();
        let p = find_char_from(text, len, ' ', 0);
        let w = text.substring_char(0, p);
        assert(w@ == command_word(text@));
        let wlen = w.unicode_len();
        let q = find_char_from(w, wlen, '@', 0);
        if q < wlen {
            let e = find_char_from(w, wlen, '@', q + 1);
            if !str_eq_ignore_ascii_case(w.substring_char(q + 1, e), bot_name) {
                return None;
            }
        }
        let name = w.substring_char(0, q);
        proof {
            reveal_strlit("/get");
            reveal_strlit("/reset");
        }
        if str_eq(name, "/get") {
            Some(Command::Get)
        } else if str_eq(name, "/reset") {
            Some(Command::Reset)
        } else {
            None
        }
    }
}

} // verus!
