use vstd::prelude::*;

verus! {

/// Unicode `White_Space` characters: the separators between the words of a name.
pub open spec fn is_space(c: char) -> bool {
    let u = c as u32;
    (0x09 <= u && u <= 0x0d) || u == 0x20 || u == 0x85 || u == 0xa0 || u == 0x1680 || (0x2000
        <= u && u <= 0x200a) || u == 0x2028 || u == 0x2029 || u == 0x202f || u == 0x205f || u
        == 0x3000
}

/// The first position at or after `i` that does not hold a space (or the end).
pub open spec fn skip_space(s: Seq<char>, i: int) -> int
    decreases s.len() - i,
{
    if i < 0 || i >= s.len() || !is_space(s[i]) {
        i
    } else {
        skip_space(s, i + 1)
    }
}

/// The first position at or after `i` that holds a space (or the end).
pub open spec fn word_end(s: Seq<char>, i: int) -> int
    decreases s.len() - i,
{
    if i < 0 || i >= s.len() || is_space(s[i]) {
        i
    } else {
        word_end(s, i + 1)
    }
}

/// The name that a text gives: its first word as the first name, its second word (if any)
/// as the last name; further words are not kept. A text without words gives no name.
pub open spec fn parse_name(s: Seq<char>) -> Option<(Seq<char>, Seq<char>)> {
    let a = skip_space(s, 0);
    if a >= s.len() {
        None
    } else {
        let b = word_end(s, a);
        let c = skip_space(s, b);
        if c >= s.len() {
            Some((s.subrange(a, b), Seq::<char>::empty()))
        } else {
            Some((s.subrange(a, b), s.subrange(c, word_end(s, c))))
        }
    }
}

/// A name is empty when both of its parts are.
pub open spec fn name_is_empty(n: (Seq<char>, Seq<char>)) -> bool {
    n.0.len() == 0 && n.1.len() == 0
}

/// What is shown for a name: both parts joined by a space, or a placeholder for an empty name.
pub open spec fn display_name(n: (Seq<char>, Seq<char>)) -> Seq<char> {
    if name_is_empty(n) {
        "Unknown user name"@
    } else {
        n.0 + seq![' '] + n.1
    }
}

pub fn is_space_char(c: char) -> (r: bool)
    ensures
        r == is_space(c),
{
    let u = c as u32;
    (0x09 <= u && u <= 0x0d) || u == 0x20 || u == 0x85 || u == 0xa0 || u == 0x1680 || (0x2000
        <= u && u <= 0x200a) || u == 0x2028 || u == 0x2029 || u == 0x202f || u == 0x205f || u
        == 0x3000
}

fn skip_space_from(s: &str, len: usize, i: usize) -> (r: usize)
    requires
        len == s@.len(),
        i <= len,
    ensures
        r == skip_space(s@, i as int),
        i <= r <= len,
{
    let mut j: usize = i;
    while j < len && is_space_char(s.get_char(j))
        invariant
            len == s@.len(),
            i <= j <= len,
            skip_space(s@, j as int) == skip_space(s@, i as int),
        decreases len - j,
    {
        j = j + 1;
    }
    j
}

fn word_end_from(s: &str, len: usize, i: usize) -> (r: usize)
    requires
        len == s@.len(),
        i <= len,
    ensures
        r == word_end(s@, i as int),
        i <= r <= len,
{
    let mut j: usize = i;
    while j < len && !is_space_char(s.get_char(j))
        invariant
            len == s@.len(),
            i <= j <= len,
            word_end(s@, j as int) == word_end(s@, i as int),
        decreases len - j,
    {
        j = j + 1;
    }
    j
}

/// A person's name as two parts; either part may be empty.
#[derive(Debug)]
pub struct FullName {
    pub first: String,
    pub last: String,
}

impl View for FullName {
    type V = (Seq<char>, Seq<char>);

    open spec fn view(&self) -> (Seq<char>, Seq<char>) {
        (self.first@, self.last@)
    }
}

impl Clone for FullName {
    fn clone(&self) -> (r: Self)
        ensures
            r@ == self@,
    {
        FullName { first: self.first.clone(), last: self.last.clone() }
    }
}

impl Default for FullName {
    fn default() -> (r: Self)
        ensures
            name_is_empty(r@),
    {
        FullName::new(String::new(), String::new())
    }
}

impl FullName {
    pub fn new(first: String, last: String) -> (r: Self)
        ensures
            r@ == (first@, last@),
    {
        FullName { first, last }
    }

    /// A name from two optional parts: there is one only when both parts are given.
    pub fn try_new(first: Option<String>, last: Option<String>) -> (r: Option<Self>)
        ensures
            r is Some <==> (first is Some && last is Some),
            r is Some ==> r->0@ == (first->0@, last->0@),
    {
        match (first, last) {
            (Some(first), Some(last)) => Some(FullName::new(first, last)),
            _ => None,
        }
    }

    /// Reads a name from free text: the first word is the first name, the second word
    /// the last name (empty when there is none); further words are dropped.
    pub fn try_from_str(name: &str) -> (r: Option<Self>)
        ensures
            r is Some <==> parse_name(name@) is Some,
            r is Some ==> r->0@ == parse_name(name@)->0,
    {
        let len = name.unicode_len();
        let a = skip_space_from(name, len, 0);
        if a >= len {
            return None;
        }
        let b = word_end_from(name, len, a);
        let c = skip_space_from(name, len, b);
        let first = String::from_str(name.substring_char(a, b));
        if c >= len {
            Some(FullName::new(first, String::new()))
        } else {
            let d = word_end_from(name, len, c);
            Some(FullName::new(first, String::from_str(name.substring_char(c, d))))
        }
    }

    pub fn is_empty(&self) -> (r: bool)
        ensures
            r == name_is_empty(self@),
    {
        self.first.as_str().is_empty() && self.last.as_str().is_empty()
    }

    /// The name as shown to its owner.
    pub fn name(&self) -> (r: String)
        ensures
            r@ == display_name(self@),
    {
        if self.is_empty() {
            proof {
                reveal_strlit("Unknown user name");
            }
            return String::from_str("Unknown user name");
        }
        let mut r = self.first.clone();
        r.append(" ");
        r.append(self.last.as_str());
        proof {
            reveal_strlit(" ");
            assert(r@ =~= self.first@ + seq![' '] + self.last@);
        }
        r
    }
}

} // verus!
