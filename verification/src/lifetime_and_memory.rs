//! Lifetimes and memory: values that borrow from others, values shared by
//! reference counting, and a mood that changes behind a lock.

use std::rc::Rc;
use std::sync::Arc;
use vstd::prelude::*;
use vstd::string::StringExecFns;

verus! {

/// Someone who owns their name.
pub struct Person {
    pub name: String,
}

/// A company, which borrows its boss: the boss outlives the company.
pub struct Company<'t> {
    pub name: String,
    pub boss: &'t Person,
}

impl Person {
    /// Lends out the person's name for as long as the person is borrowed.
    pub fn get_ref_name(&self) -> (name: &String)
        ensures
            name == self.name,
    {
        &self.name
    }
}

/// Someone who only borrows their name.
pub struct Guest<'a> {
    pub name: &'a str,
}

impl<'a> Guest<'a> {
    /// Returns the guest's introduction.
    pub fn talk(&self) -> (line: String)
        ensures
            line@ == "Hi, name is "@ + self.name@ + "!"@,
    {
        let mut line = String::from_str("Hi, name is ");
        line.append(self.name);
        line.append("!");
        line
    }
}

/// Someone whose name is shared, within one thread, by counting references.
pub struct SharedPerson {
    pub name: Rc<String>,
}

impl SharedPerson {
    pub fn new(name: Rc<String>) -> (person: SharedPerson)
        ensures
            person.name == name,
    {
        SharedPerson { name }
    }

    /// Returns the person's greeting.
    pub fn greet(&self) -> (line: String)
        ensures
            line@ == "Hello, I'm "@ + self.name@,
    {
        let mut line = String::from_str("Hello, I'm ");
        line.append(self.name.as_str());
        line
    }
}

/// Someone whose name is shared, across threads, by counting references
/// atomically.
pub struct AtomicPerson {
    pub name: Arc<String>,
}

impl AtomicPerson {
    pub fn new(name: Arc<String>) -> (person: AtomicPerson)
        ensures
            person.name == name,
    {
        AtomicPerson { name }
    }

    /// Returns the person's greeting.
    pub fn greet(&self) -> (line: String)
        ensures
            line@ == "Hello, I'm "@ + self.name@,
    {
        let mut line = String::from_str("Hello, I'm ");
        line.append(self.name.as_str());
        line
    }
}

/// A string as `Debug` shows it: between double quotes, with the characters
/// that need it escaped.
pub uninterp spec fn quoted(s: Seq<char>) -> Seq<char>;

/// `Debug` formatting of a `str`, through `format!`: the result is the quoted
/// form of the string, whatever that is for the characters it holds.
#[verifier::external_body]
fn debug_quoted(s: &str) -> (q: String)
    ensures
        q@ == quoted(s@),
{
    format!("{:?}", s)
}

/// The mood that meeting someone leaves.
pub open spec fn cheerful() -> Seq<char> {
    "excited"@
}

/// The sentence of someone called `name` whose mood, already quoted, is
/// `quoted_mood`.
pub open spec fn introduction(name: Seq<char>, quoted_mood: Seq<char>) -> Seq<char> {
    "Hello, I'm "@ + name + " and I'm currently feeling "@ + quoted_mood + "!"@
}

/// The sentence that tells of the new mood.
pub open spec fn confession(mood: Seq<char>) -> Seq<char> {
    "But now that I've met you, I'm feeling "@ + mood + "!"@
}

/// Introduces someone called `name` whose mood, already quoted, is
/// `quoted_mood`.
pub fn introduce(name: &str, quoted_mood: &str) -> (line: String)
    ensures
        line@ == introduction(name@, quoted_mood@),
{
    let mut line = String::from_str("Hello, I'm ");
    line.append(name);
    line.append(" and I'm currently feeling ");
    line.append(quoted_mood);
    line.append("!");
    line
}

/// Greets on behalf of someone called `name` whose mood the caller holds
/// exclusively, say under a lock. The mood is told as it was, in quotes, then
/// becomes `cheerful()`, and the new mood is told too.
pub fn greet(name: &str, mood: &mut String) -> (lines: (String, String))
    ensures
        final(mood)@ == cheerful(),
        lines.0@ == introduction(name@, quoted(old(mood)@)),
        lines.1@ == confession(cheerful()),
{
    let shown = debug_quoted(mood.as_str());
    let first = introduce(name, shown.as_str());
    mood.clear();
    mood.append("excited");
    let mut second = String::from_str("But now that I've met you, I'm feeling ");
    second.append(mood.as_str());
    second.append("!");
    (first, second)
}

} // verus!
