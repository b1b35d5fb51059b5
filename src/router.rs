//! Classifies a line of input as a built-in command, a package command or
//! a command for the host shell.
use vstd::prelude::*;
use crate::text::{Delim, pieces, same_text, split_by, texts, trim_text, trimmed};

verus! {

/// The commands the shell carries out itself.
#[derive(Clone, Copy, Debug, PartialEq, Eq, Structural)]
pub enum Builtin {
    Exit,
    Help,
    Cd,
    Pwd,
    Ls,
    Mkdir,
    Rm,
    Cat,
    Echo,
    Touch,
    Clear,
}

/// What a line of input asks for.
#[derive(Debug)]
pub enum Action {
    /// A blank line.
    Nothing,
    /// A built-in command with the words after it.
    Builtin(Builtin, Vec<String>),
    /// `pkg` or `package` with the words after it.
    Package(Vec<String>),
    /// Anything else: the whole line, trimmed, for the host shell.
    External(String),
}

pub enum ActionView {
    Nothing,
    Builtin(Builtin, Seq<Seq<char>>),
    Package(Seq<Seq<char>>),
    External(Seq<char>),
}

impl View for Action {
    type V = ActionView;

    open spec fn view(&self) -> ActionView {
        match self {
            Action::Nothing => ActionView::Nothing,
            Action::Builtin(b, args) => ActionView::Builtin(*b, texts(args@)),
            Action::Package(args) => ActionView::Package(texts(args@)),
            Action::External(line) => ActionView::External(line@),
        }
    }
}

/// The built-in that a first word names, if any. Matching is case-sensitive.
pub open spec fn builtin_named(w: Seq<char>) -> Option<Builtin> {
    if w == "exit"@ || w == "quit"@ {
        Some(Builtin::Exit)
    } else if w == "help"@ {
        Some(Builtin::Help)
    } else if w == "cd"@ {
        Some(Builtin::Cd)
    } else if w == "pwd"@ {
        Some(Builtin::Pwd)
    } else if w == "ls"@ {
        Some(Builtin::Ls)
    } else if w == "mkdir"@ {
        Some(Builtin::Mkdir)
    } else if w == "rm"@ {
        Some(Builtin::Rm)
    } else if w == "cat"@ {
        Some(Builtin::Cat)
    } else if w == "echo"@ {
        Some(Builtin::Echo)
    } else if w == "touch"@ {
        Some(Builtin::Touch)
    } else if w == "clear"@ {
        Some(Builtin::Clear)
    } else {
        None
    }
}

pub open spec fn is_package_word(w: Seq<char>) -> bool {
    w == "pkg"@ || w == "package"@
}

/// The action a line asks for.
pub open spec fn route_spec(line: Seq<char>) -> ActionView {
    let words = pieces(line, Delim::Space);
    if words.len() == 0 {
        ActionView::Nothing
    } else if is_package_word(words[0]) {
        ActionView::Package(words.drop_first())
    } else {
        match builtin_named(words[0]) {
            Some(b) => ActionView::Builtin(b, words.drop_first()),
            None => ActionView::External(trimmed(line)),
        }
    }
}

/// The built-in that `word` names, if any.
pub fn builtin_for(word: &str) -> (r: Option<Builtin>)
    ensures
        r == builtin_named(word@),
{
    if same_text(word, "exit") || same_text(word, "quit") {
        Some(Builtin::Exit)
    } else if same_text(word, "help") {
        Some(Builtin::Help)
    } else if same_text(word, "cd") {
        Some(Builtin::Cd)
    } else if same_text(word, "pwd") {
        Some(Builtin::Pwd)
    } else if same_text(word, "ls") {
        Some(Builtin::Ls)
    } else if same_text(word, "mkdir") {
        Some(Builtin::Mkdir)
    } else if same_text(word, "rm") {
        Some(Builtin::Rm)
    } else if same_text(word, "cat") {
        Some(Builtin::Cat)
    } else if same_text(word, "echo") {
        Some(Builtin::Echo)
    } else if same_text(word, "touch") {
        Some(Builtin::Touch)
    } else if same_text(word, "clear") {
        Some(Builtin::Clear)
    } else {
        None
    }
}

/// Classifies a line of input. Every line gets exactly one action, which
/// depends on the line alone.
pub fn route(line: &str) -> (r: Action)
    ensures
        r@ == route_spec(line@),
{
    let mut words = split_by(line, Delim::Space);
    if words.len() == 0 {
        return Action::Nothing;
    }
    let ghost all = words@;
    let first = words.remove(0);
    assert(texts(words@) =~= texts(all).drop_first());
    if same_text(first.as_str(), "pkg") || same_text(first.as_str(), "package") {
        Action::Package(words)
    } else {
        match builtin_for(first.as_str()) {
            Some(b) => Action::Builtin(b, words),
            None => Action::External(trim_text(line)),
        }
    }
}

/// Routing is total: a line with at least one word never routes to
/// `Nothing`, a blank line always does, and a line with words routes to the
/// package command, to the built-in its first word names, or else to the
/// host shell, and to exactly one of them.
pub proof fn lemma_route_total(line: Seq<char>)
    ensures
        (pieces(line, Delim::Space).len() == 0) == (route_spec(line) is Nothing),
        pieces(line, Delim::Space).len() > 0 ==> {
            let w = pieces(line, Delim::Space)[0];
            &&& (route_spec(line) is Package) == is_package_word(w)
            &&& (route_spec(line) is Builtin) == (!is_package_word(w) && builtin_named(w) is Some)
            &&& (route_spec(line) is External) == (!is_package_word(w) && builtin_named(w) is None)
        },
{
}

} // verus!
