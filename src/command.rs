//! Turning an action's command line into a program and its arguments.
use vstd::prelude::*;

use crate::action::Action;

verus! {

/// What `shlex::split` returns for a command line: its words under POSIX
/// shell quoting and escaping, or `None` where the line is malformed.
pub uninterp spec fn shell_words(line: Seq<char>) -> Option<Seq<Seq<char>>>;

/// The views of a vector of strings.
pub open spec fn words_view(v: Seq<String>) -> Seq<Seq<char>> {
    v.map_values(|s: String| s@)
}

/// Relies on `shlex::split`: the words of `line`, or `None` on an unclosed
/// quote or a trailing backslash; an empty line has no words.
#[verifier::external_body]
fn split_words(line: &str) -> (r: Option<Vec<String>>)
    ensures
        r is Some ==> shell_words(line@) == Some(words_view(r->0@)),
        r is None ==> shell_words(line@) is None,
        line@.len() == 0 ==> r is Some && r->0@.len() == 0,
{
    shlex::split(line)
}

/// A program to launch and the arguments to hand it.
#[derive(Clone, Debug)]
pub struct Invocation {
    pub program: String,
    pub args: Vec<String>,
}

impl View for Invocation {
    type V = (Seq<char>, Seq<Seq<char>>);

    open spec fn view(&self) -> (Seq<char>, Seq<Seq<char>>) {
        (self.program@, words_view(self.args@))
    }
}

/// Why a command line cannot be launched.
#[derive(Clone, Copy, Debug, PartialEq, Eq, Structural)]
pub enum CommandError {
    /// The line does not split: an unclosed quote or a dangling escape.
    Malformed,
    /// The line splits into no word at all.
    Empty,
}

/// The launch that a split command line calls for: the first word is the
/// program, the others are its arguments.
pub open spec fn invocation_of(words: Option<Seq<Seq<char>>>) -> Result<
    (Seq<char>, Seq<Seq<char>>),
    CommandError,
> {
    match words {
        None => Err(CommandError::Malformed),
        Some(w) => if w.len() == 0 {
            Err(CommandError::Empty)
        } else {
            Ok((w[0], w.drop_first()))
        },
    }
}

/// The view of a launch result.
pub open spec fn result_view(r: Result<Invocation, CommandError>) -> Result<
    (Seq<char>, Seq<Seq<char>>),
    CommandError,
> {
    match r {
        Ok(inv) => Ok(inv@),
        Err(e) => Err(e),
    }
}

/// The launch for the words a command line split into (`None`: it did not split).
pub fn invocation_from_words(words: Option<Vec<String>>) -> (r: Result<Invocation, CommandError>)
    ensures
        result_view(r) == invocation_of(
            match words {
                Some(v) => Some(words_view(v@)),
                None => None,
            },
        ),
{
    match words {
        None => Err(CommandError::Malformed),
        Some(v) => {
            if v.len() == 0 {
                return Err(CommandError::Empty);
            }
            let program = v[0].clone();
            let mut args: Vec<String> = Vec::new();
            let mut i: usize = 1;
            while i < v.len()
                invariant
                    1 <= i <= v.len(),
                    words_view(args@) == words_view(v@).subrange(1, i as int),
                decreases v.len() - i,
            {
                let ghost before = args@;
                let w = v[i].clone();
                assert(w@ == words_view(v@)[i as int]);
                args.push(w);
                assert(args@ == before.push(w));
                assert(words_view(args@) =~= words_view(before).push(w@));
                assert(words_view(v@).subrange(1, i + 1) =~= words_view(v@).subrange(
                    1,
                    i as int,
                ).push(w@));
                assert(words_view(args@) =~= words_view(v@).subrange(1, i + 1));
                i = i + 1;
            }
            let inv = Invocation { program, args };
            assert(inv@.1 =~= words_view(v@).drop_first());
            Ok(inv)
        },
    }
}

impl Action {
    /// The program and arguments that running this action launches.
    pub fn invocation(&self) -> (r: Result<Invocation, CommandError>)
        ensures
            result_view(r) == invocation_of(shell_words(self.command@)),
    {
        let words = split_words(self.command.as_str());
        invocation_from_words(words)
    }
}

} // verus!
