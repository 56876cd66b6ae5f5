//! One line of text for an error and the chain of its causes.

use vstd::prelude::*;
use vstd::string::*;

verus! {

/// One cause in the chain behind an error: how it describes itself, and the
/// backtrace it was recorded with, if it has one.
#[derive(Debug, Clone, PartialEq, Eq)]
pub struct Cause {
    pub message: String,
    pub backtrace: Option<String>,
}

/// A [`Cause`] with its strings as sequences.
pub ghost struct CauseView {
    pub message: Seq<char>,
    pub backtrace: Option<Seq<char>>,
}

impl View for Cause {
    type V = CauseView;

    open spec fn view(&self) -> CauseView {
        CauseView {
            message: self.message@,
            backtrace: match self.backtrace {
                Some(backtrace) => Some(backtrace@),
                None => None,
            },
        }
    }
}

impl CauseView {
    /// What one cause adds to the line: a colon and a space, its message, and
    /// its backtrace right behind, where it has one.
    pub open spec fn text(self) -> Seq<char> {
        ": "@ + self.message + match self.backtrace {
            Some(backtrace) => backtrace,
            None => Seq::empty(),
        }
    }
}

/// The causes of a list, each by its view, in the list's order.
pub open spec fn chain(causes: Seq<Cause>) -> Seq<CauseView> {
    causes.map_values(|cause: Cause| cause@)
}

/// What a chain of causes adds to the line: the text of each, nearest cause
/// first.
pub open spec fn chain_text(causes: Seq<CauseView>) -> Seq<char>
    decreases causes.len(),
{
    if causes.len() == 0 {
        Seq::empty()
    } else {
        chain_text(causes.drop_last()) + causes.last().text()
    }
}

/// The line for an error that describes itself as `message` and has the chain
/// `causes` behind it, nearest cause first.
pub fn error_into_string(message: &str, causes: &Vec<Cause>) -> (pretty: String)
    ensures
        pretty@ == message@ + chain_text(chain(causes@)),
{
    let mut pretty = message.to_owned();
    let mut done: usize = 0;
    while done < causes.len()
        invariant
            done <= causes.len(),
            pretty@ == message@ + chain_text(chain(causes@).take(done as int)),
        decreases causes.len() - done,
    {
        let cause = &causes[done];
        pretty.append(": ");
        pretty.append(cause.message.as_str());
        if let Some(backtrace) = &cause.backtrace {
            pretty.append(backtrace.as_str());
        }
        proof {
            let longer = chain(causes@).take(done + 1);
            assert(longer.drop_last() =~= chain(causes@).take(done as int));
            assert(longer.last() == cause@);
        }
        done += 1;
    }
    assert(chain(causes@).take(done as int) =~= chain(causes@));
    pretty
}

} // verus!
