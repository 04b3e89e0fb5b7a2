//! The texts that the web routes compute: error reports, confirmation links
//! and flash messages.

pub mod messages;
pub mod subscriptions;

use vstd::prelude::*;
use vstd::string::StringExecFns;

verus! {

/// The report of an error and the chain of its causes: the error's message
/// and an empty line, then for each cause, outermost first, a line
/// `Caused by:` and the cause's message, indented by a tab.
pub open spec fn chain_text(message: Seq<char>, causes: Seq<Seq<char>>) -> Seq<char>
    decreases causes.len(),
{
    if causes.len() == 0 {
        message + "\n\n"@
    } else {
        chain_text(message, causes.drop_last()) + "Caused by:\n\t"@ + causes.last() + "\n"@
    }
}

/// The messages of `causes` as mathematical texts.
pub open spec fn texts_of(causes: Seq<String>) -> Seq<Seq<char>> {
    causes.map_values(|s: String| s@)
}

/// Formats an error with the chain of its causes. `message` is the error's
/// own message, `causes` holds the message of its source, of the source's
/// source, and so on.
pub fn error_chain_fmt(message: &str, causes: &Vec<String>) -> (report: String)
    ensures
        report@ == chain_text(message@, texts_of(causes@)),
{
    let mut report = String::from_str(message);
    report.append("\n\n");
    let mut i: usize = 0;
    while i < causes.len()
        invariant
            i <= causes.len(),
            report@ == chain_text(message@, texts_of(causes@.take(i as int))),
        decreases causes.len() - i,
    {
        proof {
            let shorter = texts_of(causes@.take(i as int));
            let longer = texts_of(causes@.take(i + 1));
            assert(longer.drop_last() == shorter);
            assert(longer.last() == causes@[i as int]@);
        }
        report.append("Caused by:\n\t");
        report.append(causes[i].as_str());
        report.append("\n");
        i += 1;
    }
    assert(causes@.take(causes@.len() as int) == causes@);
    report
}

} // verus!
