//! Flash messages rendered for the forms.

use vstd::prelude::*;
use vstd::string::StringExecFns;

verus! {

/// How grave a flash message is.
#[derive(Debug, Clone, Copy, PartialEq, Eq, Structural)]
pub enum Level {
    Debug,
    Info,
    Success,
    Warning,
    Error,
}

/// A message that one request leaves for the next page to show.
#[derive(Debug)]
pub struct FlashMessage {
    pub level: Level,
    pub content: String,
}

/// One message as a line of HTML: an italic paragraph, not escaped.
pub open spec fn paragraph(content: Seq<char>) -> Seq<char> {
    "<p><i>"@ + content + "</i></p>\n"@
}

/// The paragraphs of the messages, in order: of all of them, or of those of
/// level `Error` only.
pub open spec fn paragraphs(messages: Seq<FlashMessage>, errors_only: bool) -> Seq<char>
    decreases messages.len(),
{
    if messages.len() == 0 {
        Seq::empty()
    } else if errors_only && messages.last().level != Level::Error {
        paragraphs(messages.drop_last(), errors_only)
    } else {
        paragraphs(messages.drop_last(), errors_only) + paragraph(messages.last().content@)
    }
}

/// Renders the messages as HTML paragraphs, one per line and in order: all
/// of them, or only those of level `Error`.
pub fn render_messages(messages: &Vec<FlashMessage>, errors_only: bool) -> (html: String)
    ensures
        html@ == paragraphs(messages@, errors_only),
{
    let mut html = String::new();
    let mut i: usize = 0;
    while i < messages.len()
        invariant
            i <= messages.len(),
            html@ == paragraphs(messages@.take(i as int), errors_only),
        decreases messages.len() - i,
    {
        proof {
            assert(messages@.take(i + 1).drop_last() == messages@.take(i as int));
            assert(messages@.take(i + 1).last() == messages@[i as int]);
        }
        let show = !errors_only || messages[i].level == Level::Error;
        if show {
            html.append("<p><i>");
            html.append(messages[i].content.as_str());
            html.append("</i></p>\n");
        }
        i += 1;
    }
    assert(messages@.take(messages@.len() as int) == messages@);
    html
}

} // verus!
