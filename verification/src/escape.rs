//! Escaping of text that is placed into markup.

use vstd::prelude::*;

use crate::style::Backend;

verus! {

/// What stands for one character in markup: an entity for each of the six
/// characters that can end a text or an attribute, the character itself
/// otherwise.
pub open spec fn escaped_char(c: char) -> Seq<char> {
    if c == '&' {
        seq!['&', 'a', 'm', 'p', ';']
    } else if c == '<' {
        seq!['&', 'l', 't', ';']
    } else if c == '>' {
        seq!['&', 'g', 't', ';']
    } else if c == '"' {
        seq!['&', 'q', 'u', 'o', 't', ';']
    } else if c == '\'' {
        seq!['&', '#', 'x', '2', '7', ';']
    } else if c == '/' {
        seq!['&', '#', 'x', '2', 'F', ';']
    } else {
        seq![c]
    }
}

/// A text with each of its characters escaped for markup.
pub open spec fn html_escaped(text: Seq<char>) -> Seq<char>
    decreases text.len(),
{
    if text.len() == 0 {
        Seq::empty()
    } else {
        html_escaped(text.drop_last()) + escaped_char(text.last())
    }
}

/// A text as it is written into a report of the given backend: as it is on a
/// terminal, escaped in markup.
pub open spec fn escaped(text: Seq<char>, backend: Backend) -> Seq<char> {
    match backend {
        Backend::Terminal => text,
        Backend::Markup => html_escaped(text),
    }
}

/// Calls `html_escape::encode_safe`. The contract claims that the result is
/// the text with `&`, `<`, `>`, `"`, `'` and `/` replaced by the entities
/// `&amp;`, `&lt;`, `&gt;`, `&quot;`, `&#x27;` and `&#x2F;`, and every other
/// character kept.
#[verifier::external_body]
fn encode_safe(text: &str) -> (encoded: String)
    ensures
        encoded@ == html_escaped(text@),
{
    html_escape::encode_safe(text).into_owned()
}

/// Escapes a text for a report of the given backend.
pub fn escape_html(text: &str, backend: Backend) -> (written: String)
    ensures
        written@ == escaped(text@, backend),
{
    match backend {
        Backend::Terminal => String::from_str(text),
        Backend::Markup => encode_safe(text),
    }
}

} // verus!
