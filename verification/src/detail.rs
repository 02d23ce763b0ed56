//! Preparing the text of a log entry for the detail view.

use vstd::prelude::*;
use vstd::string::*;
use crate::json::{json_parsed, json_pretty, parse_json, pretty_json};
use crate::text::{
    char_is_control, concat, has_prefix, is_control, starts_with, text_from, trim, trim_start,
    trimmed, trimmed_start,
};
use crate::types::LogEntry;

verus! {

/// The direction marks that may precede a JSON payload in a message.
pub open spec fn direction_prefixes() -> Seq<Seq<char>> {
    seq!["<-"@, "->"@, "<<"@, ">>"@, "IN:"@, "OUT:"@, "REQ:"@, "RESP:"@]
}

/// `s` without the first of `prefixes` that it begins with after leading
/// whitespace, and without the whitespace around that prefix; `s` itself
/// if it begins with none of them.
pub open spec fn without_prefix(s: Seq<char>, prefixes: Seq<Seq<char>>) -> Seq<char>
    decreases prefixes.len(),
{
    if prefixes.len() == 0 {
        s
    } else if has_prefix(trimmed_start(s), prefixes[0]) {
        trimmed_start(trimmed_start(s).skip(prefixes[0].len() as int))
    } else {
        without_prefix(s, prefixes.drop_first())
    }
}

/// Control characters other than line feed, carriage return and tab.
pub open spec fn is_stray_control(c: char) -> bool {
    is_control(c) && c != '\n' && c != '\r' && c != '\t'
}

/// `s` without its leading stray control characters.
pub open spec fn without_leading_controls(s: Seq<char>) -> Seq<char>
    decreases s.len(),
{
    if s.len() > 0 && is_stray_control(s[0]) {
        without_leading_controls(s.drop_first())
    } else {
        s
    }
}

/// A message prepared for parsing: direction mark removed, trimmed, leading
/// stray control characters removed.
pub open spec fn cleaned_message(s: Seq<char>) -> Seq<char> {
    without_leading_controls(trimmed(without_prefix(s, direction_prefixes())))
}

/// The outcome of parsing `text` as JSON and pretty-printing the value:
/// `None` if it does not parse, `Some(None)` if it parses but does not print.
pub open spec fn pretty_of(text: Seq<char>) -> Option<Option<Seq<char>>> {
    match json_parsed(text) {
        Some(value) => Some(json_pretty(value)),
        None => None,
    }
}

/// The text shown for a message, given the outcomes of pretty-printing its
/// cleaned and its trimmed form: the pretty cleaned form if there is one, a
/// notice if the cleaned form parsed but did not print, else the pretty
/// trimmed form if there is one, else the trimmed message.
pub open spec fn message_layout(
    trimmed: Seq<char>,
    cleaned: Seq<char>,
    cleaned_pretty: Option<Option<Seq<char>>>,
    trimmed_pretty: Option<Option<Seq<char>>>,
) -> Seq<char> {
    match cleaned_pretty {
        Some(Some(text)) => text,
        Some(None) => "JSON parse success but format failed:\n"@ + cleaned,
        None => match trimmed_pretty {
            Some(Some(text)) => text,
            _ => trimmed,
        },
    }
}

/// The text shown for a message.
pub open spec fn formatted_message(message: Seq<char>) -> Seq<char> {
    let t = trimmed(message);
    let c = cleaned_message(t);
    message_layout(t, c, pretty_of(c), pretty_of(t))
}

/// The text shown for an entry, given its pretty-printed metadata if it has
/// any that prints: the metadata under a heading, then the message under a
/// heading; without such metadata, the message alone.
pub open spec fn entry_layout(metadata_pretty: Option<Seq<char>>, message: Seq<char>) -> Seq<
    char,
> {
    match metadata_pretty {
        Some(text) => "=== METADATA ===\n"@ + text + "\n\n=== MESSAGE ===\n"@ + message,
        None => message,
    }
}

/// The pretty-printed metadata of an entry, if it has any that prints.
pub open spec fn metadata_pretty(entry: LogEntry) -> Option<Seq<char>> {
    match entry.metadata {
        Some(value) => json_pretty(value),
        None => None,
    }
}

/// The text shown for an entry in the detail view.
pub open spec fn formatted_entry(entry: LogEntry) -> Seq<char> {
    entry_layout(metadata_pretty(entry), formatted_message(entry.message@))
}

/// Removes `prefix` and the whitespace around it from the front of
/// `message`, if `message` begins with it after leading whitespace.
fn strip_direction_prefix(message: &str, prefix: &str) -> (r: Option<String>)
    ensures
        r is Some == has_prefix(trimmed_start(message@), prefix@),
        r matches Some(t) ==> t@ == trimmed_start(
            trimmed_start(message@).skip(prefix@.len() as int),
        ),
{
    let body = trim_start(message);
    if starts_with(body, prefix) {
        let n = prefix.unicode_len();
        let rest = text_from(body, n);
        assert(rest@ =~= body@.skip(n as int));
        Some(trim_start(rest.as_str()).to_owned())
    } else {
        None
    }
}

/// Prepares a message for parsing: removes a leading direction mark, trims,
/// and removes leading stray control characters.
pub fn clean_json_message(message: &str) -> (r: String)
    ensures
        r@ == cleaned_message(message@),
{
    let prefixes: Vec<&str> = vec!["<-", "->", "<<", ">>", "IN:", "OUT:", "REQ:", "RESP:"];
    let ghost all = direction_prefixes();
    assert(prefixes@.len() == 8);
    assert(forall|k: int| 0 <= k < 8 ==> (#[trigger] prefixes@[k])@ == all[k]);
    let mut cleaned: String = message.to_owned();
    let mut i: usize = 0;
    let mut found = false;
    assert(all.skip(0) =~= all);
    while i < prefixes.len() && !found
        invariant
            i <= prefixes.len(),
            prefixes@.len() == all.len(),
            forall|k: int| 0 <= k < prefixes@.len() ==> (#[trigger] prefixes@[k])@ == all[k],
            !found ==> cleaned@ == message@ && without_prefix(message@, all) == without_prefix(
                message@,
                all.skip(i as int),
            ),
            found ==> cleaned@ == without_prefix(message@, all),
        decreases prefixes.len() - i + if found { 0int } else { 1int },
    {
        let ghost rest = all.skip(i as int);
        assert(rest[0] == all[i as int]);
        assert(rest.drop_first() =~= all.skip(i + 1));
        match strip_direction_prefix(message, prefixes[i]) {
            Some(stripped) => {
                cleaned = stripped;
                found = true;
            },
            None => {
                i = i + 1;
            },
        }
    }
    assert(cleaned@ == without_prefix(message@, all)) by {
        if !found {
            assert(all.skip(i as int).len() == 0);
        }
    }
    let mut cleaned = trim(cleaned.as_str()).to_owned();
    let ghost start = cleaned@;
    let mut len = cleaned.as_str().unicode_len();
    while len > 0 && is_stray(cleaned.as_str().get_char(0))
        invariant
            len == cleaned@.len(),
            without_leading_controls(cleaned@) == without_leading_controls(start),
        decreases len,
    {
        let rest = text_from(cleaned.as_str(), 1);
        assert(rest@ =~= cleaned@.drop_first());
        cleaned = rest;
        len = len - 1;
    }
    cleaned
}

/// Whether `c` is a control character other than line feed, carriage return
/// and tab.
fn is_stray(c: char) -> (r: bool)
    ensures
        r == is_stray_control(c),
{
    char_is_control(c) && c != '\n' && c != '\r' && c != '\t'
}

/// Parses `text` as JSON and pretty-prints the value.
fn pretty_text(text: &str) -> (r: Option<Option<String>>)
    ensures
        r is Some == pretty_of(text@) is Some,
        r matches Some(inner) ==> inner is Some == pretty_of(text@)->0 is Some,
        r matches Some(Some(t)) ==> pretty_of(text@) == Some(Some(t@)),
{
    match parse_json(text) {
        Some(value) => Some(pretty_json(&value)),
        None => None,
    }
}

/// Chooses the text shown for a message from the outcomes of pretty-printing
/// its cleaned and its trimmed form.
pub fn layout_message(
    trimmed: &str,
    cleaned: &str,
    cleaned_pretty: Option<Option<String>>,
    trimmed_pretty: Option<Option<String>>,
) -> (r: String)
    ensures
        r@ == message_layout(
            trimmed@,
            cleaned@,
            text_outcome(cleaned_pretty),
            text_outcome(trimmed_pretty),
        ),
{
    match cleaned_pretty {
        Some(Some(text)) => text,
        Some(None) => concat("JSON parse success but format failed:\n", cleaned),
        None => match trimmed_pretty {
            Some(Some(text)) => text,
            _ => trimmed.to_owned(),
        },
    }
}

/// A pretty-printing outcome read as text.
pub open spec fn text_outcome(outcome: Option<Option<String>>) -> Option<Option<Seq<char>>> {
    match outcome {
        Some(Some(text)) => Some(Some(text@)),
        Some(None) => Some(None),
        None => None,
    }
}

/// The text shown for a message: its JSON pretty-printed if the cleaned or
/// the trimmed message is JSON, else the trimmed message.
pub fn format_message_content(message: &str) -> (r: String)
    ensures
        r@ == formatted_message(message@),
{
    let body = trim(message);
    let cleaned = clean_json_message(body);
    let cleaned_pretty = pretty_text(cleaned.as_str());
    let trimmed_pretty = match cleaned_pretty {
        Some(_) => None,
        None => pretty_text(body),
    };
    layout_message(body, cleaned.as_str(), cleaned_pretty, trimmed_pretty)
}

/// Puts pretty-printed metadata, if any, above the message.
pub fn layout_entry(metadata_pretty: Option<String>, message: String) -> (r: String)
    ensures
        r@ == entry_layout(
            match metadata_pretty {
                Some(text) => Some(text@),
                None => None,
            },
            message@,
        ),
{
    match metadata_pretty {
        Some(text) => {
            let mut out = concat("=== METADATA ===\n", text.as_str());
            out.append("\n\n=== MESSAGE ===\n");
            out.append(message.as_str());
            out
        },
        None => message,
    }
}

/// The text shown for an entry in the detail view.
pub fn format_entry(entry: &LogEntry) -> (r: String)
    ensures
        r@ == formatted_entry(*entry),
{
    let metadata = match &entry.metadata {
        Some(value) => pretty_json(value),
        None => None,
    };
    let message = format_message_content(entry.message.as_str());
    layout_entry(metadata, message)
}

} // verus!
