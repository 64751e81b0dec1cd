//! What the application chooser decides: the words of its prompt, its rows,
//! and the reply for the selected row.

use crate::reply::Reply;
use crate::request::{Choice, ChooserOptions, PortalError};
use vstd::prelude::*;
use vstd::string::*;
use vstd::utf8::*;

verus! {

/// The longest location, in bytes, that the dialog shows in full.
pub const MAX_LOCATION_LENGTH: usize = 100;

/// A text cut down to `length` bytes: its first and its last `length / 2`
/// bytes with a mark between them. A text of at most `length` bytes is not
/// cut.
pub open spec fn ellipsized(text: Seq<char>, length: usize) -> Seq<char> {
    let bytes = encode_utf8(text);
    let half = length as int / 2;
    if bytes.len() <= length {
        text
    } else {
        decode_utf8(bytes.subrange(0, half)) + "\u{e2}\u{20ac}\u{a6}"@ + decode_utf8(
            bytes.subrange(bytes.len() - half, bytes.len() as int),
        )
    }
}

/// Whether a text can be cut down to `length` bytes: it is short enough as
/// it is, or neither cut falls inside a character.
pub open spec fn can_ellipsize(text: Seq<char>, length: usize) -> bool {
    let bytes = encode_utf8(text);
    bytes.len() > length ==> {
        &&& is_char_boundary(bytes, length as int / 2)
        &&& is_char_boundary(bytes, bytes.len() - length as int / 2)
    }
}

/// Whether a text can be cut down to `length` bytes.
pub fn can_ellipsize_middle(text: &str, length: usize) -> (possible: bool)
    ensures
        possible == can_ellipsize(text@, length),
{
    let len = text.as_bytes().len();
    len <= length || (text.is_char_boundary(length / 2) && text.is_char_boundary(
        len - length / 2,
    ))
}

/// Shortens a text that is longer than `length` bytes to its first and last
/// `length / 2` bytes, with a mark between them.
pub fn ellipsize_middle(text: &str, length: usize) -> (out: String)
    requires
        can_ellipsize(text@, length),
    ensures
        out@ == ellipsized(text@, length),
{
    let len = text.as_bytes().len();
    if len <= length {
        return String::from_str(text);
    }
    let half = length / 2;
    let (head, _) = text.split_at(half);
    let (_, tail) = text.split_at(len - half);
    proof {
        encode_utf8_decode_utf8(head@);
        encode_utf8_decode_utf8(tail@);
    }
    let mut out = String::from_str(head);
    out.append("\u{e2}\u{20ac}\u{a6}");
    out.append(tail);
    out
}

/// What the dialog says of the location that an application is chosen for.
pub struct Prompt {
    /// The location, shortened for display.
    pub target: String,
    /// The untranslated line above the list of applications, with a
    /// placeholder for the target.
    pub description: &'static str,
    /// The untranslated line shown when no application is on offer, with a
    /// placeholder for the target.
    pub empty_description: &'static str,
}

/// The location that the options name: the file name, else the URI.
pub open spec fn location(options: ChooserOptions) -> Option<Seq<char>> {
    match (options.filename, options.uri) {
        (Some(filename), _) => Some(filename@),
        (None, Some(uri)) => Some(uri@),
        (None, None) => None,
    }
}

/// Decides what the dialog says of the location. A request that names
/// neither a file nor a URI is refused as an invalid argument.
pub fn prompt(options: &ChooserOptions) -> (out: Result<Prompt, PortalError>)
    requires
        location(*options) is Some ==> can_ellipsize(
            location(*options)->Some_0,
            MAX_LOCATION_LENGTH,
        ),
    ensures
        out is Ok == location(*options) is Some,
        match out {
            Ok(prompt) => {
                &&& prompt.target@ == ellipsized(location(*options)->Some_0, MAX_LOCATION_LENGTH)
                &&& options.filename is Some ==> prompt.description@
                    == "Choose an application to open {}."@ && prompt.empty_description@
                    == "No application found to open {}, but you can search Software to find suitable applications."@
                &&& options.filename is None ==> prompt.description@
                    == "Choose an application to open the URI {}."@ && prompt.empty_description@
                    == "No application found to open the URI {}, but you can search Software to find suitable applications."@
            },
            Err(error) => error is InvalidArgument && error->InvalidArgument_0@
                == "Either filename or URI must be provided"@,
        },
{
    if let Some(filename) = &options.filename {
        Ok(
            Prompt {
                target: ellipsize_middle(filename.as_str(), MAX_LOCATION_LENGTH),
                description: "Choose an application to open {}.",
                empty_description: "No application found to open {}, but you can search Software to find suitable applications.",
            },
        )
    } else if let Some(uri) = &options.uri {
        Ok(
            Prompt {
                target: ellipsize_middle(uri.as_str(), MAX_LOCATION_LENGTH),
                description: "Choose an application to open the URI {}.",
                empty_description: "No application found to open the URI {}, but you can search Software to find suitable applications.",
            },
        )
    } else {
        Err(
            PortalError::InvalidArgument(
                String::from_str("Either filename or URI must be provided"),
            ),
        )
    }
}

/// The page that the dialog shows.
#[derive(Debug, Clone, Copy, PartialEq, Eq, Structural)]
pub enum Page {
    /// The list of applications, its first row selected.
    List,
    /// The note that no application was found.
    Empty,
}

/// The texts of a list of strings.
pub open spec fn texts(list: Seq<String>) -> Seq<Seq<char>> {
    list.map_values(|entry: String| entry@)
}

/// The rows of the dialog: the application that was chosen last time, if one
/// is known, and after it the choices on offer, in their order, but for those
/// that name that application again.
pub open spec fn rows_of(last_choice: Seq<char>, choices: Seq<Seq<char>>) -> Seq<Seq<char>> {
    let first = if last_choice.len() > 0 {
        seq![last_choice]
    } else {
        Seq::<Seq<char>>::empty()
    };
    first + choices.filter(|choice: Seq<char>| choice != last_choice)
}

/// The page for the rows: the list if there is a row, else the note.
pub open spec fn page_of(rows: Seq<Seq<char>>) -> Page {
    if rows.len() > 0 {
        Page::List
    } else {
        Page::Empty
    }
}

/// Makes the rows of the dialog from the last choice, which is empty where
/// none is known, and the choices on offer, and picks the page to show.
pub fn update_choices(last_choice: &str, choices: &Vec<String>) -> (out: (Vec<String>, Page))
    ensures
        texts(out.0@) == rows_of(last_choice@, texts(choices@)),
        out.1 == page_of(rows_of(last_choice@, texts(choices@))),
{
    let ghost all = texts(choices@);
    let ghost keep = |choice: Seq<char>| choice != last_choice@;
    let last = String::from_str(last_choice);
    let mut rows: Vec<String> = Vec::new();
    if last_choice.unicode_len() > 0 {
        rows.push(last.clone());
    }
    let ghost first = texts(rows@);
    assert(first =~= if last_choice@.len() > 0 {
        seq![last_choice@]
    } else {
        Seq::<Seq<char>>::empty()
    });
    let mut i: usize = 0;
    while i < choices.len()
        invariant
            i <= choices@.len(),
            all == texts(choices@),
            last@ == last_choice@,
            keep == (|choice: Seq<char>| choice != last_choice@),
            texts(rows@) == first + all.take(i as int).filter(keep),
        decreases choices@.len() - i,
    {
        let choice = &choices[i];
        proof {
            assert(all.take(i as int + 1) =~= all.take(i as int).push(all[i as int]));
            Seq::filter_distributes_over_add(all.take(i as int), seq![all[i as int]], keep);
            assert(all.take(i as int).push(all[i as int]) =~= all.take(i as int) + seq![
                all[i as int],
            ]);
            reveal_with_fuel(Seq::filter, 2);
            assert(seq![all[i as int]].filter(keep) =~= if keep(all[i as int]) {
                seq![all[i as int]]
            } else {
                Seq::<Seq<char>>::empty()
            });
        }
        if !(*choice == last) {
            let ghost before = texts(rows@);
            rows.push(choice.clone());
            assert(texts(rows@) =~= before.push(all[i as int]));
        }
        i += 1;
    }
    assert(all.take(i as int) =~= all);
    let page = if rows.len() > 0 {
        Page::List
    } else {
        Page::Empty
    };
    (rows, page)
}

/// The command line that opens the software centre: on a search for the
/// content type where one is known, else on its overview.
pub open spec fn software_command(content_type: Option<Seq<char>>) -> Seq<Seq<char>> {
    match content_type {
        Some(content_type) => seq!["gnome-software"@, "--search="@ + content_type],
        None => seq!["gnome-software"@, "--mode=overview"@],
    }
}

/// Makes the command line that opens the software centre.
pub fn software_arguments(content_type: Option<&str>) -> (arguments: Vec<String>)
    ensures
        texts(arguments@) == software_command(
            match content_type {
                Some(content_type) => Some(content_type@),
                None => None,
            },
        ),
{
    let mut arguments: Vec<String> = Vec::new();
    arguments.push(String::from_str("gnome-software"));
    match content_type {
        Some(content_type) => {
            let mut search = String::from_str("--search=");
            search.append(content_type);
            arguments.push(search);
        },
        None => {
            arguments.push(String::from_str("--mode=overview"));
        },
    }
    arguments
}

/// Whether `ashpd::AppID::try_from` takes a text for an application
/// identifier.
pub uninterp spec fn app_id_accepted(text: Seq<char>) -> bool;

/// Calls `ashpd::AppID::try_from` on a text, which accepts the text as an
/// application identifier or refuses it, by the text alone.
#[verifier::external_body]
pub(crate) fn is_app_id(text: &str) -> (accepted: bool)
    ensures
        accepted == app_id_accepted(text@),
{
    ashpd::AppID::try_from(text).is_ok()
}

/// The reply for the application of the selected row: the choice of it where
/// its identifier is a valid one, else an internal failure.
pub fn choice_reply(app_id: String, accepted: bool) -> (reply: Reply<Choice>)
    ensures
        accepted ==> reply == Ok::<Choice, PortalError>(Choice { app_id }),
        !accepted ==> reply is Err && reply->Err_0 is Failed && reply->Err_0->Failed_0@
            == "Internal error"@,
{
    if accepted {
        Ok(Choice { app_id })
    } else {
        Err(PortalError::Failed(String::from_str("Internal error")))
    }
}

/// The reply when the user confirms the selection. Without a selected row
/// there is nothing to reply.
pub fn send_app_id(selected: Option<String>) -> (reply: Option<Reply<Choice>>)
    ensures
        reply is Some == selected is Some,
        match (selected, reply) {
            (Some(app_id), Some(reply)) => {
                &&& app_id_accepted(app_id@) ==> reply == Ok::<Choice, PortalError>(
                    Choice { app_id },
                )
                &&& !app_id_accepted(app_id@) ==> reply is Err && reply->Err_0 is Failed
                    && reply->Err_0->Failed_0@ == "Internal error"@
            },
            _ => true,
        },
{
    match selected {
        Some(app_id) => {
            let accepted = is_app_id(app_id.as_str());
            Some(choice_reply(app_id, accepted))
        },
        None => None,
    }
}

} // verus!
