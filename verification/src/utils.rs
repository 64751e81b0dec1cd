//! Texts with placeholders.

use vstd::prelude::*;
use vstd::string::*;

verus! {

/// Whether the text has the placeholder `{}` at the position.
pub open spec fn placeholder_at(text: Seq<char>, i: int) -> bool {
    0 <= i && i + 1 < text.len() && text[i] == '{' && text[i + 1] == '}'
}

/// The position of the first placeholder from `from` on, or the text's
/// length if there is none.
pub open spec fn placeholder_from(text: Seq<char>, from: int) -> int
    decreases text.len() - from,
{
    if from < 0 || from >= text.len() {
        text.len() as int
    } else if placeholder_at(text, from) {
        from
    } else {
        placeholder_from(text, from + 1)
    }
}

/// The text with its first placeholder replaced by the argument. A text
/// without a placeholder stays as it is.
pub open spec fn filled_once(text: Seq<char>, argument: Seq<char>) -> Seq<char> {
    let at = placeholder_from(text, 0);
    if at >= text.len() {
        text
    } else {
        text.subrange(0, at) + argument + text.subrange(at + 2, text.len() as int)
    }
}

/// The text after each argument in turn has replaced the first placeholder
/// of what the arguments before it left.
pub open spec fn filled(text: Seq<char>, arguments: Seq<Seq<char>>) -> Seq<char>
    decreases arguments.len(),
{
    if arguments.len() == 0 {
        text
    } else {
        filled(filled_once(text, arguments[0]), arguments.drop_first())
    }
}

/// The texts of the arguments.
pub open spec fn texts(arguments: Seq<&str>) -> Seq<Seq<char>> {
    arguments.map_values(|argument: &str| argument@)
}

proof fn lemma_placeholder_from_bounds(text: Seq<char>, from: int)
    requires
        0 <= from,
    ensures
        placeholder_from(text, from) <= text.len(),
        placeholder_from(text, from) < text.len() ==> from <= placeholder_from(text, from)
            && placeholder_at(text, placeholder_from(text, from)),
    decreases text.len() - from,
{
    if from < text.len() && !placeholder_at(text, from) {
        lemma_placeholder_from_bounds(text, from + 1);
    }
}

/// Replaces the first `{}` of the text by the argument.
pub fn fill_once(text: &str, argument: &str) -> (out: String)
    ensures
        out@ == filled_once(text@, argument@),
{
    let len = text.unicode_len();
    let mut at: usize = len;
    let mut i: usize = 0;
    proof {
        lemma_placeholder_from_bounds(text@, 0);
    }
    while i < len
        invariant_except_break
            at == len,
            placeholder_from(text@, i as int) == placeholder_from(text@, 0),
        invariant
            len == text@.len(),
            i <= len,
        ensures
            at == placeholder_from(text@, 0),
            at < len ==> at + 2 <= len,
        decreases len - i,
    {
        if i + 1 < len && text.get_char(i) == '{' && text.get_char(i + 1) == '}' {
            at = i;
            break ;
        }
        i += 1;
    }
    if at == len {
        String::from_str(text)
    } else {
        let mut out = String::from_str(text.substring_char(0, at));
        out.append(argument);
        out.append(text.substring_char(at + 2, len));
        out
    }
}

/// Puts the arguments into the placeholders of the template, one after the
/// other: each argument replaces the first `{}` that is left.
pub fn substitute(template: &str, arguments: &[&str]) -> (out: String)
    ensures
        out@ == filled(template@, texts(arguments@)),
{
    let ghost all = texts(arguments@);
    let mut out = String::from_str(template);
    let mut i: usize = 0;
    assert(all.skip(0) =~= all);
    while i < arguments.len()
        invariant
            i <= arguments@.len(),
            all == texts(arguments@),
            filled(out@, all.skip(i as int)) == filled(template@, all),
        decreases arguments@.len() - i,
    {
        let ghost rest = all.skip(i as int);
        assert(rest.drop_first() =~= all.skip(i as int + 1));
        out = fill_once(out.as_str(), arguments[i]);
        i += 1;
    }
    out
}

} // verus!
