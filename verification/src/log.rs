//! The level at which a log message is shown.

use vstd::prelude::*;
use vstd::string::*;

verus! {

/// How much a log message matters, from most to least.
#[derive(Debug, Clone, Copy, PartialEq, Eq, Structural)]
pub enum LogLevel {
    Error,
    Critical,
    Warning,
    Message,
    Info,
    Debug,
}

/// Whether the text begins with the prefix.
pub open spec fn begins_with(text: Seq<char>, prefix: Seq<char>) -> bool {
    prefix.len() <= text.len() && text.subrange(0, prefix.len() as int) == prefix
}

/// Whether the text begins with the prefix.
pub fn starts_with(text: &str, prefix: &str) -> (found: bool)
    ensures
        found == begins_with(text@, prefix@),
{
    let wanted = prefix.unicode_len();
    if text.unicode_len() < wanted {
        return false;
    }
    let mut i: usize = 0;
    while i < wanted
        invariant
            i <= wanted,
            wanted == prefix@.len(),
            wanted <= text@.len(),
            text@.subrange(0, i as int) == prefix@.subrange(0, i as int),
        decreases wanted - i,
    {
        if text.get_char(i) != prefix.get_char(i) {
            return false;
        }
        assert(text@.subrange(0, i as int + 1) =~= text@.subrange(0, i as int).push(
            text@[i as int],
        ));
        assert(prefix@.subrange(0, i as int + 1) =~= prefix@.subrange(0, i as int).push(
            prefix@[i as int],
        ));
        i += 1;
    }
    assert(prefix@.subrange(0, wanted as int) =~= prefix@);
    true
}

/// The level at which a message is logged when the backend runs verbosely:
/// the debug messages of the backend's own domains, whose names begin with
/// `xdpp`, are raised to plain messages, so that they are shown.
pub open spec fn shown_level(domain: Option<Seq<char>>, level: LogLevel) -> LogLevel {
    let name = match domain {
        Some(name) => name,
        None => Seq::<char>::empty(),
    };
    if level == LogLevel::Debug && begins_with(name, "xdpp"@) {
        LogLevel::Message
    } else {
        level
    }
}

/// Picks the level at which a message is logged when the backend runs
/// verbosely.
pub fn message_handler(domain: Option<&str>, level: LogLevel) -> (shown: LogLevel)
    ensures
        shown == shown_level(
            match domain {
                Some(name) => Some(name@),
                None => None,
            },
            level,
        ),
{
    let name = match domain {
        Some(name) => name,
        None => "",
    };
    proof {
        reveal_strlit("");
        assert(""@ =~= Seq::<char>::empty());
    }
    if level == LogLevel::Debug && starts_with(name, "xdpp") {
        LogLevel::Message
    } else {
        level
    }
}

} // verus!
