//! What the account dialog decides.

use crate::request::UserInformationOptions;
use vstd::prelude::*;
use vstd::string::*;

verus! {

/// What the account dialog tells the user before they share their
/// information.
pub struct Notice {
    /// The untranslated line that says who asks. It has a placeholder for
    /// the application's name exactly when `app_name` is there.
    pub description: &'static str,
    /// The name of the application that asks, if it is known.
    pub app_name: Option<String>,
    /// The reason that the application gives; empty if it gives none.
    pub reason: String,
    /// Whether the row for the reason is shown: it is hidden when there is
    /// no reason to show.
    pub reason_visible: bool,
}

/// The reason that a request gives, or the empty text.
pub open spec fn reason_of(options: UserInformationOptions) -> Seq<char> {
    match options.reason {
        Some(reason) => reason@,
        None => Seq::<char>::empty(),
    }
}

/// Words the dialog for a request.
pub fn notice(app_name: Option<String>, options: &UserInformationOptions) -> (notice: Notice)
    ensures
        notice.app_name == app_name,
        notice.description@ == if app_name is Some {
            "{} requests your information."@
        } else {
            "An app requests your information."@
        },
        notice.reason@ == reason_of(*options),
        notice.reason_visible == (reason_of(*options).len() > 0),
{
    let reason = match &options.reason {
        Some(reason) => reason.clone(),
        None => String::new(),
    };
    let description = if app_name.is_some() {
        "{} requests your information."
    } else {
        "An app requests your information."
    };
    let reason_visible = reason.as_str().unicode_len() > 0;
    Notice { description, app_name, reason, reason_visible }
}

} // verus!
