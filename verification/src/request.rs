//! The portal requests, with their options and their results.

use crate::reply::Reply;
use tokio::sync::oneshot::Sender;
use vstd::prelude::*;

verus! {

/// The failure kinds that a portal call can end in, each with a message for
/// the caller.
#[derive(Debug, Clone, PartialEq, Eq)]
pub enum PortalError {
    /// The user or the protocol layer gave the request up.
    Cancelled(String),
    /// The request's options make no sense.
    InvalidArgument(String),
    /// Something went wrong between requester and responder.
    Failed(String),
}

/// The window of the calling application, as the protocol layer names it.
#[derive(Debug, Clone, PartialEq, Eq)]
pub enum WindowIdentifier {
    X11(u64),
    Wayland(String),
}

/// Essential information about the external application which does a portal
/// request.
#[derive(Debug, Clone, PartialEq, Eq)]
pub struct Application {
    pub app_id: Option<String>,
    pub window_identifier: Option<WindowIdentifier>,
}

#[derive(Debug, Clone, PartialEq, Eq)]
pub struct UserInformationOptions {
    pub reason: Option<String>,
}

#[derive(Debug, Clone, PartialEq, Eq)]
pub struct UserInformation {
    pub id: String,
    pub name: String,
    pub image: String,
}

#[derive(Debug, Clone, PartialEq, Eq)]
pub struct ChooserOptions {
    pub last_choice: Option<String>,
    pub modal: Option<bool>,
    pub content_type: Option<String>,
    pub uri: Option<String>,
    pub filename: Option<String>,
}

/// The application that the user picked.
#[derive(Debug, Clone, PartialEq, Eq)]
pub struct Choice {
    pub app_id: String,
}

/// What a rule of a file filter matches a file by.
#[derive(Debug, Clone, Copy, PartialEq, Eq, Structural)]
pub enum FilterType {
    GlobPattern,
    MimeType,
}

/// A file filter: a label for the user, and the rules of which a file has
/// to match one, in the order in which they were given.
#[derive(Debug, Clone, PartialEq, Eq)]
pub struct FileFilter {
    pub label: String,
    pub rules: Vec<(FilterType, String)>,
}

/// A file filter with the texts of its strings.
pub struct FilterView {
    pub label: Seq<char>,
    pub rules: Seq<(FilterType, Seq<char>)>,
}

impl View for FileFilter {
    type V = FilterView;

    open spec fn view(&self) -> FilterView {
        FilterView {
            label: self.label@,
            rules: self.rules@.map_values(|rule: (FilterType, String)| (rule.0, rule.1@)),
        }
    }
}

/// The test whether a rule is of the type.
pub open spec fn of_type(kind: FilterType) -> spec_fn((FilterType, Seq<char>)) -> bool {
    |rule: (FilterType, Seq<char>)| rule.0 == kind
}

/// The text of a rule.
pub open spec fn rule_text() -> spec_fn((FilterType, Seq<char>)) -> Seq<char> {
    |rule: (FilterType, Seq<char>)| rule.1
}

/// The texts of a list of string slices.
pub open spec fn slice_texts(list: Seq<&str>) -> Seq<Seq<char>> {
    list.map_values(|text: &str| text@)
}

impl FileFilter {
    /// Whether both filters have the same label and the same rules in the
    /// same order.
    pub fn same(&self, other: &FileFilter) -> (equal: bool)
        ensures
            equal == (self@ == other@),
    {
        if !(self.label == other.label) || self.rules.len() != other.rules.len() {
            assert(self@.rules.len() == self.rules@.len());
            return false;
        }
        let mut i: usize = 0;
        while i < self.rules.len()
            invariant
                i <= self.rules@.len(),
                self.rules@.len() == other.rules@.len(),
                self.label@ == other.label@,
                forall|k: int| 0 <= k < i ==> self@.rules[k] == other@.rules[k],
            decreases self.rules@.len() - i,
        {
            let mine = &self.rules[i];
            let theirs = &other.rules[i];
            if mine.0 != theirs.0 || !(mine.1 == theirs.1) {
                assert(self@.rules[i as int] != other@.rules[i as int]);
                return false;
            }
            i += 1;
        }
        assert(self@.rules =~= other@.rules);
        true
    }

    /// The texts of the filter's rules of one type, in their order.
    pub open spec fn rules_of(&self, kind: FilterType) -> Seq<Seq<char>> {
        self@.rules.filter(of_type(kind)).map_values(rule_text())
    }

    fn select(&self, kind: FilterType) -> (out: Vec<&str>)
        ensures
            slice_texts(out@) == self.rules_of(kind),
    {
        let ghost all = self@.rules;
        let ghost keep = of_type(kind);
        let ghost text_of = rule_text();
        let mut out: Vec<&str> = Vec::new();
        let mut i: usize = 0;
        assert(slice_texts(out@) =~= all.take(0).filter(keep).map_values(
            text_of,
        ));
        while i < self.rules.len()
            invariant
                i <= self.rules@.len(),
                all == self@.rules,
                all.len() == self.rules@.len(),
                keep == of_type(kind),
                text_of == rule_text(),
                slice_texts(out@) == all.take(i as int).filter(keep).map_values(
                    text_of,
                ),
            decreases self.rules@.len() - i,
        {
            let rule = &self.rules[i];
            proof {
                let one = seq![all[i as int]];
                assert(all.take(i as int + 1) =~= all.take(i as int) + one);
                Seq::filter_distributes_over_add(all.take(i as int), one, keep);
                reveal_with_fuel(Seq::filter, 2);
                assert(one.filter(keep) =~= if keep(all[i as int]) {
                    one
                } else {
                    Seq::<(FilterType, Seq<char>)>::empty()
                });
            }
            if rule.0 == kind {
                let ghost before = slice_texts(out@);
                out.push(rule.1.as_str());
                assert(slice_texts(out@) =~= before.push(all[i as int].1));
                assert(slice_texts(out@) =~= all.take(i as int + 1).filter(
                    keep,
                ).map_values(text_of));
            } else {
                assert(slice_texts(out@) =~= all.take(i as int + 1).filter(
                    keep,
                ).map_values(text_of));
            }
            i += 1;
        }
        assert(all.take(i as int) =~= all);
        out
    }

    /// The filter's mime types.
    pub fn mimetype_filters(&self) -> (out: Vec<&str>)
        ensures
            slice_texts(out@) == self.rules_of(FilterType::MimeType),
    {
        self.select(FilterType::MimeType)
    }

    /// The filter's glob patterns.
    pub fn pattern_filters(&self) -> (out: Vec<&str>)
        ensures
            slice_texts(out@) == self.rules_of(FilterType::GlobPattern),
    {
        self.select(FilterType::GlobPattern)
    }
}

/// A question that the file selector puts beside the file list: `pairs`
/// holds the answers on offer, each with its key and its label.
#[derive(Debug, Clone, PartialEq, Eq)]
pub struct FileChoice {
    pub id: String,
    pub label: String,
    pub pairs: Vec<(String, String)>,
    pub initial_selection: String,
}

#[derive(Debug, Clone, PartialEq, Eq)]
pub struct OpenFileOptions {
    pub accept_label: Option<String>,
    pub modal: Option<bool>,
    pub multiple: Option<bool>,
    pub directory: Option<bool>,
    pub filters: Vec<FileFilter>,
    pub current_filter: Option<FileFilter>,
    pub choices: Vec<FileChoice>,
    pub current_folder: Option<String>,
}

#[derive(Debug, Clone, PartialEq, Eq)]
pub struct SaveFileOptions {
    pub accept_label: Option<String>,
    pub modal: Option<bool>,
    pub filters: Vec<FileFilter>,
    pub current_filter: Option<FileFilter>,
    pub choices: Vec<FileChoice>,
    pub current_name: Option<String>,
    pub current_folder: Option<String>,
    pub current_file: Option<String>,
}

#[derive(Debug, Clone, PartialEq, Eq)]
pub struct SaveFilesOptions {
    pub accept_label: Option<String>,
    pub modal: Option<bool>,
    pub choices: Vec<FileChoice>,
    pub current_folder: Option<String>,
    pub files: Vec<String>,
}

/// What the user selected: the files' URIs, the answers given to the
/// choices, and the filter that was active.
#[derive(Debug, Clone, PartialEq, Eq)]
pub struct SelectedFiles {
    pub uris: Vec<String>,
    pub choices: Vec<(String, String)>,
    pub current_filter: Option<FileFilter>,
}

/// The operations that a portal request can ask for.
#[derive(Debug, Clone, Copy, PartialEq, Eq, Structural)]
pub enum RequestKind {
    AccountGetUserInformation,
    AppChooserChooseApplication,
    AppChooserUpdateChoices,
    FileChooserOpenFile,
    FileChooserSaveFile,
    FileChooserSaveFiles,
}

/// Different types of portal requests. The dispatcher picks the matching
/// responder and passes the request to it. Each request has a `sender`
/// through which the responder will send the reply.
#[derive(Debug)]
pub enum Request {
    AccountGetUserInformation {
        application: Application,
        options: UserInformationOptions,
        sender: Sender<Reply<UserInformation>>,
    },
    AppChooserChooseApplication {
        application: Application,
        choices: Vec<String>,
        options: ChooserOptions,
        sender: Sender<Reply<Choice>>,
    },
    AppChooserUpdateChoices { choices: Vec<String>, sender: Sender<Reply<()>> },
    FileChooserOpenFile {
        application: Application,
        title: String,
        options: OpenFileOptions,
        sender: Sender<Reply<SelectedFiles>>,
    },
    FileChooserSaveFile {
        application: Application,
        title: String,
        options: SaveFileOptions,
        sender: Sender<Reply<SelectedFiles>>,
    },
    FileChooserSaveFiles {
        application: Application,
        title: String,
        options: SaveFilesOptions,
        sender: Sender<Reply<SelectedFiles>>,
    },
}

impl Request {
    /// The operation that the request asks for.
    pub open spec fn spec_kind(&self) -> RequestKind {
        match self {
            Request::AccountGetUserInformation { .. } => RequestKind::AccountGetUserInformation,
            Request::AppChooserChooseApplication { .. } => RequestKind::AppChooserChooseApplication,
            Request::AppChooserUpdateChoices { .. } => RequestKind::AppChooserUpdateChoices,
            Request::FileChooserOpenFile { .. } => RequestKind::FileChooserOpenFile,
            Request::FileChooserSaveFile { .. } => RequestKind::FileChooserSaveFile,
            Request::FileChooserSaveFiles { .. } => RequestKind::FileChooserSaveFiles,
        }
    }

    /// The operation that the request asks for.
    #[verifier::when_used_as_spec(spec_kind)]
    pub fn kind(&self) -> (kind: RequestKind)
        ensures
            kind == self.spec_kind(),
    {
        match self {
            Request::AccountGetUserInformation { .. } => RequestKind::AccountGetUserInformation,
            Request::AppChooserChooseApplication { .. } => RequestKind::AppChooserChooseApplication,
            Request::AppChooserUpdateChoices { .. } => RequestKind::AppChooserUpdateChoices,
            Request::FileChooserOpenFile { .. } => RequestKind::FileChooserOpenFile,
            Request::FileChooserSaveFile { .. } => RequestKind::FileChooserSaveFile,
            Request::FileChooserSaveFiles { .. } => RequestKind::FileChooserSaveFiles,
        }
    }
}

} // verus!
