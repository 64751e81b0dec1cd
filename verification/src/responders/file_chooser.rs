//! What the file chooser decides: how the selector is set up, which filter
//! row is current, how a selection is answered, and under which names files
//! are saved.

use crate::reply::Reply;
use crate::request::{
    FileChoice, FileFilter, FilterView, OpenFileOptions, PortalError, SaveFileOptions,
    SaveFilesOptions, SelectedFiles,
};
use vstd::prelude::*;
use vstd::string::*;

verus! {

/// The first position from `from` on at which the name has a `.`, or the
/// name's length if there is none.
pub open spec fn dot_from(name: Seq<char>, from: int) -> int
    decreases name.len() - from,
{
    if from < 0 || from >= name.len() {
        name.len() as int
    } else if name[from] == '.' {
        from
    } else {
        dot_from(name, from + 1)
    }
}

/// Where the extension of a file name starts: at its first `.` that is not
/// its first character, or at its end.
pub open spec fn ext_start(name: Seq<char>) -> int {
    dot_from(name, 1)
}

proof fn lemma_dot_from_bounds(name: Seq<char>, from: int)
    requires
        0 <= from,
    ensures
        dot_from(name, from) <= name.len(),
        from <= name.len() ==> from <= dot_from(name, from),
    decreases name.len() - from,
{
    if from < name.len() && name[from] != '.' {
        lemma_dot_from_bounds(name, from + 1);
    }
}

/// Split the string by extension.
///
/// The extension is the substring from the first `.` to the end of the
/// string. If the string starts with a `.`, then the extension is searched
/// from the second `.`: `.foo.tar.gz` splits into `.foo` and `.tar.gz`.
pub fn split_ext<'a>(file_name: &'a str) -> (parts: (&'a str, &'a str))
    ensures
        parts.0@ == file_name@.subrange(0, ext_start(file_name@)),
        parts.1@ == file_name@.subrange(ext_start(file_name@), file_name@.len() as int),
        parts.0@ + parts.1@ == file_name@,
{
    let len = file_name.unicode_len();
    let mut idx: usize = len;
    let mut i: usize = 1;
    proof {
        lemma_dot_from_bounds(file_name@, 1);
    }
    while i < len
        invariant_except_break
            idx == len,
            dot_from(file_name@, i as int) == ext_start(file_name@),
        invariant
            1 <= i,
            len == file_name@.len(),
        ensures
            idx <= len,
            idx == ext_start(file_name@),
        decreases len - i,
    {
        if file_name.get_char(i) == '.' {
            idx = i;
            break ;
        }
        i += 1;
    }
    let prefix = file_name.substring_char(0, idx);
    let suffix = file_name.substring_char(idx, len);
    (prefix, suffix)
}

/// The character of a decimal digit.
pub open spec fn digit(d: nat) -> char {
    if d == 0 {
        '0'
    } else if d == 1 {
        '1'
    } else if d == 2 {
        '2'
    } else if d == 3 {
        '3'
    } else if d == 4 {
        '4'
    } else if d == 5 {
        '5'
    } else if d == 6 {
        '6'
    } else if d == 7 {
        '7'
    } else if d == 8 {
        '8'
    } else {
        '9'
    }
}

/// A number in decimal notation, without leading zeros.
pub open spec fn decimal(n: nat) -> Seq<char>
    decreases n,
{
    if n < 10 {
        seq![digit(n)]
    } else {
        decimal(n / 10).push(digit(n % 10))
    }
}

fn digit_text(d: u32) -> (text: &'static str)
    requires
        d < 10,
    ensures
        text@ == seq![digit(d as nat)],
{
    let text = if d == 0 {
        "0"
    } else if d == 1 {
        "1"
    } else if d == 2 {
        "2"
    } else if d == 3 {
        "3"
    } else if d == 4 {
        "4"
    } else if d == 5 {
        "5"
    } else if d == 6 {
        "6"
    } else if d == 7 {
        "7"
    } else if d == 8 {
        "8"
    } else {
        "9"
    };
    proof {
        reveal_strlit("0");
        reveal_strlit("1");
        reveal_strlit("2");
        reveal_strlit("3");
        reveal_strlit("4");
        reveal_strlit("5");
        reveal_strlit("6");
        reveal_strlit("7");
        reveal_strlit("8");
        reveal_strlit("9");
    }
    text
}

/// Writes a number in decimal notation.
pub fn decimal_text(n: u32) -> (text: String)
    ensures
        text@ == decimal(n as nat),
    decreases n,
{
    if n < 10 {
        String::from_str(digit_text(n))
    } else {
        let mut text = decimal_text(n / 10);
        text.append(digit_text(n % 10));
        text
    }
}

/// The name with a count put before its extension: `report.pdf` with the
/// count 2 is `report (2).pdf`.
pub open spec fn numbered(name: Seq<char>, count: nat) -> Seq<char> {
    name.subrange(0, ext_start(name)) + " ("@ + decimal(count) + ")"@ + name.subrange(
        ext_start(name),
        name.len() as int,
    )
}

/// The name under which a file is saved at the given attempt: its own name at
/// first, and after each name that was found taken the name with the next
/// count, from 2 on.
pub open spec fn candidate(name: Seq<char>, attempt: nat) -> Seq<char> {
    if attempt == 0 {
        name
    } else {
        numbered(name, attempt + 1)
    }
}

/// The name to try for a file after `attempt` names were found taken.
pub fn candidate_name(original: &str, attempt: u32) -> (name: String)
    requires
        attempt < i32::MAX,
    ensures
        name@ == candidate(original@, attempt as nat),
{
    if attempt == 0 {
        return String::from_str(original);
    }
    let (prefix, suffix) = split_ext(original);
    let mut name = String::from_str(prefix);
    name.append(" (");
    name.append(decimal_text(attempt + 1).as_str());
    name.append(")");
    name.append(suffix);
    name
}

/// The position that stands for no row of a list.
pub const INVALID_LIST_POSITION: u32 = 0xffff_ffff;

/// The last position before `upto` at which the filter is listed, or the
/// invalid position if it is not.
pub open spec fn last_match(filters: Seq<FilterView>, current: FilterView, upto: int) -> int
    decreases upto,
{
    if upto <= 0 {
        INVALID_LIST_POSITION as int
    } else if filters[upto - 1] == current {
        upto - 1
    } else {
        last_match(filters, current, upto - 1)
    }
}

/// The views of a list of filters.
pub open spec fn filter_views(filters: Seq<FileFilter>) -> Seq<FilterView> {
    filters.map_values(|filter: FileFilter| filter@)
}

/// The row of the filter that is selected at first: where the request names
/// a current filter, its last place among the filters on offer, or the first
/// row if no filters are on offer, as the current filter is then the only
/// row. In every other case no row is selected.
pub open spec fn current_position(current: Option<FilterView>, filters: Seq<FilterView>) -> int {
    match current {
        Some(current) => if filters.len() == 0 {
            0
        } else {
            last_match(filters, current, filters.len() as int)
        },
        None => INVALID_LIST_POSITION as int,
    }
}

/// The filters that the selector lists: those on offer, or the current
/// filter alone where none is on offer.
pub open spec fn listed(current: Option<FilterView>, filters: Seq<FilterView>) -> Seq<FilterView> {
    match current {
        Some(current) if filters.len() == 0 => seq![current],
        _ => filters,
    }
}

/// Picks the filters that the selector lists and the row that is selected
/// at first.
pub fn convert_filters<'a>(
    current_filter: Option<&'a FileFilter>,
    filters: &'a Vec<FileFilter>,
) -> (out: (u32, Vec<&'a FileFilter>))
    requires
        filters@.len() <= u32::MAX,
    ensures
        out.0 == current_position(
            match current_filter {
                Some(current) => Some(current@),
                None => None,
            },
            filter_views(filters@),
        ),
        out.1@.map_values(|filter: &FileFilter| filter@) == listed(
            match current_filter {
                Some(current) => Some(current@),
                None => None,
            },
            filter_views(filters@),
        ),
{
    let ghost views = filter_views(filters@);
    let mut model: Vec<&FileFilter> = Vec::new();
    let mut position: u32 = INVALID_LIST_POSITION;
    let mut i: usize = 0;
    while i < filters.len()
        invariant
            i <= filters@.len(),
            filters@.len() <= u32::MAX,
            views == filter_views(filters@),
            model@.map_values(|filter: &FileFilter| filter@) == views.take(i as int),
            match current_filter {
                Some(current) => position == last_match(views, current@, i as int),
                None => position == INVALID_LIST_POSITION,
            },
        decreases filters@.len() - i,
    {
        let filter = &filters[i];
        let ghost before = model@.map_values(|filter: &FileFilter| filter@);
        model.push(filter);
        assert(model@.map_values(|filter: &FileFilter| filter@) =~= before.push(filter@));
        if let Some(current) = current_filter {
            if current.same(filter) {
                position = i as u32;
            }
        }
        i += 1;
    }
    if let Some(current) = current_filter {
        if filters.len() == 0 {
            model.push(current);
            position = 0;
        }
    }
    (position, model)
}

/// What a file selector is opened for.
#[derive(Debug, Clone, Copy, PartialEq, Eq, Structural)]
pub enum FileSelectorMode {
    OpenFile,
    SaveFile,
    SaveFiles,
}

/// What the file selector holds when the user is done with it.
pub struct Selection {
    /// The URIs of what was selected, if the selector has any.
    pub uris: Option<Vec<String>>,
    /// The row of the filter that was active.
    pub current_filter: u32,
    /// The answers given to the choices, each with the key of its choice.
    pub choices: Vec<(String, String)>,
}

/// What is to be done when the user is done with the file selector.
pub enum Finish {
    /// The request is answered with this reply.
    Reply(Reply<SelectedFiles>),
    /// The files are to be saved into the directory, each under a name that
    /// no file there has yet; the request is answered with their URIs.
    SaveInto { directory: String, files: Vec<String> },
}

pub open spec fn is_cancelled(reply: Reply<SelectedFiles>) -> bool {
    reply is Err && reply->Err_0 is Cancelled && reply->Err_0->Cancelled_0@
        == "Cancelled by user"@
}

pub open spec fn is_internal_error(reply: Reply<SelectedFiles>) -> bool {
    reply is Err && reply->Err_0 is Failed && reply->Err_0->Failed_0@ == "Internal error"@
}

/// Whether the user left the selector without a selection: by cancelling, or
/// with nothing selected.
pub open spec fn nothing_selected(success: bool, window: Option<Selection>) -> bool {
    !success || (window is Some && (window->Some_0.uris is None
        || window->Some_0.uris->Some_0@.len() == 0))
}

/// Whether ashpd takes a text for a URI: the text is not empty, has a `:`,
/// and does not begin with it.
pub open spec fn valid_uri(text: Seq<char>) -> bool {
    text.len() > 0 && text[0] != ':' && text.contains(':')
}

/// Calls `ashpd::Uri::parse`, which takes a text for a URI exactly when it
/// is not empty, contains a `:` and does not start with one.
#[verifier::external_body]
pub(crate) fn is_uri(text: &str) -> (accepted: bool)
    ensures
        accepted == valid_uri(text@),
{
    ashpd::Uri::parse(text).is_ok()
}

/// Whether every text is a URI.
pub open spec fn valid_uris(uris: Seq<String>) -> bool {
    forall|i: int| 0 <= i < uris.len() ==> valid_uri(#[trigger] uris[i]@)
}

/// Whether every text is a URI.
pub fn are_uris(uris: &Vec<String>) -> (accepted: bool)
    ensures
        accepted == valid_uris(uris@),
{
    let mut i: usize = 0;
    while i < uris.len()
        invariant
            i <= uris@.len(),
            forall|k: int| 0 <= k < i ==> valid_uri(#[trigger] uris@[k]@),
        decreases uris@.len() - i,
    {
        if !is_uri(uris[i].as_str()) {
            return false;
        }
        i += 1;
    }
    true
}

/// Whether the selection is one that is answered with the selected files:
/// something was selected, to open or to save one file.
pub open spec fn answers_with_files(
    success: bool,
    window: Option<Selection>,
    mode: Option<FileSelectorMode>,
) -> bool {
    !nothing_selected(success, window) && window is Some && mode is Some && mode
        != Some(FileSelectorMode::SaveFiles)
}

/// Whether the request can be ended on the selection: where it is answered
/// with the selected files, each of them is named by a URI.
pub open spec fn can_finish(
    success: bool,
    window: Option<Selection>,
    mode: Option<FileSelectorMode>,
) -> bool {
    answers_with_files(success, window, mode) ==> valid_uris(window->Some_0.uris->Some_0@)
}

/// Whether the request can be ended on the selection.
pub fn is_finishable(
    success: bool,
    window: &Option<Selection>,
    mode: Option<FileSelectorMode>,
) -> (possible: bool)
    ensures
        possible == can_finish(success, *window, mode),
{
    if !success {
        return true;
    }
    match (window, mode) {
        (Some(selection), Some(FileSelectorMode::OpenFile))
        | (Some(selection), Some(FileSelectorMode::SaveFile)) => match &selection.uris {
            Some(uris) => uris.len() == 0 || are_uris(uris),
            None => true,
        },
        _ => true,
    }
}

/// Decides how the request ends when the user is done with the selector.
/// Leaving without a selection cancels the request. A selector or a mode that
/// is missing is an internal error. A selection to open or to save one file
/// is the reply, with the active filter, if its row is one of the
/// responder's filters, and the answers to the choices. A selection to save
/// several files names the directory to save them into.
pub fn on_file_selector_done(
    success: bool,
    window: Option<Selection>,
    mode: Option<FileSelectorMode>,
    filters: Vec<FileFilter>,
    files: Vec<String>,
) -> (finish: Finish)
    requires
        can_finish(success, window, mode),
    ensures
        nothing_selected(success, window) ==> finish is Reply && is_cancelled(finish->Reply_0),
        !nothing_selected(success, window) && (window is None || mode is None) ==> finish is Reply
            && is_internal_error(finish->Reply_0),
        !nothing_selected(success, window) && window is Some && mode is Some ==> {
            let selection = window->Some_0;
            let uris = selection.uris->Some_0;
            match mode->Some_0 {
                FileSelectorMode::SaveFiles => finish == (Finish::SaveInto {
                    directory: uris@[0],
                    files,
                }),
                _ => {
                    &&& finish is Reply
                    &&& finish->Reply_0 is Ok
                    &&& finish->Reply_0->Ok_0.uris == uris
                    &&& valid_uris(finish->Reply_0->Ok_0.uris@)
                    &&& finish->Reply_0->Ok_0.choices == selection.choices
                    &&& finish->Reply_0->Ok_0.current_filter == if selection.current_filter
                        < filters@.len() {
                        Some(filters@[selection.current_filter as int])
                    } else {
                        None
                    }
                },
            }
        },
{
    if !success {
        return Finish::Reply(Err(PortalError::Cancelled(String::from_str("Cancelled by user"))));
    }
    let Some(selection) = window else {
        return Finish::Reply(Err(PortalError::Failed(String::from_str("Internal error"))));
    };
    let Selection { uris, current_filter, choices } = selection;
    let Some(mut uris) = uris else {
        return Finish::Reply(Err(PortalError::Cancelled(String::from_str("Cancelled by user"))));
    };
    if uris.len() == 0 {
        return Finish::Reply(Err(PortalError::Cancelled(String::from_str("Cancelled by user"))));
    }
    let Some(mode) = mode else {
        return Finish::Reply(Err(PortalError::Failed(String::from_str("Internal error"))));
    };
    match mode {
        FileSelectorMode::OpenFile | FileSelectorMode::SaveFile => {
            let mut filters = filters;
            let current = if (current_filter as usize) < filters.len() {
                Some(filters.remove(current_filter as usize))
            } else {
                None
            };
            Finish::Reply(Ok(SelectedFiles { uris, choices, current_filter: current }))
        },
        FileSelectorMode::SaveFiles => {
            let directory = uris.swap_remove(0);
            Finish::SaveInto { directory, files }
        },
    }
}

/// The label of the button that confirms the selection.
pub enum AcceptLabel {
    /// The label that the request asks for.
    Given(String),
    /// The selector's own label for opening, in the user's language.
    Open,
    /// The selector's own label for saving, in the user's language.
    Save,
}

/// Where the file selector starts.
pub enum StartAt {
    /// In this folder.
    Folder(String),
    /// At this file: in its folder, with its name filled in.
    File(String),
    /// In this folder, with this name filled in.
    FolderAndName { folder: String, name: String },
    /// In the user's home folder.
    Home,
}

/// How a file selector is set up for a request.
pub struct Setup {
    pub mode: FileSelectorMode,
    pub title: String,
    pub accept_label: AcceptLabel,
    pub modal: bool,
    /// Whether folders are selected instead of files. Only a selector that
    /// opens files is told.
    pub directory: Option<bool>,
    pub filters: Vec<FileFilter>,
    pub current_filter: Option<FileFilter>,
    pub choices: Vec<FileChoice>,
    pub start: StartAt,
    /// The names of the files that are saved together.
    pub files: Vec<String>,
}

/// The label for a request: the one it asks for, else the mode's own.
pub open spec fn label_for(given: Option<String>, mode: FileSelectorMode) -> AcceptLabel {
    match given {
        Some(label) => AcceptLabel::Given(label),
        None => match mode {
            FileSelectorMode::OpenFile => AcceptLabel::Open,
            _ => AcceptLabel::Save,
        },
    }
}

fn accept_label(given: Option<String>, mode: FileSelectorMode) -> (label: AcceptLabel)
    ensures
        label == label_for(given, mode),
{
    match given {
        Some(label) => AcceptLabel::Given(label),
        None => match mode {
            FileSelectorMode::OpenFile => AcceptLabel::Open,
            _ => AcceptLabel::Save,
        },
    }
}

/// A folder to start in, or the home folder where none is named.
pub open spec fn folder_or_home(folder: Option<String>) -> StartAt {
    match folder {
        Some(folder) => StartAt::Folder(folder),
        None => StartAt::Home,
    }
}

fn start_in(folder: Option<String>) -> (start: StartAt)
    ensures
        start == folder_or_home(folder),
{
    match folder {
        Some(folder) => StartAt::Folder(folder),
        None => StartAt::Home,
    }
}

/// Sets up the selector that opens files. It is modal and selects files
/// unless the request says otherwise, and starts in the folder that the
/// request names, else at home.
pub fn open_file_setup(title: String, options: OpenFileOptions) -> (setup: Setup)
    ensures
        setup.mode == FileSelectorMode::OpenFile,
        setup.title == title,
        setup.accept_label == label_for(options.accept_label, FileSelectorMode::OpenFile),
        setup.modal == (options.modal != Some(false)),
        setup.directory == Some(options.directory == Some(true)),
        setup.filters == options.filters,
        setup.current_filter == options.current_filter,
        setup.choices == options.choices,
        setup.start == folder_or_home(options.current_folder),
        setup.files@.len() == 0,
{
    let OpenFileOptions {
        accept_label: given,
        modal,
        multiple: _,
        directory,
        filters,
        current_filter,
        choices,
        current_folder,
    } = options;
    Setup {
        mode: FileSelectorMode::OpenFile,
        title,
        accept_label: accept_label(given, FileSelectorMode::OpenFile),
        modal: modal.unwrap_or(true),
        directory: Some(directory.unwrap_or(false)),
        filters,
        current_filter,
        choices,
        start: start_in(current_folder),
        files: Vec::new(),
    }
}

/// Where the selector that saves one file starts: at the file that the
/// request names; else in the folder that it names, with the name that it
/// proposes, or none; else at home.
pub open spec fn save_start(
    current_file: Option<String>,
    current_folder: Option<String>,
    current_name: Option<String>,
    start: StartAt,
) -> bool {
    match (current_file, current_folder) {
        (Some(file), _) => start == StartAt::File(file),
        (None, Some(folder)) => {
            &&& start is FolderAndName
            &&& start->folder == folder
            &&& match current_name {
                Some(name) => start->name == name,
                None => start->name@.len() == 0,
            }
        },
        (None, None) => start == StartAt::Home,
    }
}

/// Sets up the selector that saves one file. It is modal unless the request
/// says otherwise.
pub fn save_file_setup(title: String, options: SaveFileOptions) -> (setup: Setup)
    ensures
        setup.mode == FileSelectorMode::SaveFile,
        setup.title == title,
        setup.accept_label == label_for(options.accept_label, FileSelectorMode::SaveFile),
        setup.modal == (options.modal != Some(false)),
        setup.directory is None,
        setup.filters == options.filters,
        setup.current_filter == options.current_filter,
        setup.choices == options.choices,
        save_start(
            options.current_file,
            options.current_folder,
            options.current_name,
            setup.start,
        ),
        setup.files@.len() == 0,
{
    let SaveFileOptions {
        accept_label: given,
        modal,
        filters,
        current_filter,
        choices,
        current_name,
        current_folder,
        current_file,
    } = options;
    let start = match (current_file, current_folder) {
        (Some(file), _) => StartAt::File(file),
        (None, Some(folder)) => StartAt::FolderAndName {
            folder,
            name: match current_name {
                Some(name) => name,
                None => String::new(),
            },
        },
        (None, None) => StartAt::Home,
    };
    Setup {
        mode: FileSelectorMode::SaveFile,
        title,
        accept_label: accept_label(given, FileSelectorMode::SaveFile),
        modal: modal.unwrap_or(true),
        directory: None,
        filters,
        current_filter,
        choices,
        start,
        files: Vec::new(),
    }
}

/// Sets up the selector that picks the folder for several files. It is modal
/// unless the request says otherwise, offers no filters and puts no
/// questions, and starts in the folder that the request names, else at home.
pub fn save_files_setup(title: String, options: SaveFilesOptions) -> (setup: Setup)
    ensures
        setup.mode == FileSelectorMode::SaveFiles,
        setup.title == title,
        setup.accept_label == label_for(options.accept_label, FileSelectorMode::SaveFiles),
        setup.modal == (options.modal != Some(false)),
        setup.directory is None,
        setup.filters@.len() == 0,
        setup.current_filter is None,
        setup.choices@.len() == 0,
        setup.start == folder_or_home(options.current_folder),
        setup.files == options.files,
{
    let SaveFilesOptions { accept_label: given, modal, choices: _, current_folder, files } =
        options;
    Setup {
        mode: FileSelectorMode::SaveFiles,
        title,
        accept_label: accept_label(given, FileSelectorMode::SaveFiles),
        modal: modal.unwrap_or(true),
        directory: None,
        filters: Vec::new(),
        current_filter: None,
        choices: Vec::new(),
        start: start_in(current_folder),
        files,
    }
}

} // verus!
