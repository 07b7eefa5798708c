use crate::completion::Slot;
use crate::dispatch::{
    answered, close_call_step, handle_free, request_opened, serve_close, submitted, Action,
    Dispatcher, Request, RequestImpl, SubmitError, CHANNEL_CAPACITY,
};
use crate::ids::AppID;
use crate::request::{close_outcome, CloseError, RequestRegistry};
use crate::response::Response;
use crate::uri::Uri;
use crate::window::WindowIdentifierType;
use vstd::prelude::*;

verus! {

/// One rule of a file filter.
#[derive(Debug, Clone, PartialEq, Eq)]
pub enum FilterRule {
    /// A glob pattern on file names, such as `*.png`.
    Pattern(String),
    /// A MIME type, such as `image/png`.
    MimeType(String),
}

/// A named set of rules that selects files in a dialog.
#[derive(Debug, Clone, PartialEq, Eq)]
pub struct FileFilter {
    pub label: String,
    pub rules: Vec<FilterRule>,
}

/// A choice offered next to the files of a dialog, with its options as
/// (id, label) pairs; a choice without options is a boolean.
#[derive(Debug, Clone, PartialEq, Eq)]
pub struct Choice {
    pub id: String,
    pub label: String,
    pub options: Vec<(String, String)>,
    pub initial_selection: String,
}

impl Choice {
    /// A boolean choice; its selection is `"true"` or `"false"`.
    pub fn boolean(id: &str, label: &str, state: bool) -> (r: Choice)
        ensures
            r.id@ == id@,
            r.label@ == label@,
            r.options@.len() == 0,
            r.initial_selection@ == (if state {
                "true"@
            } else {
                "false"@
            }),
    {
        let selection = if state {
            "true"
        } else {
            "false"
        };
        Choice {
            id: id.to_owned(),
            label: label.to_owned(),
            options: Vec::new(),
            initial_selection: selection.to_owned(),
        }
    }
}

/// A file name as the wire protocol carries it: bytes ending in a single
/// nul byte.
#[derive(Debug, Clone, PartialEq, Eq)]
pub struct FileName {
    bytes: Vec<u8>,
}

/// Whether `b` is a nul-terminated byte string with no other nul byte.
pub open spec fn is_nul_terminated(b: Seq<u8>) -> bool {
    &&& b.len() > 0
    &&& b.last() == 0
    &&& forall|i: int| 0 <= i < b.len() - 1 ==> b[i] != 0
}

impl FileName {
    /// The bytes of the name, without the terminating nul byte.
    pub closed spec fn name_bytes(&self) -> Seq<u8> {
        if self.bytes@.len() == 0 {
            Seq::empty()
        } else {
            self.bytes@.drop_last()
        }
    }

    /// Takes the bytes as they came over the wire; `None` unless they end in
    /// a nul byte and hold no other.
    pub fn from_bytes_with_nul(bytes: Vec<u8>) -> (r: Option<FileName>)
        ensures
            r is Some <==> is_nul_terminated(bytes@),
            r is Some ==> r->0.name_bytes() == bytes@.drop_last(),
    {
        let n = bytes.len();
        if n == 0 || bytes[n - 1] != 0 {
            return None;
        }
        let mut i: usize = 0;
        while i < n - 1
            invariant
                n == bytes@.len(),
                n > 0,
                i <= n - 1,
                forall|j: int| 0 <= j < i ==> bytes@[j] != 0,
            decreases n - 1 - i,
        {
            if bytes[i] == 0 {
                return None;
            }
            i = i + 1;
        }
        Some(FileName { bytes })
    }

    /// The bytes of the name, without the terminating nul byte.
    pub fn as_bytes(&self) -> (r: &[u8])
        ensures
            r@ == self.name_bytes(),
    {
        let n = self.bytes.len();
        let end: usize = if n == 0 {
            0
        } else {
            n - 1
        };
        let r = vstd::slice::slice_subrange(self.bytes.as_slice(), 0, end);
        assert(r@ =~= self.name_bytes());
        r
    }
}

/// Options of an OpenFile call.
#[derive(Debug, Clone, Default)]
pub struct OpenFileOptions {
    pub accept_label: Option<String>,
    pub modal: Option<bool>,
    pub multiple: Option<bool>,
    pub directory: Option<bool>,
    pub filters: Option<Vec<FileFilter>>,
    pub current_filter: Option<FileFilter>,
    pub choices: Option<Vec<Choice>>,
}

/// Options of a SaveFile call.
#[derive(Debug, Clone, Default)]
pub struct SaveFileOptions {
    pub accept_label: Option<String>,
    pub modal: Option<bool>,
    pub multiple: Option<bool>,
    pub filters: Option<Vec<FileFilter>>,
    pub current_filter: Option<FileFilter>,
    pub choices: Option<Vec<Choice>>,
    pub current_name: Option<String>,
    pub current_folder: Option<FileName>,
    pub current_file: Option<FileName>,
}

/// Options of a SaveFiles call.
#[derive(Debug, Clone, Default)]
pub struct SaveFilesOptions {
    pub accept_label: Option<String>,
    pub modal: Option<bool>,
    pub choices: Option<Vec<Choice>>,
    pub current_folder: Option<FileName>,
    pub files: Option<Vec<FileName>>,
}

/// Results of an OpenFile call.
#[derive(Debug, Clone, Default)]
pub struct OpenFileResults {
    pub uris: Option<Vec<Uri>>,
    pub choices: Option<Vec<Choice>>,
    pub current_filter: Option<FileFilter>,
    pub writable: Option<bool>,
}

/// Results of a SaveFile call.
#[derive(Debug, Clone, Default)]
pub struct SaveFileResults {
    pub uris: Option<Vec<Uri>>,
    pub choices: Option<Vec<Choice>>,
    pub current_filter: Option<FileFilter>,
}

/// Results of a SaveFiles call.
#[derive(Debug, Clone, Default)]
pub struct SaveFilesResults {
    pub uris: Option<Vec<Uri>>,
    pub choices: Option<Vec<Choice>>,
}

/// How the user left a file dialog.
#[derive(Debug, Clone, Copy, PartialEq, Eq, Structural)]
pub enum DialogOutcome {
    /// The user confirmed a selection.
    Accepted,
    /// The user cancelled.
    Cancelled,
    /// The dialog went away in some other way.
    Dismissed,
}

/// The URIs to report: none at all where the list is empty.
pub open spec fn reported_uris(uris: Vec<Uri>) -> Option<Vec<Uri>> {
    if uris@.len() == 0 {
        None
    } else {
        Some(uris)
    }
}

/// Whether the files are writable, from the selection of the `read-only`
/// choice: only an explicit `"false"` makes them so.
pub open spec fn writable_of(read_only: Option<Seq<char>>) -> Option<bool> {
    match read_only {
        Some(v) => Some(v == "false"@),
        None => None,
    }
}

fn report_uris(uris: Vec<Uri>) -> (r: Option<Vec<Uri>>)
    ensures
        r == reported_uris(uris),
{
    if uris.len() == 0 {
        None
    } else {
        Some(uris)
    }
}

/// The choice that lets the user open files read-only, with the label that
/// the user interface gives it; it starts unset.
pub open spec fn is_read_only_choice(c: Choice, label: Seq<char>) -> bool {
    &&& c.id@ == "read-only"@
    &&& c.label@ == label
    &&& c.options@.len() == 0
    &&& c.initial_selection@ == "false"@
}

/// The choices a dialog offers: the caller's, then, where a label for it is
/// given, the read-only choice.
pub fn offered_choices(choices: Vec<Choice>, read_only_label: Option<&str>) -> (r: Vec<Choice>)
    ensures
        read_only_label is None ==> r@ == choices@,
        read_only_label is Some ==> r@.len() == choices@.len() + 1 && r@.subrange(
            0,
            choices@.len() as int,
        ) == choices@ && is_read_only_choice(r@.last(), read_only_label->0@),
{
    let mut r = choices;
    let ghost before = r@;
    match read_only_label {
        Some(label) => {
            r.push(Choice::boolean("read-only", label, false));
            assert(r@.subrange(0, before.len() as int) =~= before);
        },
        None => {},
    }
    r
}

/// The id, label and selection of each offered choice for which the dialog
/// reports a selection, in the order offered.
pub open spec fn chosen(asked: Seq<(Choice, Option<String>)>) -> Seq<(Seq<char>, Seq<char>, Seq<char>)>
    decreases asked.len(),
{
    if asked.len() == 0 {
        Seq::empty()
    } else {
        let rest = chosen(asked.drop_last());
        let (c, sel) = asked.last();
        match sel {
            Some(v) => rest.push((c.id@, c.label@, v@)),
            None => rest,
        }
    }
}

/// The view of a reported choice: its id, label and selection.
pub open spec fn choice_view(c: Choice) -> (Seq<char>, Seq<char>, Seq<char>) {
    (c.id@, c.label@, c.initial_selection@)
}

/// The choices to report, from each offered choice paired with the
/// selection the dialog reports for it: those with a selection, holding it.
pub fn selected_choices(asked: &Vec<(Choice, Option<String>)>) -> (r: Vec<Choice>)
    ensures
        r@.map_values(|c: Choice| choice_view(c)) == chosen(asked@),
        forall|i: int| 0 <= i < r@.len() ==> (#[trigger] r@[i]).options@.len() == 0,
{
    let mut out: Vec<Choice> = Vec::new();
    let mut i: usize = 0;
    while i < asked.len()
        invariant
            i <= asked@.len(),
            out@.map_values(|c: Choice| choice_view(c)) == chosen(asked@.subrange(0, i as int)),
            forall|k: int| 0 <= k < out@.len() ==> (#[trigger] out@[k]).options@.len() == 0,
        decreases asked@.len() - i,
    {
        let ghost prefix = asked@.subrange(0, i + 1);
        assert(prefix.drop_last() =~= asked@.subrange(0, i as int));
        assert(prefix.last() == asked@[i as int]);
        let (c, sel) = &asked[i];
        match sel {
            Some(v) => {
                let picked = Choice {
                    id: c.id.clone(),
                    label: c.label.clone(),
                    options: Vec::new(),
                    initial_selection: v.clone(),
                };
                out.push(picked);
                assert(out@.map_values(|c: Choice| choice_view(c)) =~= chosen(
                    asked@.subrange(0, i as int),
                ).push(choice_view(picked)));
            },
            None => {},
        }
        i = i + 1;
    }
    assert(asked@.subrange(0, asked@.len() as int) =~= asked@);
    out
}

/// Whether the files are writable, from the selection of the `read-only`
/// choice.
pub fn writable_from(read_only: &Option<String>) -> (r: Option<bool>)
    ensures
        r == writable_of(crate::account::opt_text(*read_only)),
{
    match read_only {
        Some(v) => {
            let no = String::from_str("false");
            proof {
                reveal_strlit("false");
            }
            Some(*v == no)
        },
        None => None,
    }
}

/// The answer of an OpenFile dialog that the user left with `outcome`,
/// having selected the files `uris` and the filter `current_filter`; `asked`
/// pairs each offered choice with the selection the dialog reports for it,
/// and `read_only` is the selection of the `read-only` choice.
pub fn open_file_results(
    outcome: DialogOutcome,
    uris: Vec<Uri>,
    current_filter: Option<FileFilter>,
    asked: &Vec<(Choice, Option<String>)>,
    read_only: &Option<String>,
) -> (r: Response<OpenFileResults>)
    ensures
        outcome == DialogOutcome::Cancelled ==> r == Response::<OpenFileResults>::Cancelled,
        outcome == DialogOutcome::Dismissed ==> r == Response::<OpenFileResults>::Other,
        outcome == DialogOutcome::Accepted ==> r is Success && {
            let res = r->Success_0;
            &&& res.uris == reported_uris(uris)
            &&& res.writable == writable_of(crate::account::opt_text(*read_only))
            &&& res.current_filter == current_filter
            &&& res.choices is Some
            &&& res.choices->0@.map_values(|c: Choice| choice_view(c)) == chosen(asked@)
        },
{
    match outcome {
        DialogOutcome::Cancelled => Response::cancelled(),
        DialogOutcome::Dismissed => Response::other(),
        DialogOutcome::Accepted => Response::ok(
            OpenFileResults {
                uris: report_uris(uris),
                choices: Some(selected_choices(asked)),
                current_filter,
                writable: writable_from(read_only),
            },
        ),
    }
}

/// The answer of a SaveFile dialog that the user left with `outcome`.
pub fn save_file_results(
    outcome: DialogOutcome,
    uris: Vec<Uri>,
    current_filter: Option<FileFilter>,
    asked: &Vec<(Choice, Option<String>)>,
) -> (r: Response<SaveFileResults>)
    ensures
        outcome == DialogOutcome::Cancelled ==> r == Response::<SaveFileResults>::Cancelled,
        outcome == DialogOutcome::Dismissed ==> r == Response::<SaveFileResults>::Other,
        outcome == DialogOutcome::Accepted ==> r is Success && {
            let res = r->Success_0;
            &&& res.uris == reported_uris(uris)
            &&& res.current_filter == current_filter
            &&& res.choices is Some
            &&& res.choices->0@.map_values(|c: Choice| choice_view(c)) == chosen(asked@)
        },
{
    match outcome {
        DialogOutcome::Cancelled => Response::cancelled(),
        DialogOutcome::Dismissed => Response::other(),
        DialogOutcome::Accepted => Response::ok(
            SaveFileResults { uris: report_uris(uris), choices: Some(selected_choices(asked)), current_filter },
        ),
    }
}

/// The answer of a SaveFiles dialog that the user left with `outcome`.
pub fn save_files_results(
    outcome: DialogOutcome,
    uris: Vec<Uri>,
    asked: &Vec<(Choice, Option<String>)>,
) -> (r: Response<SaveFilesResults>)
    ensures
        outcome == DialogOutcome::Cancelled ==> r == Response::<SaveFilesResults>::Cancelled,
        outcome == DialogOutcome::Dismissed ==> r == Response::<SaveFilesResults>::Other,
        outcome == DialogOutcome::Accepted ==> r is Success && {
            let res = r->Success_0;
            &&& res.uris == reported_uris(uris)
            &&& res.choices is Some
            &&& res.choices->0@.map_values(|c: Choice| choice_view(c)) == chosen(asked@)
        },
{
    match outcome {
        DialogOutcome::Cancelled => Response::cancelled(),
        DialogOutcome::Dismissed => Response::other(),
        DialogOutcome::Accepted => Response::ok(
            SaveFilesResults { uris: report_uris(uris), choices: Some(selected_choices(asked)) },
        ),
    }
}

/// The label of a dialog's accept button: the caller's, or a standard one
/// that the user interface localizes.
#[derive(Debug, Clone, PartialEq, Eq)]
pub enum AcceptLabel {
    Given(String),
    Open,
    Select,
    Save,
}

/// What a dialog lets the user pick.
#[derive(Debug, Clone, Copy, PartialEq, Eq, Structural)]
pub enum ChooserAction {
    /// Existing files.
    Open,
    /// A folder.
    SelectFolder,
    /// A file name to save to.
    Save,
}

/// The read-only choice a dialog adds next to the caller's choices; its
/// label, which the user interface localizes, speaks of files or of
/// directories.
#[derive(Debug, Clone, Copy, PartialEq, Eq, Structural)]
pub enum ReadOnlyChoice {
    Files,
    Directories,
}

/// How to set up a file dialog for a call.
#[derive(Debug, Clone)]
pub struct DialogPlan {
    pub action: ChooserAction,
    pub accept_label: AcceptLabel,
    pub modal: bool,
    pub select_multiple: bool,
    pub filters: Vec<FileFilter>,
    pub current_filter: Option<FileFilter>,
    pub choices: Vec<Choice>,
    pub read_only: Option<ReadOnlyChoice>,
    pub current_name: Option<String>,
    pub current_folder: Option<FileName>,
    pub current_file: Option<FileName>,
}

fn or_empty<T>(v: Option<Vec<T>>) -> (r: Vec<T>)
    ensures
        r@ == match v {
            Some(x) => x@,
            None => Seq::<T>::empty(),
        },
{
    match v {
        Some(x) => x,
        None => Vec::new(),
    }
}

fn label_or(given: Option<String>, standard: AcceptLabel) -> (r: AcceptLabel)
    ensures
        r == match given {
            Some(l) => AcceptLabel::Given(l),
            None => standard,
        },
{
    match given {
        Some(l) => AcceptLabel::Given(l),
        None => standard,
    }
}

/// The dialog for an OpenFile call: folders are chosen where `directory`
/// is set, several items where `multiple` is; the standard accept label is
/// "Select" for several items and "Open" otherwise; the dialog is modal
/// unless asked not to be, and offers a read-only choice.
pub fn open_file_plan(options: OpenFileOptions) -> (r: DialogPlan)
    ensures
        r.action == if options.directory == Some(true) {
            ChooserAction::SelectFolder
        } else {
            ChooserAction::Open
        },
        r.accept_label == match options.accept_label {
            Some(l) => AcceptLabel::Given(l),
            None => if options.multiple == Some(true) {
                AcceptLabel::Select
            } else {
                AcceptLabel::Open
            },
        },
        r.modal == (options.modal != Some(false)),
        r.select_multiple == (options.multiple == Some(true)),
        r.filters@ == match options.filters {
            Some(f) => f@,
            None => Seq::<FileFilter>::empty(),
        },
        r.current_filter == options.current_filter,
        r.choices@ == match options.choices {
            Some(c) => c@,
            None => Seq::<Choice>::empty(),
        },
        r.read_only == Some(
            if options.directory == Some(true) {
                ReadOnlyChoice::Directories
            } else {
                ReadOnlyChoice::Files
            },
        ),
        r.current_name is None,
        r.current_folder is None,
        r.current_file is None,
{
    let multiple = match options.multiple {
        Some(m) => m,
        None => false,
    };
    let directory = match options.directory {
        Some(d) => d,
        None => false,
    };
    let standard = if multiple {
        AcceptLabel::Select
    } else {
        AcceptLabel::Open
    };
    DialogPlan {
        action: if directory {
            ChooserAction::SelectFolder
        } else {
            ChooserAction::Open
        },
        accept_label: label_or(options.accept_label, standard),
        modal: match options.modal {
            Some(m) => m,
            None => true,
        },
        select_multiple: multiple,
        filters: or_empty(options.filters),
        current_filter: options.current_filter,
        choices: or_empty(options.choices),
        read_only: Some(
            if directory {
                ReadOnlyChoice::Directories
            } else {
                ReadOnlyChoice::Files
            },
        ),
        current_name: None,
        current_folder: None,
        current_file: None,
    }
}

/// The dialog for a SaveFile call: one file name is chosen, the standard
/// accept label is "Save", the dialog is modal unless asked not to be, and
/// a current file, where given, wins over a current name and folder.
pub fn save_file_plan(options: SaveFileOptions) -> (r: DialogPlan)
    ensures
        r.action == ChooserAction::Save,
        r.accept_label == match options.accept_label {
            Some(l) => AcceptLabel::Given(l),
            None => AcceptLabel::Save,
        },
        r.modal == (options.modal != Some(false)),
        !r.select_multiple,
        r.filters@ == match options.filters {
            Some(f) => f@,
            None => Seq::<FileFilter>::empty(),
        },
        r.current_filter == options.current_filter,
        r.choices@ == match options.choices {
            Some(c) => c@,
            None => Seq::<Choice>::empty(),
        },
        r.read_only is None,
        r.current_file == options.current_file,
        options.current_file is Some ==> r.current_name is None && r.current_folder is None,
        options.current_file is None ==> r.current_name == options.current_name
            && r.current_folder == options.current_folder,
{
    let (current_file, current_name, current_folder) = match options.current_file {
        Some(f) => (Some(f), None, None),
        None => (None, options.current_name, options.current_folder),
    };
    DialogPlan {
        action: ChooserAction::Save,
        accept_label: label_or(options.accept_label, AcceptLabel::Save),
        modal: match options.modal {
            Some(m) => m,
            None => true,
        },
        select_multiple: false,
        filters: or_empty(options.filters),
        current_filter: options.current_filter,
        choices: or_empty(options.choices),
        read_only: None,
        current_name,
        current_folder,
        current_file,
    }
}

/// The dialog for a SaveFiles call: a folder is chosen to save the files
/// in, the standard accept label is "Save", the dialog is modal unless
/// asked not to be, and offers a read-only choice for directories.
pub fn save_files_plan(options: SaveFilesOptions) -> (r: DialogPlan)
    ensures
        r.action == ChooserAction::SelectFolder,
        r.accept_label == match options.accept_label {
            Some(l) => AcceptLabel::Given(l),
            None => AcceptLabel::Save,
        },
        r.modal == (options.modal != Some(false)),
        !r.select_multiple,
        r.filters@.len() == 0,
        r.current_filter is None,
        r.choices@ == match options.choices {
            Some(c) => c@,
            None => Seq::<Choice>::empty(),
        },
        r.read_only == Some(ReadOnlyChoice::Directories),
        r.current_name is None,
        r.current_folder == options.current_folder,
        r.current_file is None,
{
    DialogPlan {
        action: ChooserAction::SelectFolder,
        accept_label: label_or(options.accept_label, AcceptLabel::Save),
        modal: match options.modal {
            Some(m) => m,
            None => true,
        },
        select_multiple: false,
        filters: Vec::new(),
        current_filter: None,
        choices: or_empty(options.choices),
        read_only: Some(ReadOnlyChoice::Directories),
        current_name: None,
        current_folder: options.current_folder,
        current_file: None,
    }
}

/// The arguments of a FileChooser call.
#[derive(Debug)]
pub enum FileChooserCall {
    OpenFile {
        app_id: AppID,
        window_identifier: WindowIdentifierType,
        title: String,
        options: OpenFileOptions,
    },
    SaveFile {
        app_id: AppID,
        window_identifier: WindowIdentifierType,
        title: String,
        options: SaveFileOptions,
    },
    SaveFiles {
        app_id: AppID,
        window_identifier: WindowIdentifierType,
        title: String,
        options: SaveFilesOptions,
    },
}

/// The answer of a FileChooser call, of the call's kind.
#[derive(Debug, Clone)]
pub enum FileChooserReply {
    OpenFile(Response<OpenFileResults>),
    SaveFile(Response<SaveFileResults>),
    SaveFiles(Response<SaveFilesResults>),
}

/// The answer `Other` of the kind of `call`.
pub open spec fn failure_reply(call: FileChooserCall) -> FileChooserReply {
    match call {
        FileChooserCall::OpenFile { .. } => FileChooserReply::OpenFile(Response::Other),
        FileChooserCall::SaveFile { .. } => FileChooserReply::SaveFile(Response::Other),
        FileChooserCall::SaveFiles { .. } => FileChooserReply::SaveFiles(Response::Other),
    }
}

fn failure_of(call: &FileChooserCall) -> (r: FileChooserReply)
    ensures
        r == failure_reply(*call),
{
    match call {
        FileChooserCall::OpenFile { .. } => FileChooserReply::OpenFile(Response::other()),
        FileChooserCall::SaveFile { .. } => FileChooserReply::SaveFile(Response::other()),
        FileChooserCall::SaveFiles { .. } => FileChooserReply::SaveFiles(Response::other()),
    }
}

/// Environment logic behind the FileChooser interface.
pub trait FileChooserImpl: RequestImpl {
    /// Whether `r` is an answer this logic gives to OpenFile with these
    /// arguments. Every answer is allowed unless an implementation says
    /// otherwise here.
    closed spec fn open_file_answer(
        &self,
        app_id: AppID,
        window_identifier: WindowIdentifierType,
        title: Seq<char>,
        options: OpenFileOptions,
        r: Response<OpenFileResults>,
    ) -> bool {
        true
    }

    /// Whether `r` is an answer this logic gives to SaveFile with these
    /// arguments. Every answer is allowed unless an implementation says
    /// otherwise here.
    closed spec fn save_file_answer(
        &self,
        app_id: AppID,
        window_identifier: WindowIdentifierType,
        title: Seq<char>,
        options: SaveFileOptions,
        r: Response<SaveFileResults>,
    ) -> bool {
        true
    }

    /// Whether `r` is an answer this logic gives to SaveFiles with these
    /// arguments. Every answer is allowed unless an implementation says
    /// otherwise here.
    closed spec fn save_files_answer(
        &self,
        app_id: AppID,
        window_identifier: WindowIdentifierType,
        title: Seq<char>,
        options: SaveFilesOptions,
        r: Response<SaveFilesResults>,
    ) -> bool {
        true
    }

    fn open_file(
        &self,
        app_id: AppID,
        window_identifier: WindowIdentifierType,
        title: &str,
        options: OpenFileOptions,
    ) -> (r: Response<OpenFileResults>)
        ensures
            self.open_file_answer(app_id, window_identifier, title@, options, r),
    ;

    fn save_file(
        &self,
        app_id: AppID,
        window_identifier: WindowIdentifierType,
        title: &str,
        options: SaveFileOptions,
    ) -> (r: Response<SaveFileResults>)
        ensures
            self.save_file_answer(app_id, window_identifier, title@, options, r),
    ;

    fn save_files(
        &self,
        app_id: AppID,
        window_identifier: WindowIdentifierType,
        title: &str,
        options: SaveFilesOptions,
    ) -> (r: Response<SaveFilesResults>)
        ensures
            self.save_files_answer(app_id, window_identifier, title@, options, r),
    ;
}

/// The FileChooser interface: its calls, queued and answered one at a time.
pub struct FileChooser<T> {
    pub dispatcher: Dispatcher<FileChooserCall, FileChooserReply>,
    pub imp: T,
}

impl<T: FileChooserImpl> FileChooser<T> {
    pub fn new(imp: T) -> (r: Self)
        ensures
            r.dispatcher.wf(),
            r.dispatcher.pending().len() == 0,
            r.dispatcher.slots().len() == 0,
            r.dispatcher.bound() == CHANNEL_CAPACITY,
            !r.dispatcher.is_shut(),
            r.imp == imp,
    {
        FileChooser { dispatcher: Dispatcher::new(CHANNEL_CAPACITY), imp }
    }

    /// Receives a FileChooser call whose request lives at `handle`.
    pub fn submit(&mut self, handle: String, call: FileChooserCall) -> (r: Result<
        usize,
        SubmitError,
    >)
        requires
            old(self).dispatcher.wf(),
        ensures
            final(self).dispatcher.wf(),
            final(self).imp == old(self).imp,
            submitted(old(self).dispatcher, final(self).dispatcher, Some(handle), call, r),
    {
        self.dispatcher.submit(Some(handle), call)
    }

    /// Receives an OpenFile call whose request lives at `handle`.
    pub fn open_file(
        &mut self,
        handle: String,
        app_id: AppID,
        window_identifier: WindowIdentifierType,
        title: String,
        options: OpenFileOptions,
    ) -> (r: Result<usize, SubmitError>)
        requires
            old(self).dispatcher.wf(),
        ensures
            final(self).dispatcher.wf(),
            final(self).imp == old(self).imp,
            submitted(
                old(self).dispatcher,
                final(self).dispatcher,
                Some(handle),
                FileChooserCall::OpenFile { app_id, window_identifier, title, options },
                r,
            ),
    {
        self.submit(handle, FileChooserCall::OpenFile { app_id, window_identifier, title, options })
    }

    /// Receives a SaveFile call whose request lives at `handle`.
    pub fn save_file(
        &mut self,
        handle: String,
        app_id: AppID,
        window_identifier: WindowIdentifierType,
        title: String,
        options: SaveFileOptions,
    ) -> (r: Result<usize, SubmitError>)
        requires
            old(self).dispatcher.wf(),
        ensures
            final(self).dispatcher.wf(),
            final(self).imp == old(self).imp,
            submitted(
                old(self).dispatcher,
                final(self).dispatcher,
                Some(handle),
                FileChooserCall::SaveFile { app_id, window_identifier, title, options },
                r,
            ),
    {
        self.submit(handle, FileChooserCall::SaveFile { app_id, window_identifier, title, options })
    }

    /// Receives a SaveFiles call whose request lives at `handle`.
    pub fn save_files(
        &mut self,
        handle: String,
        app_id: AppID,
        window_identifier: WindowIdentifierType,
        title: String,
        options: SaveFilesOptions,
    ) -> (r: Result<usize, SubmitError>)
        requires
            old(self).dispatcher.wf(),
        ensures
            final(self).dispatcher.wf(),
            final(self).imp == old(self).imp,
            submitted(
                old(self).dispatcher,
                final(self).dispatcher,
                Some(handle),
                FileChooserCall::SaveFiles { app_id, window_identifier, title, options },
                r,
            ),
    {
        self.submit(handle, FileChooserCall::SaveFiles { app_id, window_identifier, title, options })
    }

    /// The next call to serve, or `None` at once when none waits.
    pub fn next(&mut self) -> (r: Option<Action<FileChooserCall>>)
        requires
            old(self).dispatcher.wf(),
        ensures
            final(self).dispatcher.wf(),
            final(self).imp == old(self).imp,
            final(self).dispatcher.bound() == old(self).dispatcher.bound(),
            final(self).dispatcher.is_shut() == old(self).dispatcher.is_shut(),
            final(self).dispatcher.slots() == old(self).dispatcher.slots(),
            old(self).dispatcher.pending().len() == 0 ==> r is None && final(self).dispatcher.pending()
                == old(self).dispatcher.pending(),
            old(self).dispatcher.pending().len() > 0 ==> r == Some(
                old(self).dispatcher.pending()[0],
            ) && final(self).dispatcher.pending() == old(self).dispatcher.pending().drop_first(),
    {
        self.dispatcher.poll_next()
    }

    /// Serves one call: registers its request, runs the business logic with
    /// the call's own arguments, and answers the call with exactly what the
    /// business logic returned. Where the request cannot be registered the
    /// business logic is not run and the call is answered `Other`.
    pub fn activate(&mut self, registry: &mut RequestRegistry, action: Action<FileChooserCall>)
        requires
            old(self).dispatcher.wf(),
            old(registry).wf(),
        ensures
            final(self).dispatcher.wf(),
            final(registry).wf(),
            final(self).dispatcher.pending() == old(self).dispatcher.pending(),
            final(self).dispatcher.bound() == old(self).dispatcher.bound(),
            final(self).dispatcher.is_shut() == old(self).dispatcher.is_shut(),
            answered(old(self).dispatcher.slots(), final(self).dispatcher.slots(), action.call as int),
            request_opened(*old(registry), *final(registry), action.handle),
            final(self).imp == old(self).imp,
            ({
                let c = action.call as int;
                let reply = final(self).dispatcher.slots()[c]->Filled_0;
                0 <= c < old(self).dispatcher.slots().len() && old(self).dispatcher.slots()[c] is Waiting
                    ==> final(self).dispatcher.slots()[c] is Filled && if handle_free(
                    *old(registry),
                    action.handle,
                ) {
                    match action.args {
                        FileChooserCall::OpenFile { app_id, window_identifier, title, options } => {
                            &&& reply is OpenFile
                            &&& old(self).imp.open_file_answer(
                                app_id,
                                window_identifier,
                                title@,
                                options,
                                reply->OpenFile_0,
                            )
                        },
                        FileChooserCall::SaveFile { app_id, window_identifier, title, options } => {
                            &&& reply is SaveFile
                            &&& old(self).imp.save_file_answer(
                                app_id,
                                window_identifier,
                                title@,
                                options,
                                reply->SaveFile_0,
                            )
                        },
                        FileChooserCall::SaveFiles { app_id, window_identifier, title, options } => {
                            &&& reply is SaveFiles
                            &&& old(self).imp.save_files_answer(
                                app_id,
                                window_identifier,
                                title@,
                                options,
                                reply->SaveFiles_0,
                            )
                        },
                    }
                } else {
                    final(self).dispatcher.slots()[c] == Slot::Filled(failure_reply(action.args))
                }
            }),
    {
        let Action { call, handle, args } = action;
        match handle {
            None => {},
            Some(h) => match Request::new(registry, h) {
                Ok(_) => {},
                Err(_) => {
                    let failure = failure_of(&args);
                    let _ = self.dispatcher.complete(call, failure);
                    return;
                },
            },
        }
        let reply = match args {
            FileChooserCall::OpenFile { app_id, window_identifier, title, options } => {
                FileChooserReply::OpenFile(
                    self.imp.open_file(app_id, window_identifier, title.as_str(), options),
                )
            },
            FileChooserCall::SaveFile { app_id, window_identifier, title, options } => {
                FileChooserReply::SaveFile(
                    self.imp.save_file(app_id, window_identifier, title.as_str(), options),
                )
            },
            FileChooserCall::SaveFiles { app_id, window_identifier, title, options } => {
                FileChooserReply::SaveFiles(
                    self.imp.save_files(app_id, window_identifier, title.as_str(), options),
                )
            },
        };
        let _ = self.dispatcher.complete(call, reply);
    }

    /// Hands the answer of `call` to its caller, once it is there.
    pub fn response(&mut self, call: usize) -> (r: Option<FileChooserReply>)
        requires
            old(self).dispatcher.wf(),
        ensures
            final(self).dispatcher.wf(),
            final(self).imp == old(self).imp,
            final(self).dispatcher.bound() == old(self).dispatcher.bound(),
            final(self).dispatcher.is_shut() == old(self).dispatcher.is_shut(),
            final(self).dispatcher.pending() == old(self).dispatcher.pending(),
            (call < old(self).dispatcher.slots().len() && old(self).dispatcher.slots()[call as int] is Filled)
                ==> r == Some(old(self).dispatcher.slots()[call as int]->Filled_0) && final(self).dispatcher.slots() == old(self).dispatcher.slots().update(call as int, Slot::Delivered),
            !(call < old(self).dispatcher.slots().len() && old(self).dispatcher.slots()[call as int] is Filled)
                ==> r is None && final(self).dispatcher.slots() == old(self).dispatcher.slots(),
    {
        self.dispatcher.take_response(call)
    }

    /// Serves a Close call on the request at `handle`.
    pub fn close(&self, registry: &mut RequestRegistry, handle: &String) -> (r: Result<(), CloseError>)
        requires
            old(registry).wf(),
        ensures
            final(registry).wf(),
            r == close_outcome(old(registry).state_of(handle@)),
            final(registry).state_of(handle@) == close_call_step(old(registry).state_of(handle@)),
            forall|k: Seq<char>| k != handle@ ==> final(registry).state_of(k) == old(registry).state_of(k),
    {
        serve_close(&self.imp, registry, handle)
    }
}

} // verus!
