//! Backend side of the desktop portal request/response protocol.
//!
//! Remote calls are packaged as actions, queued on a bounded channel, taken
//! one at a time by a dispatch loop, and answered through single-use
//! completion slots. Cancellable calls register a request object that a
//! caller may close while the call is in flight.
//!
//! Every call that is taken from the channel is answered: where its request
//! object cannot be registered, the call is answered `Other` rather than
//! left waiting. A call is served to its end while the request registry is
//! held, so a Close on its request is served after the call's answer is in
//! its slot; it does not interrupt the business logic.
mod account;
mod backend;
mod channel;
mod completion;
mod dispatch;
mod documents;
mod file_chooser;
mod ids;
mod request;
mod response;
mod settings;
mod uri;
mod wallpaper;
mod window;

pub use account::{
    opt_str, opt_text, Account, AccountImpl, GetUserInformation, UserInformation,
    UserInformationOptions, UserInformationRequest,
};
pub use backend::{
    interface_name, lemma_release_once, owns_name, release_step, Backend, BackendError,
    InterfaceKind, NameReply, IMPL_PATH,
};
pub use channel::{ActionChannel, SendError};
pub use completion::{
    appears_in, fill_in_order, fill_step, is_ordering, lemma_each_call_gets_its_answer,
    CompletionSlots, Slot,
};
pub use dispatch::{
    answered, close_call_step, handle_free, lemma_new_call_gets_fresh_slot, lemma_second_close_not_found,
    request_opened, serve_close, submitted, Action, Dispatcher, Request, RequestImpl,
    SubmitError, CHANNEL_CAPACITY,
};
pub use documents::{
    flag_bits, lemma_permission_names_distinct, permission_name, Flags, Permission,
};
pub use file_chooser::{
    choice_view, chosen, failure_reply, is_nul_terminated, is_read_only_choice, offered_choices,
    selected_choices, open_file_plan, open_file_results,
    reported_uris, save_file_plan, save_file_results, save_files_plan, save_files_results,
    writable_from, writable_of, AcceptLabel, ChooserAction, Choice, DialogOutcome,
    DialogPlan, FileChooser, FileChooserCall, FileChooserImpl, FileChooserReply, FileFilter,
    FileName, FilterRule, OpenFileOptions, OpenFileResults, ReadOnlyChoice, SaveFileOptions,
    SaveFileResults, SaveFilesOptions, SaveFilesResults,
};
pub use ids::{AppID, DocumentID};
pub use request::{
    begin_close_step, close_outcome, finish_close_step, finish_outcome, CloseError, RegisterError,
    RequestRegistry, RequestState,
};
pub use response::{response_code, Response};
pub use settings::{
    is_settings_map, matches_namespace, namespace_matches, namespace_selected, selects_namespace, Namespace,
    SettingValue, Settings, SettingsCall, SettingsImpl, SettingsReply,
};
pub use uri::{parse_uris, parsed_uris, url_parse, Uri};
pub use wallpaper::{
    set_on_name, SetOn, SetWallpaperUri, Wallpaper, WallpaperImpl, WallpaperOptions,
};
pub use window::{
    has_prefix, hex_digit_value, hex_value, parse_hex, x11_digits, WindowIdentifier,
    WindowIdentifierType,
};
