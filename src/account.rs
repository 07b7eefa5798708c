use crate::completion::Slot;
use crate::dispatch::{
    answered, close_call_step, handle_free, request_opened, serve_close, submitted, Action,
    Dispatcher, Request, RequestImpl, SubmitError, CHANNEL_CAPACITY,
};
use crate::ids::AppID;
use crate::request::{close_outcome, CloseError, RequestRegistry};
use crate::response::Response;
use crate::uri::Uri;
use crate::window::{WindowIdentifier, WindowIdentifierType};
use vstd::prelude::*;

verus! {

/// The view of an optional text.
pub open spec fn opt_text(o: Option<String>) -> Option<Seq<char>> {
    match o {
        Some(s) => Some(s@),
        None => None,
    }
}

/// The view of an optional borrowed text.
pub open spec fn opt_str(o: Option<&str>) -> Option<Seq<char>> {
    match o {
        Some(s) => Some(s@),
        None => None,
    }
}

pub fn as_opt_str(o: &Option<String>) -> (r: Option<&str>)
    ensures
        opt_str(r) == opt_text(*o),
{
    match o {
        Some(s) => Some(s.as_str()),
        None => None,
    }
}

/// Options of a request for the user's information.
#[derive(Debug, Clone, Default)]
pub struct UserInformationOptions {
    reason: Option<String>,
}

impl UserInformationOptions {
    pub closed spec fn reason_text(&self) -> Option<Seq<char>> {
        opt_text(self.reason)
    }

    pub fn new(reason: Option<String>) -> (r: Self)
        ensures
            r.reason_text() == opt_text(reason),
    {
        UserInformationOptions { reason }
    }

    /// The user-visible reason given for the request.
    pub fn reason(&self) -> (r: Option<&str>)
        ensures
            opt_str(r) == self.reason_text(),
    {
        as_opt_str(&self.reason)
    }
}

/// The current user's identifier, name and picture.
#[derive(Debug, Clone, Default)]
pub struct UserInformation {
    id: Option<String>,
    name: Option<String>,
    image: Option<Uri>,
}

impl UserInformation {
    pub closed spec fn id_text(&self) -> Option<Seq<char>> {
        opt_text(self.id)
    }

    pub closed spec fn name_text(&self) -> Option<Seq<char>> {
        opt_text(self.name)
    }

    pub closed spec fn image_uri(&self) -> Option<Uri> {
        self.image
    }

    pub fn new(id: &str, name: &str, image: Uri) -> (r: Self)
        ensures
            r.id_text() == Some(id@),
            r.name_text() == Some(name@),
            r.image_uri() == Some(image),
    {
        UserInformation { id: Some(id.to_owned()), name: Some(name.to_owned()), image: Some(image) }
    }

    /// User identifier.
    pub fn id(&self) -> (r: Option<&str>)
        ensures
            opt_str(r) == self.id_text(),
    {
        as_opt_str(&self.id)
    }

    /// User name.
    pub fn name(&self) -> (r: Option<&str>)
        ensures
            opt_str(r) == self.name_text(),
    {
        as_opt_str(&self.name)
    }

    /// User picture.
    pub fn image(&self) -> (r: Option<&Uri>)
        ensures
            r == match self.image_uri() {
                Some(u) => Some(&u),
                None => None::<&Uri>,
            },
    {
        match &self.image {
            Some(u) => Some(u),
            None => None,
        }
    }

    /// A builder for a request of the user's information.
    pub fn builder() -> (r: UserInformationRequest)
        ensures
            r.reason_text() is None,
            r.window().target is None,
    {
        UserInformationRequest::new()
    }
}

/// Builds a request for the user's information, as a client sends it.
#[derive(Debug, Clone)]
pub struct UserInformationRequest {
    reason: Option<String>,
    identifier: WindowIdentifier,
}

impl UserInformationRequest {
    pub closed spec fn reason_text(&self) -> Option<Seq<char>> {
        opt_text(self.reason)
    }

    pub closed spec fn window(&self) -> WindowIdentifier {
        self.identifier
    }

    /// A request with no reason and no parent window.
    pub fn new() -> (r: Self)
        ensures
            r.reason_text() is None,
            r.window().target is None,
    {
        UserInformationRequest { reason: None, identifier: WindowIdentifier::none() }
    }

    /// Sets a user-visible reason for the request; `None` clears it.
    pub fn reason(self, reason: Option<&str>) -> (r: Self)
        ensures
            r.reason_text() == opt_str(reason),
            r.window() == self.window(),
    {
        let reason = match reason {
            Some(s) => Some(s.to_owned()),
            None => None,
        };
        UserInformationRequest { reason, identifier: self.identifier }
    }

    /// Sets the window to parent the dialog to; `None` leaves it unset.
    pub fn identifier(self, identifier: Option<WindowIdentifier>) -> (r: Self)
        ensures
            r.reason_text() == self.reason_text(),
            r.window() == match identifier {
                Some(w) => w,
                None => WindowIdentifier { target: None },
            },
    {
        let identifier = match identifier {
            Some(w) => w,
            None => WindowIdentifier::none(),
        };
        UserInformationRequest { reason: self.reason, identifier }
    }

    /// The options that the request carries.
    pub fn options(&self) -> (r: UserInformationOptions)
        ensures
            r.reason_text() == self.reason_text(),
    {
        UserInformationOptions::new(self.reason.clone())
    }

    pub fn window_identifier(&self) -> (r: &WindowIdentifier)
        ensures
            *r == self.window(),
    {
        &self.identifier
    }
}

/// The arguments of a GetUserInformation call.
#[derive(Debug)]
pub struct GetUserInformation {
    pub app_id: AppID,
    pub window_identifier: WindowIdentifierType,
    pub options: UserInformationOptions,
}

/// Environment logic behind the Account interface.
pub trait AccountImpl: RequestImpl {
    /// Whether `r` is an answer this logic gives to GetUserInformation with
    /// these arguments. Every answer is allowed unless an implementation says
    /// otherwise here.
    closed spec fn user_information_answer(
        &self,
        app_id: AppID,
        window_identifier: WindowIdentifierType,
        options: UserInformationOptions,
        r: Response<UserInformation>,
    ) -> bool {
        true
    }

    fn get_user_information(
        &self,
        app_id: AppID,
        window_identifier: WindowIdentifierType,
        options: UserInformationOptions,
    ) -> (r: Response<UserInformation>)
        ensures
            self.user_information_answer(app_id, window_identifier, options, r),
    ;
}

/// The Account interface: its calls, queued and answered one at a time.
pub struct Account<T> {
    pub dispatcher: Dispatcher<GetUserInformation, Response<UserInformation>>,
    pub imp: T,
}

impl<T: AccountImpl> Account<T> {
    pub fn new(imp: T) -> (r: Self)
        ensures
            r.dispatcher.wf(),
            r.dispatcher.pending().len() == 0,
            r.dispatcher.slots().len() == 0,
            r.dispatcher.bound() == CHANNEL_CAPACITY,
            !r.dispatcher.is_shut(),
            r.imp == imp,
    {
        Account { dispatcher: Dispatcher::new(CHANNEL_CAPACITY), imp }
    }

    /// Receives a GetUserInformation call whose request lives at `handle`.
    pub fn get_user_information(
        &mut self,
        handle: String,
        app_id: AppID,
        window_identifier: WindowIdentifierType,
        options: UserInformationOptions,
    ) -> (r: Result<usize, SubmitError>)
        requires
            old(self).dispatcher.wf(),
        ensures
            final(self).dispatcher.wf(),
            final(self).imp == old(self).imp,
            submitted(
                old(self).dispatcher,
                final(self).dispatcher,
                Some(handle),
                GetUserInformation { app_id, window_identifier, options },
                r,
            ),
    {
        self.dispatcher.submit(
            Some(handle),
            GetUserInformation { app_id, window_identifier, options },
        )
    }

    /// The next call to serve, or `None` at once when none waits.
    pub fn try_next(&mut self) -> (r: Option<Action<GetUserInformation>>)
        requires
            old(self).dispatcher.wf(),
        ensures
            final(self).dispatcher.wf(),
            final(self).imp == old(self).imp,
            final(self).dispatcher.bound() == old(self).dispatcher.bound(),
            final(self).dispatcher.is_shut() == old(self).dispatcher.is_shut(),
            final(self).dispatcher.slots() == old(self).dispatcher.slots(),
            old(self).dispatcher.pending().len() == 0 ==> r is None && final(self).dispatcher.pending()
                == old(self).dispatcher.pending(),
            old(self).dispatcher.pending().len() > 0 ==> r == Some(
                old(self).dispatcher.pending()[0],
            ) && final(self).dispatcher.pending() == old(self).dispatcher.pending().drop_first(),
    {
        self.dispatcher.poll_next()
    }

    /// Serves one call: registers its request, runs the business logic with
    /// the call's own arguments, and answers the call with exactly what the
    /// business logic returned. Where the request cannot be registered the
    /// business logic is not run and the call is answered `Other`.
    pub fn activate(&mut self, registry: &mut RequestRegistry, action: Action<GetUserInformation>)
        requires
            old(self).dispatcher.wf(),
            old(registry).wf(),
        ensures
            final(self).dispatcher.wf(),
            final(registry).wf(),
            final(self).dispatcher.pending() == old(self).dispatcher.pending(),
            final(self).dispatcher.bound() == old(self).dispatcher.bound(),
            final(self).dispatcher.is_shut() == old(self).dispatcher.is_shut(),
            answered(old(self).dispatcher.slots(), final(self).dispatcher.slots(), action.call as int),
            request_opened(*old(registry), *final(registry), action.handle),
            final(self).imp == old(self).imp,
            ({
                let c = action.call as int;
                0 <= c < old(self).dispatcher.slots().len() && old(self).dispatcher.slots()[c] is Waiting
                    ==> final(self).dispatcher.slots()[c] is Filled && if handle_free(
                    *old(registry),
                    action.handle,
                ) {
                    old(self).imp.user_information_answer(
                        action.args.app_id,
                        action.args.window_identifier,
                        action.args.options,
                        final(self).dispatcher.slots()[c]->Filled_0,
                    )
                } else {
                    final(self).dispatcher.slots()[c] == Slot::Filled(Response::<UserInformation>::Other)
                }
            }),
    {
        let Action { call, handle, args } = action;
        match handle {
            None => {},
            Some(h) => match Request::new(registry, h) {
                Ok(_) => {},
                Err(_) => {
                    let _ = self.dispatcher.complete(call, Response::other());
                    return;
                },
            },
        }
        let GetUserInformation { app_id, window_identifier, options } = args;
        let result = self.imp.get_user_information(app_id, window_identifier, options);
        let _ = self.dispatcher.complete(call, result);
    }

    /// Hands the answer of `call` to its caller, once it is there.
    pub fn response(&mut self, call: usize) -> (r: Option<Response<UserInformation>>)
        requires
            old(self).dispatcher.wf(),
        ensures
            final(self).dispatcher.wf(),
            final(self).imp == old(self).imp,
            final(self).dispatcher.bound() == old(self).dispatcher.bound(),
            final(self).dispatcher.is_shut() == old(self).dispatcher.is_shut(),
            final(self).dispatcher.pending() == old(self).dispatcher.pending(),
            (call < old(self).dispatcher.slots().len() && old(self).dispatcher.slots()[call as int] is Filled)
                ==> r == Some(old(self).dispatcher.slots()[call as int]->Filled_0) && final(self).dispatcher.slots() == old(self).dispatcher.slots().update(call as int, Slot::Delivered),
            !(call < old(self).dispatcher.slots().len() && old(self).dispatcher.slots()[call as int] is Filled)
                ==> r is None && final(self).dispatcher.slots() == old(self).dispatcher.slots(),
    {
        self.dispatcher.take_response(call)
    }

    /// Serves a Close call on the request at `handle`.
    pub fn close(&self, registry: &mut RequestRegistry, handle: &String) -> (r: Result<(), CloseError>)
        requires
            old(registry).wf(),
        ensures
            final(registry).wf(),
            r == close_outcome(old(registry).state_of(handle@)),
            final(registry).state_of(handle@) == close_call_step(old(registry).state_of(handle@)),
            forall|k: Seq<char>| k != handle@ ==> final(registry).state_of(k) == old(registry).state_of(k),
    {
        serve_close(&self.imp, registry, handle)
    }
}

} // verus!
