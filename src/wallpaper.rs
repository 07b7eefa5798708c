use crate::completion::Slot;
use crate::dispatch::{
    answered, close_call_step, handle_free, request_opened, serve_close, submitted, Action,
    Dispatcher, Request, RequestImpl, SubmitError, CHANNEL_CAPACITY,
};
use crate::ids::AppID;
use crate::request::{close_outcome, CloseError, RequestRegistry};
use crate::response::Response;
use crate::uri::Uri;
use crate::window::WindowIdentifierType;
use vstd::prelude::*;

verus! {

/// Where a wallpaper is to be shown.
#[derive(Debug, Clone, Copy, PartialEq, Eq, Structural)]
pub enum SetOn {
    Background,
    Lockscreen,
    Both,
}

impl SetOn {
    /// The name the wire protocol uses.
    pub fn as_str(&self) -> (r: &'static str)
        ensures
            r@ == set_on_name(*self),
    {
        match self {
            SetOn::Background => "background",
            SetOn::Lockscreen => "lockscreen",
            SetOn::Both => "both",
        }
    }

    /// The place named `s`, or `None` where `s` names none.
    pub fn parse(s: &str) -> (r: Option<SetOn>)
        ensures
            forall|p: SetOn| (r == Some(p)) <==> set_on_name(p) == s@,
    {
        let text = s.to_owned();
        proof {
            reveal_strlit("background");
            reveal_strlit("lockscreen");
            reveal_strlit("both");
        }
        let r = if text == String::from_str("background") {
            Some(SetOn::Background)
        } else if text == String::from_str("lockscreen") {
            Some(SetOn::Lockscreen)
        } else if text == String::from_str("both") {
            Some(SetOn::Both)
        } else {
            None
        };
        proof {
            assert forall|p: SetOn| (r == Some(p)) <==> set_on_name(p) == s@ by {
                if let Some(q) = r {
                    assert(set_on_name(q) == s@);
                    if set_on_name(p) == s@ {
                        lemma_set_on_names_distinct(p, q);
                    }
                } else {
                    match p {
                        SetOn::Background => {},
                        SetOn::Lockscreen => {},
                        SetOn::Both => {},
                    }
                }
            }
        }
        r
    }
}

/// Different places have different names.
proof fn lemma_set_on_names_distinct(a: SetOn, b: SetOn)
    requires
        set_on_name(a) == set_on_name(b),
    ensures
        a == b,
{
    reveal_strlit("background");
    reveal_strlit("lockscreen");
    reveal_strlit("both");
    match a {
        SetOn::Background => {
            assert(set_on_name(a).len() == 10 && set_on_name(a)[0] == 'b');
        },
        SetOn::Lockscreen => {
            assert(set_on_name(a).len() == 10 && set_on_name(a)[0] == 'l');
        },
        SetOn::Both => {
            assert(set_on_name(a).len() == 4);
        },
    }
    match b {
        SetOn::Background => {
            assert(set_on_name(b).len() == 10 && set_on_name(b)[0] == 'b');
        },
        SetOn::Lockscreen => {
            assert(set_on_name(b).len() == 10 && set_on_name(b)[0] == 'l');
        },
        SetOn::Both => {
            assert(set_on_name(b).len() == 4);
        },
    }
}

pub open spec fn set_on_name(s: SetOn) -> Seq<char> {
    match s {
        SetOn::Background => "background"@,
        SetOn::Lockscreen => "lockscreen"@,
        SetOn::Both => "both"@,
    }
}

/// Options of a SetWallpaperURI call.
#[derive(Debug, Clone, Copy, Default)]
pub struct WallpaperOptions {
    pub show_preview: Option<bool>,
    pub set_on: Option<SetOn>,
}

/// The arguments of a SetWallpaperURI call.
#[derive(Debug)]
pub struct SetWallpaperUri {
    pub app_id: AppID,
    pub window_identifier: WindowIdentifierType,
    pub uri: Uri,
    pub options: WallpaperOptions,
}

/// Environment logic behind the Wallpaper interface.
pub trait WallpaperImpl: RequestImpl {
    /// Whether `r` is an answer this logic gives to SetWallpaperURI with
    /// these arguments. Every answer is allowed unless an implementation says
    /// otherwise here.
    closed spec fn wallpaper_answer(
        &self,
        app_id: AppID,
        window_identifier: WindowIdentifierType,
        uri: Uri,
        options: WallpaperOptions,
        r: Response<()>,
    ) -> bool {
        true
    }

    fn set_wallpaper_uri(
        &self,
        app_id: AppID,
        window_identifier: WindowIdentifierType,
        uri: Uri,
        options: WallpaperOptions,
    ) -> (r: Response<()>)
        ensures
            self.wallpaper_answer(app_id, window_identifier, uri, options, r),
    ;
}

/// The Wallpaper interface: its calls, queued and answered one at a time.
pub struct Wallpaper<T> {
    pub dispatcher: Dispatcher<SetWallpaperUri, Response<()>>,
    pub imp: T,
}

impl<T: WallpaperImpl> Wallpaper<T> {
    pub fn new(imp: T) -> (r: Self)
        ensures
            r.dispatcher.wf(),
            r.dispatcher.pending().len() == 0,
            r.dispatcher.slots().len() == 0,
            r.dispatcher.bound() == CHANNEL_CAPACITY,
            !r.dispatcher.is_shut(),
            r.imp == imp,
    {
        Wallpaper { dispatcher: Dispatcher::new(CHANNEL_CAPACITY), imp }
    }

    /// Receives a SetWallpaperURI call whose request lives at `handle`.
    pub fn set_wallpaper_uri(
        &mut self,
        handle: String,
        app_id: AppID,
        window_identifier: WindowIdentifierType,
        uri: Uri,
        options: WallpaperOptions,
    ) -> (r: Result<usize, SubmitError>)
        requires
            old(self).dispatcher.wf(),
        ensures
            final(self).dispatcher.wf(),
            final(self).imp == old(self).imp,
            submitted(
                old(self).dispatcher,
                final(self).dispatcher,
                Some(handle),
                SetWallpaperUri { app_id, window_identifier, uri, options },
                r,
            ),
    {
        self.dispatcher.submit(Some(handle), SetWallpaperUri { app_id, window_identifier, uri, options })
    }

    /// The next call to serve, or `None` at once when none waits.
    pub fn next(&mut self) -> (r: Option<Action<SetWallpaperUri>>)
        requires
            old(self).dispatcher.wf(),
        ensures
            final(self).dispatcher.wf(),
            final(self).imp == old(self).imp,
            final(self).dispatcher.bound() == old(self).dispatcher.bound(),
            final(self).dispatcher.is_shut() == old(self).dispatcher.is_shut(),
            final(self).dispatcher.slots() == old(self).dispatcher.slots(),
            old(self).dispatcher.pending().len() == 0 ==> r is None && final(self).dispatcher.pending()
                == old(self).dispatcher.pending(),
            old(self).dispatcher.pending().len() > 0 ==> r == Some(
                old(self).dispatcher.pending()[0],
            ) && final(self).dispatcher.pending() == old(self).dispatcher.pending().drop_first(),
    {
        self.dispatcher.poll_next()
    }

    /// Serves one call: registers its request, runs the business logic with
    /// the call's own arguments, and answers the call with exactly what the
    /// business logic returned. Where the request cannot be registered the
    /// business logic is not run and the call is answered `Other`.
    pub fn activate(&mut self, registry: &mut RequestRegistry, action: Action<SetWallpaperUri>)
        requires
            old(self).dispatcher.wf(),
            old(registry).wf(),
        ensures
            final(self).dispatcher.wf(),
            final(registry).wf(),
            final(self).dispatcher.pending() == old(self).dispatcher.pending(),
            final(self).dispatcher.bound() == old(self).dispatcher.bound(),
            final(self).dispatcher.is_shut() == old(self).dispatcher.is_shut(),
            answered(old(self).dispatcher.slots(), final(self).dispatcher.slots(), action.call as int),
            request_opened(*old(registry), *final(registry), action.handle),
            final(self).imp == old(self).imp,
            ({
                let c = action.call as int;
                0 <= c < old(self).dispatcher.slots().len() && old(self).dispatcher.slots()[c] is Waiting
                    ==> final(self).dispatcher.slots()[c] is Filled && if handle_free(
                    *old(registry),
                    action.handle,
                ) {
                    old(self).imp.wallpaper_answer(
                        action.args.app_id,
                        action.args.window_identifier,
                        action.args.uri,
                        action.args.options,
                        final(self).dispatcher.slots()[c]->Filled_0,
                    )
                } else {
                    final(self).dispatcher.slots()[c] == Slot::Filled(Response::<()>::Other)
                }
            }),
    {
        let Action { call, handle, args } = action;
        match handle {
            None => {},
            Some(h) => match Request::new(registry, h) {
                Ok(_) => {},
                Err(_) => {
                    let _ = self.dispatcher.complete(call, Response::other());
                    return;
                },
            },
        }
        let SetWallpaperUri { app_id, window_identifier, uri, options } = args;
        let result = self.imp.set_wallpaper_uri(app_id, window_identifier, uri, options);
        let _ = self.dispatcher.complete(call, result);
    }

    /// Hands the answer of `call` to its caller, once it is there.
    pub fn response(&mut self, call: usize) -> (r: Option<Response<()>>)
        requires
            old(self).dispatcher.wf(),
        ensures
            final(self).dispatcher.wf(),
            final(self).imp == old(self).imp,
            final(self).dispatcher.bound() == old(self).dispatcher.bound(),
            final(self).dispatcher.is_shut() == old(self).dispatcher.is_shut(),
            final(self).dispatcher.pending() == old(self).dispatcher.pending(),
            (call < old(self).dispatcher.slots().len() && old(self).dispatcher.slots()[call as int] is Filled)
                ==> r == Some(old(self).dispatcher.slots()[call as int]->Filled_0) && final(self).dispatcher.slots() == old(self).dispatcher.slots().update(call as int, Slot::Delivered),
            !(call < old(self).dispatcher.slots().len() && old(self).dispatcher.slots()[call as int] is Filled)
                ==> r is None && final(self).dispatcher.slots() == old(self).dispatcher.slots(),
    {
        self.dispatcher.take_response(call)
    }

    /// Serves a Close call on the request at `handle`.
    pub fn close(&self, registry: &mut RequestRegistry, handle: &String) -> (r: Result<(), CloseError>)
        requires
            old(registry).wf(),
        ensures
            final(registry).wf(),
            r == close_outcome(old(registry).state_of(handle@)),
            final(registry).state_of(handle@) == close_call_step(old(registry).state_of(handle@)),
            forall|k: Seq<char>| k != handle@ ==> final(registry).state_of(k) == old(registry).state_of(k),
    {
        serve_close(&self.imp, registry, handle)
    }
}

} // verus!
