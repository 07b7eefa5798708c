use crate::completion::Slot;
use crate::dispatch::{answered, submitted, Action, Dispatcher, SubmitError, CHANNEL_CAPACITY};
use vstd::prelude::*;
use vstd::string::StrSliceExecFns;

verus! {

/// A settings value.
#[derive(Debug, Clone, PartialEq, Eq)]
pub enum SettingValue {
    Boolean(bool),
    Int32(i32),
    UInt32(u32),
    Int64(i64),
    UInt64(u64),
    Text(String),
    TextList(Vec<String>),
}

/// The keys and values of one settings namespace.
#[derive(Debug, Clone)]
pub struct Namespace {
    pub name: String,
    pub values: Vec<(String, SettingValue)>,
}

/// Whether namespace `ns` is selected by `pattern`: an empty pattern selects
/// every namespace, a pattern ending in `*` those that begin with what
/// precedes it, and any other pattern only itself.
pub open spec fn namespace_matches(pattern: Seq<char>, ns: Seq<char>) -> bool {
    if pattern.len() == 0 {
        true
    } else if pattern.last() == '*' {
        ns.len() >= pattern.len() - 1 && ns.subrange(0, pattern.len() - 1) == pattern.drop_last()
    } else {
        ns == pattern
    }
}

/// Whether a ReadAll call with `patterns` asks for namespace `ns`: an empty
/// list asks for all of them.
pub open spec fn namespace_selected(patterns: Seq<Seq<char>>, ns: Seq<char>) -> bool {
    patterns.len() == 0 || exists|i: int| 0 <= i < patterns.len() && namespace_matches(patterns[i], ns)
}

fn prefix_equal(ns: &str, pattern: &str, n: usize) -> (r: bool)
    requires
        n <= ns@.len(),
        n <= pattern@.len(),
    ensures
        r == (ns@.subrange(0, n as int) == pattern@.subrange(0, n as int)),
{
    let mut i: usize = 0;
    while i < n
        invariant
            i <= n,
            n <= ns@.len(),
            n <= pattern@.len(),
            ns@.subrange(0, i as int) == pattern@.subrange(0, i as int),
        decreases n - i,
    {
        if ns.get_char(i) != pattern.get_char(i) {
            assert(ns@.subrange(0, n as int)[i as int] != pattern@.subrange(0, n as int)[i as int]);
            return false;
        }
        assert(ns@.subrange(0, i + 1) =~= ns@.subrange(0, i as int).push(ns@[i as int]));
        assert(pattern@.subrange(0, i + 1) =~= pattern@.subrange(0, i as int).push(pattern@[i as int]));
        i = i + 1;
    }
    true
}

/// Whether namespace `ns` is selected by `pattern`.
pub fn matches_namespace(pattern: &str, ns: &str) -> (r: bool)
    ensures
        r == namespace_matches(pattern@, ns@),
{
    let plen = pattern.unicode_len();
    if plen == 0 {
        return true;
    }
    let nlen = ns.unicode_len();
    if pattern.get_char(plen - 1) == '*' {
        if nlen < plen - 1 {
            return false;
        }
        let r = prefix_equal(ns, pattern, plen - 1);
        assert(pattern@.subrange(0, plen - 1) =~= pattern@.drop_last());
        r
    } else {
        if nlen != plen {
            return false;
        }
        let r = prefix_equal(ns, pattern, plen);
        assert(ns@.subrange(0, nlen as int) =~= ns@);
        assert(pattern@.subrange(0, plen as int) =~= pattern@);
        r
    }
}

/// Whether a ReadAll call with `patterns` asks for namespace `ns`.
pub fn selects_namespace(patterns: &Vec<String>, ns: &str) -> (r: bool)
    ensures
        r == namespace_selected(patterns@.map_values(|p: String| p@), ns@),
{
    let ghost views = patterns@.map_values(|p: String| p@);
    if patterns.len() == 0 {
        return true;
    }
    let mut i: usize = 0;
    while i < patterns.len()
        invariant
            i <= patterns@.len(),
            views == patterns@.map_values(|p: String| p@),
            forall|j: int| 0 <= j < i ==> !namespace_matches(#[trigger] views[j], ns@),
        decreases patterns@.len() - i,
    {
        if matches_namespace(patterns[i].as_str(), ns) {
            assert(namespace_matches(views[i as int], ns@));
            return true;
        }
        i = i + 1;
    }
    assert forall|j: int| 0 <= j < views.len() implies !namespace_matches(views[j], ns@) by {}
    false
}

/// The arguments of a Settings call.
#[derive(Debug)]
pub enum SettingsCall {
    ReadAll(Vec<String>),
    Read(String, String),
}

/// The answer of a Settings call.
#[derive(Debug, Clone)]
pub enum SettingsReply {
    All(Vec<Namespace>),
    One(SettingValue),
}

/// Whether `groups` has the shape of a map from namespace to a map from key
/// to value: no namespace appears twice, and no key twice in a namespace.
pub open spec fn is_settings_map(groups: Seq<Namespace>) -> bool {
    &&& forall|i: int, j: int|
        0 <= i < j < groups.len() ==> (#[trigger] groups[i]).name@ != (#[trigger] groups[j]).name@
    &&& forall|g: int, i: int, j: int|
        0 <= g < groups.len() && 0 <= i < j < groups[g].values@.len() ==> (
        #[trigger] groups[g].values@[i]).0@ != (#[trigger] groups[g].values@[j]).0@
}

/// Environment logic behind the Settings interface.
pub trait SettingsImpl {
    /// Whether `r` is an answer this logic gives to ReadAll with `namespaces`.
    /// Every answer is allowed unless an implementation says otherwise here.
    closed spec fn read_all_answer(&self, namespaces: Vec<String>, r: Vec<Namespace>) -> bool {
        true
    }

    /// Whether `v` is an answer this logic gives to Read of `key` in
    /// `namespace`. Every answer is allowed unless an implementation says
    /// otherwise here.
    closed spec fn read_answer(&self, namespace: Seq<char>, key: Seq<char>, v: SettingValue) -> bool {
        true
    }

    /// The namespaces that `namespaces` selects, with all their values.
    fn read_all(&self, namespaces: Vec<String>) -> (r: Vec<Namespace>)
        ensures
            self.read_all_answer(namespaces, r),
            is_settings_map(r@),
    ;

    /// The value of `key` in `namespace`.
    fn read(&self, namespace: &str, key: &str) -> (v: SettingValue)
        ensures
            self.read_answer(namespace@, key@, v),
    ;
}

/// The Settings interface: its calls, queued and answered one at a time.
/// Its calls are not cancellable, so no request object is involved.
pub struct Settings<T> {
    pub dispatcher: Dispatcher<SettingsCall, SettingsReply>,
    pub imp: T,
}

impl<T: SettingsImpl> Settings<T> {
    pub fn new(imp: T) -> (r: Self)
        ensures
            r.dispatcher.wf(),
            r.dispatcher.pending().len() == 0,
            r.dispatcher.slots().len() == 0,
            r.dispatcher.bound() == CHANNEL_CAPACITY,
            !r.dispatcher.is_shut(),
            r.imp == imp,
    {
        Settings { dispatcher: Dispatcher::new(CHANNEL_CAPACITY), imp }
    }

    /// Receives a ReadAll call.
    pub fn read_all(&mut self, namespaces: Vec<String>) -> (r: Result<usize, SubmitError>)
        requires
            old(self).dispatcher.wf(),
        ensures
            final(self).dispatcher.wf(),
            final(self).imp == old(self).imp,
            submitted(
                old(self).dispatcher,
                final(self).dispatcher,
                None,
                SettingsCall::ReadAll(namespaces),
                r,
            ),
    {
        self.dispatcher.submit(None, SettingsCall::ReadAll(namespaces))
    }

    /// Receives a Read call.
    pub fn read(&mut self, namespace: String, key: String) -> (r: Result<usize, SubmitError>)
        requires
            old(self).dispatcher.wf(),
        ensures
            final(self).dispatcher.wf(),
            final(self).imp == old(self).imp,
            submitted(
                old(self).dispatcher,
                final(self).dispatcher,
                None,
                SettingsCall::Read(namespace, key),
                r,
            ),
    {
        self.dispatcher.submit(None, SettingsCall::Read(namespace, key))
    }

    /// The next call to serve, or `None` at once when none waits.
    pub fn try_next(&mut self) -> (r: Option<Action<SettingsCall>>)
        requires
            old(self).dispatcher.wf(),
        ensures
            final(self).dispatcher.wf(),
            final(self).imp == old(self).imp,
            final(self).dispatcher.bound() == old(self).dispatcher.bound(),
            final(self).dispatcher.is_shut() == old(self).dispatcher.is_shut(),
            final(self).dispatcher.slots() == old(self).dispatcher.slots(),
            old(self).dispatcher.pending().len() == 0 ==> r is None && final(self).dispatcher.pending()
                == old(self).dispatcher.pending(),
            old(self).dispatcher.pending().len() > 0 ==> r == Some(
                old(self).dispatcher.pending()[0],
            ) && final(self).dispatcher.pending() == old(self).dispatcher.pending().drop_first(),
    {
        self.dispatcher.poll_next()
    }

    /// Serves one call: runs the business logic with the call's own
    /// arguments and answers the call with exactly what it returned.
    pub fn activate(&mut self, action: Action<SettingsCall>)
        requires
            old(self).dispatcher.wf(),
        ensures
            final(self).dispatcher.wf(),
            final(self).dispatcher.pending() == old(self).dispatcher.pending(),
            final(self).dispatcher.bound() == old(self).dispatcher.bound(),
            final(self).dispatcher.is_shut() == old(self).dispatcher.is_shut(),
            answered(old(self).dispatcher.slots(), final(self).dispatcher.slots(), action.call as int),
            final(self).imp == old(self).imp,
            ({
                let c = action.call as int;
                0 <= c < old(self).dispatcher.slots().len() && old(self).dispatcher.slots()[c] is Waiting
                    ==> final(self).dispatcher.slots()[c] is Filled && match action.args {
                    SettingsCall::ReadAll(namespaces) => {
                        let reply = final(self).dispatcher.slots()[c]->Filled_0;
                        &&& reply is All
                        &&& old(self).imp.read_all_answer(namespaces, reply->All_0)
                        &&& is_settings_map(reply->All_0@)
                    },
                    SettingsCall::Read(namespace, key) => {
                        let reply = final(self).dispatcher.slots()[c]->Filled_0;
                        &&& reply is One
                        &&& old(self).imp.read_answer(namespace@, key@, reply->One_0)
                    },
                }
            }),
    {
        let Action { call, handle: _, args } = action;
        let reply = match args {
            SettingsCall::ReadAll(namespaces) => SettingsReply::All(self.imp.read_all(namespaces)),
            SettingsCall::Read(namespace, key) => SettingsReply::One(
                self.imp.read(namespace.as_str(), key.as_str()),
            ),
        };
        let _ = self.dispatcher.complete(call, reply);
    }

    /// Hands the answer of `call` to its caller, once it is there.
    pub fn response(&mut self, call: usize) -> (r: Option<SettingsReply>)
        requires
            old(self).dispatcher.wf(),
        ensures
            final(self).dispatcher.wf(),
            final(self).imp == old(self).imp,
            final(self).dispatcher.bound() == old(self).dispatcher.bound(),
            final(self).dispatcher.is_shut() == old(self).dispatcher.is_shut(),
            final(self).dispatcher.pending() == old(self).dispatcher.pending(),
            (call < old(self).dispatcher.slots().len() && old(self).dispatcher.slots()[call as int] is Filled)
                ==> r == Some(old(self).dispatcher.slots()[call as int]->Filled_0) && final(self).dispatcher.slots() == old(self).dispatcher.slots().update(call as int, Slot::Delivered),
            !(call < old(self).dispatcher.slots().len() && old(self).dispatcher.slots()[call as int] is Filled)
                ==> r is None && final(self).dispatcher.slots() == old(self).dispatcher.slots(),
    {
        self.dispatcher.take_response(call)
    }
}

} // verus!
