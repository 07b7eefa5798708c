use vstd::prelude::*;

verus! {

/// The object path at which every interface of the backend is served.
pub const IMPL_PATH: &'static str = "/org/freedesktop/portal/desktop";

/// The bus's answer to a request for a well-known name.
#[derive(Debug, Clone, Copy, PartialEq, Eq, Structural)]
pub enum NameReply {
    /// The name is now ours.
    PrimaryOwner,
    /// Another process holds the name and will not give it up; we were queued.
    InQueue,
    /// Another process holds the name and we asked not to be queued.
    Exists,
    /// The name was ours already.
    AlreadyOwner,
}

/// Whether a reply to the name request gives us the name.
pub open spec fn owns_name(reply: NameReply) -> bool {
    reply == NameReply::PrimaryOwner || reply == NameReply::AlreadyOwner
}

/// The interfaces a backend may serve.
#[derive(Debug, Clone, Copy, PartialEq, Eq, Structural)]
pub enum InterfaceKind {
    Account,
    FileChooser,
    Settings,
    Wallpaper,
}

impl InterfaceKind {
    /// The interface's name on the bus.
    pub fn name(&self) -> (r: &'static str)
        ensures
            r@ == interface_name(*self),
    {
        match self {
            InterfaceKind::Account => "org.freedesktop.impl.portal.Account",
            InterfaceKind::FileChooser => "org.freedesktop.impl.portal.FileChooser",
            InterfaceKind::Settings => "org.freedesktop.impl.portal.Settings",
            InterfaceKind::Wallpaper => "org.freedesktop.impl.portal.Wallpaper",
        }
    }
}

pub open spec fn interface_name(k: InterfaceKind) -> Seq<char> {
    match k {
        InterfaceKind::Account => "org.freedesktop.impl.portal.Account"@,
        InterfaceKind::FileChooser => "org.freedesktop.impl.portal.FileChooser"@,
        InterfaceKind::Settings => "org.freedesktop.impl.portal.Settings"@,
        InterfaceKind::Wallpaper => "org.freedesktop.impl.portal.Wallpaper"@,
    }
}

#[derive(Debug, Clone, Copy, PartialEq, Eq, Structural)]
pub enum BackendError {
    /// Another process holds the well-known name and does not give it up.
    NameTaken,
    /// The backend has released its name and serves nothing any more.
    Released,
    /// The interface is served already.
    AlreadyRegistered,
}

/// The backend's session: the well-known name it owns and the interfaces it
/// serves.
pub struct Backend {
    name: String,
    released: bool,
    interfaces: Vec<InterfaceKind>,
}

impl Backend {
    pub closed spec fn name_text(&self) -> Seq<char> {
        self.name@
    }

    /// Whether the name has been released; from then on nothing is served.
    pub closed spec fn is_released(&self) -> bool {
        self.released
    }

    /// The interfaces served, in the order they were registered.
    pub closed spec fn served(&self) -> Seq<InterfaceKind> {
        self.interfaces@
    }

    pub closed spec fn wf(&self) -> bool {
        &&& forall|i: int, j: int|
            0 <= i < j < self.interfaces@.len() ==> self.interfaces@[i] != self.interfaces@[j]
    }

    /// Sets up the backend once the bus has answered the request for its
    /// well-known name. Unless the name is ours the backend is not made, so
    /// no interface gets registered.
    pub fn new(name: String, reply: NameReply) -> (r: Result<Backend, BackendError>)
        ensures
            owns_name(reply) <==> r is Ok,
            !owns_name(reply) ==> r == Err::<Backend, BackendError>(BackendError::NameTaken),
            r is Ok ==> {
                let b = r->Ok_0;
                &&& b.wf()
                &&& b.name_text() == name@
                &&& !b.is_released()
                &&& b.served().len() == 0
            },
    {
        match reply {
            NameReply::PrimaryOwner | NameReply::AlreadyOwner => Ok(
                Backend {
                    name,
                    released: false,
                    interfaces: Vec::new(),
                },
            ),
            _ => Err(BackendError::NameTaken),
        }
    }

    pub fn name(&self) -> (r: &str)
        ensures
            r@ == self.name_text(),
    {
        self.name.as_str()
    }

    pub fn released(&self) -> (r: bool)
        ensures
            r == self.is_released(),
    {
        self.released
    }

    /// Whether `kind` is served.
    pub fn serves(&self, kind: InterfaceKind) -> (r: bool)
        ensures
            r == self.served().contains(kind),
    {
        let mut i: usize = 0;
        while i < self.interfaces.len()
            invariant
                i <= self.interfaces@.len(),
                forall|j: int| 0 <= j < i ==> self.interfaces@[j] != kind,
            decreases self.interfaces@.len() - i,
        {
            if self.interfaces[i] == kind {
                assert(self.interfaces@[i as int] == kind);
                return true;
            }
            i = i + 1;
        }
        false
    }

    /// Records that `kind` is served at the backend's object path. Refused
    /// once the name is released, and for an interface served already.
    pub fn register_interface(&mut self, kind: InterfaceKind) -> (r: Result<(), BackendError>)
        requires
            old(self).wf(),
        ensures
            final(self).wf(),
            final(self).name_text() == old(self).name_text(),
            final(self).is_released() == old(self).is_released(),
            old(self).is_released() ==> r == Err::<(), BackendError>(BackendError::Released),
            !old(self).is_released() && old(self).served().contains(kind) ==> r == Err::<
                (),
                BackendError,
            >(BackendError::AlreadyRegistered),
            !old(self).is_released() && !old(self).served().contains(kind) ==> r is Ok,
            r is Ok ==> final(self).served() == old(self).served().push(kind),
            r is Err ==> final(self).served() == old(self).served(),
    {
        if self.released {
            return Err(BackendError::Released);
        }
        if self.serves(kind) {
            return Err(BackendError::AlreadyRegistered);
        }
        self.interfaces.push(kind);
        proof {
            assert forall|i: int, j: int|
                0 <= i < j < self.interfaces@.len() implies self.interfaces@[i]
                != self.interfaces@[j] by {
                if j == self.interfaces@.len() - 1 {
                    assert(self.interfaces@[j] == kind);
                    assert(old(self).interfaces@[i] == self.interfaces@[i]);
                }
            }
        }
        Ok(())
    }

    /// Marks the name released and stops serving every interface. Returns
    /// whether the name was held until now: only then must the caller ask
    /// the bus to release it, so that it is released at most once.
    pub fn release(&mut self) -> (r: bool)
        requires
            old(self).wf(),
        ensures
            final(self).wf(),
            (final(self).is_released(), r) == release_step(old(self).is_released()),
            final(self).served().len() == 0,
            final(self).name_text() == old(self).name_text(),
    {
        let was_held = !self.released;
        self.released = true;
        self.interfaces = Vec::new();
        was_held
    }
}

/// What a release does to the released flag: it is set, and the name is to
/// be given back to the bus only where it was not set before.
pub open spec fn release_step(released: bool) -> (bool, bool) {
    (true, !released)
}

/// The name is given back at most once: of two releases in a row, the
/// second never asks the bus for anything.
pub proof fn lemma_release_once(released: bool)
    ensures
        ({
            let (after_first, first_asks) = release_step(released);
            let (_, second_asks) = release_step(after_first);
            &&& first_asks == !released
            &&& !second_asks
        }),
{
}

} // verus!
