use vstd::prelude::*;

verus! {

/// Flags of a request to export files to the document store.
#[derive(Debug, Clone, Copy, PartialEq, Eq, Structural)]
pub enum Flags {
    /// Reuse the existing document store entry for the file.
    ReuseExisting,
    /// Persistent file.
    Persistent,
    /// Depends on the application needs.
    AsNeededByApp,
    /// Export a directory.
    ExportDirectory,
}

pub open spec fn flag_bits(f: Flags) -> u32 {
    match f {
        Flags::ReuseExisting => 1,
        Flags::Persistent => 2,
        Flags::AsNeededByApp => 4,
        Flags::ExportDirectory => 8,
    }
}

impl Flags {
    /// The bit that stands for the flag on the wire.
    pub fn bits(&self) -> (r: u32)
        ensures
            r == flag_bits(*self),
    {
        match self {
            Flags::ReuseExisting => 1,
            Flags::Persistent => 2,
            Flags::AsNeededByApp => 4,
            Flags::ExportDirectory => 8,
        }
    }
}

/// A permission that an application may hold on a document.
#[derive(Debug, Clone, Copy, PartialEq, Eq, Structural)]
pub enum Permission {
    /// Read access.
    Read,
    /// Write access.
    Write,
    /// The possibility to grant new permissions to the file.
    GrantPermissions,
    /// Delete access.
    Delete,
}

pub open spec fn permission_name(p: Permission) -> Seq<char> {
    match p {
        Permission::Read => "read"@,
        Permission::Write => "write"@,
        Permission::GrantPermissions => "grant-permissions"@,
        Permission::Delete => "delete"@,
    }
}

impl Permission {
    /// The permission's name on the wire.
    pub fn as_str(&self) -> (r: &'static str)
        ensures
            r@ == permission_name(*self),
    {
        match self {
            Permission::Read => "read",
            Permission::Write => "write",
            Permission::GrantPermissions => "grant-permissions",
            Permission::Delete => "delete",
        }
    }

    /// The permission named `s`, or `None` where `s` names none.
    pub fn parse(s: &str) -> (r: Option<Permission>)
        ensures
            forall|p: Permission| (r == Some(p)) <==> permission_name(p) == s@,
    {
        let text = s.to_owned();
        proof {
            reveal_strlit("read");
            reveal_strlit("write");
            reveal_strlit("grant-permissions");
            reveal_strlit("delete");
        }
        let r = if text == String::from_str("read") {
            Some(Permission::Read)
        } else if text == String::from_str("write") {
            Some(Permission::Write)
        } else if text == String::from_str("grant-permissions") {
            Some(Permission::GrantPermissions)
        } else if text == String::from_str("delete") {
            Some(Permission::Delete)
        } else {
            None
        };
        proof {
            assert forall|p: Permission| (r == Some(p)) <==> permission_name(p) == s@ by {
                if let Some(q) = r {
                    assert(permission_name(q) == s@);
                    if permission_name(p) == s@ {
                        lemma_permission_names_distinct(p, q);
                    }
                } else {
                    match p {
                        Permission::Read => {},
                        Permission::Write => {},
                        Permission::GrantPermissions => {},
                        Permission::Delete => {},
                    }
                }
            }
        }
        r
    }

    /// The name of the permission, as an owned string.
    pub fn to_string(&self) -> (r: String)
        ensures
            r@ == permission_name(*self),
    {
        self.as_str().to_owned()
    }
}

/// Distinct permissions have distinct names, so a name read back gives the
/// permission it was written from.
pub proof fn lemma_permission_names_distinct(p: Permission, q: Permission)
    requires
        permission_name(p) == permission_name(q),
    ensures
        p == q,
{
    reveal_strlit("read");
    reveal_strlit("write");
    reveal_strlit("grant-permissions");
    reveal_strlit("delete");
    match p {
        Permission::Read => {
            assert(permission_name(p).len() == 4);
        },
        Permission::Write => {
            assert(permission_name(p).len() == 5);
        },
        Permission::GrantPermissions => {
            assert(permission_name(p).len() == 17);
        },
        Permission::Delete => {
            assert(permission_name(p).len() == 6);
        },
    }
    match q {
        Permission::Read => {
            assert(permission_name(q).len() == 4);
        },
        Permission::Write => {
            assert(permission_name(q).len() == 5);
        },
        Permission::GrantPermissions => {
            assert(permission_name(q).len() == 17);
        },
        Permission::Delete => {
            assert(permission_name(q).len() == 6);
        },
    }
}

} // verus!
