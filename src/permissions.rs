//! Capability-based permission model.
//!
//! Five independent categories (read, write, network, environment, run) each
//! hold a [`PermissionState`]. A category in the partial state grants a
//! resource when the resource's text begins with one of its allow-list
//! entries; this is a textual prefix test, not a path-boundary test, so an
//! entry `/tmp` also grants `/tmpfoo`.

use vstd::prelude::*;
use vstd::string::*;

use crate::text::{concat2, concat3, starts_with};

verus! {

/// Errors that can occur when checking permissions.
#[derive(Debug, Clone)]
pub enum PermissionError {
    /// Permission denied for the requested operation.
    Denied(String),
    /// Invalid path specified for permission.
    InvalidPath(String),
    /// Invalid network address specified for permission.
    InvalidAddress(String),
}

/// The display text of a denial carrying `message`.
pub open spec fn denied_text(message: Seq<char>) -> Seq<char> {
    "Permission denied: "@ + message
}

/// The human-readable text of a permission error.
pub open spec fn permission_error_text(e: PermissionError) -> Seq<char> {
    match e {
        PermissionError::Denied(m) => denied_text(m@),
        PermissionError::InvalidPath(m) => "Invalid permission path: "@ + m@,
        PermissionError::InvalidAddress(m) => "Invalid net address: "@ + m@,
    }
}

impl PermissionError {
    /// The error's message, as its display form.
    pub fn to_string(&self) -> (r: String)
        ensures
            r@ == permission_error_text(*self),
    {
        match self {
            PermissionError::Denied(m) => concat2("Permission denied: ", m.as_str()),
            PermissionError::InvalidPath(m) => concat2("Invalid permission path: ", m.as_str()),
            PermissionError::InvalidAddress(m) => concat2("Invalid net address: ", m.as_str()),
        }
    }
}

/// Result type for permission checks.
pub type PermissionResult<T> = Result<T, PermissionError>;

/// What a category check with state `st` returns for `resource`: success
/// exactly when the state allows it, else a denial carrying `message`.
pub open spec fn check_outcome(
    st: PermissionState,
    resource: Seq<char>,
    message: Seq<char>,
    r: PermissionResult<()>,
) -> bool {
    &&& (r is Ok <==> st.allows(Some(resource)))
    &&& (r is Err ==> r->Err_0 is Denied && r->Err_0->Denied_0@ == message)
}

/// The permission state of one category.
#[derive(Debug, Clone)]
pub enum PermissionState {
    /// Permission granted with no restrictions.
    Granted,
    /// Permission granted for the resources that begin with one of `paths`.
    /// The list is kept as given: a duplicate entry is kept and grants
    /// nothing more.
    GrantedPartial {
        /// The allow-list entries.
        paths: Vec<String>,
    },
    /// Permission denied.
    Denied,
    /// Permission prompt pending (grants nothing).
    PromptPending,
}

/// Whether one of `entries` is a textual prefix of `resource`.
pub open spec fn some_entry_prefixes(entries: Seq<String>, resource: Seq<char>) -> bool {
    exists|i: int| 0 <= i < entries.len() && #[trigger] entries[i]@.is_prefix_of(resource)
}

impl PermissionState {
    /// Whether the state grants access to `resource` (`None`: no particular resource).
    pub open spec fn allows(self, resource: Option<Seq<char>>) -> bool {
        match self {
            PermissionState::Granted => true,
            PermissionState::GrantedPartial { paths } => match resource {
                Some(r) => some_entry_prefixes(paths@, r),
                None => false,
            },
            _ => false,
        }
    }

    /// Check if access is granted for a specific resource.
    pub fn is_granted(&self, check: Option<&str>) -> (r: bool)
        ensures
            r == self.allows(
                match check {
                    Some(c) => Some(c@),
                    None => None,
                },
            ),
    {
        match self {
            PermissionState::Granted => true,
            PermissionState::Denied => false,
            PermissionState::PromptPending => false,
            PermissionState::GrantedPartial { paths } => {
                match check {
                    Some(c) => {
                        let mut i: usize = 0;
                        while i < paths.len()
                            invariant
                                0 <= i <= paths.len(),
                                *self == (PermissionState::GrantedPartial { paths: *paths }),
                                check == Some(c),
                                forall|k: int| 0 <= k < i ==> !(#[trigger] paths@[k]@.is_prefix_of(c@)),
                            decreases paths.len() - i,
                        {
                            if starts_with(c, paths[i].as_str()) {
                                assert(paths@[i as int]@.is_prefix_of(c@));
                                return true;
                            }
                            i = i + 1;
                        }
                        false
                    },
                    None => false,
                }
            },
        }
    }
}

impl Default for PermissionState {
    fn default() -> (r: Self)
        ensures
            r is Denied,
    {
        PermissionState::Denied
    }
}

/// File system read permission.
#[derive(Debug, Clone)]
pub struct ReadPermission {
    state: PermissionState,
}

impl ReadPermission {
    /// The category's current state.
    pub closed spec fn state(&self) -> PermissionState {
        self.state
    }

    /// The denial message for `path`.
    pub open spec fn denial(resource: Seq<char>) -> Seq<char> {
        "Requires read access to '"@ + resource + "'"@
    }

    /// Create a new read permission (denied).
    pub fn new() -> (r: Self)
        ensures
            r.state() is Denied,
    {
        ReadPermission { state: PermissionState::Denied }
    }

    /// Grant read access to all paths.
    pub fn grant_all(&mut self)
        ensures
            final(self).state() is Granted,
    {
        self.state = PermissionState::Granted;
    }

    /// Grant read access to specific paths.
    /// The list becomes the allow-list as given, duplicates included.
    pub fn grant_paths(&mut self, paths: Vec<String>)
        ensures
            final(self).state() == (PermissionState::GrantedPartial { paths: paths }),
    {
        self.state = PermissionState::GrantedPartial { paths: paths };
    }

    /// Check if access is granted for `path`.
    pub fn check(&self, path: &str) -> (r: PermissionResult<()>)
        ensures
            check_outcome(self.state(), path@, Self::denial(path@), r),
    {
        if self.state.is_granted(Some(path)) {
            Ok(())
        } else {
            Err(PermissionError::Denied(concat3("Requires read access to '", path, "'")))
        }
    }

    /// Query the current permission state.
    pub fn query(&self) -> (r: &PermissionState)
        ensures
            *r == self.state(),
    {
        &self.state
    }
}

impl Default for ReadPermission {
    fn default() -> (r: Self)
        ensures
            r.state() is Denied,
    {
        Self::new()
    }
}

/// File system write permission.
#[derive(Debug, Clone)]
pub struct WritePermission {
    state: PermissionState,
}

impl WritePermission {
    /// The category's current state.
    pub closed spec fn state(&self) -> PermissionState {
        self.state
    }

    /// The denial message for `path`.
    pub open spec fn denial(resource: Seq<char>) -> Seq<char> {
        "Requires write access to '"@ + resource + "'"@
    }

    /// Create a new write permission (denied).
    pub fn new() -> (r: Self)
        ensures
            r.state() is Denied,
    {
        WritePermission { state: PermissionState::Denied }
    }

    /// Grant write access to all paths.
    pub fn grant_all(&mut self)
        ensures
            final(self).state() is Granted,
    {
        self.state = PermissionState::Granted;
    }

    /// Grant write access to specific paths.
    /// The list becomes the allow-list as given, duplicates included.
    pub fn grant_paths(&mut self, paths: Vec<String>)
        ensures
            final(self).state() == (PermissionState::GrantedPartial { paths: paths }),
    {
        self.state = PermissionState::GrantedPartial { paths: paths };
    }

    /// Check if access is granted for `path`.
    pub fn check(&self, path: &str) -> (r: PermissionResult<()>)
        ensures
            check_outcome(self.state(), path@, Self::denial(path@), r),
    {
        if self.state.is_granted(Some(path)) {
            Ok(())
        } else {
            Err(PermissionError::Denied(concat3("Requires write access to '", path, "'")))
        }
    }

    /// Query the current permission state.
    pub fn query(&self) -> (r: &PermissionState)
        ensures
            *r == self.state(),
    {
        &self.state
    }
}

impl Default for WritePermission {
    fn default() -> (r: Self)
        ensures
            r.state() is Denied,
    {
        Self::new()
    }
}

/// Network permission.
#[derive(Debug, Clone)]
pub struct NetPermission {
    state: PermissionState,
}

impl NetPermission {
    /// The category's current state.
    pub closed spec fn state(&self) -> PermissionState {
        self.state
    }

    /// The denial message for `address`.
    pub open spec fn denial(resource: Seq<char>) -> Seq<char> {
        "Requires network access to '"@ + resource + "'"@
    }

    /// Create a new network permission (denied).
    pub fn new() -> (r: Self)
        ensures
            r.state() is Denied,
    {
        NetPermission { state: PermissionState::Denied }
    }

    /// Grant network access to all addresses.
    pub fn grant_all(&mut self)
        ensures
            final(self).state() is Granted,
    {
        self.state = PermissionState::Granted;
    }

    /// Grant network access to specific domains or addresses.
    /// The list becomes the allow-list as given, duplicates included.
    pub fn grant_addresses(&mut self, addresses: Vec<String>)
        ensures
            final(self).state() == (PermissionState::GrantedPartial { paths: addresses }),
    {
        self.state = PermissionState::GrantedPartial { paths: addresses };
    }

    /// Check if access is granted for `address`.
    pub fn check(&self, address: &str) -> (r: PermissionResult<()>)
        ensures
            check_outcome(self.state(), address@, Self::denial(address@), r),
    {
        if self.state.is_granted(Some(address)) {
            Ok(())
        } else {
            Err(PermissionError::Denied(concat3("Requires network access to '", address, "'")))
        }
    }

    /// Query the current permission state.
    pub fn query(&self) -> (r: &PermissionState)
        ensures
            *r == self.state(),
    {
        &self.state
    }
}

impl Default for NetPermission {
    fn default() -> (r: Self)
        ensures
            r.state() is Denied,
    {
        Self::new()
    }
}

/// Environment variable access permission.
#[derive(Debug, Clone)]
pub struct EnvPermission {
    state: PermissionState,
}

impl EnvPermission {
    /// The category's current state.
    pub closed spec fn state(&self) -> PermissionState {
        self.state
    }

    /// The denial message for `var`.
    pub open spec fn denial(resource: Seq<char>) -> Seq<char> {
        "Requires access to environment variable '"@ + resource + "'"@
    }

    /// Create a new environment permission (denied).
    pub fn new() -> (r: Self)
        ensures
            r.state() is Denied,
    {
        EnvPermission { state: PermissionState::Denied }
    }

    /// Grant access to all environment variables.
    pub fn grant_all(&mut self)
        ensures
            final(self).state() is Granted,
    {
        self.state = PermissionState::Granted;
    }

    /// Grant access to specific environment variables.
    /// The list becomes the allow-list as given, duplicates included.
    pub fn grant_vars(&mut self, vars: Vec<String>)
        ensures
            final(self).state() == (PermissionState::GrantedPartial { paths: vars }),
    {
        self.state = PermissionState::GrantedPartial { paths: vars };
    }

    /// Check if access is granted for `var`.
    pub fn check(&self, var: &str) -> (r: PermissionResult<()>)
        ensures
            check_outcome(self.state(), var@, Self::denial(var@), r),
    {
        if self.state.is_granted(Some(var)) {
            Ok(())
        } else {
            Err(PermissionError::Denied(concat3("Requires access to environment variable '", var, "'")))
        }
    }

    /// Query the current permission state.
    pub fn query(&self) -> (r: &PermissionState)
        ensures
            *r == self.state(),
    {
        &self.state
    }
}

impl Default for EnvPermission {
    fn default() -> (r: Self)
        ensures
            r.state() is Denied,
    {
        Self::new()
    }
}

/// Subprocess execution permission.
#[derive(Debug, Clone)]
pub struct RunPermission {
    state: PermissionState,
}

impl RunPermission {
    /// The category's current state.
    pub closed spec fn state(&self) -> PermissionState {
        self.state
    }

    /// The denial message for `command`.
    pub open spec fn denial(resource: Seq<char>) -> Seq<char> {
        "Requires permission to run '"@ + resource + "'"@
    }

    /// Create a new run permission (denied).
    pub fn new() -> (r: Self)
        ensures
            r.state() is Denied,
    {
        RunPermission { state: PermissionState::Denied }
    }

    /// Grant permission to run all commands.
    pub fn grant_all(&mut self)
        ensures
            final(self).state() is Granted,
    {
        self.state = PermissionState::Granted;
    }

    /// Grant permission to run specific commands.
    /// The list becomes the allow-list as given, duplicates included.
    pub fn grant_commands(&mut self, commands: Vec<String>)
        ensures
            final(self).state() == (PermissionState::GrantedPartial { paths: commands }),
    {
        self.state = PermissionState::GrantedPartial { paths: commands };
    }

    /// Check if access is granted for `command`.
    pub fn check(&self, command: &str) -> (r: PermissionResult<()>)
        ensures
            check_outcome(self.state(), command@, Self::denial(command@), r),
    {
        if self.state.is_granted(Some(command)) {
            Ok(())
        } else {
            Err(PermissionError::Denied(concat3("Requires permission to run '", command, "'")))
        }
    }

    /// Query the current permission state.
    pub fn query(&self) -> (r: &PermissionState)
        ensures
            *r == self.state(),
    {
        &self.state
    }
}

impl Default for RunPermission {
    fn default() -> (r: Self)
        ensures
            r.state() is Denied,
    {
        Self::new()
    }
}

/// Complete set of permissions for the runtime.
#[derive(Debug, Clone)]
pub struct Permissions {
    /// Read file system permission.
    pub read: ReadPermission,
    /// Write file system permission.
    pub write: WritePermission,
    /// Network permission.
    pub net: NetPermission,
    /// Environment variable permission.
    pub env: EnvPermission,
    /// Subprocess permission.
    pub run: RunPermission,
}

impl Permissions {
    /// Every category is in the denied state.
    pub open spec fn all_denied(&self) -> bool {
        &&& self.read.state() is Denied
        &&& self.write.state() is Denied
        &&& self.net.state() is Denied
        &&& self.env.state() is Denied
        &&& self.run.state() is Denied
    }

    /// Every category is in the granted state.
    pub open spec fn all_granted(&self) -> bool {
        &&& self.read.state() is Granted
        &&& self.write.state() is Granted
        &&& self.net.state() is Granted
        &&& self.env.state() is Granted
        &&& self.run.state() is Granted
    }

    /// Create a new permission set with every category granted.
    pub fn allow_all() -> (r: Self)
        ensures
            r.all_granted(),
    {
        let mut perms = Self::default();
        perms.read.grant_all();
        perms.write.grant_all();
        perms.net.grant_all();
        perms.env.grant_all();
        perms.run.grant_all();
        perms
    }

    /// Check read permission for `path`.
    pub fn check_read(&self, path: &str) -> (r: PermissionResult<()>)
        ensures
            check_outcome(self.read.state(), path@, ReadPermission::denial(path@), r),
    {
        self.read.check(path)
    }

    /// Check write permission for `path`.
    pub fn check_write(&self, path: &str) -> (r: PermissionResult<()>)
        ensures
            check_outcome(self.write.state(), path@, WritePermission::denial(path@), r),
    {
        self.write.check(path)
    }

    /// Check network permission for `address`.
    pub fn check_net(&self, address: &str) -> (r: PermissionResult<()>)
        ensures
            check_outcome(self.net.state(), address@, NetPermission::denial(address@), r),
    {
        self.net.check(address)
    }

    /// Check environment permission for `var`.
    pub fn check_env(&self, var: &str) -> (r: PermissionResult<()>)
        ensures
            check_outcome(self.env.state(), var@, EnvPermission::denial(var@), r),
    {
        self.env.check(var)
    }

    /// Check run permission for `command`.
    pub fn check_run(&self, command: &str) -> (r: PermissionResult<()>)
        ensures
            check_outcome(self.run.state(), command@, RunPermission::denial(command@), r),
    {
        self.run.check(command)
    }
}

impl Default for Permissions {
    fn default() -> (r: Self)
        ensures
            r.all_denied(),
    {
        Permissions {
            read: ReadPermission::new(),
            write: WritePermission::new(),
            net: NetPermission::new(),
            env: EnvPermission::new(),
            run: RunPermission::new(),
        }
    }
}

/// A permission set whose categories are all denied refuses every resource in
/// every category, and one whose categories are all granted (as `allow_all`
/// makes it) accepts every resource in every category.
pub proof fn lemma_fresh_denies_and_allow_all_grants(
    fresh: Permissions,
    all: Permissions,
    resource: Seq<char>,
)
    requires
        fresh.all_denied(),
        all.all_granted(),
    ensures
        !fresh.read.state().allows(Some(resource)),
        !fresh.write.state().allows(Some(resource)),
        !fresh.net.state().allows(Some(resource)),
        !fresh.env.state().allows(Some(resource)),
        !fresh.run.state().allows(Some(resource)),
        all.read.state().allows(Some(resource)),
        all.write.state().allows(Some(resource)),
        all.net.state().allows(Some(resource)),
        all.env.state().allows(Some(resource)),
        all.run.state().allows(Some(resource)),
{
}

} // verus!
