//! Naming of the desktop stores: the app-data state files and the keychain
//! entries. The file and keychain I/O runs in the desktop host.

pub use crate::modules::user_reg::auth_licensing_core::test_support::InMemorySecretStore;
use crate::text::chars_of;
use vstd::prelude::*;

verus! {

/// A file path joined onto a directory as a Unix path joins: an absolute
/// file path stands alone, an empty directory adds nothing, and one `/` is
/// put between the two unless the directory already ends with it.
pub open spec fn joined_path(dir: Seq<char>, file: Seq<char>) -> Seq<char> {
    if file.len() > 0 && file[0] == '/' {
        file
    } else if dir.len() == 0 {
        file
    } else if dir.last() == '/' {
        dir + file
    } else {
        dir + seq!['/'] + file
    }
}

/// Joins `file` onto `dir` by [`joined_path`].
pub fn join_path(dir: &str, file: &str) -> (r: String)
    ensures
        r@ == joined_path(dir@, file@),
{
    let d = chars_of(dir);
    let f = chars_of(file);
    if f.len() > 0 && f[0] == '/' {
        String::from_str(file)
    } else if d.len() == 0 {
        String::from_str(file)
    } else if d[d.len() - 1] == '/' {
        String::from_str(dir).concat(file)
    } else {
        let slash = "/";
        proof {
            reveal_strlit("/");
        }
        String::from_str(dir).concat(slash).concat(file)
    }
}

/// Where the non-secret session state and the reset status live: two JSON
/// files under the app-data directory.
#[derive(Debug, Clone, PartialEq, Eq)]
pub struct AppDataStateStore {
    root: String,
    session_filename: String,
    reset_filename: String,
}

impl AppDataStateStore {
    pub closed spec fn root_of(&self) -> Seq<char> {
        self.root@
    }

    pub closed spec fn session_filename_of(&self) -> Seq<char> {
        self.session_filename@
    }

    pub closed spec fn reset_filename_of(&self) -> Seq<char> {
        self.reset_filename@
    }

    pub fn new(root: &str) -> (r: Self)
        ensures
            r.root_of() == root@,
            r.session_filename_of() == "session_state.json"@,
            r.reset_filename_of() == "reset_status.json"@,
    {
        Self::with_file_names(root, "session_state.json", "reset_status.json")
    }

    pub fn with_namespace(root: &str, namespace: &str) -> (r: Self)
        ensures
            r.root_of() == root@,
            r.session_filename_of() == namespace@ + ".session_state.json"@,
            r.reset_filename_of() == namespace@ + ".reset_status.json"@,
    {
        let session = String::from_str(namespace).concat(".session_state.json");
        let reset = String::from_str(namespace).concat(".reset_status.json");
        Self::with_file_names(root, session.as_str(), reset.as_str())
    }

    pub fn with_file_names(root: &str, session_filename: &str, reset_filename: &str) -> (r: Self)
        ensures
            r.root_of() == root@,
            r.session_filename_of() == session_filename@,
            r.reset_filename_of() == reset_filename@,
    {
        AppDataStateStore {
            root: String::from_str(root),
            session_filename: String::from_str(session_filename),
            reset_filename: String::from_str(reset_filename),
        }
    }

    pub fn root(&self) -> (r: &str)
        ensures
            r@ == self.root_of(),
    {
        self.root.as_str()
    }

    pub fn session_filename(&self) -> (r: &str)
        ensures
            r@ == self.session_filename_of(),
    {
        self.session_filename.as_str()
    }

    pub fn reset_filename(&self) -> (r: &str)
        ensures
            r@ == self.reset_filename_of(),
    {
        self.reset_filename.as_str()
    }

    /// The path of the session state file.
    pub fn session_state_path(&self) -> (r: String)
        ensures
            r@ == joined_path(self.root_of(), self.session_filename_of()),
    {
        join_path(self.root.as_str(), self.session_filename.as_str())
    }

    /// The path of the reset status file.
    pub fn reset_status_path(&self) -> (r: String)
        ensures
            r@ == joined_path(self.root_of(), self.reset_filename_of()),
    {
        join_path(self.root.as_str(), self.reset_filename.as_str())
    }
}

/// The keychain service and entry names under which the secrets are kept.
#[derive(Debug, Clone, PartialEq, Eq)]
pub struct KeychainSecretStore {
    service_name: String,
    license_key_name: String,
    access_token_name: String,
    device_keypair_name: String,
}

impl KeychainSecretStore {
    pub closed spec fn service_name_of(&self) -> Seq<char> {
        self.service_name@
    }

    pub closed spec fn license_key_name_of(&self) -> Seq<char> {
        self.license_key_name@
    }

    pub closed spec fn access_token_name_of(&self) -> Seq<char> {
        self.access_token_name@
    }

    pub closed spec fn device_keypair_name_of(&self) -> Seq<char> {
        self.device_keypair_name@
    }

    pub fn new_for_app(service_name: &str) -> (r: Self)
        ensures
            r.service_name_of() == service_name@,
            r.license_key_name_of() == "license_key"@,
            r.access_token_name_of() == "access_token"@,
            r.device_keypair_name_of() == "device_keypair"@,
    {
        Self::with_entry_names(service_name, "license_key", "access_token", "device_keypair")
    }

    pub fn with_namespace(service_name: &str, namespace: &str) -> (r: Self)
        ensures
            r.service_name_of() == service_name@,
            r.license_key_name_of() == namespace@ + ".license_key"@,
            r.access_token_name_of() == namespace@ + ".access_token"@,
            r.device_keypair_name_of() == namespace@ + ".device_keypair"@,
    {
        let license = String::from_str(namespace).concat(".license_key");
        let token = String::from_str(namespace).concat(".access_token");
        let keypair = String::from_str(namespace).concat(".device_keypair");
        Self::with_entry_names(service_name, license.as_str(), token.as_str(), keypair.as_str())
    }

    pub fn with_entry_names(
        service_name: &str,
        license_key_name: &str,
        access_token_name: &str,
        device_keypair_name: &str,
    ) -> (r: Self)
        ensures
            r.service_name_of() == service_name@,
            r.license_key_name_of() == license_key_name@,
            r.access_token_name_of() == access_token_name@,
            r.device_keypair_name_of() == device_keypair_name@,
    {
        KeychainSecretStore {
            service_name: String::from_str(service_name),
            license_key_name: String::from_str(license_key_name),
            access_token_name: String::from_str(access_token_name),
            device_keypair_name: String::from_str(device_keypair_name),
        }
    }

    pub fn service_name(&self) -> (r: &str)
        ensures
            r@ == self.service_name_of(),
    {
        self.service_name.as_str()
    }

    pub fn license_key_entry_name(&self) -> (r: &str)
        ensures
            r@ == self.license_key_name_of(),
    {
        self.license_key_name.as_str()
    }

    pub fn access_token_entry_name(&self) -> (r: &str)
        ensures
            r@ == self.access_token_name_of(),
    {
        self.access_token_name.as_str()
    }

    pub fn device_keypair_entry_name(&self) -> (r: &str)
        ensures
            r@ == self.device_keypair_name_of(),
    {
        self.device_keypair_name.as_str()
    }
}

impl Default for KeychainSecretStore {
    fn default() -> (r: Self)
        ensures
            r.service_name_of() == Seq::<char>::empty(),
            r.license_key_name_of() == Seq::<char>::empty(),
            r.access_token_name_of() == Seq::<char>::empty(),
            r.device_keypair_name_of() == Seq::<char>::empty(),
    {
        KeychainSecretStore {
            service_name: String::new(),
            license_key_name: String::new(),
            access_token_name: String::new(),
            device_keypair_name: String::new(),
        }
    }
}

} // verus!
