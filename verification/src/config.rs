//! The credential record handed to the client, and the well-known location
//! of the stored credential file. Reading and writing the file is the
//! caller's concern; the library only knows the record and where the file
//! lives.

use vstd::prelude::*;
use crate::strutil::str_concat;

verus! {

/// The three credentials attached to every request: account name, password,
/// and the application key carried in a custom header.
#[derive(Debug, Clone)]
pub struct Credentials {
    pub username: String,
    pub password: String,
    pub app_key: String,
}

impl Credentials {
    /// Bundles the three credentials.
    pub fn new(username: String, password: String, app_key: String) -> (c: Credentials)
        ensures
            c.username@ == username@,
            c.password@ == password@,
            c.app_key@ == app_key@,
    {
        Credentials { username, password, app_key }
    }

    /// Whether every field is present; the login flow rejects an empty
    /// username, password or application key.
    pub fn is_complete(&self) -> (r: bool)
        ensures
            r == (self.username@.len() > 0 && self.password@.len() > 0 && self.app_key@.len()
                > 0),
    {
        !self.username.as_str().is_empty() && !self.password.as_str().is_empty()
            && !self.app_key.as_str().is_empty()
    }

    /// The credential file's path under a given home directory, or the
    /// tilde-relative form when the home directory is unknown.
    pub fn credentials_location_of(home: Option<&str>) -> (r: String)
        ensures
            r@ == match home {
                Some(h) => h@ + "/.nsg/credentials.json"@,
                None => "~/.nsg/credentials.json"@,
            },
    {
        match home {
            Some(h) => str_concat(h, "/.nsg/credentials.json"),
            None => "~/.nsg/credentials.json".to_owned(),
        }
    }

    /// Where the credential file lives on this machine: under the user's
    /// home directory, or in tilde-relative form when no home directory can
    /// be determined.
    pub fn credentials_location() -> (r: String)
        ensures
            r@ == "~/.nsg/credentials.json"@ || exists|h: Seq<char>|
                r@ == h + "/.nsg/credentials.json"@,
    {
        let home = home_dir_string();
        match home {
            Some(h) => {
                let r = Self::credentials_location_of(Some(h.as_str()));
                proof {
                    assert(r@ == h@ + "/.nsg/credentials.json"@);
                }
                r
            },
            None => Self::credentials_location_of(None),
        }
    }
}

/// Relies on dirs' `home_dir` (with `Path::display` to render the path):
/// the user's home directory as a string, when the platform reports one.
/// The answer depends on the environment, so nothing is promised of it.
#[verifier::external_body]
fn home_dir_string() -> (r: Option<String>) {
    match dirs::home_dir() {
        Some(p) => Some(p.display().to_string()),
        None => None,
    }
}

} // verus!
