//! How git transport for a project is authenticated.

use std::path::PathBuf;
use vstd::prelude::*;

verus! {

/// The key that authenticates git operations for a project. It declares an
/// intent and validates nothing: whether the file exists, holds a key, or
/// opens with the passphrase is for the code that uses the key to find out.
#[derive(Debug, PartialEq, Eq)]
pub enum AuthKey {
    /// No key was chosen: the managed key is used.
    Generated,
    /// This private key file is used, decrypted with `passphrase` where one is
    /// given.
    Local { private_key_path: PathBuf, passphrase: Option<String> },
}

impl Default for AuthKey {
    /// The key of a project for which none was chosen: the managed one.
    fn default() -> (key: Self)
        ensures
            key == AuthKey::Generated,
    {
        AuthKey::Generated
    }
}

impl Clone for AuthKey {
    /// A clone is the same choice: same variant, same path, same passphrase.
    fn clone(&self) -> (copy: Self)
        ensures
            copy == *self,
    {
        match self {
            AuthKey::Generated => AuthKey::Generated,
            AuthKey::Local { private_key_path, passphrase } => AuthKey::Local {
                private_key_path: private_key_path.clone(),
                passphrase: match passphrase {
                    Some(text) => Some(text.clone()),
                    None => None,
                },
            },
        }
    }
}

} // verus!
