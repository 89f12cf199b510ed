//! Password material for the login exchange: either the plain text or its
//! 16-byte digest, so a caller can avoid holding the plain text at all.

use vstd::prelude::*;

use crate::message::copy_bytes;

verus! {

/// The digest of a string's UTF-8 bytes under the MD5 function. The
/// function's value table is the outside crate's business; stated here is
/// only that it depends on the characters alone.
pub uninterp spec fn md5_of_str(s: Seq<char>) -> Seq<u8>;

/// Relies on md5::compute: the 16-byte MD5 digest of the string's UTF-8
/// bytes, a function of the characters alone.
#[verifier::external_body]
fn md5_string(s: &str) -> (r: Vec<u8>)
    ensures
        r@ == md5_of_str(s@),
        r@.len() == 16,
{
    md5::compute(s).0.to_vec()
}

/// A login password: the plain text, or already its MD5 digest.
pub enum Password {
    String(String),
    /// The 16-byte digest.
    Md5(Vec<u8>),
}

impl Password {
    /// What `md5` returns: the digest of the plain text, or the stored
    /// digest unchanged.
    pub open spec fn digest_spec(self) -> Seq<u8> {
        match self {
            Password::String(s) => md5_of_str(s@),
            Password::Md5(m) => m@,
        }
    }

    /// The password digest; computes nothing when the digest is already
    /// held.
    pub fn md5(&self) -> (r: Vec<u8>)
        ensures
            r@ == self.digest_spec(),
    {
        match self {
            Password::String(s) => md5_string(s.as_str()),
            Password::Md5(m) => copy_bytes(m),
        }
    }

    /// A plain-text password.
    pub fn from_str(s: &str) -> (r: Password)
        ensures
            r matches Password::String(t) && t@ == s@,
    {
        Password::String(s.to_owned())
    }
}

} // verus!
