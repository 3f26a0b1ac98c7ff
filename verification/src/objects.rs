//! Plain models of the repository objects the display logic reads.
//!
//! The version-control library hands the command layer branches, commits
//! and signatures; the display logic only reads a few plain facts of each —
//! a name's bytes, a commit's identifier and summary, whether a signature
//! header is present. Those facts live here as plain values, so every
//! decision taken on them is checked.

use vstd::prelude::*;
use vstd::string::StrSliceExecFns;
use vstd::string::StringSliceAdditionalSpecFns;
use vstd::utf8::encode_utf8;
use vstd::utf8::valid_utf8;

use crate::classify::GitError;

verus! {

#[verifier::external_type_specification]
#[verifier::external_body]
pub struct ExUtf8Error(core::str::Utf8Error);

/// What can go wrong reading an object: a collaborator error, or a name
/// that is not text.
#[derive(Debug)]
pub enum Error {
    Git(GitError),
    Utf8(core::str::Utf8Error),
}

/// Relies on core::str::from_utf8: decodes exactly the valid UTF-8 byte
/// strings, and the decoded text re-encodes to the input bytes.
#[verifier::external_body]
pub(crate) fn str_from_utf8(v: &[u8]) -> (r: Result<&str, core::str::Utf8Error>)
    ensures
        match r {
            Result::Ok(s) => valid_utf8(v@) && s.spec_bytes() == v@,
            Result::Err(_) => !valid_utf8(v@),
        },
{
    core::str::from_utf8(v)
}

/// A branch as the display logic sees it: the raw bytes of its name.
#[derive(Debug)]
pub struct Branch {
    pub name_bytes: Vec<u8>,
}

impl Branch {
    /// The branch's name as text: exactly the valid-UTF-8 names decode,
    /// and the decoded name re-encodes to the raw bytes.
    pub fn name(&self) -> (r: Result<String, Error>)
        ensures
            valid_utf8(self.name_bytes@) ==> (r matches Result::Ok(s) && encode_utf8(s@)
                == self.name_bytes@),
            !valid_utf8(self.name_bytes@) ==> (r matches Result::Err(e) && e is Utf8),
    {
        match str_from_utf8(self.name_bytes.as_slice()) {
            Result::Ok(s) => Result::Ok(s.to_owned()),
            Result::Err(e) => Result::Err(Error::Utf8(e)),
        }
    }
}

/// The names of the given branches, in order: succeeds exactly when every
/// name is valid UTF-8, and fails with the first name that is not.
pub fn branch_names(branches: &Vec<Branch>) -> (r: Result<Vec<String>, Error>)
    ensures
        (forall|i: int| 0 <= i < branches@.len() ==> valid_utf8(branches@[i].name_bytes@)) ==> (
        r matches Result::Ok(names) && names@.len() == branches@.len() && (forall|i: int|
            0 <= i < names@.len() ==> encode_utf8(names@[i]@) == branches@[i].name_bytes@)),
        (exists|i: int| 0 <= i < branches@.len() && !valid_utf8(branches@[i].name_bytes@)) ==> (
        r matches Result::Err(e) && e is Utf8),
{
    let mut names: Vec<String> = Vec::new();
    let mut i: usize = 0;
    while i < branches.len()
        invariant
            0 <= i <= branches@.len(),
            names@.len() == i,
            forall|j: int| 0 <= j < i ==> valid_utf8(branches@[j].name_bytes@),
            forall|j: int| 0 <= j < i ==> encode_utf8(names@[j]@) == branches@[j].name_bytes@,
        decreases branches@.len() - i,
    {
        match branches[i].name() {
            Result::Ok(name) => {
                names.push(name);
            },
            Result::Err(e) => {
                return Result::Err(e);
            },
        }
        i = i + 1;
    }
    Result::Ok(names)
}

/// Whether a signature header marks the commit as signed: a header must be
/// present and not empty.
pub fn is_signed(signature_header: &Option<Vec<u8>>) -> (r: bool)
    ensures
        r == (signature_header matches Some(s) && s@.len() > 0),
{
    match signature_header {
        Option::Some(s) => s.len() > 0,
        Option::None => false,
    }
}

/// The display form of a commit identifier: its first six characters, or
/// all of it when it is shorter.
pub open spec fn spec_short_id(id: Seq<char>) -> Seq<char> {
    if id.len() <= 6 {
        id
    } else {
        id.subrange(0, 6)
    }
}

/// The short display form of a commit identifier.
pub fn short_id(id: &String) -> (r: String)
    ensures
        r@ == spec_short_id(id@),
{
    let s = id.as_str();
    let n = s.unicode_len();
    if n <= 6 {
        s.to_owned()
    } else {
        s.substring_char(0, 6).to_owned()
    }
}

/// A commit as the display logic sees it: identifier, message and whether
/// it carries a signature.
#[derive(Debug)]
pub struct CommitInfo {
    pub id: String,
    pub message: String,
    pub signed: bool,
}

} // verus!
