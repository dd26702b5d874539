//! The cached-command policy.
//!
//! One external command is executed once per invocation, outside this
//! library; what it reported comes in as a [`CmdOutcome`]. On success
//! the captured standard output is decoded as UTF-8, cached under the
//! exact literal command string, and returned. On failure the most
//! recently cached output for that command stands in for it; if none
//! was ever cached, the invocation ends in a typed
//! [`StoreError::CacheMiss`].

use vstd::prelude::*;
use vstd::utf8::{encode_utf8, valid_utf8};

use crate::store::Store;
use crate::StoreError;

verus! {

/// What one external command execution reported: whether it succeeded
/// and its captured standard output bytes.
#[derive(Debug, PartialEq, Eq)]
pub struct CmdOutcome {
    pub success: bool,
    pub stdout: Vec<u8>,
}

/// Relies on `String::from_utf8`: succeeds exactly on valid UTF-8
/// input, and the returned string encodes back to the input bytes.
#[verifier::external_body]
fn decode_utf8(bytes: Vec<u8>) -> (r: Result<String, StoreError>)
    ensures
        r is Ok <==> valid_utf8(bytes@),
        r matches Ok(s) ==> encode_utf8(s@) == bytes@,
        r matches Err(e) ==> e == StoreError::Utf8,
{
    match String::from_utf8(bytes) {
        Ok(s) => Ok(s),
        Err(_) => Err(StoreError::Utf8),
    }
}

impl Store {
    /// The output owed for one execution of `command` that reported
    /// `outcome`: on success, the decoded standard output, now also
    /// cached under `command`; on failure, the previously cached
    /// output, or `CacheMiss` if there is none. The data table is
    /// never touched.
    pub fn cached_output(&mut self, command: &str, outcome: CmdOutcome) -> (r: Result<
        String,
        StoreError,
    >)
        ensures
            final(self).data_map() == old(self).data_map(),
            outcome.success && !valid_utf8(outcome.stdout@) ==> r == Err::<String, StoreError>(
                StoreError::Utf8,
            ) && final(self).cache_map() == old(self).cache_map(),
            outcome.success && valid_utf8(outcome.stdout@) ==> match r {
                Ok(s) => encode_utf8(s@) == outcome.stdout@ && final(self).cache_map() == old(
                    self,
                ).cache_map().insert(command@, s@),
                Err(e) => e == StoreError::Query && final(self).cache_map() == old(
                    self,
                ).cache_map(),
            },
            !outcome.success ==> final(self).cache_map() == old(self).cache_map() && match r {
                Ok(s) => old(self).cache_map().contains_key(command@) && s@ == old(
                    self,
                ).cache_map()[command@],
                Err(e) => {
                    &&& e == StoreError::CacheMiss || e == StoreError::Query
                    &&& e == StoreError::CacheMiss ==> !old(self).cache_map().contains_key(
                        command@,
                    )
                },
            },
            !outcome.success && !old(self).cache_map().contains_key(command@) ==> r is Err,
    {
        if outcome.success {
            let text = match decode_utf8(outcome.stdout) {
                Ok(s) => s,
                Err(e) => {
                    return Err(e);
                },
            };
            match self.cache(command, text.as_str()) {
                Ok(()) => Ok(text),
                Err(e) => Err(e),
            }
        } else {
            match self.read_cache(command) {
                Ok(Some(t)) => Ok(t),
                Ok(None) => Err(StoreError::CacheMiss),
                Err(e) => Err(e),
            }
        }
    }
}

} // verus!
