//! Runtime configuration with fallback.
//!
//! Three settings are resolved once at process start: the listen port, the
//! worker concurrency, and the backend base URL. Each comes from a named
//! value of the process environment, handed in here as raw bytes; on
//! absence or parse failure the compiled-in default is adopted instead, so
//! configuration can never fail the process. Nothing re-reads
//! configuration after startup.

use vstd::prelude::*;
use vstd::string::StringSliceAdditionalSpecFns;
use vstd::string::StrSliceExecFns;

use crate::numeric::dec_val;
use crate::numeric::is_dec_bytes;
use crate::numeric::parse_uint;

verus! {

/// The listen port used when the environment gives none.
pub const DEFAULT_PORT: u16 = 9296;

/// The worker count used when the environment gives none.
pub const DEFAULT_WORKERS: usize = 2;

/// The backend base URL used when the environment gives none.
pub open spec fn spec_default_client_url() -> Seq<u8> {
    "http://127.0.0.1:9596".spec_bytes()
}

/// The resolved base URL of the single backend this process forwards to.
/// Built once at startup and immutable afterwards.
pub struct BackendEndpoint {
    pub base: Vec<u8>,
}

impl View for BackendEndpoint {
    type V = Seq<u8>;

    open spec fn view(&self) -> Seq<u8> {
        self.base@
    }
}

/// Resolve the listen port: the decimal value of the raw setting when it
/// is a numeral that fits a port number, the default otherwise.
pub fn resolve_port(raw: Option<&[u8]>) -> (r: u16)
    ensures
        match raw {
            Some(s) => r == if is_dec_bytes(s@) && dec_val(s@) <= u16::MAX {
                dec_val(s@) as u16
            } else {
                DEFAULT_PORT
            },
            None => r == DEFAULT_PORT,
        },
{
    match raw {
        Some(s) => match parse_uint(s) {
            Some(v) => if v <= 65535 {
                v as u16
            } else {
                DEFAULT_PORT
            },
            None => DEFAULT_PORT,
        },
        None => DEFAULT_PORT,
    }
}

/// Resolve the worker concurrency: the decimal value of the raw setting
/// when it is a numeral that fits, the default otherwise.
pub fn resolve_workers(raw: Option<&[u8]>) -> (r: usize)
    ensures
        match raw {
            Some(s) => r == if is_dec_bytes(s@) && dec_val(s@) <= usize::MAX {
                dec_val(s@) as usize
            } else {
                DEFAULT_WORKERS
            },
            None => r == DEFAULT_WORKERS,
        },
{
    match raw {
        Some(s) => match parse_uint(s) {
            Some(v) => v,
            None => DEFAULT_WORKERS,
        },
        None => DEFAULT_WORKERS,
    }
}

/// Resolve the backend base URL: any present setting is adopted verbatim,
/// an absent one falls back to the default.
pub fn resolve_client_url(raw: Option<&[u8]>) -> (r: BackendEndpoint)
    ensures
        match raw {
            Some(s) => r@ == s@,
            None => r@ == spec_default_client_url(),
        },
{
    match raw {
        Some(s) => {
            let mut base: Vec<u8> = Vec::new();
            crate::query::push_all(&mut base, s);
            proof {
                assert(base@ =~= s@);
            }
            BackendEndpoint { base }
        },
        None => BackendEndpoint { base: "http://127.0.0.1:9596".as_bytes_vec() },
    }
}

} // verus!
