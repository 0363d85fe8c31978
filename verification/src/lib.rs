//! Access-control core of a distributed automation platform.
//!
//! The crate models wildcard masks over slash-delimited paths, typed
//! resource identifiers, mask lists with multi-pattern matching, and the
//! policy evaluator that combines them under allow/deny/admin precedence.

use vstd::prelude::*;

pub mod acl;
pub mod common_payloads;
mod error;
pub mod events;
mod ieid;
mod oid;
pub mod op;
pub mod registry;
pub mod strpath;
pub mod time;
pub mod tools;

pub use error::{EResult, Error, ErrorKind};
pub use error::{
    ERR_CODE_ABORTED, ERR_CODE_ACCESS_DENIED, ERR_CODE_ACCESS_DENIED_MORE_DATA_REQUIRED,
    ERR_CODE_ALREADY_EXISTS, ERR_CODE_BUSY, ERR_CODE_BUS_ACCESS, ERR_CODE_BUS_BUSY,
    ERR_CODE_BUS_CLIENT_NOT_REGISTERED, ERR_CODE_BUS_DATA, ERR_CODE_BUS_IO,
    ERR_CODE_BUS_NOT_DELIVERED, ERR_CODE_BUS_NOT_SUPPORTED, ERR_CODE_BUS_OTHER,
    ERR_CODE_BUS_TIMEOUT, ERR_CODE_CORE_ERROR, ERR_CODE_EVAHI_AUTH_REQUIRED,
    ERR_CODE_FUNC_FAILED, ERR_CODE_INTERNAL_RPC, ERR_CODE_INVALID_DATA,
    ERR_CODE_INVALID_PARAMS, ERR_CODE_INVALID_REQUEST, ERR_CODE_IO,
    ERR_CODE_METHOD_NOT_FOUND, ERR_CODE_METHOD_NOT_IMPLEMENTED, ERR_CODE_NOT_FOUND,
    ERR_CODE_NOT_READY, ERR_CODE_OTHER, ERR_CODE_PARSE, ERR_CODE_REGISTRY,
    ERR_CODE_SYSTEM_ERROR, ERR_CODE_TIMEOUT, ERR_CODE_TOKEN_RESTRICTED,
    ERR_CODE_UNSUPPORTED,
};
pub use ieid::IEID;
pub use oid::{ItemKind, OID};

verus! {

/// The item status type: positive means enabled/ok, negative an error.
pub type ItemStatus = i16;

pub const ITEM_STATUS_ERROR: i16 = -1;

pub const LOG_LEVEL_TRACE: u8 = 0;

pub const LOG_LEVEL_DEBUG: u8 = 10;

pub const LOG_LEVEL_INFO: u8 = 20;

pub const LOG_LEVEL_WARN: u8 = 30;

pub const LOG_LEVEL_ERROR: u8 = 40;

pub const LOG_LEVEL_OFF: u8 = 100;

/// The default polling step: a tenth of a second.
pub fn get_default_sleep_step() -> (r: std::time::Duration)
    ensures
        op::duration_ns(r) == 100_000_000,
{
    op::dur_from_millis(100)
}

/// The text is a whole-tail wildcard token: `#` or `*`.
pub fn is_str_wildcard(s: &str) -> (r: bool)
    ensures
        r == strpath::seg_is_all(s@),
{
    if s.unicode_len() != 1 {
        return false;
    }
    let c = s.get_char(0);
    c == '#' || c == '*'
}

/// The text is a single-segment wildcard token: `+` or `?`.
pub fn is_str_any(s: &str) -> (r: bool)
    ensures
        r == strpath::seg_is_any(s@),
{
    if s.unicode_len() != 1 {
        return false;
    }
    let c = s.get_char(0);
    c == '+' || c == '?'
}

} // verus!
