//! Safe, verified bindings around the TRE approximate regular-expression engine.
//!
//! The library holds the parts of the binding that decide: the ownership state of
//! a compiled pattern, the error model, flag and parameter values, and the mapping
//! of the engine's submatch offsets to spans of the caller's input. The engine is
//! reached through plain values: its offsets, statistics, return codes and message
//! buffers.
pub mod approx;
pub mod err;
pub mod exec;
pub mod flags;
pub mod regex;
mod text;
pub mod wchar;

pub use crate::approx::{
    approx_match_bytes, approx_match_str, RegApproxMatch, RegApproxMatchBytes, RegApproxMatchStr,
    RegApproxParams, RegaMatch, RegaParams,
};
pub use crate::err::{
    BindingErrorCode, ErrorInt, ErrorKind, RegexError, Result, REG_BADBR, REG_BADMAX, REG_BADPAT,
    REG_BADRPT, REG_EBRACE, REG_EBRACK, REG_ECOLLATE, REG_ECTYPE, REG_EESCAPE, REG_EPAREN,
    REG_ERANGE, REG_ESPACE, REG_ESUBREG, REG_NOMATCH, REG_OK,
};
pub use crate::exec::{
    match_slices, match_strs, new_slots, slots_fit, spans_to_str, RegMatch, RegMatchBytes,
    RegMatchStr,
};
pub use crate::flags::{RegFlags, RegcompFlags, RegexecFlags};
pub use crate::regex::Regex;
pub use crate::wchar::{
    approx_match_wide, match_wide, wide_len, RegApproxMatchWideStr, RegMatchWideStr,
};
