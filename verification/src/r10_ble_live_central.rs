//! The live BLE central's status, as the firmware build configured it.
use vstd::prelude::*;
use vstd::string::StringSliceAdditionalSpecFns;
use crate::byte_text::str_eq;

verus! {

#[derive(Clone, Copy, Debug, PartialEq, Eq, Structural)]
pub enum R10BleLiveCentralStatus {
    Disabled,
    ProbeOnlyLogOnly,
    ReaderRemoteNeedsLiveStack,
}

pub open spec fn live_status_label(s: R10BleLiveCentralStatus) -> &'static str {
    match s {
        R10BleLiveCentralStatus::Disabled => "disabled",
        R10BleLiveCentralStatus::ProbeOnlyLogOnly => "probe_only_log_only",
        R10BleLiveCentralStatus::ReaderRemoteNeedsLiveStack => "reader_remote_needs_live_stack",
    }
}

pub open spec fn live_mode_label(s: R10BleLiveCentralStatus) -> &'static str {
    match s {
        R10BleLiveCentralStatus::Disabled => "disabled",
        R10BleLiveCentralStatus::ProbeOnlyLogOnly => "probe_only",
        R10BleLiveCentralStatus::ReaderRemoteNeedsLiveStack => "reader_remote",
    }
}

pub open spec fn live_reader_label(s: R10BleLiveCentralStatus) -> &'static str {
    match s {
        R10BleLiveCentralStatus::ReaderRemoteNeedsLiveStack => "reader_on",
        _ => "reader_off",
    }
}

impl R10BleLiveCentralStatus {
    pub fn label(self) -> (r: &'static str)
        ensures
            r == live_status_label(self),
    {
        match self {
            Self::Disabled => "disabled",
            Self::ProbeOnlyLogOnly => "probe_only_log_only",
            Self::ReaderRemoteNeedsLiveStack => "reader_remote_needs_live_stack",
        }
    }

    pub fn mode_label(self) -> (r: &'static str)
        ensures
            r == live_mode_label(self),
    {
        match self {
            Self::Disabled => "disabled",
            Self::ProbeOnlyLogOnly => "probe_only",
            Self::ReaderRemoteNeedsLiveStack => "reader_remote",
        }
    }

    pub fn reader_label(self) -> (r: &'static str)
        ensures
            r == live_reader_label(self),
    {
        match self {
            Self::ReaderRemoteNeedsLiveStack => "reader_on",
            _ => "reader_off",
        }
    }
}

/// `s` has the same bytes as `word`.
pub open spec fn text_is(s: &str, word: &str) -> bool {
    s.spec_bytes() == word.spec_bytes()
}

/// The status a build configures: ReaderRemote needs one of its mode names
/// and the reader-remote allowance `1`; `off` or `disabled` turns the central
/// off; anything else, a missing mode included, is ProbeOnly.
pub open spec fn live_status_spec(mode: Option<&str>, allow_reader_remote: Option<&str>) -> R10BleLiveCentralStatus {
    let m = match mode {
        Some(m) => m,
        None => "probe_only",
    };
    let allowed = match allow_reader_remote {
        Some(a) => text_is(a, "1"),
        None => false,
    };
    if (text_is(m, "reader_remote") || text_is(m, "reader-remote") || text_is(m, "reader")) && allowed {
        R10BleLiveCentralStatus::ReaderRemoteNeedsLiveStack
    } else if text_is(m, "off") || text_is(m, "disabled") {
        R10BleLiveCentralStatus::Disabled
    } else {
        R10BleLiveCentralStatus::ProbeOnlyLogOnly
    }
}

/// The live central status for the build's mode and reader-remote allowance
/// (the firmware passes the values it was compiled with).
pub fn r10_ble_live_central_compiled_status(mode: Option<&str>, allow_reader_remote: Option<&str>) -> (r: R10BleLiveCentralStatus)
    ensures
        r == live_status_spec(mode, allow_reader_remote),
{
    let m = match mode {
        Some(m) => m,
        None => "probe_only",
    };
    let allowed = match allow_reader_remote {
        Some(a) => str_eq(a, "1"),
        None => false,
    };
    if (str_eq(m, "reader_remote") || str_eq(m, "reader-remote") || str_eq(m, "reader")) && allowed {
        R10BleLiveCentralStatus::ReaderRemoteNeedsLiveStack
    } else if str_eq(m, "off") || str_eq(m, "disabled") {
        R10BleLiveCentralStatus::Disabled
    } else {
        R10BleLiveCentralStatus::ProbeOnlyLogOnly
    }
}

} // verus!
