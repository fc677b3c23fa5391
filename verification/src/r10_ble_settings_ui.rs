//! Settings > Controls > R10 BLE Remote: the mode selector and its persisted
//! record. Off is the default, ProbeOnly only logs, and ReaderRemote is
//! persisted and enabled only after an explicit confirmation.
use vstd::prelude::*;
use vstd::string::StringSliceAdditionalSpecFns;
use vstd::utf8::encode_utf8;
use crate::byte_text::str_eq;
use crate::r10_ble_device_task_x4::R10BleDeviceTaskX4DeployMode;
use crate::r10_ble_reader_remote_guard::{R10BleReaderRemoteGuard, R10BleReaderRemoteGuardMode};
use crate::r10_remote_policy::R10RemoteScreen;
use crate::std_text::{is_trim_of, str_trim, string_push_str};

verus! {

pub const R10_BLE_SETTINGS_PATH: &'static str = "Settings > Controls > R10 BLE Remote";

pub const R10_BLE_SETTINGS_TAB: &'static str = "Controls";

pub const R10_BLE_SETTINGS_CONTROL_LABEL: &'static str = "R10 BLE Remote";

pub const R10_BLE_SETTINGS_FILE_NAME: &'static str = "R10BLE.TXT";

pub const R10_BLE_SETTINGS_RECORD_PREFIX: &'static str = "R10BLE_MODE=";

#[derive(Clone, Copy, Debug, PartialEq, Eq, Structural)]
pub enum R10BleSettingsMode {
    Off,
    ProbeOnly,
    ReaderRemote,
}

pub open spec fn settings_mode_label(m: R10BleSettingsMode) -> &'static str {
    match m {
        R10BleSettingsMode::Off => "off",
        R10BleSettingsMode::ProbeOnly => "probe_only",
        R10BleSettingsMode::ReaderRemote => "reader_remote",
    }
}

pub open spec fn settings_display_label(m: R10BleSettingsMode) -> &'static str {
    match m {
        R10BleSettingsMode::Off => "Off",
        R10BleSettingsMode::ProbeOnly => "Probe Only",
        R10BleSettingsMode::ReaderRemote => "Reader Remote",
    }
}

pub open spec fn settings_status_label(m: R10BleSettingsMode) -> &'static str {
    match m {
        R10BleSettingsMode::Off => "Off",
        R10BleSettingsMode::ProbeOnly => "ProbeOnly log-only",
        R10BleSettingsMode::ReaderRemote => "ReaderRemote guarded",
    }
}

pub open spec fn settings_safety_label(m: R10BleSettingsMode) -> &'static str {
    match m {
        R10BleSettingsMode::Off => "off_default",
        R10BleSettingsMode::ProbeOnly => "probe_log_only",
        R10BleSettingsMode::ReaderRemote => "reader_guarded",
    }
}

pub open spec fn deploy_mode_for(m: R10BleSettingsMode) -> R10BleDeviceTaskX4DeployMode {
    match m {
        R10BleSettingsMode::Off => R10BleDeviceTaskX4DeployMode::Disabled,
        R10BleSettingsMode::ProbeOnly => R10BleDeviceTaskX4DeployMode::ProbeOnly,
        R10BleSettingsMode::ReaderRemote => R10BleDeviceTaskX4DeployMode::ReaderRemote,
    }
}

/// The settings mode that shows a deploy mode.
pub open spec fn settings_mode_for(d: R10BleDeviceTaskX4DeployMode) -> R10BleSettingsMode {
    match d {
        R10BleDeviceTaskX4DeployMode::Disabled => R10BleSettingsMode::Off,
        R10BleDeviceTaskX4DeployMode::ProbeOnly => R10BleSettingsMode::ProbeOnly,
        R10BleDeviceTaskX4DeployMode::ReaderRemote => R10BleSettingsMode::ReaderRemote,
    }
}

impl From<R10BleDeviceTaskX4DeployMode> for R10BleSettingsMode {
    fn from(value: R10BleDeviceTaskX4DeployMode) -> (r: Self) {
        match value {
            R10BleDeviceTaskX4DeployMode::Disabled => Self::Off,
            R10BleDeviceTaskX4DeployMode::ProbeOnly => Self::ProbeOnly,
            R10BleDeviceTaskX4DeployMode::ReaderRemote => Self::ReaderRemote,
        }
    }
}

impl vstd::std_specs::convert::FromSpecImpl<R10BleDeviceTaskX4DeployMode> for R10BleSettingsMode {
    open spec fn obeys_from_spec() -> bool {
        true
    }

    open spec fn from_spec(v: R10BleDeviceTaskX4DeployMode) -> Self {
        settings_mode_for(v)
    }
}

/// Reading a deploy mode back from the settings mode that shows it gives the
/// same deploy mode.
pub proof fn lemma_settings_mode_roundtrip(d: R10BleDeviceTaskX4DeployMode)
    ensures
        deploy_mode_for(settings_mode_for(d)) == d,
{
}

pub open spec fn guard_mode_of(m: R10BleSettingsMode) -> R10BleReaderRemoteGuardMode {
    match m {
        R10BleSettingsMode::Off => R10BleReaderRemoteGuardMode::Disabled,
        R10BleSettingsMode::ProbeOnly => R10BleReaderRemoteGuardMode::ProbeOnly,
        R10BleSettingsMode::ReaderRemote => R10BleReaderRemoteGuardMode::ReaderRemote,
    }
}

impl R10BleSettingsMode {
    pub fn as_str(&self) -> (r: &'static str)
        ensures
            r == settings_mode_label(*self),
    {
        match self {
            Self::Off => "off",
            Self::ProbeOnly => "probe_only",
            Self::ReaderRemote => "reader_remote",
        }
    }

    pub fn display_label(&self) -> (r: &'static str)
        ensures
            r == settings_display_label(*self),
    {
        match self {
            Self::Off => "Off",
            Self::ProbeOnly => "Probe Only",
            Self::ReaderRemote => "Reader Remote",
        }
    }

    pub fn status_label(&self) -> (r: &'static str)
        ensures
            r == settings_status_label(*self),
    {
        match self {
            Self::Off => "Off",
            Self::ProbeOnly => "ProbeOnly log-only",
            Self::ReaderRemote => "ReaderRemote guarded",
        }
    }

    pub fn safety_label(&self) -> (r: &'static str)
        ensures
            r == settings_safety_label(*self),
    {
        match self {
            Self::Off => "off_default",
            Self::ProbeOnly => "probe_log_only",
            Self::ReaderRemote => "reader_guarded",
        }
    }

    pub fn requires_confirmation(&self) -> (r: bool)
        ensures
            r == (*self == R10BleSettingsMode::ReaderRemote),
    {
        matches!(self, Self::ReaderRemote)
    }

    pub fn to_deploy_mode(&self) -> (r: R10BleDeviceTaskX4DeployMode)
        ensures
            r == deploy_mode_for(*self),
    {
        match self {
            Self::Off => R10BleDeviceTaskX4DeployMode::Disabled,
            Self::ProbeOnly => R10BleDeviceTaskX4DeployMode::ProbeOnly,
            Self::ReaderRemote => R10BleDeviceTaskX4DeployMode::ReaderRemote,
        }
    }

    pub fn to_guard_mode(&self) -> (r: R10BleReaderRemoteGuardMode)
        ensures
            r == guard_mode_of(*self),
    {
        match self {
            Self::Off => R10BleReaderRemoteGuardMode::Disabled,
            Self::ProbeOnly => R10BleReaderRemoteGuardMode::ProbeOnly,
            Self::ReaderRemote => R10BleReaderRemoteGuardMode::ReaderRemote,
        }
    }
}

#[derive(Clone, Copy, Debug, PartialEq, Eq, Structural)]
pub enum R10BleSettingsAction {
    Open,
    SelectOff,
    SelectProbeOnly,
    SelectReaderRemote,
    ConfirmReaderRemote,
    CancelReaderRemote,
    QuickDisable,
}

pub open spec fn settings_action_label(a: R10BleSettingsAction) -> &'static str {
    match a {
        R10BleSettingsAction::Open => "open",
        R10BleSettingsAction::SelectOff => "select_off",
        R10BleSettingsAction::SelectProbeOnly => "select_probe",
        R10BleSettingsAction::SelectReaderRemote => "select_reader",
        R10BleSettingsAction::ConfirmReaderRemote => "confirm_reader",
        R10BleSettingsAction::CancelReaderRemote => "cancel_reader",
        R10BleSettingsAction::QuickDisable => "quick_disable",
    }
}

impl R10BleSettingsAction {
    pub fn as_str(&self) -> (r: &'static str)
        ensures
            r == settings_action_label(*self),
    {
        match self {
            Self::Open => "open",
            Self::SelectOff => "select_off",
            Self::SelectProbeOnly => "select_probe",
            Self::SelectReaderRemote => "select_reader",
            Self::ConfirmReaderRemote => "confirm_reader",
            Self::CancelReaderRemote => "cancel_reader",
            Self::QuickDisable => "quick_disable",
        }
    }
}

#[derive(Clone, Copy, Debug, PartialEq, Eq, Structural)]
pub enum R10BleSettingsStatus {
    Viewing,
    Persisted,
    ConfirmationRequired,
    Cancelled,
    Disabled,
}

pub open spec fn settings_status_value(s: R10BleSettingsStatus) -> &'static str {
    match s {
        R10BleSettingsStatus::Viewing => "viewing",
        R10BleSettingsStatus::Persisted => "persisted",
        R10BleSettingsStatus::ConfirmationRequired => "confirm_required",
        R10BleSettingsStatus::Cancelled => "cancelled",
        R10BleSettingsStatus::Disabled => "disabled",
    }
}

impl R10BleSettingsStatus {
    pub fn as_str(&self) -> (r: &'static str)
        ensures
            r == settings_status_value(*self),
    {
        match self {
            Self::Viewing => "viewing",
            Self::Persisted => "persisted",
            Self::ConfirmationRequired => "confirm_required",
            Self::Cancelled => "cancelled",
            Self::Disabled => "disabled",
        }
    }
}

#[derive(Clone, Copy, Debug, PartialEq, Eq)]
pub struct R10BleSettingsRow {
    pub mode: R10BleSettingsMode,
    pub label: &'static str,
    pub status: &'static str,
    pub selected: bool,
    pub requires_confirmation: bool,
}

pub open spec fn row_spec(mode: R10BleSettingsMode, selected_mode: R10BleSettingsMode) -> R10BleSettingsRow {
    R10BleSettingsRow {
        mode,
        label: settings_display_label(mode),
        status: settings_status_label(mode),
        selected: mode == selected_mode,
        requires_confirmation: mode == R10BleSettingsMode::ReaderRemote,
    }
}

impl R10BleSettingsRow {
    pub fn new(mode: R10BleSettingsMode, selected_mode: R10BleSettingsMode) -> (r: Self)
        ensures
            r == row_spec(mode, selected_mode),
    {
        Self {
            mode,
            label: mode.display_label(),
            status: mode.status_label(),
            selected: mode == selected_mode,
            requires_confirmation: mode.requires_confirmation(),
        }
    }
}

#[derive(Clone, Copy, Debug, PartialEq, Eq)]
pub struct R10BleSettingsScreen {
    pub title: &'static str,
    pub path: &'static str,
    pub rows: [R10BleSettingsRow; 3],
    pub pending_confirmation: Option<R10BleSettingsMode>,
    pub quick_disable_available: bool,
}

/// The screen: three rows Off, ProbeOnly, ReaderRemote with the current mode
/// selected; quick disable is offered whenever BLE is not off.
pub open spec fn screen_spec(mode: R10BleSettingsMode, pending: Option<R10BleSettingsMode>, r: R10BleSettingsScreen) -> bool {
    &&& r.title == "R10 BLE Remote"
    &&& r.path == R10_BLE_SETTINGS_PATH
    &&& r.rows[0] == row_spec(R10BleSettingsMode::Off, mode)
    &&& r.rows[1] == row_spec(R10BleSettingsMode::ProbeOnly, mode)
    &&& r.rows[2] == row_spec(R10BleSettingsMode::ReaderRemote, mode)
    &&& r.pending_confirmation == pending
    &&& r.quick_disable_available == (mode != R10BleSettingsMode::Off)
}

impl R10BleSettingsScreen {
    pub fn new(mode: R10BleSettingsMode, pending: Option<R10BleSettingsMode>) -> (r: Self)
        ensures
            screen_spec(mode, pending, r),
    {
        let rows = [
            R10BleSettingsRow::new(R10BleSettingsMode::Off, mode),
            R10BleSettingsRow::new(R10BleSettingsMode::ProbeOnly, mode),
            R10BleSettingsRow::new(R10BleSettingsMode::ReaderRemote, mode),
        ];
        Self {
            title: "R10 BLE Remote",
            path: R10_BLE_SETTINGS_PATH,
            rows,
            pending_confirmation: pending,
            quick_disable_available: !matches!(mode, R10BleSettingsMode::Off),
        }
    }
}

#[derive(Clone, Copy, Debug, PartialEq, Eq, Structural)]
pub struct R10BleSettingsPersistenceRecord {
    pub mode: R10BleSettingsMode,
    pub explicit_user_change: bool,
    pub reader_remote_confirmed: bool,
}

pub open spec fn default_off_spec() -> R10BleSettingsPersistenceRecord {
    R10BleSettingsPersistenceRecord {
        mode: R10BleSettingsMode::Off,
        explicit_user_change: false,
        reader_remote_confirmed: false,
    }
}

/// What a stored value, once trimmed, reads as. Only the stable values, with
/// or without the `R10BLE_MODE=` prefix, are trusted; an unconfirmed
/// ReaderRemote and anything else read as the default Off.
pub open spec fn parse_trimmed(b: Seq<u8>) -> R10BleSettingsPersistenceRecord {
    if b == "off".spec_bytes() || b == "R10BLE_MODE=off".spec_bytes() {
        R10BleSettingsPersistenceRecord { mode: R10BleSettingsMode::Off, explicit_user_change: true, reader_remote_confirmed: false }
    } else if b == "probe_only".spec_bytes() || b == "R10BLE_MODE=probe_only".spec_bytes() {
        R10BleSettingsPersistenceRecord { mode: R10BleSettingsMode::ProbeOnly, explicit_user_change: true, reader_remote_confirmed: false }
    } else if b == "reader_remote_confirmed".spec_bytes() || b == "R10BLE_MODE=reader_remote_confirmed".spec_bytes() {
        R10BleSettingsPersistenceRecord { mode: R10BleSettingsMode::ReaderRemote, explicit_user_change: true, reader_remote_confirmed: true }
    } else {
        default_off_spec()
    }
}

/// The value a record is stored as; an unconfirmed ReaderRemote is stored as
/// off.
pub open spec fn stable_value_spec(r: R10BleSettingsPersistenceRecord) -> &'static str {
    match r.mode {
        R10BleSettingsMode::Off => "off",
        R10BleSettingsMode::ProbeOnly => "probe_only",
        R10BleSettingsMode::ReaderRemote => if r.reader_remote_confirmed {
            "reader_remote_confirmed"
        } else {
            "off"
        },
    }
}

/// What a stored record reads back as: its mode as an explicit choice;
/// ReaderRemote only when it was confirmed, an unconfirmed one as Off.
pub open spec fn reloaded_spec(r: R10BleSettingsPersistenceRecord) -> R10BleSettingsPersistenceRecord {
    match r.mode {
        R10BleSettingsMode::ProbeOnly => R10BleSettingsPersistenceRecord {
            mode: R10BleSettingsMode::ProbeOnly,
            explicit_user_change: true,
            reader_remote_confirmed: false,
        },
        R10BleSettingsMode::ReaderRemote => if r.reader_remote_confirmed {
            R10BleSettingsPersistenceRecord {
                mode: R10BleSettingsMode::ReaderRemote,
                explicit_user_change: true,
                reader_remote_confirmed: true,
            }
        } else {
            R10BleSettingsPersistenceRecord { mode: R10BleSettingsMode::Off, explicit_user_change: true, reader_remote_confirmed: false }
        },
        R10BleSettingsMode::Off => R10BleSettingsPersistenceRecord {
            mode: R10BleSettingsMode::Off,
            explicit_user_change: true,
            reader_remote_confirmed: false,
        },
    }
}

/// The stored line of a record is its trimmed self plus a line break.
proof fn lemma_stored_line_trim(w: Seq<char>, t: Seq<char>)
    requires
        w.len() > 0,
        !crate::std_text::is_unicode_whitespace(w[0]),
        !crate::std_text::is_unicode_whitespace(w.last()),
        is_trim_of(w + seq!['\n'], t),
    ensures
        t == w,
{
    let s = w + seq!['\n'];
    let (a, b) = choose|a: int, b: int|
        #![trigger s.subrange(a, b)]
        0 <= a <= b <= s.len() && t == s.subrange(a, b) && (forall|i: int|
            0 <= i < a ==> crate::std_text::is_unicode_whitespace(#[trigger] s[i])) && (forall|i: int|
            b <= i < s.len() ==> crate::std_text::is_unicode_whitespace(#[trigger] s[i])) && (t.len() > 0
            ==> !crate::std_text::is_unicode_whitespace(t[0]) && !crate::std_text::is_unicode_whitespace(t[t.len() - 1]));
    assert(s[0] == w[0]);
    assert(s[w.len() - 1] == w.last());
    if a > 0 {
        assert(crate::std_text::is_unicode_whitespace(s[0]));
    }
    if b < w.len() {
        assert(crate::std_text::is_unicode_whitespace(s[w.len() - 1]));
    }
    if b == s.len() {
        assert(t[t.len() - 1] == s[s.len() - 1]);
    }
    assert(t =~= w);
}

/// The stored line `R10BLE_MODE=` + value, trimmed, is that text.
proof fn lemma_stored_text(value: &str, line: &str, t: Seq<char>)
    requires
        line@ == R10_BLE_SETTINGS_RECORD_PREFIX@ + value@,
        value@.len() > 0,
        !crate::std_text::is_unicode_whitespace(value@.last()),
        is_trim_of(R10_BLE_SETTINGS_RECORD_PREFIX@ + value@ + "\n"@, t),
    ensures
        encode_utf8(t) == line.spec_bytes(),
{
    reveal_strlit("R10BLE_MODE=");
    reveal_strlit("\n");
    let w = R10_BLE_SETTINGS_RECORD_PREFIX@ + value@;
    assert(R10_BLE_SETTINGS_RECORD_PREFIX@ + value@ + "\n"@ =~= w + seq!['\n']);
    assert(w[0] == 'R');
    assert(w.last() == value@.last());
    lemma_stored_line_trim(w, t);
}

proof fn lemma_reload_off(t: Seq<char>)
    requires
        is_trim_of(R10_BLE_SETTINGS_RECORD_PREFIX@ + "off"@ + "\n"@, t),
    ensures
        parse_trimmed(encode_utf8(t)) == (R10BleSettingsPersistenceRecord {
            mode: R10BleSettingsMode::Off,
            explicit_user_change: true,
            reader_remote_confirmed: false,
        }),
{
    reveal_strlit("R10BLE_MODE=");
    reveal_strlit("off");
    reveal_strlit("R10BLE_MODE=off");
    assert(R10_BLE_SETTINGS_RECORD_PREFIX@ == "R10BLE_MODE="@);
    assert("R10BLE_MODE=off"@ =~= R10_BLE_SETTINGS_RECORD_PREFIX@ + "off"@);
    lemma_stored_text("off", "R10BLE_MODE=off", t);
}

proof fn lemma_reload_probe_only(t: Seq<char>)
    requires
        is_trim_of(R10_BLE_SETTINGS_RECORD_PREFIX@ + "probe_only"@ + "\n"@, t),
    ensures
        parse_trimmed(encode_utf8(t)) == (R10BleSettingsPersistenceRecord {
            mode: R10BleSettingsMode::ProbeOnly,
            explicit_user_change: true,
            reader_remote_confirmed: false,
        }),
{
    reveal_strlit("R10BLE_MODE=");
    reveal_strlit("probe_only");
    reveal_strlit("R10BLE_MODE=probe_only");
    reveal_strlit("off");
    reveal_strlit("R10BLE_MODE=off");
    assert(R10_BLE_SETTINGS_RECORD_PREFIX@ == "R10BLE_MODE="@);
    assert("R10BLE_MODE=probe_only"@ =~= R10_BLE_SETTINGS_RECORD_PREFIX@ + "probe_only"@);
    lemma_stored_text("probe_only", "R10BLE_MODE=probe_only", t);
    crate::prepared_cache::lemma_ascii_len("off");
    crate::prepared_cache::lemma_ascii_len("R10BLE_MODE=off");
    crate::prepared_cache::lemma_ascii_len("R10BLE_MODE=probe_only");
}

proof fn lemma_reload_confirmed(t: Seq<char>)
    requires
        is_trim_of(R10_BLE_SETTINGS_RECORD_PREFIX@ + "reader_remote_confirmed"@ + "\n"@, t),
    ensures
        parse_trimmed(encode_utf8(t)) == (R10BleSettingsPersistenceRecord {
            mode: R10BleSettingsMode::ReaderRemote,
            explicit_user_change: true,
            reader_remote_confirmed: true,
        }),
{
    reveal_strlit("R10BLE_MODE=");
    reveal_strlit("reader_remote_confirmed");
    reveal_strlit("R10BLE_MODE=reader_remote_confirmed");
    reveal_strlit("off");
    reveal_strlit("R10BLE_MODE=off");
    reveal_strlit("probe_only");
    reveal_strlit("R10BLE_MODE=probe_only");
    assert(R10_BLE_SETTINGS_RECORD_PREFIX@ == "R10BLE_MODE="@);
    assert("R10BLE_MODE=reader_remote_confirmed"@ =~= R10_BLE_SETTINGS_RECORD_PREFIX@ + "reader_remote_confirmed"@);
    lemma_stored_text("reader_remote_confirmed", "R10BLE_MODE=reader_remote_confirmed", t);
    crate::prepared_cache::lemma_ascii_len("off");
    crate::prepared_cache::lemma_ascii_len("R10BLE_MODE=off");
    crate::prepared_cache::lemma_ascii_len("probe_only");
    crate::prepared_cache::lemma_ascii_len("R10BLE_MODE=probe_only");
    crate::prepared_cache::lemma_ascii_len("R10BLE_MODE=reader_remote_confirmed");
}

/// A stored setting reads back: parsing the line that `write_line` stores
/// for a record gives the record's mode as an explicit choice, and
/// ReaderRemote only when it was confirmed (an unconfirmed one as Off).
pub proof fn lemma_persistence_roundtrip(rec: R10BleSettingsPersistenceRecord, t: Seq<char>)
    requires
        is_trim_of(R10_BLE_SETTINGS_RECORD_PREFIX@ + stable_value_spec(rec)@ + "\n"@, t),
    ensures
        parse_trimmed(encode_utf8(t)) == reloaded_spec(rec),
{
    match rec.mode {
        R10BleSettingsMode::Off => lemma_reload_off(t),
        R10BleSettingsMode::ProbeOnly => lemma_reload_probe_only(t),
        R10BleSettingsMode::ReaderRemote => if rec.reader_remote_confirmed {
            lemma_reload_confirmed(t)
        } else {
            lemma_reload_off(t)
        },
    }
}

impl R10BleSettingsPersistenceRecord {
    pub fn default_off() -> (r: Self)
        ensures
            r == default_off_spec(),
    {
        Self { mode: R10BleSettingsMode::Off, explicit_user_change: false, reader_remote_confirmed: false }
    }

    pub fn new(mode: R10BleSettingsMode, explicit_user_change: bool, reader_remote_confirmed: bool) -> (r: Self)
        ensures
            r == (R10BleSettingsPersistenceRecord { mode, explicit_user_change, reader_remote_confirmed }),
    {
        Self { mode, explicit_user_change, reader_remote_confirmed }
    }

    /// Reads a stored settings line.
    pub fn parse(input: &str) -> (r: Self)
        ensures
            exists|t: Seq<char>| is_trim_of(input@, t) && r == parse_trimmed(encode_utf8(t)),
    {
        let trimmed = str_trim(input);
        let r = if str_eq(trimmed, "off") || str_eq(trimmed, "R10BLE_MODE=off") {
            Self::new(R10BleSettingsMode::Off, true, false)
        } else if str_eq(trimmed, "probe_only") || str_eq(trimmed, "R10BLE_MODE=probe_only") {
            Self::new(R10BleSettingsMode::ProbeOnly, true, false)
        } else if str_eq(trimmed, "reader_remote_confirmed") || str_eq(
            trimmed,
            "R10BLE_MODE=reader_remote_confirmed",
        ) {
            Self::new(R10BleSettingsMode::ReaderRemote, true, true)
        } else {
            Self::default_off()
        };
        assert(r == parse_trimmed(encode_utf8(trimmed@)));
        r
    }

    pub fn stable_value(&self) -> (r: &'static str)
        ensures
            r == stable_value_spec(*self),
    {
        match (self.mode, self.reader_remote_confirmed) {
            (R10BleSettingsMode::Off, _) => "off",
            (R10BleSettingsMode::ProbeOnly, _) => "probe_only",
            (R10BleSettingsMode::ReaderRemote, true) => "reader_remote_confirmed",
            (R10BleSettingsMode::ReaderRemote, false) => "off",
        }
    }

    /// Appends the stored line: `R10BLE_MODE=<stable value>` and a newline.
    pub fn write_line(&self, out: &mut String) -> (r: Result<(), ()>)
        ensures
            r is Ok,
            final(out)@ == old(out)@ + R10_BLE_SETTINGS_RECORD_PREFIX@ + stable_value_spec(*self)@ + "\n"@,
    {
        string_push_str(out, R10_BLE_SETTINGS_RECORD_PREFIX);
        string_push_str(out, self.stable_value());
        string_push_str(out, "\n");
        Ok(())
    }
}

#[derive(Clone, Copy, Debug, PartialEq, Eq)]
pub struct R10BleSettingsEventRecord {
    pub event: &'static str,
    pub path: &'static str,
    pub action: &'static str,
    pub mode: &'static str,
    pub safety: &'static str,
    pub persisted: &'static str,
    pub reader: &'static str,
    pub status: &'static str,
}

pub open spec fn event_record_spec(
    action: R10BleSettingsAction,
    mode: R10BleSettingsMode,
    persisted: bool,
    status: R10BleSettingsStatus,
) -> R10BleSettingsEventRecord {
    R10BleSettingsEventRecord {
        event: "ble_settings",
        path: "settings_controls_r_ble",
        action: settings_action_label(action),
        mode: settings_mode_label(mode),
        safety: settings_safety_label(mode),
        persisted: if persisted {
            "yes"
        } else {
            "no"
        },
        reader: if mode == R10BleSettingsMode::ReaderRemote && status == R10BleSettingsStatus::Persisted {
            "reader_guarded"
        } else {
            "reader_off"
        },
        status: settings_status_value(status),
    }
}

pub open spec fn event_record_safe(r: R10BleSettingsEventRecord) -> bool {
    &&& crate::monitor_label::label_safe(r.event)
    &&& crate::monitor_label::label_safe(r.path)
    &&& crate::monitor_label::label_safe(r.action)
    &&& crate::monitor_label::label_safe(r.mode)
    &&& crate::monitor_label::label_safe(r.safety)
    &&& crate::monitor_label::label_safe(r.persisted)
    &&& crate::monitor_label::label_safe(r.reader)
    &&& crate::monitor_label::label_safe(r.status)
}

fn label_ok(label: &str) -> (r: bool)
    ensures
        r == crate::monitor_label::label_safe(label),
{
    crate::monitor_label::r10_ble_device_task_monitor_label_is_safe(label)
}

impl R10BleSettingsEventRecord {
    pub fn new(
        action: R10BleSettingsAction,
        mode: R10BleSettingsMode,
        persisted: bool,
        status: R10BleSettingsStatus,
    ) -> (r: Self)
        ensures
            r == event_record_spec(action, mode, persisted, status),
    {
        Self {
            event: "ble_settings",
            path: "settings_controls_r_ble",
            action: action.as_str(),
            mode: mode.as_str(),
            safety: mode.safety_label(),
            persisted: if persisted {
                "yes"
            } else {
                "no"
            },
            reader: if matches!(mode, R10BleSettingsMode::ReaderRemote) && matches!(
                status,
                R10BleSettingsStatus::Persisted
            ) {
                "reader_guarded"
            } else {
                "reader_off"
            },
            status: status.as_str(),
        }
    }

    pub fn is_monitor_safe(&self) -> (r: bool)
        ensures
            r == event_record_safe(*self),
    {
        label_ok(self.event) && label_ok(self.path) && label_ok(self.action) && label_ok(self.mode)
            && label_ok(self.safety) && label_ok(self.persisted) && label_ok(self.reader)
            && label_ok(self.status)
    }
}

#[derive(Clone, Copy, Debug, PartialEq, Eq)]
pub struct R10BleSettingsTransition {
    pub mode: R10BleSettingsMode,
    pub pending_confirmation: Option<R10BleSettingsMode>,
    pub should_persist: bool,
    pub persistence: R10BleSettingsPersistenceRecord,
    pub record: R10BleSettingsEventRecord,
}

impl R10BleSettingsTransition {
    pub fn deploy_mode(&self) -> (r: R10BleDeviceTaskX4DeployMode)
        ensures
            r == deploy_mode_for(self.mode),
    {
        self.mode.to_deploy_mode()
    }

    pub fn guard_mode(&self) -> (r: R10BleReaderRemoteGuardMode)
        ensures
            r == guard_mode_of(self.mode),
    {
        self.mode.to_guard_mode()
    }

    /// The Reader guard this transition asks for: ReaderRemote is unlocked for
    /// the Reader only when it was confirmed, and locked otherwise.
    pub fn reader_guard(&self) -> (r: R10BleReaderRemoteGuard)
        ensures
            r.spec_mode() == guard_mode_of(self.mode),
            r.spec_explicit() == (self.mode == R10BleSettingsMode::ReaderRemote && self.persistence.reader_remote_confirmed),
            r.spec_policy().enabled == (self.mode == R10BleSettingsMode::ReaderRemote && self.persistence.reader_remote_confirmed),
            self.mode == R10BleSettingsMode::ReaderRemote && self.persistence.reader_remote_confirmed ==> {
                &&& r.spec_policy().screen == R10RemoteScreen::Reader
                &&& r.spec_policy().debounce.window() == 3500
                &&& r.spec_policy().debounce.last_accept() is None
            },
    {
        match (self.mode, self.persistence.reader_remote_confirmed) {
            (R10BleSettingsMode::Off, _) => R10BleReaderRemoteGuard::disabled(),
            (R10BleSettingsMode::ProbeOnly, _) => R10BleReaderRemoteGuard::probe_only(),
            (R10BleSettingsMode::ReaderRemote, true) => {
                R10BleReaderRemoteGuard::reader_remote_unlocked_for_reader(3500)
            },
            (R10BleSettingsMode::ReaderRemote, false) => R10BleReaderRemoteGuard::reader_remote_locked(),
        }
    }
}

#[derive(Clone, Copy, Debug, PartialEq, Eq, Structural)]
pub struct R10BleSettingsController {
    mode: R10BleSettingsMode,
    pending_confirmation: Option<R10BleSettingsMode>,
    explicit_user_change: bool,
}

/// The abstract state of the settings controller.
pub struct SettingsState {
    pub mode: R10BleSettingsMode,
    pub pending: Option<R10BleSettingsMode>,
    pub explicit: bool,
}

/// The controller state after an action.
pub open spec fn settings_next(s: SettingsState, a: R10BleSettingsAction) -> SettingsState {
    match a {
        R10BleSettingsAction::Open => s,
        R10BleSettingsAction::SelectOff | R10BleSettingsAction::QuickDisable => SettingsState {
            mode: R10BleSettingsMode::Off,
            pending: None,
            explicit: true,
        },
        R10BleSettingsAction::SelectProbeOnly => SettingsState {
            mode: R10BleSettingsMode::ProbeOnly,
            pending: None,
            explicit: true,
        },
        R10BleSettingsAction::SelectReaderRemote => SettingsState {
            pending: Some(R10BleSettingsMode::ReaderRemote),
            ..s
        },
        R10BleSettingsAction::ConfirmReaderRemote => if s.pending == Some(R10BleSettingsMode::ReaderRemote) {
            SettingsState { mode: R10BleSettingsMode::ReaderRemote, pending: None, explicit: true }
        } else {
            s
        },
        R10BleSettingsAction::CancelReaderRemote => SettingsState { pending: None, ..s },
    }
}

/// Whether the action persists, with its status and confirmation flag.
pub open spec fn settings_outcome(s: SettingsState, a: R10BleSettingsAction) -> (bool, R10BleSettingsStatus, bool) {
    match a {
        R10BleSettingsAction::Open => (false, R10BleSettingsStatus::Viewing, false),
        R10BleSettingsAction::SelectOff => (true, R10BleSettingsStatus::Persisted, false),
        R10BleSettingsAction::SelectProbeOnly => (true, R10BleSettingsStatus::Persisted, false),
        R10BleSettingsAction::SelectReaderRemote => (false, R10BleSettingsStatus::ConfirmationRequired, false),
        R10BleSettingsAction::ConfirmReaderRemote => if s.pending == Some(R10BleSettingsMode::ReaderRemote) {
            (true, R10BleSettingsStatus::Persisted, true)
        } else {
            (false, R10BleSettingsStatus::Viewing, false)
        },
        R10BleSettingsAction::CancelReaderRemote => (false, R10BleSettingsStatus::Cancelled, false),
        R10BleSettingsAction::QuickDisable => (true, R10BleSettingsStatus::Disabled, false),
    }
}

/// The transition an action reports.
pub open spec fn transition_spec(s: SettingsState, a: R10BleSettingsAction) -> R10BleSettingsTransition {
    let n = settings_next(s, a);
    let (persist, status, confirmed) = settings_outcome(s, a);
    R10BleSettingsTransition {
        mode: n.mode,
        pending_confirmation: n.pending,
        should_persist: persist,
        persistence: R10BleSettingsPersistenceRecord {
            mode: n.mode,
            explicit_user_change: n.explicit,
            reader_remote_confirmed: confirmed,
        },
        record: event_record_spec(a, n.mode, persist, status),
    }
}

/// A persisted choice survives a restart: when an action persists, the
/// stored record reads back as that action's mode, as an explicit choice,
/// and a controller loaded from it holds that mode with nothing pending.
pub proof fn lemma_persisted_mode_survives(s: SettingsState, a: R10BleSettingsAction)
    requires
        transition_spec(s, a).should_persist,
    ensures
        ({
            let t = transition_spec(s, a);
            let back = reloaded_spec(t.persistence);
            &&& back.mode == t.mode
            &&& back.explicit_user_change
            &&& (if back.mode == R10BleSettingsMode::ReaderRemote && !back.reader_remote_confirmed {
                R10BleSettingsMode::Off
            } else {
                back.mode
            }) == t.mode
        }),
{
}

impl R10BleSettingsController {
    pub closed spec fn state(&self) -> SettingsState {
        SettingsState { mode: self.mode, pending: self.pending_confirmation, explicit: self.explicit_user_change }
    }

    pub fn new() -> (r: Self)
        ensures
            r.state() == (SettingsState { mode: R10BleSettingsMode::Off, pending: None, explicit: false }),
    {
        Self { mode: R10BleSettingsMode::Off, pending_confirmation: None, explicit_user_change: false }
    }

    /// Loads a persisted record; an unconfirmed ReaderRemote loads as Off.
    pub fn from_persistence(record: R10BleSettingsPersistenceRecord) -> (r: Self)
        ensures
            r.state() == (SettingsState {
                mode: if record.mode == R10BleSettingsMode::ReaderRemote && !record.reader_remote_confirmed {
                    R10BleSettingsMode::Off
                } else {
                    record.mode
                },
                pending: None,
                explicit: record.explicit_user_change,
            }),
    {
        let mode = match (record.mode, record.reader_remote_confirmed) {
            (R10BleSettingsMode::ReaderRemote, false) => R10BleSettingsMode::Off,
            _ => record.mode,
        };
        Self { mode, pending_confirmation: None, explicit_user_change: record.explicit_user_change }
    }

    pub fn mode(&self) -> (r: R10BleSettingsMode)
        ensures
            r == self.state().mode,
    {
        self.mode
    }

    pub fn explicit_user_change(&self) -> (r: bool)
        ensures
            r == self.state().explicit,
    {
        self.explicit_user_change
    }

    pub fn pending_confirmation(&self) -> (r: Option<R10BleSettingsMode>)
        ensures
            r == self.state().pending,
    {
        self.pending_confirmation
    }

    pub fn screen(&self) -> (r: R10BleSettingsScreen)
        ensures
            screen_spec(self.state().mode, self.state().pending, r),
    {
        R10BleSettingsScreen::new(self.mode, self.pending_confirmation)
    }

    /// Applies a user action. Selecting Off or ProbeOnly and quick disable
    /// persist at once; selecting ReaderRemote only asks for confirmation, and
    /// only confirming a pending ReaderRemote switches to it and persists it.
    pub fn apply(&mut self, action: R10BleSettingsAction) -> (r: R10BleSettingsTransition)
        ensures
            final(self).state() == settings_next(old(self).state(), action),
            r == transition_spec(old(self).state(), action),
    {
        match action {
            R10BleSettingsAction::Open => self.transition(
                action,
                self.mode,
                self.pending_confirmation,
                false,
                R10BleSettingsStatus::Viewing,
                false,
            ),
            R10BleSettingsAction::SelectOff => {
                self.mode = R10BleSettingsMode::Off;
                self.pending_confirmation = None;
                self.explicit_user_change = true;
                self.transition(action, self.mode, None, true, R10BleSettingsStatus::Persisted, false)
            },
            R10BleSettingsAction::SelectProbeOnly => {
                self.mode = R10BleSettingsMode::ProbeOnly;
                self.pending_confirmation = None;
                self.explicit_user_change = true;
                self.transition(action, self.mode, None, true, R10BleSettingsStatus::Persisted, false)
            },
            R10BleSettingsAction::SelectReaderRemote => {
                self.pending_confirmation = Some(R10BleSettingsMode::ReaderRemote);
                self.transition(
                    action,
                    self.mode,
                    self.pending_confirmation,
                    false,
                    R10BleSettingsStatus::ConfirmationRequired,
                    false,
                )
            },
            R10BleSettingsAction::ConfirmReaderRemote => {
                let pending_reader = match self.pending_confirmation {
                    Some(R10BleSettingsMode::ReaderRemote) => true,
                    _ => false,
                };
                if pending_reader {
                    self.mode = R10BleSettingsMode::ReaderRemote;
                    self.pending_confirmation = None;
                    self.explicit_user_change = true;
                    self.transition(action, self.mode, None, true, R10BleSettingsStatus::Persisted, true)
                } else {
                    self.transition(
                        action,
                        self.mode,
                        self.pending_confirmation,
                        false,
                        R10BleSettingsStatus::Viewing,
                        false,
                    )
                }
            },
            R10BleSettingsAction::CancelReaderRemote => {
                self.pending_confirmation = None;
                self.transition(action, self.mode, None, false, R10BleSettingsStatus::Cancelled, false)
            },
            R10BleSettingsAction::QuickDisable => {
                self.mode = R10BleSettingsMode::Off;
                self.pending_confirmation = None;
                self.explicit_user_change = true;
                self.transition(action, self.mode, None, true, R10BleSettingsStatus::Disabled, false)
            },
        }
    }

    fn transition(
        &self,
        action: R10BleSettingsAction,
        mode: R10BleSettingsMode,
        pending_confirmation: Option<R10BleSettingsMode>,
        should_persist: bool,
        status: R10BleSettingsStatus,
        reader_remote_confirmed: bool,
    ) -> (r: R10BleSettingsTransition)
        ensures
            r == (R10BleSettingsTransition {
                mode,
                pending_confirmation,
                should_persist,
                persistence: R10BleSettingsPersistenceRecord {
                    mode,
                    explicit_user_change: self.state().explicit,
                    reader_remote_confirmed,
                },
                record: event_record_spec(action, mode, should_persist, status),
            }),
    {
        R10BleSettingsTransition {
            mode,
            pending_confirmation,
            should_persist,
            persistence: R10BleSettingsPersistenceRecord::new(mode, self.explicit_user_change, reader_remote_confirmed),
            record: R10BleSettingsEventRecord::new(action, mode, should_persist, status),
        }
    }
}

impl Default for R10BleSettingsController {
    fn default() -> (r: Self)
        ensures
            r.state() == (SettingsState { mode: R10BleSettingsMode::Off, pending: None, explicit: false }),
    {
        Self::new()
    }
}

/// ReaderRemote is reached only through confirmation: an action that
/// switches the controller into ReaderRemote from another mode is a confirm
/// of a pending ReaderRemote selection, and a persisted ReaderRemote record
/// from the controller is always a confirmed one.
pub proof fn lemma_reader_remote_needs_confirmation(s: SettingsState, a: R10BleSettingsAction)
    ensures
        s.mode != R10BleSettingsMode::ReaderRemote && settings_next(s, a).mode == R10BleSettingsMode::ReaderRemote
            ==> a == R10BleSettingsAction::ConfirmReaderRemote && s.pending == Some(R10BleSettingsMode::ReaderRemote),
        ({
            let t = transition_spec(s, a);
            t.should_persist && t.mode == R10BleSettingsMode::ReaderRemote ==> t.persistence.reader_remote_confirmed
        }),
{
}

/// The mode changes only when the change is persisted: an action that
/// reports nothing to persist (viewing, selecting Reader Remote before its
/// confirmation, cancelling it, or a confirm with nothing pending) leaves
/// the mode and the explicit-choice flag as they were.
pub proof fn lemma_mode_changes_only_when_persisted(s: SettingsState, a: R10BleSettingsAction)
    ensures
        !transition_spec(s, a).should_persist ==> {
            &&& settings_next(s, a).mode == s.mode
            &&& settings_next(s, a).explicit == s.explicit
            &&& transition_spec(s, a).mode == s.mode
        },
{
}

/// Cancelling a pending Reader Remote selection only drops that selection:
/// the mode the user had stays, nothing is pending, nothing is persisted,
/// and the step reports itself as cancelled.
pub proof fn lemma_cancel_keeps_mode(s: SettingsState)
    ensures
        settings_next(s, R10BleSettingsAction::CancelReaderRemote).mode == s.mode,
        settings_next(s, R10BleSettingsAction::CancelReaderRemote).explicit == s.explicit,
        settings_next(s, R10BleSettingsAction::CancelReaderRemote).pending is None,
        !transition_spec(s, R10BleSettingsAction::CancelReaderRemote).should_persist,
        settings_outcome(s, R10BleSettingsAction::CancelReaderRemote).1 == R10BleSettingsStatus::Cancelled,
{
}

/// Selecting Reader Remote and then cancelling leaves the controller's
/// mode and choice flag as they were before the selection, with nothing
/// pending; selecting and then confirming switches it to Reader Remote.
pub proof fn lemma_select_then_cancel_or_confirm(s: SettingsState)
    ensures
        ({
            let sel = settings_next(s, R10BleSettingsAction::SelectReaderRemote);
            let cancelled = settings_next(sel, R10BleSettingsAction::CancelReaderRemote);
            let confirmed = settings_next(sel, R10BleSettingsAction::ConfirmReaderRemote);
            &&& sel.mode == s.mode
            &&& cancelled == (SettingsState { pending: None, ..s })
            &&& confirmed.mode == R10BleSettingsMode::ReaderRemote
            &&& confirmed.pending is None
            &&& transition_spec(sel, R10BleSettingsAction::ConfirmReaderRemote).should_persist
        }),
{
}

/// Turning the remote off, from the menu or by the quick disable, always
/// ends in Off with nothing pending, and is persisted.
pub proof fn lemma_off_always_off(s: SettingsState)
    ensures
        settings_next(s, R10BleSettingsAction::SelectOff).mode == R10BleSettingsMode::Off,
        settings_next(s, R10BleSettingsAction::QuickDisable).mode == R10BleSettingsMode::Off,
        settings_next(s, R10BleSettingsAction::SelectOff).pending is None,
        settings_next(s, R10BleSettingsAction::QuickDisable).pending is None,
        transition_spec(s, R10BleSettingsAction::SelectOff).should_persist,
        transition_spec(s, R10BleSettingsAction::QuickDisable).should_persist,
{
}

} // verus!
