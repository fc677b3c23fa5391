//! Guarded ReaderRemote navigation. Disabled is the default, ProbeOnly only
//! logs, and ReaderRemote must be explicitly unlocked; then only the Reader
//! screen, the live notify handle and a debounced valid motion packet turn a
//! page.
use vstd::prelude::*;
use crate::r10_ble_device_task_x4::R10BleDeviceTaskX4DeployMode;
use crate::r10_ble_transport::R10_BLE_LIVE_NOTIFY_VALUE_HANDLE;
use crate::r10_input_bridge::{R10InputInjection, injection_for};
use crate::r10_protocol::{R10RemotePacket, R10RemotePacketKind, classify_spec};
use crate::r10_remote_policy::{R10RemoteAction, R10RemoteDebounce, R10RemotePolicy, R10RemoteScreen};
use crate::reader_input::RustmixReaderAction;

verus! {

#[derive(Clone, Copy, Debug, PartialEq, Eq, Structural)]
pub enum R10BleReaderRemoteGuardMode {
    Disabled,
    ProbeOnly,
    ReaderRemote,
}

pub open spec fn guard_mode_label(m: R10BleReaderRemoteGuardMode) -> &'static str {
    match m {
        R10BleReaderRemoteGuardMode::Disabled => "disabled",
        R10BleReaderRemoteGuardMode::ProbeOnly => "probe_only",
        R10BleReaderRemoteGuardMode::ReaderRemote => "reader_remote",
    }
}

/// The guard mode for a deploy mode.
pub open spec fn guard_mode_for(d: R10BleDeviceTaskX4DeployMode) -> R10BleReaderRemoteGuardMode {
    match d {
        R10BleDeviceTaskX4DeployMode::Disabled => R10BleReaderRemoteGuardMode::Disabled,
        R10BleDeviceTaskX4DeployMode::ProbeOnly => R10BleReaderRemoteGuardMode::ProbeOnly,
        R10BleDeviceTaskX4DeployMode::ReaderRemote => R10BleReaderRemoteGuardMode::ReaderRemote,
    }
}

impl R10BleReaderRemoteGuardMode {
    pub fn as_str(&self) -> (r: &'static str)
        ensures
            r == guard_mode_label(*self),
    {
        match self {
            Self::Disabled => "disabled",
            Self::ProbeOnly => "probe_only",
            Self::ReaderRemote => "reader_remote",
        }
    }

    pub fn allows_reader_remote(&self) -> (r: bool)
        ensures
            r == (*self == R10BleReaderRemoteGuardMode::ReaderRemote),
    {
        matches!(self, Self::ReaderRemote)
    }

}

impl From<R10BleDeviceTaskX4DeployMode> for R10BleReaderRemoteGuardMode {
    fn from(value: R10BleDeviceTaskX4DeployMode) -> (r: Self) {
        match value {
            R10BleDeviceTaskX4DeployMode::Disabled => Self::Disabled,
            R10BleDeviceTaskX4DeployMode::ProbeOnly => Self::ProbeOnly,
            R10BleDeviceTaskX4DeployMode::ReaderRemote => Self::ReaderRemote,
        }
    }
}

impl vstd::std_specs::convert::FromSpecImpl<R10BleDeviceTaskX4DeployMode> for R10BleReaderRemoteGuardMode {
    open spec fn obeys_from_spec() -> bool {
        true
    }

    open spec fn from_spec(v: R10BleDeviceTaskX4DeployMode) -> Self {
        guard_mode_for(v)
    }
}

#[derive(Clone, Copy, Debug, PartialEq, Eq, Structural)]
pub enum R10BleReaderRemoteGuardReason {
    Disabled,
    ProbeOnlyLogOnly,
    ReaderRemoteLocked,
    NotReaderScreen,
    WrongHandle,
    BadPacket,
    NoMotion,
    Debounced,
    Accepted,
}

pub open spec fn reason_label(r: R10BleReaderRemoteGuardReason) -> &'static str {
    match r {
        R10BleReaderRemoteGuardReason::Disabled => "disabled",
        R10BleReaderRemoteGuardReason::ProbeOnlyLogOnly => "probe_log_only",
        R10BleReaderRemoteGuardReason::ReaderRemoteLocked => "reader_locked",
        R10BleReaderRemoteGuardReason::NotReaderScreen => "not_reader",
        R10BleReaderRemoteGuardReason::WrongHandle => "wrong_handle",
        R10BleReaderRemoteGuardReason::BadPacket => "bad_packet",
        R10BleReaderRemoteGuardReason::NoMotion => "no_motion",
        R10BleReaderRemoteGuardReason::Debounced => "debounced",
        R10BleReaderRemoteGuardReason::Accepted => "accepted",
    }
}

impl R10BleReaderRemoteGuardReason {
    pub fn as_str(&self) -> (r: &'static str)
        ensures
            r == reason_label(*self),
    {
        match self {
            Self::Disabled => "disabled",
            Self::ProbeOnlyLogOnly => "probe_log_only",
            Self::ReaderRemoteLocked => "reader_locked",
            Self::NotReaderScreen => "not_reader",
            Self::WrongHandle => "wrong_handle",
            Self::BadPacket => "bad_packet",
            Self::NoMotion => "no_motion",
            Self::Debounced => "debounced",
            Self::Accepted => "accepted",
        }
    }

    pub fn is_accept(&self) -> (r: bool)
        ensures
            r == (*self == R10BleReaderRemoteGuardReason::Accepted),
    {
        matches!(self, Self::Accepted)
    }
}

#[derive(Clone, Copy, Debug, PartialEq, Eq)]
pub struct R10BleReaderRemoteGuardRecord {
    pub event: &'static str,
    pub mode: &'static str,
    pub screen: &'static str,
    pub reason: &'static str,
    pub reader: &'static str,
    pub status: &'static str,
}

pub open spec fn screen_label(s: R10RemoteScreen) -> &'static str {
    match s {
        R10RemoteScreen::Reader => "reader",
        R10RemoteScreen::Home => "home",
        R10RemoteScreen::Library => "library",
        R10RemoteScreen::Settings => "settings",
        R10RemoteScreen::WifiTransfer => "wifi",
        R10RemoteScreen::Sleep => "sleep",
        R10RemoteScreen::Confirm => "confirm",
        R10RemoteScreen::Unknown => "unknown",
    }
}

pub open spec fn reader_label(r: R10BleReaderRemoteGuardReason) -> &'static str {
    if r == R10BleReaderRemoteGuardReason::Accepted {
        "reader_on"
    } else {
        "reader_off"
    }
}

pub open spec fn status_label(r: R10BleReaderRemoteGuardReason) -> &'static str {
    match r {
        R10BleReaderRemoteGuardReason::Accepted => "ok",
        R10BleReaderRemoteGuardReason::Debounced => "ignored",
        R10BleReaderRemoteGuardReason::NoMotion => "ignored",
        _ => "blocked",
    }
}

pub open spec fn guard_record(
    mode: R10BleReaderRemoteGuardMode,
    screen: R10RemoteScreen,
    reason: R10BleReaderRemoteGuardReason,
) -> R10BleReaderRemoteGuardRecord {
    R10BleReaderRemoteGuardRecord {
        event: "ble_reader_guard",
        mode: guard_mode_label(mode),
        screen: screen_label(screen),
        reason: reason_label(reason),
        reader: reader_label(reason),
        status: status_label(reason),
    }
}

pub open spec fn guard_record_safe(r: R10BleReaderRemoteGuardRecord) -> bool {
    &&& crate::monitor_label::label_safe(r.event)
    &&& crate::monitor_label::label_safe(r.mode)
    &&& crate::monitor_label::label_safe(r.screen)
    &&& crate::monitor_label::label_safe(r.reason)
    &&& crate::monitor_label::label_safe(r.reader)
    &&& crate::monitor_label::label_safe(r.status)
}

impl R10BleReaderRemoteGuardRecord {
    pub fn new(
        mode: R10BleReaderRemoteGuardMode,
        screen: R10RemoteScreen,
        reason: R10BleReaderRemoteGuardReason,
    ) -> (r: Self)
        ensures
            r == guard_record(mode, screen, reason),
    {
        Self {
            event: "ble_reader_guard",
            mode: mode.as_str(),
            screen: reader_remote_screen_label(screen),
            reason: reason.as_str(),
            reader: reader_remote_reader_label(reason),
            status: reader_remote_status_label(reason),
        }
    }

    pub fn is_monitor_safe(&self) -> (r: bool)
        ensures
            r == guard_record_safe(*self),
    {
        use_safe(self.event) && use_safe(self.mode) && use_safe(self.screen) && use_safe(self.reason)
            && use_safe(self.reader) && use_safe(self.status)
    }
}

fn use_safe(label: &str) -> (r: bool)
    ensures
        r == crate::monitor_label::label_safe(label),
{
    crate::monitor_label::r10_ble_device_task_monitor_label_is_safe(label)
}

pub fn reader_remote_screen_label(screen: R10RemoteScreen) -> (r: &'static str)
    ensures
        r == screen_label(screen),
{
    match screen {
        R10RemoteScreen::Reader => "reader",
        R10RemoteScreen::Home => "home",
        R10RemoteScreen::Library => "library",
        R10RemoteScreen::Settings => "settings",
        R10RemoteScreen::WifiTransfer => "wifi",
        R10RemoteScreen::Sleep => "sleep",
        R10RemoteScreen::Confirm => "confirm",
        R10RemoteScreen::Unknown => "unknown",
    }
}

pub fn reader_remote_reader_label(reason: R10BleReaderRemoteGuardReason) -> (r: &'static str)
    ensures
        r == reader_label(reason),
{
    match reason {
        R10BleReaderRemoteGuardReason::Accepted => "reader_on",
        _ => "reader_off",
    }
}

pub fn reader_remote_status_label(reason: R10BleReaderRemoteGuardReason) -> (r: &'static str)
    ensures
        r == status_label(reason),
{
    match reason {
        R10BleReaderRemoteGuardReason::Accepted => "ok",
        R10BleReaderRemoteGuardReason::Debounced => "ignored",
        R10BleReaderRemoteGuardReason::NoMotion => "ignored",
        _ => "blocked",
    }
}

#[derive(Clone, Copy, Debug, PartialEq, Eq)]
pub struct R10BleReaderRemoteGuardDecision {
    pub action: R10RemoteAction,
    pub injection: R10InputInjection,
    pub reason: R10BleReaderRemoteGuardReason,
    pub record: R10BleReaderRemoteGuardRecord,
}

pub open spec fn decision_spec(
    mode: R10BleReaderRemoteGuardMode,
    screen: R10RemoteScreen,
    action: R10RemoteAction,
    reason: R10BleReaderRemoteGuardReason,
) -> R10BleReaderRemoteGuardDecision {
    R10BleReaderRemoteGuardDecision {
        action,
        injection: injection_for(action),
        reason,
        record: guard_record(mode, screen, reason),
    }
}

/// The decision queues a key press: accepted, with a press to inject.
pub open spec fn enqueues(d: R10BleReaderRemoteGuardDecision) -> bool {
    d.reason == R10BleReaderRemoteGuardReason::Accepted && d.injection is Press
}

impl R10BleReaderRemoteGuardDecision {
    pub fn new(
        mode: R10BleReaderRemoteGuardMode,
        screen: R10RemoteScreen,
        action: R10RemoteAction,
        reason: R10BleReaderRemoteGuardReason,
    ) -> (r: Self)
        ensures
            r == decision_spec(mode, screen, action, reason),
    {
        Self {
            action,
            injection: R10InputInjection::from_remote_action(action),
            reason,
            record: R10BleReaderRemoteGuardRecord::new(mode, screen, reason),
        }
    }

    pub fn accepted(&self) -> (r: bool)
        ensures
            r == (self.reason == R10BleReaderRemoteGuardReason::Accepted),
    {
        self.reason.is_accept()
    }

    pub fn should_enqueue(&self) -> (r: bool)
        ensures
            r == enqueues(*self),
    {
        self.accepted() && matches!(self.injection, R10InputInjection::Press(_))
    }

    pub fn is_monitor_safe(&self) -> (r: bool)
        ensures
            r == guard_record_safe(self.record),
    {
        self.record.is_monitor_safe()
    }
}

#[derive(Clone, Copy, Debug, PartialEq, Eq)]
pub struct R10BleReaderRemoteGuard {
    mode: R10BleReaderRemoteGuardMode,
    explicit_reader_remote: bool,
    policy: R10RemotePolicy,
}

/// The checks before the debounce, in order; `None` when all pass.
pub open spec fn pre_debounce_block(
    mode: R10BleReaderRemoteGuardMode,
    explicit: bool,
    screen: R10RemoteScreen,
    handle: u16,
    payload: Seq<u8>,
) -> Option<R10BleReaderRemoteGuardReason> {
    if mode == R10BleReaderRemoteGuardMode::Disabled {
        Some(R10BleReaderRemoteGuardReason::Disabled)
    } else if mode == R10BleReaderRemoteGuardMode::ProbeOnly {
        Some(R10BleReaderRemoteGuardReason::ProbeOnlyLogOnly)
    } else if !explicit {
        Some(R10BleReaderRemoteGuardReason::ReaderRemoteLocked)
    } else if screen != R10RemoteScreen::Reader {
        Some(R10BleReaderRemoteGuardReason::NotReaderScreen)
    } else if handle != R10_BLE_LIVE_NOTIFY_VALUE_HANDLE {
        Some(R10BleReaderRemoteGuardReason::WrongHandle)
    } else if classify_spec(payload) == R10RemotePacketKind::RemoteMotion {
        None
    } else if classify_spec(payload) == R10RemotePacketKind::RemoteNoEvent {
        Some(R10BleReaderRemoteGuardReason::NoMotion)
    } else {
        Some(R10BleReaderRemoteGuardReason::BadPacket)
    }
}

impl R10BleReaderRemoteGuard {
    pub closed spec fn spec_mode(&self) -> R10BleReaderRemoteGuardMode {
        self.mode
    }

    pub closed spec fn spec_explicit(&self) -> bool {
        self.explicit_reader_remote
    }

    pub closed spec fn spec_policy(&self) -> R10RemotePolicy {
        self.policy
    }

    /// What `handle_notify` decides.
    pub open spec fn decision_for(&self, screen: R10RemoteScreen, handle: u16, payload: Seq<u8>, now_ms: u64) -> R10BleReaderRemoteGuardDecision {
        match pre_debounce_block(self.spec_mode(), self.spec_explicit(), screen, handle, payload) {
            Some(reason) => decision_spec(self.spec_mode(), screen, R10RemoteAction::NoAction, reason),
            None => if self.spec_policy().debounce.accepts(now_ms) {
                decision_spec(
                    self.spec_mode(),
                    screen,
                    R10RemoteAction::Reader(RustmixReaderAction::NextPage),
                    R10BleReaderRemoteGuardReason::Accepted,
                )
            } else {
                decision_spec(
                    self.spec_mode(),
                    screen,
                    R10RemoteAction::NoAction,
                    R10BleReaderRemoteGuardReason::Debounced,
                )
            },
        }
    }

    pub fn disabled() -> (r: Self)
        ensures
            r.spec_mode() == R10BleReaderRemoteGuardMode::Disabled,
            !r.spec_explicit(),
            !r.spec_policy().enabled,
            r.spec_policy().screen == R10RemoteScreen::Unknown,
            r.spec_policy().debounce.last_accept() is None,
    {
        Self {
            mode: R10BleReaderRemoteGuardMode::Disabled,
            explicit_reader_remote: false,
            policy: R10RemotePolicy::disabled(),
        }
    }

    pub fn probe_only() -> (r: Self)
        ensures
            r.spec_mode() == R10BleReaderRemoteGuardMode::ProbeOnly,
            !r.spec_explicit(),
            !r.spec_policy().enabled,
            r.spec_policy().screen == R10RemoteScreen::Unknown,
            r.spec_policy().debounce.last_accept() is None,
    {
        Self {
            mode: R10BleReaderRemoteGuardMode::ProbeOnly,
            explicit_reader_remote: false,
            policy: R10RemotePolicy::disabled(),
        }
    }

    /// ReaderRemote, but locked until explicitly unlocked.
    pub fn reader_remote_locked() -> (r: Self)
        ensures
            r.spec_mode() == R10BleReaderRemoteGuardMode::ReaderRemote,
            !r.spec_explicit(),
            !r.spec_policy().enabled,
            r.spec_policy().screen == R10RemoteScreen::Unknown,
            r.spec_policy().debounce.last_accept() is None,
            r.spec_policy().debounce.window() == 3500,
    {
        Self {
            mode: R10BleReaderRemoteGuardMode::ReaderRemote,
            explicit_reader_remote: false,
            policy: R10RemotePolicy {
                enabled: false,
                screen: R10RemoteScreen::Unknown,
                debounce: R10RemoteDebounce::new(3500),
            },
        }
    }

    pub fn reader_remote_unlocked_for_reader(debounce_ms: u64) -> (r: Self)
        ensures
            r.spec_mode() == R10BleReaderRemoteGuardMode::ReaderRemote,
            r.spec_explicit(),
            r.spec_policy().enabled,
            r.spec_policy().screen == R10RemoteScreen::Reader,
            r.spec_policy().debounce.last_accept() is None,
            r.spec_policy().debounce.window() == debounce_ms,
    {
        Self {
            mode: R10BleReaderRemoteGuardMode::ReaderRemote,
            explicit_reader_remote: true,
            policy: R10RemotePolicy::enabled_for_reader(debounce_ms),
        }
    }

    /// The guard for a deploy mode; ReaderRemote starts locked.
    pub fn from_deploy_mode(mode: R10BleDeviceTaskX4DeployMode) -> (r: Self)
        ensures
            r.spec_mode() == guard_mode_for(mode),
            !r.spec_explicit(),
            !r.spec_policy().enabled,
            r.spec_policy().debounce.last_accept() is None,
    {
        match mode {
            R10BleDeviceTaskX4DeployMode::Disabled => Self::disabled(),
            R10BleDeviceTaskX4DeployMode::ProbeOnly => Self::probe_only(),
            R10BleDeviceTaskX4DeployMode::ReaderRemote => Self::reader_remote_locked(),
        }
    }

    pub fn mode(&self) -> (r: R10BleReaderRemoteGuardMode)
        ensures
            r == self.spec_mode(),
    {
        self.mode
    }

    pub fn explicit_reader_remote(&self) -> (r: bool)
        ensures
            r == self.spec_explicit(),
    {
        self.explicit_reader_remote
    }

    pub fn screen(&self) -> (r: R10RemoteScreen)
        ensures
            r == self.spec_policy().screen,
    {
        self.policy.screen
    }

    pub fn set_screen(&mut self, screen: R10RemoteScreen)
        ensures
            final(self).spec_mode() == old(self).spec_mode(),
            final(self).spec_explicit() == old(self).spec_explicit(),
            final(self).spec_policy() == (R10RemotePolicy { screen, ..old(self).spec_policy() }),
    {
        self.policy.screen = screen;
    }

    /// Unlocks ReaderRemote on the Reader screen with a fresh debounce.
    pub fn unlock_reader_remote_for_reader(&mut self, debounce_ms: u64)
        ensures
            final(self).spec_mode() == R10BleReaderRemoteGuardMode::ReaderRemote,
            final(self).spec_explicit(),
            final(self).spec_policy().enabled,
            final(self).spec_policy().screen == R10RemoteScreen::Reader,
            final(self).spec_policy().debounce.last_accept() is None,
            final(self).spec_policy().debounce.window() == debounce_ms,
    {
        self.mode = R10BleReaderRemoteGuardMode::ReaderRemote;
        self.explicit_reader_remote = true;
        self.policy = R10RemotePolicy::enabled_for_reader(debounce_ms);
    }

    /// Locks ReaderRemote again and forgets the debounce history.
    pub fn lock_reader_remote(&mut self)
        ensures
            final(self).spec_mode() == old(self).spec_mode(),
            !final(self).spec_explicit(),
            !final(self).spec_policy().enabled,
            final(self).spec_policy().screen == old(self).spec_policy().screen,
            final(self).spec_policy().debounce.last_accept() is None,
            final(self).spec_policy().debounce.window() == old(self).spec_policy().debounce.window(),
    {
        self.explicit_reader_remote = false;
        self.policy.enabled = false;
        self.policy.debounce.reset();
    }

    /// Decides what a notify on `screen` does: the mode, the explicit unlock,
    /// the screen, the handle and the packet are checked in that order, and
    /// a motion packet that passes them all goes through the debounce.
    pub fn handle_notify(
        &mut self,
        screen: R10RemoteScreen,
        handle: u16,
        payload: &[u8],
        now_ms: u64,
    ) -> (r: R10BleReaderRemoteGuardDecision)
        ensures
            r == old(self).decision_for(screen, handle, payload@, now_ms),
            final(self).spec_mode() == old(self).spec_mode(),
            final(self).spec_explicit() == old(self).spec_explicit(),
            final(self).spec_policy().screen == screen,
            final(self).spec_policy().debounce.window() == old(self).spec_policy().debounce.window(),
            pre_debounce_block(old(self).spec_mode(), old(self).spec_explicit(), screen, handle, payload@) is Some ==> {
                &&& final(self).spec_policy().enabled == old(self).spec_policy().enabled
                &&& final(self).spec_policy().debounce.last_accept() == old(self).spec_policy().debounce.last_accept()
            },
            pre_debounce_block(old(self).spec_mode(), old(self).spec_explicit(), screen, handle, payload@) is None ==> {
                &&& final(self).spec_policy().enabled
                &&& final(self).spec_policy().debounce.last_accept() == old(self).spec_policy().debounce.after(now_ms)
            },
    {
        self.policy.screen = screen;
        let mode = self.mode;
        if matches!(mode, R10BleReaderRemoteGuardMode::Disabled) {
            return R10BleReaderRemoteGuardDecision::new(
                mode,
                screen,
                R10RemoteAction::NoAction,
                R10BleReaderRemoteGuardReason::Disabled,
            );
        }
        if matches!(mode, R10BleReaderRemoteGuardMode::ProbeOnly) {
            return R10BleReaderRemoteGuardDecision::new(
                mode,
                screen,
                R10RemoteAction::NoAction,
                R10BleReaderRemoteGuardReason::ProbeOnlyLogOnly,
            );
        }
        if !self.explicit_reader_remote {
            return R10BleReaderRemoteGuardDecision::new(
                mode,
                screen,
                R10RemoteAction::NoAction,
                R10BleReaderRemoteGuardReason::ReaderRemoteLocked,
            );
        }
        if !R10RemotePolicy::screen_allows_reader_action(screen) {
            return R10BleReaderRemoteGuardDecision::new(
                mode,
                screen,
                R10RemoteAction::NoAction,
                R10BleReaderRemoteGuardReason::NotReaderScreen,
            );
        }
        if handle != R10_BLE_LIVE_NOTIFY_VALUE_HANDLE {
            return R10BleReaderRemoteGuardDecision::new(
                mode,
                screen,
                R10RemoteAction::NoAction,
                R10BleReaderRemoteGuardReason::WrongHandle,
            );
        }
        match R10RemotePacket::classify(payload) {
            R10RemotePacketKind::RemoteMotion => {},
            R10RemotePacketKind::RemoteNoEvent => {
                return R10BleReaderRemoteGuardDecision::new(
                    mode,
                    screen,
                    R10RemoteAction::NoAction,
                    R10BleReaderRemoteGuardReason::NoMotion,
                );
            },
            _ => {
                return R10BleReaderRemoteGuardDecision::new(
                    mode,
                    screen,
                    R10RemoteAction::NoAction,
                    R10BleReaderRemoteGuardReason::BadPacket,
                );
            },
        }
        self.policy.enabled = true;
        let action = self.policy.handle_packet(now_ms, payload);
        match action {
            R10RemoteAction::NoAction => R10BleReaderRemoteGuardDecision::new(
                mode,
                screen,
                action,
                R10BleReaderRemoteGuardReason::Debounced,
            ),
            _ => R10BleReaderRemoteGuardDecision::new(
                mode,
                screen,
                action,
                R10BleReaderRemoteGuardReason::Accepted,
            ),
        }
    }
}

impl Default for R10BleReaderRemoteGuard {
    fn default() -> (r: Self)
        ensures
            r.spec_mode() == R10BleReaderRemoteGuardMode::Disabled,
            !r.spec_explicit(),
            !r.spec_policy().enabled,
    {
        Self::disabled()
    }
}

/// A key press is queued only in ReaderRemote mode, explicitly unlocked, on
/// the Reader screen, for a valid motion packet on the live notify handle that
/// the debounce accepts; and it is always the next-page press. Disabled and
/// ProbeOnly guards never queue input.
pub proof fn lemma_guard_enqueue_requires_all_checks(
    g: R10BleReaderRemoteGuard,
    screen: R10RemoteScreen,
    handle: u16,
    payload: Seq<u8>,
    now_ms: u64,
)
    ensures
        enqueues(g.decision_for(screen, handle, payload, now_ms)) ==> {
            &&& g.spec_mode() == R10BleReaderRemoteGuardMode::ReaderRemote
            &&& g.spec_explicit()
            &&& screen == R10RemoteScreen::Reader
            &&& handle == R10_BLE_LIVE_NOTIFY_VALUE_HANDLE
            &&& classify_spec(payload) == R10RemotePacketKind::RemoteMotion
            &&& g.spec_policy().debounce.accepts(now_ms)
            &&& g.decision_for(screen, handle, payload, now_ms).injection == R10InputInjection::Press(
                crate::reader_input::Event::Press(crate::reader_input::Button::VolDown),
            )
        },
        g.spec_mode() != R10BleReaderRemoteGuardMode::ReaderRemote ==> !enqueues(
            g.decision_for(screen, handle, payload, now_ms),
        ),
{
}

} // verus!
