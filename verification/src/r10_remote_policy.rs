//! Transport-independent R10 remote policy: decides whether a motion packet
//! becomes a Reader action.
use vstd::prelude::*;
use crate::reader_input::RustmixReaderAction;
use crate::r10_protocol::{R10RemotePacket, R10RemotePacketKind, classify_spec};

verus! {

#[derive(Clone, Copy, Debug, PartialEq, Eq, Structural)]
pub enum R10RemoteScreen {
    Reader,
    Home,
    Library,
    Settings,
    WifiTransfer,
    Sleep,
    Confirm,
    Unknown,
}

#[derive(Clone, Copy, Debug, PartialEq, Eq, Structural)]
pub enum R10RemoteAction {
    NoAction,
    Reader(RustmixReaderAction),
}

#[derive(Clone, Copy, Debug, PartialEq, Eq, Structural)]
pub struct R10RemoteDebounce {
    last_accept_ms: Option<u64>,
    debounce_ms: u64,
}

/// `now - last`, saturating at zero.
pub open spec fn elapsed_ms(now: u64, last: u64) -> int {
    if now >= last {
        now - last
    } else {
        0
    }
}

impl R10RemoteDebounce {
    /// The time of the last accepted event, if any.
    pub closed spec fn last_accept(&self) -> Option<u64> {
        self.last_accept_ms
    }

    /// The debounce window.
    pub closed spec fn window(&self) -> u64 {
        self.debounce_ms
    }

    /// Whether an event at `now_ms` passes the debounce window.
    pub open spec fn accepts(&self, now_ms: u64) -> bool {
        match self.last_accept() {
            Some(last) => elapsed_ms(now_ms, last) >= self.window(),
            None => true,
        }
    }

    /// The state after an event at `now_ms` was offered.
    pub open spec fn after(&self, now_ms: u64) -> Option<u64> {
        if self.accepts(now_ms) {
            Some(now_ms)
        } else {
            self.last_accept()
        }
    }

    pub fn new(debounce_ms: u64) -> (r: Self)
        ensures
            r.last_accept() is None,
            r.window() == debounce_ms,
    {
        Self { last_accept_ms: None, debounce_ms }
    }

    /// Forgets the last accepted event.
    pub fn reset(&mut self)
        ensures
            final(self).last_accept() is None,
            final(self).window() == old(self).window(),
    {
        self.last_accept_ms = None;
    }

    /// Offers an event at `now_ms`: accepted when no event was accepted yet or
    /// at least the window has passed since the last accepted one.
    pub fn accept(&mut self, now_ms: u64) -> (r: bool)
        ensures
            r == old(self).accepts(now_ms),
            final(self).last_accept() == old(self).after(now_ms),
            final(self).window() == old(self).window(),
    {
        match self.last_accept_ms {
            Some(last) if now_ms.saturating_sub(last) < self.debounce_ms => false,
            _ => {
                self.last_accept_ms = Some(now_ms);
                true
            },
        }
    }
}

/// Two offers within the window of an accepted one are refused: after an
/// accepted event at `t1`, an event at `t2` with `t1 <= t2 < t1 + window` is
/// not accepted.
pub proof fn lemma_debounce_window(d: R10RemoteDebounce, later: R10RemoteDebounce, t1: u64, t2: u64)
    requires
        d.accepts(t1),
        later.last_accept() == d.after(t1),
        later.window() == d.window(),
        t1 <= t2,
        t2 < t1 + d.window(),
    ensures
        !later.accepts(t2),
{
}

#[derive(Clone, Copy, Debug, PartialEq, Eq, Structural)]
pub struct R10RemotePolicy {
    pub enabled: bool,
    pub screen: R10RemoteScreen,
    pub debounce: R10RemoteDebounce,
}

impl R10RemotePolicy {
    /// The packet reaches the debounce test: the policy is enabled, the screen
    /// is the Reader and the packet is a valid motion packet.
    pub open spec fn motion_candidate(&self, packet: Seq<u8>) -> bool {
        &&& self.enabled
        &&& self.screen == R10RemoteScreen::Reader
        &&& classify_spec(packet) == R10RemotePacketKind::RemoteMotion
    }

    /// What `handle_packet` answers.
    pub open spec fn action_for(&self, now_ms: u64, packet: Seq<u8>) -> R10RemoteAction {
        if self.motion_candidate(packet) && self.debounce.accepts(now_ms) {
            R10RemoteAction::Reader(RustmixReaderAction::NextPage)
        } else {
            R10RemoteAction::NoAction
        }
    }

    /// `next` is this policy after `handle_packet(now_ms, packet)`.
    pub open spec fn handled(&self, now_ms: u64, packet: Seq<u8>, next: R10RemotePolicy) -> bool {
        &&& next.enabled == self.enabled
        &&& next.screen == self.screen
        &&& next.debounce.window() == self.debounce.window()
        &&& next.debounce.last_accept() == (if self.motion_candidate(packet) {
            self.debounce.after(now_ms)
        } else {
            self.debounce.last_accept()
        })
    }

    pub fn disabled() -> (r: Self)
        ensures
            !r.enabled,
            r.screen == R10RemoteScreen::Unknown,
            r.debounce.last_accept() is None,
            r.debounce.window() == 3500,
    {
        Self { enabled: false, screen: R10RemoteScreen::Unknown, debounce: R10RemoteDebounce::new(3500) }
    }

    pub fn enabled_for_reader(debounce_ms: u64) -> (r: Self)
        ensures
            r.enabled,
            r.screen == R10RemoteScreen::Reader,
            r.debounce.last_accept() is None,
            r.debounce.window() == debounce_ms,
    {
        Self {
            enabled: true,
            screen: R10RemoteScreen::Reader,
            debounce: R10RemoteDebounce::new(debounce_ms),
        }
    }

    /// Only the Reader screen takes Reader actions from the ring.
    pub fn screen_allows_reader_action(screen: R10RemoteScreen) -> (r: bool)
        ensures
            r == (screen == R10RemoteScreen::Reader),
    {
        matches!(screen, R10RemoteScreen::Reader)
    }

    /// Turns a notify packet into a Reader action: a valid motion packet on
    /// the Reader screen, with the policy enabled and the debounce window
    /// passed, is a next-page action; anything else is no action. The
    /// debounce state moves only when a motion candidate was offered to it.
    pub fn handle_packet(&mut self, now_ms: u64, packet: &[u8]) -> (r: R10RemoteAction)
        ensures
            r == old(self).action_for(now_ms, packet@),
            old(self).handled(now_ms, packet@, *final(self)),
    {
        if !self.enabled || !Self::screen_allows_reader_action(self.screen) {
            return R10RemoteAction::NoAction;
        }
        match R10RemotePacket::classify(packet) {
            R10RemotePacketKind::RemoteMotion => {
                if self.debounce.accept(now_ms) {
                    R10RemoteAction::Reader(RustmixReaderAction::NextPage)
                } else {
                    R10RemoteAction::NoAction
                }
            },
            _ => R10RemoteAction::NoAction,
        }
    }
}

/// A Reader action comes out of the policy only when it is enabled, on the
/// Reader screen, for a checksum-valid motion packet.
pub proof fn lemma_policy_action_requires_reader_motion(p: R10RemotePolicy, now_ms: u64, packet: Seq<u8>)
    requires
        p.action_for(now_ms, packet) != R10RemoteAction::NoAction,
    ensures
        p.enabled,
        p.screen == R10RemoteScreen::Reader,
        classify_spec(packet) == R10RemotePacketKind::RemoteMotion,
{
}

} // verus!
