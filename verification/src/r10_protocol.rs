//! COLMI R10 remote-photo/motion packets.
//!
//! The ring speaks 16-byte packets on its UART-like GATT service. Byte 15 is a
//! checksum: the sum of bytes 0 through 14, modulo 256.
use vstd::prelude::*;
use vstd::arithmetic::div_mod::lemma_add_mod_noop;

verus! {

pub const R10_PACKET_LEN: usize = 16;

pub const R10_CMD_REMOTE: u8 = 0x02;

pub const R10_REMOTE_EVENT_NONE: u8 = 0x00;

pub const R10_REMOTE_EVENT_MOTION: u8 = 0x02;

#[derive(Clone, Copy, Debug, PartialEq, Eq, Structural)]
pub enum R10RemotePacketKind {
    RemoteStart,
    RemotePoll,
    RemoteStop,
    RemoteNoEvent,
    RemoteMotion,
    Unknown,
    BadLength,
    BadChecksum,
}

#[derive(Clone, Copy, Debug, PartialEq, Eq)]
pub struct R10RemotePacket {
    bytes: [u8; 16],
}

/// Sum of all bytes of `s`, as an unbounded integer.
pub open spec fn byte_sum(s: Seq<u8>) -> nat
    decreases s.len(),
{
    if s.len() == 0 {
        0
    } else {
        byte_sum(s.drop_last()) + s.last() as nat
    }
}

/// The R10 checksum of a run of bytes: their sum modulo 256.
pub open spec fn checksum_of(s: Seq<u8>) -> u8 {
    (byte_sum(s) % 256) as u8
}

/// A 16-byte packet whose last byte is the checksum of the first fifteen.
pub open spec fn packet_checksum_valid(s: Seq<u8>) -> bool {
    &&& s.len() == 16
    &&& s[15] == checksum_of(s.subrange(0, 15))
}

/// The classification of a received packet.
pub open spec fn classify_spec(s: Seq<u8>) -> R10RemotePacketKind {
    if s.len() != 16 {
        R10RemotePacketKind::BadLength
    } else if !packet_checksum_valid(s) {
        R10RemotePacketKind::BadChecksum
    } else {
        command_kind(s[0], s[1])
    }
}

/// What a checksum-valid packet means, by its first two bytes.
pub open spec fn command_kind(cmd: u8, arg: u8) -> R10RemotePacketKind {
    if cmd != 0x02 {
        R10RemotePacketKind::Unknown
    } else if arg == 0x04 {
        R10RemotePacketKind::RemoteStart
    } else if arg == 0x05 {
        R10RemotePacketKind::RemotePoll
    } else if arg == 0x06 {
        R10RemotePacketKind::RemoteStop
    } else if arg == 0x00 {
        R10RemotePacketKind::RemoteNoEvent
    } else if arg == 0x02 {
        R10RemotePacketKind::RemoteMotion
    } else {
        R10RemotePacketKind::Unknown
    }
}

/// The bytes of a two-byte-payload command: `cmd`, `arg`, thirteen zeros and
/// the checksum `cmd + arg` modulo 256.
pub open spec fn payload2_bytes(cmd: u8, arg: u8) -> Seq<u8> {
    seq![cmd, arg, 0u8, 0u8, 0u8, 0u8, 0u8, 0u8, 0u8, 0u8, 0u8, 0u8, 0u8, 0u8, 0u8,
        ((cmd as nat + arg as nat) % 256) as u8]
}

/// The byte sum grows by the byte appended.
pub proof fn lemma_byte_sum_push(s: Seq<u8>, b: u8)
    ensures
        byte_sum(s.push(b)) == byte_sum(s) + b as nat,
{
    assert(s.push(b).drop_last() =~= s);
}

proof fn lemma_byte_sum_zero_tail(s: Seq<u8>, k: nat)
    requires
        forall|i: int| 2 <= i < s.len() ==> s[i] == 0,
        s.len() >= 2,
        k <= s.len() - 2,
    ensures
        byte_sum(s.subrange(0, 2 + k as int)) == s[0] as nat + s[1] as nat,
    decreases k,
{
    if k == 0 {
        let t = s.subrange(0, 2);
        let one = seq![s[0]];
        assert(one.drop_last() =~= Seq::<u8>::empty());
        assert(byte_sum(Seq::<u8>::empty()) == 0);
        assert(byte_sum(one) == s[0] as nat);
        assert(t.drop_last() =~= one);
        assert(byte_sum(t) == byte_sum(one) + t.last() as nat);
    } else {
        lemma_byte_sum_zero_tail(s, (k - 1) as nat);
        let t = s.subrange(0, 2 + k as int);
        assert(t.drop_last() =~= s.subrange(0, 2 + k - 1));
        assert(t.last() == s[2 + k - 1]);
        assert(byte_sum(t) == byte_sum(t.drop_last()) + t.last() as nat);
    }
}

/// Every packet built from a two-byte payload passes the checksum test, and
/// its classification is decided by the payload alone.
pub proof fn lemma_payload2_valid(cmd: u8, arg: u8)
    ensures
        packet_checksum_valid(payload2_bytes(cmd, arg)),
        classify_spec(payload2_bytes(cmd, arg)) == command_kind(cmd, arg),
{
    let s = payload2_bytes(cmd, arg);
    let p = s.subrange(0, 15);
    assert forall|i: int| 2 <= i < p.len() implies p[i] == 0 by {}
    lemma_byte_sum_zero_tail(p, 13);
    assert(p.subrange(0, 15) =~= p);
}

impl R10RemotePacket {
    pub closed spec fn view_bytes(&self) -> Seq<u8> {
        self.bytes@
    }

    /// Builds a command packet from its first two bytes; the rest is zero and
    /// byte 15 is the checksum.
    pub fn from_payload2(cmd: u8, arg: u8) -> (r: Self)
        ensures
            r.view_bytes() == payload2_bytes(cmd, arg),
    {
        let sum = cmd.wrapping_add(arg);
        let bytes: [u8; 16] = [cmd, arg, 0, 0, 0, 0, 0, 0, 0, 0, 0, 0, 0, 0, 0, sum];
        assert(bytes@ =~= payload2_bytes(cmd, arg));
        Self { bytes }
    }

    pub fn bytes(&self) -> (r: [u8; 16])
        ensures
            r@ == self.view_bytes(),
    {
        self.bytes
    }

    pub fn as_slice(&self) -> (r: &[u8; 16])
        ensures
            r@ == self.view_bytes(),
    {
        &self.bytes
    }

    /// The checksum byte for a fifteen-byte prefix.
    pub fn checksum_for_prefix(prefix: &[u8; 15]) -> (r: u8)
        ensures
            r == checksum_of(prefix@),
    {
        let mut sum: u8 = 0;
        let mut i: usize = 0;
        while i < 15
            invariant
                0 <= i <= 15,
                prefix@.len() == 15,
                sum as nat == byte_sum(prefix@.subrange(0, i as int)) % 256,
            decreases 15 - i,
        {
            proof {
                lemma_byte_sum_push(prefix@.subrange(0, i as int), prefix@[i as int]);
                assert(prefix@.subrange(0, i as int).push(prefix@[i as int]) =~= prefix@.subrange(
                    0,
                    i + 1,
                ));
                lemma_add_mod_noop(
                    byte_sum(prefix@.subrange(0, i as int)) as int,
                    prefix@[i as int] as int,
                    256,
                );
            }
            sum = sum.wrapping_add(prefix[i]);
            i = i + 1;
        }
        assert(prefix@.subrange(0, 15) =~= prefix@);
        sum
    }

    /// True when `bytes` is a 16-byte packet whose last byte is the checksum of
    /// the first fifteen.
    pub fn checksum_ok(bytes: &[u8]) -> (r: bool)
        ensures
            r == packet_checksum_valid(bytes@),
    {
        if bytes.len() != R10_PACKET_LEN {
            return false;
        }
        let mut sum: u8 = 0;
        let mut i: usize = 0;
        while i < 15
            invariant
                0 <= i <= 15,
                bytes@.len() == 16,
                sum as nat == byte_sum(bytes@.subrange(0, i as int)) % 256,
            decreases 15 - i,
        {
            proof {
                lemma_byte_sum_push(bytes@.subrange(0, i as int), bytes@[i as int]);
                assert(bytes@.subrange(0, i as int).push(bytes@[i as int]) =~= bytes@.subrange(
                    0,
                    i + 1,
                ));
                lemma_add_mod_noop(
                    byte_sum(bytes@.subrange(0, i as int)) as int,
                    bytes@[i as int] as int,
                    256,
                );
            }
            sum = sum.wrapping_add(bytes[i]);
            i = i + 1;
        }
        sum == bytes[15]
    }

    /// Classifies a received packet: bad length, bad checksum, or the command
    /// or event its first two bytes name.
    pub fn classify(bytes: &[u8]) -> (r: R10RemotePacketKind)
        ensures
            r == classify_spec(bytes@),
    {
        if bytes.len() != R10_PACKET_LEN {
            return R10RemotePacketKind::BadLength;
        }
        if !Self::checksum_ok(bytes) {
            return R10RemotePacketKind::BadChecksum;
        }
        let cmd = bytes[0];
        let arg = bytes[1];
        if cmd != R10_CMD_REMOTE {
            R10RemotePacketKind::Unknown
        } else if arg == 0x04 {
            R10RemotePacketKind::RemoteStart
        } else if arg == 0x05 {
            R10RemotePacketKind::RemotePoll
        } else if arg == 0x06 {
            R10RemotePacketKind::RemoteStop
        } else if arg == R10_REMOTE_EVENT_NONE {
            R10RemotePacketKind::RemoteNoEvent
        } else if arg == R10_REMOTE_EVENT_MOTION {
            R10RemotePacketKind::RemoteMotion
        } else {
            R10RemotePacketKind::Unknown
        }
    }
}

/// The remote-mode start command: `02 04 .. 06`.
pub fn r10_remote_start() -> (r: R10RemotePacket)
    ensures
        r.view_bytes() == payload2_bytes(0x02, 0x04),
{
    R10RemotePacket::from_payload2(R10_CMD_REMOTE, 0x04)
}

/// The remote-mode poll command: `02 05 .. 07`.
pub fn r10_remote_poll() -> (r: R10RemotePacket)
    ensures
        r.view_bytes() == payload2_bytes(0x02, 0x05),
{
    R10RemotePacket::from_payload2(R10_CMD_REMOTE, 0x05)
}

/// The remote-mode stop command: `02 06 .. 08`.
pub fn r10_remote_stop() -> (r: R10RemotePacket)
    ensures
        r.view_bytes() == payload2_bytes(0x02, 0x06),
{
    R10RemotePacket::from_payload2(R10_CMD_REMOTE, 0x06)
}

} // verus!
