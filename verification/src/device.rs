use vstd::prelude::*;
use crate::error::Error;

verus! {

/// XOR fold of a byte sequence: the protocol's checksum.
pub open spec fn xor_fold(s: Seq<u8>) -> u8
    decreases s.len(),
{
    if s.len() == 0 {
        0u8
    } else {
        xor_fold(s.drop_last()) ^ s.last()
    }
}

/// Generates a checksum byte for the passed `data`.
pub fn generate_checksum(data: &[u8]) -> (r: u8)
    ensures
        r == xor_fold(data@),
{
    let mut acc: u8 = 0;
    let mut i: usize = 0;
    while i < data.len()
        invariant
            0 <= i <= data@.len(),
            acc == xor_fold(data@.subrange(0, i as int)),
        decreases data@.len() - i,
    {
        proof {
            assert(data@.subrange(0, i + 1).drop_last() =~= data@.subrange(0, i as int));
            assert(data@.subrange(0, i + 1).last() == data@[i as int]);
        }
        acc = acc ^ data[i];
        i = i + 1;
    }
    proof {
        assert(data@.subrange(0, data@.len() as int) =~= data@);
    }
    acc
}

/// Truncating (toward-zero) division by a positive divisor. The wire
/// formulas truncate toward zero as machine division does, while `/` in
/// specifications rounds toward negative infinity; the two differ on
/// negative dividends, and the difference is load-bearing for the voltage
/// correction term.
pub open spec fn tdiv(a: int, d: int) -> int
    recommends
        d > 0,
{
    if a >= 0 {
        a / d
    } else {
        -((-a) / d)
    }
}

/// The two bytes of a wire field read as one unsigned 16-bit value.
pub open spec fn raw16(b1: u8, b2: u8) -> int {
    b1 * 256 + b2
}

/// The corrected integer term of the current decode: the packed high-nibble
/// correction is subtracted from the raw field. Dividing this term by the
/// profile's `current_divider` yields the current.
pub open spec fn current_term(b1: u8, b2: u8) -> int {
    raw16(b1, b2) - tdiv(raw16(b1, b2), 256) * 16
}

/// The corrected integer term of the voltage decode. Dividing this term by
/// 1000 yields the voltage.
pub open spec fn voltage_term(b1: u8, b2: u8) -> int {
    (raw16(b1, b2) - 320) - tdiv(raw16(b1, b2) - 5120, 256) * 16
}

/// Decodes the two bytes of the current field into the corrected integer
/// term; the caller divides it by the profile's `current_divider`.
pub fn decode_current(b1: u8, b2: u8) -> (r: i32)
    ensures
        r == current_term(b1, b2),
        0 <= r <= 0xFFFF,
{
    let raw: u32 = (b1 as u32) * 256 + (b2 as u32);
    proof {
        assert(raw / 256 * 16 <= raw) by (nonlinear_arith)
            requires
                raw <= 0xFFFF,
        ;
    }
    (raw - raw / 256 * 16) as i32
}

/// Decodes the two bytes of the voltage field into the corrected integer
/// term; the caller divides it by 1000.
pub fn decode_voltage(b1: u8, b2: u8) -> (r: i32)
    ensures
        r == voltage_term(b1, b2),
{
    let raw: u32 = (b1 as u32) * 256 + (b2 as u32);
    let correction: i32 = if raw >= 5120 {
        (((raw - 5120) / 256) * 16) as i32
    } else {
        let shortfall: u32 = 5120 - raw;
        -(((shortfall / 256) * 16) as i32)
    };
    (raw as i32) - 320 - correction
}

/// The checksum a 19-byte frame must carry: the XOR fold of its payload
/// bytes 1 through 16, excluding the start, checksum and stop bytes.
pub open spec fn frame_checksum(f: Seq<u8>) -> u8
    recommends
        f.len() == crate::FRAME_SIZE,
{
    xor_fold(f.subrange(1, 17))
}

/// A frame is trusted when its checksum byte matches its payload.
pub open spec fn frame_trusted(f: Seq<u8>) -> bool
    recommends
        f.len() == crate::FRAME_SIZE,
{
    f[17] == frame_checksum(f)
}

/// Measurement values decoded from one trusted frame.
///
/// The decode arithmetic on the wire fields is exact integer arithmetic up
/// to a final division; that division is left to the caller, in whatever
/// numeric width it prefers: `voltage_numer / 1000` is the voltage and
/// `current_numer / current_divider` is the current.
#[derive(Clone, Copy, Debug, PartialEq, Eq, Structural)]
pub struct Measurement {
    /// Corrected voltage term; divide by 1000 for the voltage.
    pub voltage_numer: i32,
    /// Corrected current term; divide by `current_divider` for the current.
    pub current_numer: i32,
    /// The divider for the current term, from the device profile.
    pub current_divider: u16,
    /// The checksum byte of the frame the measurement came from, retained
    /// for diagnostics.
    pub checksum: u8,
}

impl Measurement {
    /// Parses the given `buf` as a measurement packet.
    ///
    /// Checks only the checksum; the framing markers are the frame reader's
    /// business. Returns `Ok` exactly when the checksum byte matches the
    /// payload, and `Err(InvalidChecksum)` otherwise.
    ///
    /// # Arguments
    /// * `current_divider` - device-specific current divider value.
    pub fn parse(buf: &[u8; 19], current_divider: u16) -> (r: Result<Measurement, Error>)
        ensures
            r is Ok <==> frame_trusted(buf@),
            match r {
                Ok(m) => {
                    &&& m.voltage_numer == voltage_term(buf@[4], buf@[5])
                    &&& m.current_numer == current_term(buf@[2], buf@[3])
                    &&& m.current_divider == current_divider
                    &&& m.checksum == buf@[17]
                },
                Err(e) => e == Error::InvalidChecksum,
            },
    {
        let checksum = generate_checksum(&buf[1..17]);

        if buf[17] != checksum {
            return Err(Error::InvalidChecksum);
        }

        let voltage_numer = decode_voltage(buf[4], buf[5]);
        let current_numer = decode_current(buf[2], buf[3]);

        Ok(Measurement {
            voltage_numer,
            current_numer,
            current_divider,
            checksum: buf[17],
        })
    }
}

/// The checksum is its own inverse under XOR: folding a sequence and
/// XOR-ing the result with itself cancels to zero, so a sequence extended
/// by its own checksum folds to zero.
pub proof fn lemma_checksum_self_inverse(s: Seq<u8>)
    ensures
        xor_fold(s) ^ xor_fold(s) == 0,
        xor_fold(s.push(xor_fold(s))) == 0,
{
    let c = xor_fold(s);
    assert(c ^ c == 0) by (bit_vector);
    let t = s.push(c);
    assert(t.drop_last() =~= s);
    assert(t.last() == c);
    assert(xor_fold(t) == xor_fold(t.drop_last()) ^ t.last());
}

/// Corrupting one byte of a sequence XORs its fold by the same mask.
proof fn lemma_xor_fold_update(s: Seq<u8>, j: int, m: u8)
    requires
        0 <= j < s.len(),
    ensures
        xor_fold(s.update(j, s[j] ^ m)) == xor_fold(s) ^ m,
    decreases s.len(),
{
    let t = s.update(j, s[j] ^ m);
    if j == s.len() - 1 {
        assert(t.drop_last() =~= s.drop_last());
        assert(t.last() == (s.last() ^ m));
        let a = xor_fold(s.drop_last());
        let b = s.last();
        assert(a ^ (b ^ m) == (a ^ b) ^ m) by (bit_vector);
        assert(xor_fold(t) == xor_fold(t.drop_last()) ^ t.last());
    } else {
        lemma_xor_fold_update(s.drop_last(), j, m);
        assert(t.drop_last() =~= s.drop_last().update(j, s.drop_last()[j] ^ m));
        assert(t.last() == s.last());
        let a = xor_fold(s.drop_last());
        let b = s.last();
        assert((a ^ m) ^ b == (a ^ b) ^ m) by (bit_vector);
        assert(xor_fold(t) == xor_fold(t.drop_last()) ^ t.last());
        assert(xor_fold(s) == xor_fold(s.drop_last()) ^ s.last());
    }
}

/// A frame whose checksum byte is computed from its own payload always
/// validates.
pub proof fn lemma_checksum_round_trip(f: Seq<u8>)
    requires
        f.len() == crate::FRAME_SIZE,
    ensures
        frame_trusted(f.update(17, frame_checksum(f))),
{
    let g = f.update(17, frame_checksum(f));
    assert(g.subrange(1, 17) =~= f.subrange(1, 17));
}

/// Flipping any nonzero set of bits — in particular any single bit — in a
/// payload byte of a trusted frame makes checksum validation fail.
pub proof fn lemma_payload_corruption_detected(f: Seq<u8>, i: int, m: u8)
    requires
        f.len() == crate::FRAME_SIZE,
        frame_trusted(f),
        1 <= i < 17,
        m != 0,
    ensures
        !frame_trusted(f.update(i, f[i] ^ m)),
{
    let p = f.subrange(1, 17);
    let g = f.update(i, f[i] ^ m);
    assert(g.subrange(1, 17) =~= p.update(i - 1, p[i - 1] ^ m));
    lemma_xor_fold_update(p, i - 1, m);
    let c = xor_fold(p);
    assert(c ^ m != c) by (bit_vector)
        requires
            m != 0,
    ;
    assert(g[17] == f[17]);
}

/// For every fixed raw payload the decoded current is monotonically inverse
/// in the divider: the current term is nonnegative, so compared as exact
/// fractions, `term / d1 >= term / d2` whenever `0 < d1 <= d2`. The
/// comparison is stated cross-multiplied to stay in integers.
pub proof fn lemma_current_inverse_in_divider(b1: u8, b2: u8, d1: u16, d2: u16)
    requires
        0 < d1 <= d2,
    ensures
        current_term(b1, b2) >= 0,
        current_term(b1, b2) * d2 >= current_term(b1, b2) * d1,
{
    let r = raw16(b1, b2);
    assert(r / 256 * 16 <= r) by (nonlinear_arith)
        requires
            0 <= r <= 0xFFFF,
    ;
    let t = current_term(b1, b2);
    assert(t * d2 >= t * d1) by (nonlinear_arith)
        requires
            t >= 0,
            0 < d1 <= d2,
    ;
}

/// The 10-byte initialization sequence written to the device once at
/// session start, before the first frame is read.
pub open spec fn init_sequence_spec() -> Seq<u8> {
    seq![0xFAu8, 0x05, 0x00, 0x00, 0x00, 0x00, 0x00, 0x00, 0x05, 0xF8]
}

/// The initialization sequence as bytes ready to be written to the link.
pub fn init_sequence() -> (r: [u8; 10])
    ensures
        r@ == init_sequence_spec(),
{
    let r: [u8; 10] = [0xFA, 0x05, 0x00, 0x00, 0x00, 0x00, 0x00, 0x00, 0x05, 0xF8];
    proof {
        assert(r@ =~= init_sequence_spec());
    }
    r
}

/// The two states of a monitoring session.
#[derive(Clone, Copy, Debug, PartialEq, Eq, Structural)]
pub enum MonitorState {
    /// The session is live; the next frame may be read.
    Running,
    /// A fatal error occurred; the session never resumes.
    Terminated,
}

/// What one read attempt on the transport produced: either a full 19-byte
/// frame, or a failure (an I/O error, a timeout, or a short read — partial
/// frames are never retried or reassembled).
pub enum ReadEvent {
    /// A full frame was read.
    Frame([u8; 19]),
    /// The read failed or timed out before a full frame was obtained.
    TransportFailed,
}

/// What the monitor asks of its caller after one step.
#[derive(Clone, Copy, Debug, PartialEq, Eq, Structural)]
pub enum StepAction {
    /// Hand this measurement to the session's handler; keep reading.
    Deliver(Measurement),
    /// Report this recoverable error on the diagnostic channel; keep
    /// reading. Only `InvalidChecksum` is ever reported this way.
    Diagnostic(Error),
    /// Surface this fatal error to the caller; the session is over.
    Fatal(Error),
}

/// The monitoring state machine: frame validation, checksum validation and
/// decoding for one read outcome at a time, and the decision whether the
/// session survives it. The surrounding program owns the transport and the
/// loop; it feeds each read outcome in and performs the returned action.
pub struct Monitor {
    /// Whether the session is still live.
    pub state: MonitorState,
    /// The current divider of the session's device profile.
    pub current_divider: u16,
}

impl Monitor {
    /// A fresh session for a device with the given current divider.
    pub fn new(current_divider: u16) -> (m: Monitor)
        ensures
            m.state == MonitorState::Running,
            m.current_divider == current_divider,
    {
        Monitor { state: MonitorState::Running, current_divider }
    }

    /// Processes one read outcome of a live session.
    ///
    /// A transport failure or a framing violation terminates the session
    /// and is surfaced as fatal; a checksum mismatch is reported as a
    /// diagnostic and the session keeps running; a trusted frame is decoded
    /// and its measurement delivered.
    pub fn step(&mut self, event: &ReadEvent) -> (action: StepAction)
        requires
            old(self).state == MonitorState::Running,
        ensures
            final(self).current_divider == old(self).current_divider,
            match event {
                ReadEvent::TransportFailed => {
                    &&& final(self).state == MonitorState::Terminated
                    &&& action == StepAction::Fatal(Error::Transport)
                },
                ReadEvent::Frame(buf) => {
                    if buf@[0] != crate::EBD_START_BYTE {
                        &&& final(self).state == MonitorState::Terminated
                        &&& action == StepAction::Fatal(Error::InvalidStartByte)
                    } else if buf@[18] != crate::EBD_STOP_BYTE {
                        &&& final(self).state == MonitorState::Terminated
                        &&& action == StepAction::Fatal(Error::InvalidStopByte)
                    } else if !frame_trusted(buf@) {
                        &&& final(self).state == MonitorState::Running
                        &&& action == StepAction::Diagnostic(Error::InvalidChecksum)
                    } else {
                        &&& final(self).state == MonitorState::Running
                        &&& action == StepAction::Deliver(Measurement {
                            voltage_numer: voltage_term(buf@[4], buf@[5]) as i32,
                            current_numer: current_term(buf@[2], buf@[3]) as i32,
                            current_divider: old(self).current_divider,
                            checksum: buf@[17],
                        })
                    }
                },
            },
    {
        match event {
            ReadEvent::TransportFailed => {
                self.state = MonitorState::Terminated;
                StepAction::Fatal(Error::Transport)
            }
            ReadEvent::Frame(buf) => {
                if buf[0] != crate::EBD_START_BYTE {
                    self.state = MonitorState::Terminated;
                    return StepAction::Fatal(Error::InvalidStartByte);
                }
                if buf[18] != crate::EBD_STOP_BYTE {
                    self.state = MonitorState::Terminated;
                    return StepAction::Fatal(Error::InvalidStopByte);
                }
                match Measurement::parse(buf, self.current_divider) {
                    Ok(measurement) => StepAction::Deliver(measurement),
                    Err(e) => StepAction::Diagnostic(e),
                }
            }
        }
    }
}

} // verus!
