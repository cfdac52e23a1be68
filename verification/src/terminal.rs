use vstd::prelude::*;
use vstd::utf8::*;

verus! {

/// A sequence that starts with a well-formed scalar encoding still does
/// when its bytes beyond that scalar change or extend: the encoding only
/// ever reads the scalar's own bytes.
proof fn lemma_first_scalar_same_prefix(s: Seq<u8>, t: Seq<u8>)
    requires
        valid_first_scalar(s),
        t.len() >= length_of_first_scalar(s),
        forall|k: int| 0 <= k < length_of_first_scalar(s) ==> t[k] == s[k],
    ensures
        valid_first_scalar(t),
        length_of_first_scalar(t) == length_of_first_scalar(s),
        length_of_first_scalar(s) <= s.len(),
{
    assert(t[0] == s[0]);
    if is_leading_byte_width_1(s[0]) {
        assert(valid_leading_and_continuation_bytes_first_codepoint(t));
    } else if is_leading_byte_width_2(s[0]) {
        assert(s.len() >= 2 && is_continuation_byte(s[1]));
        assert(t[1] == s[1]);
        assert(valid_leading_and_continuation_bytes_first_codepoint(t));
    } else if is_leading_byte_width_3(s[0]) {
        assert(s.len() >= 3 && is_continuation_byte(s[1]) && is_continuation_byte(s[2]));
        assert(t[1] == s[1] && t[2] == s[2]);
        assert(valid_leading_and_continuation_bytes_first_codepoint(t));
    } else {
        assert(is_leading_byte_width_4(s[0]));
        assert(s.len() >= 4 && is_continuation_byte(s[1]) && is_continuation_byte(s[2])
            && is_continuation_byte(s[3]));
        assert(t[1] == s[1] && t[2] == s[2] && t[3] == s[3]);
        assert(valid_leading_and_continuation_bytes_first_codepoint(t));
    }
    assert(decode_first_codepoint(t) == decode_first_codepoint(s));
}

/// The bytes of one well-formed scalar encoding are, on their own, valid
/// UTF-8.
proof fn lemma_take_first_scalar_valid(s: Seq<u8>)
    requires
        valid_first_scalar(s),
    ensures
        valid_utf8(take_first_scalar(s)),
        length_of_first_scalar(s) <= s.len(),
{
    let c = take_first_scalar(s);
    let l = length_of_first_scalar(s);
    lemma_first_scalar_same_prefix(s, s);
    assert(c.len() == l);
    assert(forall|k: int| 0 <= k < l ==> c[k] == s[k]);
    lemma_first_scalar_same_prefix(s, c);
    assert(pop_first_scalar(c) =~= Seq::<u8>::empty());
    assert(valid_utf8(pop_first_scalar(c)));
}

/// Valid UTF-8 stays valid under concatenation.
proof fn lemma_valid_utf8_concat(a: Seq<u8>, b: Seq<u8>)
    requires
        valid_utf8(a),
        valid_utf8(b),
    ensures
        valid_utf8(a + b),
    decreases a.len(),
{
    if a.len() == 0 {
        assert(a + b =~= b);
    } else {
        let ab = a + b;
        assert(valid_first_scalar(a));
        lemma_first_scalar_same_prefix(a, a);
        let l = length_of_first_scalar(a);
        assert(forall|k: int| 0 <= k < l ==> ab[k] == a[k]);
        lemma_first_scalar_same_prefix(a, ab);
        assert(pop_first_scalar(ab) =~= pop_first_scalar(a) + b);
        lemma_valid_utf8_concat(pop_first_scalar(a), b);
    }
}

/// Whether the bytes starting at position `i` begin a well-formed UTF-8
/// scalar encoding, and the encoding's width in bytes when they do. A
/// well-formed encoding has the expected leading and continuation bytes, is
/// not overlong, and does not encode a surrogate.
fn scalar_width_at(bytes: &Vec<u8>, i: usize) -> (r: Option<usize>)
    requires
        i < bytes@.len(),
    ensures
        (r matches Some(l) ==> (valid_first_scalar(bytes@.skip(i as int)) && l
            == length_of_first_scalar(bytes@.skip(i as int)) && 1 <= l && i + l <= bytes@.len())),
        r is None ==> !valid_first_scalar(bytes@.skip(i as int)),
{
    let ghost rest = bytes@.skip(i as int);
    let n = bytes.len();
    proof {
        assert(rest.len() == n - i);
        assert(rest[0] == bytes@[i as int]);
    }
    let b0 = bytes[i];
    if b0 <= 0x7f {
        let cp: u32 = (b0 & 0x7f) as u32;
        if cp < 0xd800 {
            Some(1)
        } else {
            None
        }
    } else if 0xc0 <= b0 && b0 <= 0xdf {
        if n - i >= 2 {
            let b1 = bytes[i + 1];
            proof {
                assert(rest[1] == bytes@[i as int + 1]);
            }
            if 0x80 <= b1 && b1 <= 0xbf {
                let cp: u32 = (((b0 & 0x1f) as u32) << 6) | ((b1 & 0x3f) as u32);
                if 0x80 <= cp && (cp < 0xd800 || 0xdfff < cp) {
                    Some(2)
                } else {
                    None
                }
            } else {
                None
            }
        } else {
            None
        }
    } else if 0xe0 <= b0 && b0 <= 0xef {
        if n - i >= 3 {
            let b1 = bytes[i + 1];
            let b2 = bytes[i + 2];
            proof {
                assert(rest[1] == bytes@[i as int + 1]);
                assert(rest[2] == bytes@[i as int + 2]);
            }
            if 0x80 <= b1 && b1 <= 0xbf && 0x80 <= b2 && b2 <= 0xbf {
                let cp: u32 = (((b0 & 0x0f) as u32) << 12) | (((b1 & 0x3f) as u32) << 6) | ((b2
                    & 0x3f) as u32);
                if 0x800 <= cp && (cp < 0xd800 || 0xdfff < cp) {
                    Some(3)
                } else {
                    None
                }
            } else {
                None
            }
        } else {
            None
        }
    } else if 0xf0 <= b0 && b0 <= 0xf7 {
        if n - i >= 4 {
            let b1 = bytes[i + 1];
            let b2 = bytes[i + 2];
            let b3 = bytes[i + 3];
            proof {
                assert(rest[1] == bytes@[i as int + 1]);
                assert(rest[2] == bytes@[i as int + 2]);
                assert(rest[3] == bytes@[i as int + 3]);
            }
            if 0x80 <= b1 && b1 <= 0xbf && 0x80 <= b2 && b2 <= 0xbf && 0x80 <= b3 && b3 <= 0xbf {
                let cp: u32 = (((b0 & 0x07) as u32) << 18) | (((b1 & 0x3f) as u32) << 12) | (((b2
                    & 0x3f) as u32) << 6) | ((b3 & 0x3f) as u32);
                if 0x10000 <= cp && cp <= 0x10ffff {
                    Some(4)
                } else {
                    None
                }
            } else {
                None
            }
        } else {
            None
        }
    } else {
        None
    }
}

/// Filters the device's raw user output down to what can be printed:
/// well-formed UTF-8 scalar encodings are copied through unchanged and
/// malformed bytes are dropped, never fatal. The result always decodes as
/// UTF-8, and output that already was well formed passes through whole.
pub fn drop_malformed_utf8(bytes: &Vec<u8>) -> (r: Vec<u8>)
    ensures
        valid_utf8(r@),
        valid_utf8(bytes@) ==> r@ == bytes@,
{
    let n = bytes.len();
    let mut out: Vec<u8> = Vec::new();
    let mut i: usize = 0;
    proof {
        assert(bytes@.skip(0) =~= bytes@);
        assert(bytes@.take(0) =~= out@);
    }
    while i < n
        invariant
            i <= n,
            n == bytes@.len(),
            valid_utf8(out@),
            valid_utf8(bytes@) ==> (valid_utf8(bytes@.skip(i as int)) && out@ == bytes@.take(
                i as int,
            )),
        decreases n - i,
    {
        let ghost rest = bytes@.skip(i as int);
        match scalar_width_at(bytes, i) {
            Option::Some(l) => {
                let ghost out_before = out@;
                let mut k: usize = 0;
                while k < l
                    invariant
                        k <= l,
                        i + l <= n,
                        n == bytes@.len(),
                        out@ == out_before + bytes@.subrange(i as int, i as int + k as int),
                    decreases l - k,
                {
                    out.push(bytes[i + k]);
                    k += 1;
                    proof {
                        assert(bytes@.subrange(i as int, i as int + k as int) =~= bytes@.subrange(
                            i as int,
                            i as int + k - 1,
                        ) + seq![bytes@[i as int + k - 1]]);
                        assert(out_before + bytes@.subrange(i as int, i as int + k - 1) + seq![
                            bytes@[i as int + k - 1],
                        ] =~= out_before + bytes@.subrange(i as int, i as int + k as int));
                    }
                }
                proof {
                    let scalar = bytes@.subrange(i as int, i as int + l as int);
                    assert(scalar =~= take_first_scalar(rest));
                    lemma_take_first_scalar_valid(rest);
                    lemma_valid_utf8_concat(out_before, scalar);
                    assert(pop_first_scalar(rest) =~= bytes@.skip(i as int + l as int));
                    if valid_utf8(bytes@) {
                        assert(valid_utf8(pop_first_scalar(rest)));
                        assert(bytes@.take(i as int + l as int) =~= bytes@.take(i as int)
                            + scalar);
                    }
                }
                i += l;
            },
            Option::None => {
                proof {
                    if valid_utf8(bytes@) {
                        assert(rest.len() > 0);
                        assert(valid_first_scalar(rest));
                        assert(false);
                    }
                }
                i += 1;
            },
        }
    }
    proof {
        if valid_utf8(bytes@) {
            assert(bytes@.take(n as int) =~= bytes@);
        }
    }
    out
}

/// Size, in bytes, of each relay read buffer.
pub const RELAY_BUFFER_SIZE: usize = 1024;

/// Milliseconds to idle after each relay iteration, to avoid busy-spinning.
pub const IDLE_DELAY_MS: u64 = 10;

/// Timeout, in milliseconds, of the courtesy stop-program request.
pub const STOP_TIMEOUT_MS: u64 = 2000;

/// Retry budget of the courtesy stop-program request.
pub const STOP_RETRIES: u64 = 1;

/// Timeout, in milliseconds, of the courtesy channel-restore request.
pub const RESTORE_TIMEOUT_MS: u64 = 2000;

/// Retry budget of the courtesy channel-restore request.
pub const RESTORE_RETRIES: u64 = 1;

/// One completed read in the duplex relay loop: whichever of the two
/// pending reads finished first. `None` stands for a failed read.
pub enum RelayEvent {
    /// A read of device user-output completed.
    DeviceOutput(Option<Vec<u8>>),
    /// A read of local console input completed.
    LocalInput(Option<Vec<u8>>),
}

/// What the relay does with a completed read.
pub enum RelayAction {
    /// Print these device-output bytes to the local console, decoding them
    /// as UTF-8 and dropping malformed sequences.
    PrintOutput(Vec<u8>),
    /// Forward these local-input bytes to the device's user-input channel.
    ForwardInput(Vec<u8>),
    /// A read failed: do nothing this iteration.
    Ignore,
}

/// Decides one relay iteration: device output is printed, local input is
/// forwarded, a failed read of either kind is tolerated and skipped. Every
/// iteration is followed by the fixed idle delay, whatever the action.
pub fn relay_reaction(event: RelayEvent) -> (r: RelayAction)
    ensures
        (event matches RelayEvent::DeviceOutput(Some(data)) ==> (
        r matches RelayAction::PrintOutput(out) && out@ == data@)),
        (event matches RelayEvent::LocalInput(Some(data)) ==> (
        r matches RelayAction::ForwardInput(out) && out@ == data@)),
        (event matches RelayEvent::DeviceOutput(opt) ==> (opt is None ==> r is Ignore)),
        (event matches RelayEvent::LocalInput(opt) ==> (opt is None ==> r is Ignore)),
{
    match event {
        RelayEvent::DeviceOutput(Option::Some(data)) => RelayAction::PrintOutput(data),
        RelayEvent::LocalInput(Option::Some(data)) => RelayAction::ForwardInput(data),
        RelayEvent::DeviceOutput(Option::None) => RelayAction::Ignore,
        RelayEvent::LocalInput(Option::None) => RelayAction::Ignore,
    }
}

/// The steps of the courtesy shutdown run when the terminal flow is
/// cancelled, in order. Both device-facing steps are best-effort: their
/// failure must never block process exit.
#[derive(Debug, Clone, Copy, PartialEq, Eq, Structural)]
pub enum ShutdownStep {
    /// Send one stop-program request, tolerating failure and timeout.
    StopProgram,
    /// Switch the radio back to the pit channel, tolerating failure and
    /// timeout.
    RestorePitChannel,
    /// Terminate the process.
    Exit,
}

/// The step that follows a finished shutdown step. The outcome of the
/// finished attempt plays no part: a failed courtesy action never stalls
/// the sequence.
pub open spec fn spec_shutdown_next(step: ShutdownStep) -> ShutdownStep {
    match step {
        ShutdownStep::StopProgram => ShutdownStep::RestorePitChannel,
        ShutdownStep::RestorePitChannel => ShutdownStep::Exit,
        ShutdownStep::Exit => ShutdownStep::Exit,
    }
}

/// The courtesy shutdown sequence in progress.
pub struct Shutdown {
    /// The step owed next.
    pub step: ShutdownStep,
}

impl Shutdown {
    /// Begins the shutdown sequence: the stop-program request comes first.
    pub fn start() -> (s: Shutdown)
        ensures
            s.step == ShutdownStep::StopProgram,
    {
        Shutdown { step: ShutdownStep::StopProgram }
    }

    /// Records that the pending step was attempted, successfully or not,
    /// and moves to the next step. The attempt's outcome cannot hold the
    /// sequence back.
    pub fn attempted(&mut self, _attempt_succeeded: bool)
        ensures
            final(self).step == spec_shutdown_next(old(self).step),
    {
        self.step = match self.step {
            ShutdownStep::StopProgram => ShutdownStep::RestorePitChannel,
            ShutdownStep::RestorePitChannel => ShutdownStep::Exit,
            ShutdownStep::Exit => ShutdownStep::Exit,
        };
    }
}

/// The shutdown sequence attempts exactly one stop request and exactly one
/// channel restore, in that order, and reaches process exit after those two
/// attempts. `spec_shutdown_next` takes no attempt outcome, so neither
/// attempt's failure can prevent the exit step: `attempted` advances by
/// `spec_shutdown_next` whatever its `attempt_succeeded` argument was.
pub proof fn lemma_shutdown_sequence()
    ensures
        spec_shutdown_next(ShutdownStep::StopProgram) == ShutdownStep::RestorePitChannel,
        spec_shutdown_next(ShutdownStep::RestorePitChannel) == ShutdownStep::Exit,
{
}

} // verus!
