//! Bit-packed snowflake id encoding.
//!
//! An id is a 64-bit value holding, from the most significant bits down:
//! elapsed milliseconds since a fixed epoch, a process id (when the layout
//! has one), a worker id, and a per-millisecond sequence number. Encoding is
//! a pure computation; the caller supplies the clock reading.

use vstd::prelude::*;

verus! {

/// Bits below the worker-id field: the sequence width.
pub const WORKER_ID_SHIFT: u64 = 12;

/// Bits below the process-id field of the four-field layout.
pub const PROCESS_ID_SHIFT: u64 = 17;

/// Bits below the timestamp field.
pub const TIMESTAMP_LEFT_SHIFT: u64 = 22;

/// The sequence counter wraps below this bound.
pub const SEQUENCE_SPACE: u64 = 0x1000;

/// The three-field layout: timestamp, a 10-bit worker id, a 12-bit sequence.
pub open spec fn spec_encode(time: u64, worker_id: u16, seq: u16) -> int {
    time * 0x400000 + worker_id * 0x1000 + seq
}

/// The four-field layout: timestamp, a 5-bit process id, a 5-bit worker id,
/// a 12-bit sequence.
pub open spec fn spec_encode_wide(time: u64, process_id: u16, worker_id: u16, seq: u16) -> int {
    time * 0x400000 + process_id * 0x20000 + worker_id * 0x1000 + seq
}

/// Pack timestamp, worker id and sequence into one 64-bit id.
pub fn encode_id(time: u64, worker_id: u16, seq: u16) -> (r: u64)
    requires
        time < 0x400_0000_0000,
        worker_id < 0x400,
        seq < 0x1000,
    ensures
        r == spec_encode(time, worker_id, seq),
{
    proof {
        assert((time << 22u64) | ((worker_id as u64) << 12u64) | (seq as u64) == time * 0x400000
            + worker_id * 0x1000 + seq) by (bit_vector)
            requires
                time < 0x400_0000_0000,
                worker_id < 0x400,
                seq < 0x1000,
        ;
    }
    (time << TIMESTAMP_LEFT_SHIFT) | ((worker_id as u64) << WORKER_ID_SHIFT) | (seq as u64)
}

/// Pack timestamp, process id, worker id and sequence into one 64-bit id.
pub fn get_uuid(count: u16, process_id: u16, worker_id: u16, time: u64) -> (r: u64)
    requires
        count < 0x1000,
        worker_id < 0x20,
        process_id < 0x20,
        time < 0x400_0000_0000,
    ensures
        r == spec_encode_wide(time, process_id, worker_id, count),
{
    proof {
        assert((time << 22u64) | ((process_id as u64) << 17u64) | ((worker_id as u64) << 12u64) | (
        count as u64) == time * 0x400000 + process_id * 0x20000 + worker_id * 0x1000 + count)
            by (bit_vector)
            requires
                count < 0x1000,
                worker_id < 0x20,
                process_id < 0x20,
                time < 0x400_0000_0000,
        ;
    }
    (time << TIMESTAMP_LEFT_SHIFT) | ((process_id as u64) << PROCESS_ID_SHIFT) | ((
    worker_id as u64) << WORKER_ID_SHIFT) | (count as u64)
}

/// The clock reported a time before the configured epoch.
#[derive(Debug, PartialEq, Eq, Structural, Clone, Copy)]
pub enum TimeError {
    ClockBeforeEpoch,
}

/// Milliseconds elapsed since the epoch, unless the clock reports a time
/// before the epoch itself.
pub fn get_time_since(epoch_ms: u64, now_ms: u64) -> (r: Result<u64, TimeError>)
    ensures
        now_ms >= epoch_ms ==> r == Ok::<u64, TimeError>((now_ms - epoch_ms) as u64),
        now_ms < epoch_ms ==> r == Err::<u64, TimeError>(TimeError::ClockBeforeEpoch),
{
    if now_ms >= epoch_ms {
        Ok(now_ms - epoch_ms)
    } else {
        Err(TimeError::ClockBeforeEpoch)
    }
}

/// The sequence counter after one more generation call: one step up, wrapped
/// into the 12-bit sequence space.
pub fn next_sequence(seq: u16) -> (r: u16)
    ensures
        r == (seq + 1) % (SEQUENCE_SPACE as int),
        r < SEQUENCE_SPACE,
{
    proof {
        assert(seq.wrapping_add(1) & 0xFFF == (seq + 1) % 0x1000 && (seq + 1) % 0x1000 < 0x1000)
            by (bit_vector);
    }
    seq.wrapping_add(1) & 0xFFF
}

/// Per-process generator state: the fixed epoch, the process and worker
/// ids, and the wrapping sequence counter. Each serving instance owns one,
/// so the hot path shares no counter across instances.
pub struct State {
    /// Reference instant, as milliseconds since the unix epoch.
    pub epoch_ms: u64,
    /// Process id of this instance, for the four-field layout.
    pub proc_id: u16,
    /// Worker id of this instance; may be rebound while a lease changes.
    pub worker_id: u16,
    /// Wrapping sequence counter; step it only through `generate`.
    pub counter: u16,
}

impl State {
    /// Field bounds of the four-field layout, and the counter inside the
    /// sequence space.
    pub open spec fn wf(&self) -> bool {
        &&& self.proc_id < 0x20
        &&& self.worker_id < 0x20
        &&& self.counter < SEQUENCE_SPACE
    }

    /// A generator that has not produced any id yet.
    pub fn new(epoch_ms: u64, proc_id: u16, worker_id: u16) -> (r: State)
        requires
            proc_id < 0x20,
            worker_id < 0x20,
        ensures
            r.wf(),
            r.epoch_ms == epoch_ms,
            r.proc_id == proc_id,
            r.worker_id == worker_id,
            r.counter == 0,
    {
        State { epoch_ms, proc_id, worker_id, counter: 0 }
    }

    /// Rebind the worker id, as the lease protocol's id channel does.
    pub fn set_worker_id(&mut self, worker_id: u16)
        requires
            old(self).wf(),
            worker_id < 0x20,
        ensures
            final(self).wf(),
            final(self).worker_id == worker_id,
            final(self).epoch_ms == old(self).epoch_ms,
            final(self).proc_id == old(self).proc_id,
            final(self).counter == old(self).counter,
    {
        self.worker_id = worker_id;
    }

    /// Produce one id for the given clock reading: step the sequence counter
    /// and pack the elapsed time with this instance's ids. A clock reading
    /// before the epoch is an error and leaves the state unchanged.
    pub fn generate(&mut self, now_ms: u64) -> (r: Result<u64, TimeError>)
        requires
            old(self).wf(),
            now_ms < old(self).epoch_ms + 0x400_0000_0000,
        ensures
            final(self).wf(),
            final(self).epoch_ms == old(self).epoch_ms,
            final(self).proc_id == old(self).proc_id,
            final(self).worker_id == old(self).worker_id,
            now_ms < old(self).epoch_ms ==> r == Err::<u64, TimeError>(TimeError::ClockBeforeEpoch)
                && final(self).counter == old(self).counter,
            now_ms >= old(self).epoch_ms ==> {
                &&& final(self).counter == (old(self).counter + 1) % (SEQUENCE_SPACE as int)
                &&& (r matches Ok(id) && id == spec_encode_wide(
                    (now_ms - old(self).epoch_ms) as u64,
                    old(self).proc_id,
                    old(self).worker_id,
                    final(self).counter,
                ))
            },
    {
        let elapsed = match get_time_since(self.epoch_ms, now_ms) {
            Ok(t) => t,
            Err(e) => {
                return Err(e);
            },
        };
        self.counter = next_sequence(self.counter);
        Ok(get_uuid(self.counter, self.proc_id, self.worker_id, elapsed))
    }
}

/// Law: ids from one worker are strictly ordered while the clock does not
/// move backward and the sequence does not wrap within one millisecond. A
/// later millisecond, or a later sequence number within the same
/// millisecond, gives a strictly larger id.
pub proof fn lemma_encoder_monotonic(t1: u64, t2: u64, w: u16, s1: u16, s2: u16)
    requires
        w < 0x400,
        s1 < 0x1000,
        s2 < 0x1000,
        t1 < t2 || (t1 == t2 && s1 < s2),
    ensures
        spec_encode(t1, w, s1) < spec_encode(t2, w, s2),
{
}

/// Law: the same, for the four-field layout.
pub proof fn lemma_encoder_wide_monotonic(t1: u64, t2: u64, p: u16, w: u16, s1: u16, s2: u16)
    requires
        p < 0x20,
        w < 0x20,
        s1 < 0x1000,
        s2 < 0x1000,
        t1 < t2 || (t1 == t2 && s1 < s2),
    ensures
        spec_encode_wide(t1, p, w, s1) < spec_encode_wide(t2, p, w, s2),
{
}

/// Law: the fields can be read back off an encoded id, so two ids of the
/// same millisecond and worker differ only in their low 12 sequence bits.
pub proof fn lemma_encode_fields(t: u64, w: u16, s: u16)
    requires
        t < 0x400_0000_0000,
        w < 0x400,
        s < 0x1000,
    ensures
        spec_encode(t, w, s) % 0x1000 == s,
        spec_encode(t, w, s) / 0x1000 % 0x400 == w,
        spec_encode(t, w, s) / 0x400000 == t,
{
    let r = (spec_encode(t, w, s)) as u64;
    assert(r == t * 0x400000 + w * 0x1000 + s ==> (t < 0x400_0000_0000 && w < 0x400 && s < 0x1000)
        ==> (r % 0x1000 == s && r / 0x1000 % 0x400 == w && r / 0x400000 == t)) by (bit_vector);
}

} // verus!
