//! Computations behind the generation-request surface.
//!
//! The HTTP layer outside maps a request to a `Query` and a clock reading,
//! and sends back whatever string comes out.

use vstd::prelude::*;
use crate::encoder::{encode_id, spec_encode, spec_encode_wide, State, TimeError, SEQUENCE_SPACE};
use crate::formats::{format_spec, format_u64, Format, Query};

verus! {

/// The encoding a request selects: the asked-for one, or decimal.
pub open spec fn spec_selected_format(q: Query) -> Format {
    match q.format {
        Some(f) => f,
        None => Format::Decimal,
    }
}

/// Serve one generation request: step this instance's sequence counter,
/// pack an id out of the clock reading and the instance's ids, and render
/// it in the requested encoding. A clock before the epoch is an error and
/// changes nothing.
pub fn get(state: &mut State, now_ms: u64, q: &Query) -> (r: Result<String, TimeError>)
    requires
        old(state).wf(),
        now_ms < old(state).epoch_ms + 0x400_0000_0000,
    ensures
        final(state).wf(),
        final(state).epoch_ms == old(state).epoch_ms,
        final(state).proc_id == old(state).proc_id,
        final(state).worker_id == old(state).worker_id,
        now_ms < old(state).epoch_ms ==> r == Err::<String, TimeError>(
            TimeError::ClockBeforeEpoch,
        ) && final(state).counter == old(state).counter,
        now_ms >= old(state).epoch_ms ==> {
            &&& final(state).counter == (old(state).counter + 1) % (SEQUENCE_SPACE as int)
            &&& (r matches Ok(s) && s@ == format_spec(
                spec_encode_wide(
                    (now_ms - old(state).epoch_ms) as u64,
                    old(state).proc_id,
                    old(state).worker_id,
                    final(state).counter,
                ) as u64,
                spec_selected_format(*q),
            ))
        },
{
    let id = match state.generate(now_ms) {
        Ok(id) => id,
        Err(e) => {
            return Err(e);
        },
    };
    let f = match q.format {
        Some(f) => f,
        None => Format::Decimal,
    };
    Ok(format_u64(id, f))
}

/// Render one id of the three-field layout in the requested encoding: the
/// computation behind the allocator-less generator's request handler.
pub fn render_id(time: u64, worker_id: u16, seq: u16, f: Format) -> (r: String)
    requires
        time < 0x400_0000_0000,
        worker_id < 0x400,
        seq < 0x1000,
    ensures
        r@ == format_spec(spec_encode(time, worker_id, seq) as u64, f),
{
    format_u64(encode_id(time, worker_id, seq), f)
}

} // verus!
