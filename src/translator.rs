use vstd::prelude::*;
use crate::buttons::{is_tracked, ButtonTable};
use crate::engine::{ButtonState, Verdict};

verus! {

/// Linux event type of synchronization markers.
pub const EV_SYN: u16 = 0;

/// Linux event type of key and button events.
pub const EV_KEY: u16 = 1;

/// Linux event type of relative-axis (movement, wheel) events.
pub const EV_REL: u16 = 2;

/// One low-level input event, as the device reports it.
#[derive(Clone, Copy, Debug, PartialEq, Eq, Structural)]
pub struct InputRecord {
    pub kind: u16,
    pub code: u16,
    pub value: i32,
}

impl InputRecord {
    pub fn new(kind: u16, code: u16, value: i32) -> (r: InputRecord)
        ensures
            r == (InputRecord { kind, code, value }),
    {
        InputRecord { kind, code, value }
    }
}

/// The event is a key event of a tracked button, which the debounce engine
/// decides on; every other event passes through.
pub open spec fn is_debounced(event: InputRecord) -> bool {
    event.kind == EV_KEY && is_tracked(event.code)
}

/// The verdict on `event` at `now` given the table before it.
pub open spec fn verdict_for(table: Map<u16, ButtonState>, event: InputRecord, now: u64) -> Verdict {
    if is_debounced(event) {
        table[event.code].verdict_on(event.value, now)
    } else {
        Verdict::Forward
    }
}

/// The table after `event` at `now`.
pub open spec fn table_after(
    table: Map<u16, ButtonState>,
    event: InputRecord,
    now: u64,
) -> Map<u16, ButtonState> {
    if is_debounced(event) {
        table.insert(event.code, table[event.code].after(event.value, now))
    } else {
        table
    }
}

/// Decides whether `event`, received at `now`, goes on to the virtual
/// device: tracked-button key events through the debounce engine, all
/// others unconditionally.
pub fn handle_event(button_states: &mut ButtonTable, event: &InputRecord, now: u64) -> (v: Verdict)
    requires
        old(button_states).wf(),
    ensures
        final(button_states).wf(),
        v == verdict_for(old(button_states)@, *event, now),
        final(button_states)@ == table_after(old(button_states)@, *event, now),
{
    if event.kind == EV_KEY {
        if let Some(_) = button_states.state_of(event.code) {
            return button_states.evaluate(event.code, event.value, now);
        }
    }
    Verdict::Forward
}

/// The events of a batch that are forwarded, in order, and the table after
/// the batch; each event comes with the time it was received.
pub open spec fn filter_run(
    table: Map<u16, ButtonState>,
    batch: Seq<(InputRecord, u64)>,
) -> (Seq<InputRecord>, Map<u16, ButtonState>)
    decreases batch.len(),
{
    if batch.len() == 0 {
        (Seq::empty(), table)
    } else {
        let (out, before) = filter_run(table, batch.drop_last());
        let (event, now) = batch.last();
        let kept = if verdict_for(before, event, now) == Verdict::Forward {
            out.push(event)
        } else {
            out
        };
        (kept, table_after(before, event, now))
    }
}

/// Runs a batch of events, each with its receive time, through the
/// translator and returns those to emit, unmodified and in order.
pub fn filter_batch(button_states: &mut ButtonTable, batch: &Vec<(InputRecord, u64)>) -> (out: Vec<InputRecord>)
    requires
        old(button_states).wf(),
    ensures
        final(button_states).wf(),
        (out@, final(button_states)@) == filter_run(old(button_states)@, batch@),
{
    let mut out: Vec<InputRecord> = Vec::new();
    let mut i: usize = 0;
    while i < batch.len()
        invariant
            i <= batch@.len(),
            button_states.wf(),
            (out@, button_states@) == filter_run(old(button_states)@, batch@.subrange(0, i as int)),
        decreases batch@.len() - i,
    {
        let (event, now) = batch[i];
        let v = handle_event(button_states, &event, now);
        if v == Verdict::Forward {
            out.push(event);
        }
        proof {
            assert(batch@.subrange(0, i + 1).drop_last() =~= batch@.subrange(0, i as int));
        }
        i = i + 1;
    }
    assert(batch@.subrange(0, batch@.len() as int) =~= batch@);
    out
}

/// Events that are not key events of a tracked button (movement, wheel,
/// synchronization, other keys) are forwarded unmodified and leave every
/// button's state as it was.
pub proof fn lemma_pass_through(
    table: Map<u16, ButtonState>,
    event: InputRecord,
    now: u64,
)
    requires
        !is_debounced(event),
    ensures
        verdict_for(table, event, now) == Verdict::Forward,
        table_after(table, event, now) == table,
{
}

/// Relative-axis and synchronization events are forwarded whatever state the
/// buttons are in.
pub proof fn lemma_axis_and_sync_forwarded(
    table: Map<u16, ButtonState>,
    event: InputRecord,
    now: u64,
)
    requires
        event.kind == EV_REL || event.kind == EV_SYN,
    ensures
        verdict_for(table, event, now) == Verdict::Forward,
        table_after(table, event, now) == table,
{
}

} // verus!
