use vstd::prelude::*;
use crate::codec::{CounterStat, DecodeError, decode_cpu, decode_process, encode_stat, stat_bytes, cpu_of, process_of};
use crate::counting::{CounterState, Kind, Resource, Scope, kind_of};
use crate::table::{MAX_HANDLE, ResourceTable, TableError};

verus! {

/// Why a host operation failed; the guest receives the text of `message`.
#[derive(Clone, Debug)]
pub enum OpError {
    /// The handle does not resolve to a value of the kind the operation needs.
    InvalidHandle,
    /// No fresh handle is left.
    Exhausted,
    /// The native counter primitive refused, with its own words.
    Native(String),
    /// A serialised argument could not be read.
    Decode(DecodeError),
    /// A grouped read lacked the member with this event id.
    MissingMember(u64),
}

impl OpError {
    pub fn from_table(e: TableError) -> (r: OpError)
        ensures
            e == TableError::InvalidHandle ==> r == OpError::InvalidHandle,
            e == TableError::Exhausted ==> r == OpError::Exhausted,
    {
        match e {
            TableError::InvalidHandle => OpError::InvalidHandle,
            TableError::Exhausted => OpError::Exhausted,
        }
    }

    /// The UTF-8 text handed to the guest.
    pub fn message(&self) -> (r: String)
        ensures
            self is InvalidHandle ==> r@ == "Invalid rid"@,
            self is Native ==> r@ == self->Native_0@,
    {
        match self {
            OpError::InvalidHandle => "Invalid rid".to_owned(),
            OpError::Exhausted => "Resource table exhausted".to_owned(),
            OpError::Native(m) => m.clone(),
            OpError::Decode(_) => "Malformed payload".to_owned(),
            OpError::MissingMember(_) => "Member missing from group read".to_owned(),
        }
    }
}

/// Counter figures before any read.
pub open spec fn zero_stat() -> CounterStat {
    CounterStat { event_count: 0, time_enabled: 0, time_running: 0 }
}

/// The table can still hand out a handle.
pub open spec fn has_room(t: &ResourceTable) -> bool {
    t@.len() <= MAX_HANDLE as int
}

/// Reads the target scope out of its two serialised parts.
pub fn decode_scope(process: &Vec<u8>, cpu: &Vec<u8>) -> (r: Result<Scope, OpError>)
    ensures
        match (process_of(process@), cpu_of(cpu@)) {
            (Ok(p), Ok(c)) => r == Ok::<Scope, OpError>(Scope { process: p, cpu: c }),
            (Err(e), _) => r == Err::<Scope, OpError>(OpError::Decode(e)),
            (Ok(_), Err(e)) => r == Err::<Scope, OpError>(OpError::Decode(e)),
        },
{
    let p = match decode_process(process) {
        Ok(p) => p,
        Err(e) => return Err(OpError::Decode(e)),
    };
    let c = match decode_cpu(cpu) {
        Ok(c) => c,
        Err(e) => return Err(OpError::Decode(e)),
    };
    Ok(Scope { process: p, cpu: c })
}

/// Registers a counter the native primitive opened for `scope`; the counter starts disabled.
/// `native` is the outcome of that open: no handle exists unless it succeeded.
pub fn counter_new(t: &mut ResourceTable, scope: Scope, native: Result<(), String>) -> (r: Result<u32, OpError>)
    ensures
        old(t).evolves(final(t)),
        match r {
            Ok(h) => {
                &&& native is Ok
                &&& h as int == old(t)@.len()
                &&& final(t)@ == old(t)@.push(Some(Resource::Counter(
                    CounterState { scope, enabled: false, last: zero_stat() })))
            },
            Err(e) => {
                &&& final(t)@ == old(t)@
                &&& match native {
                    Err(m) => e == OpError::Native(m),
                    Ok(()) => e == OpError::Exhausted && !has_room(old(t)),
                }
            },
        },
{
    if let Err(m) = native {
        return Err(OpError::Native(m));
    }
    let c = CounterState { scope, enabled: false, last: CounterStat { event_count: 0, time_enabled: 0, time_running: 0 } };
    match t.push(Resource::Counter(c)) {
        Ok(h) => Ok(h),
        Err(e) => Err(OpError::from_table(e)),
    }
}

/// The counter under `h`, once the table is known to hold one there.
fn counter_at(t: &ResourceTable, h: u32) -> (r: Result<CounterState, OpError>)
    ensures
        match r {
            Ok(c) => t.holds(h, Kind::Counter) && t.entry(h) == Resource::Counter(c),
            Err(e) => !t.holds(h, Kind::Counter) && e == OpError::InvalidHandle,
        },
{
    match t.get(h, Kind::Counter) {
        Ok(Resource::Counter(c)) => Ok(*c),
        _ => Err(OpError::InvalidHandle),
    }
}

/// The outcome every single-counter transition shares: the handle is checked first, then
/// the native outcome; only when both pass does the counter take its new state.
pub open spec fn counter_step(
    before: &ResourceTable,
    after: &ResourceTable,
    h: u32,
    native: Result<(), String>,
    r: Result<(), OpError>,
    next: spec_fn(CounterState) -> CounterState,
) -> bool {
    if !before.holds(h, Kind::Counter) {
        r == Err::<(), OpError>(OpError::InvalidHandle) && after@ == before@
    } else if native is Err {
        r == Err::<(), OpError>(OpError::Native(native->Err_0)) && after@ == before@
    } else {
        &&& r is Ok
        &&& after@ == before@.update(h as int, Some(Resource::Counter(
            next(before.entry(h)->Counter_0))))
    }
}

pub open spec fn enabled_as(c: CounterState, on: bool) -> CounterState {
    CounterState { enabled: on, ..c }
}

pub open spec fn reset_counter(c: CounterState) -> CounterState {
    CounterState { last: CounterStat { event_count: 0, ..c.last }, ..c }
}

/// Disabling a counter twice is the same as disabling it once; its figures stay.
pub proof fn lemma_counter_disable_idempotent(c: CounterState)
    ensures
        enabled_as(enabled_as(c, false), false) == enabled_as(c, false),
        enabled_as(c, false).last == c.last,
{
}

/// A counter reset zeroes the count and leaves the enabled state alone.
pub proof fn lemma_counter_reset_keeps_state(c: CounterState)
    ensures
        reset_counter(c).enabled == c.enabled,
        reset_counter(c).last.event_count == 0,
        reset_counter(c).scope == c.scope,
{
}

/// The three single-counter transitions that only flip state.
enum CounterAction {
    Enable,
    Disable,
    Reset,
}

spec fn applied(a: CounterAction, c: CounterState) -> CounterState {
    match a {
        CounterAction::Enable => enabled_as(c, true),
        CounterAction::Disable => enabled_as(c, false),
        CounterAction::Reset => reset_counter(c),
    }
}

fn counter_transition(t: &mut ResourceTable, h: u32, native: Result<(), String>, a: CounterAction) -> (r: Result<(), OpError>)
    ensures
        old(t).evolves(final(t)),
        counter_step(old(t), final(t), h, native, r, |c: CounterState| applied(a, c)),
{
    let c = match counter_at(t, h) {
        Ok(c) => c,
        Err(e) => return Err(e),
    };
    if let Err(m) = native {
        return Err(OpError::Native(m));
    }
    let next = match a {
        CounterAction::Enable => CounterState { enabled: true, ..c },
        CounterAction::Disable => CounterState { enabled: false, ..c },
        CounterAction::Reset => CounterState { last: CounterStat { event_count: 0, ..c.last }, ..c },
    };
    t.replace(h, Resource::Counter(next));
    Ok(())
}

/// Marks the counter under `h` enabled once the native enable succeeded.
pub fn counter_enable(t: &mut ResourceTable, h: u32, native: Result<(), String>) -> (r: Result<(), OpError>)
    ensures
        old(t).evolves(final(t)),
        counter_step(old(t), final(t), h, native, r, |c: CounterState| enabled_as(c, true)),
{
    counter_transition(t, h, native, CounterAction::Enable)
}

/// Marks the counter under `h` disabled once the native disable succeeded; its figures stay.
pub fn counter_disable(t: &mut ResourceTable, h: u32, native: Result<(), String>) -> (r: Result<(), OpError>)
    ensures
        old(t).evolves(final(t)),
        counter_step(old(t), final(t), h, native, r, |c: CounterState| enabled_as(c, false)),
{
    counter_transition(t, h, native, CounterAction::Disable)
}

/// Zeroes the count of the counter under `h` once the native reset succeeded;
/// whether it is enabled does not change.
pub fn counter_reset(t: &mut ResourceTable, h: u32, native: Result<(), String>) -> (r: Result<(), OpError>)
    ensures
        old(t).evolves(final(t)),
        counter_step(old(t), final(t), h, native, r, |c: CounterState| reset_counter(c)),
{
    counter_transition(t, h, native, CounterAction::Reset)
}

/// Records the native read of the counter under `h` and returns its wire form.
pub fn counter_stat(t: &mut ResourceTable, h: u32, native: Result<CounterStat, String>) -> (r: Result<Vec<u8>, OpError>)
    ensures
        old(t).evolves(final(t)),
        !old(t).holds(h, Kind::Counter) ==> r == Err::<Vec<u8>, OpError>(OpError::InvalidHandle) && final(t)@ == old(t)@,
        old(t).holds(h, Kind::Counter) ==> match native {
            Err(m) => r == Err::<Vec<u8>, OpError>(OpError::Native(m)) && final(t)@ == old(t)@,
            Ok(s) => {
                &&& r is Ok
                &&& r->Ok_0@ == stat_bytes(s)
                &&& final(t)@ == old(t)@.update(h as int, Some(Resource::Counter(
                    CounterState { last: s, ..old(t).entry(h)->Counter_0 })))
            },
        },
{
    let c = match counter_at(t, h) {
        Ok(c) => c,
        Err(e) => return Err(e),
    };
    let s = match native {
        Ok(s) => s,
        Err(m) => return Err(OpError::Native(m)),
    };
    t.replace(h, Resource::Counter(CounterState { last: s, ..c }));
    Ok(encode_stat(&s))
}

} // verus!
