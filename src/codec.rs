use vstd::prelude::*;
use crate::counting::{Cpu, Process};

verus! {

/// Figures of one counter read: the raw count and the two times needed to scale it
/// when the kernel multiplexed the counter.
#[derive(PartialEq, Eq, Structural, Clone, Copy, Debug)]
pub struct CounterStat {
    pub event_count: u64,
    pub time_enabled: u64,
    pub time_running: u64,
}

/// One member's figure in a grouped read.
#[derive(PartialEq, Eq, Structural, Clone, Copy, Debug)]
pub struct MemberStat {
    pub event_id: u64,
    pub count: u64,
}

/// One consistent read of a whole group: shared times, then each member in the
/// order it was added.
#[derive(Clone, Debug)]
pub struct GroupStat {
    pub time_enabled: u64,
    pub time_running: u64,
    pub entries: Vec<MemberStat>,
}

/// A payload that does not have the layout its type asks for.
#[derive(PartialEq, Eq, Structural, Clone, Copy, Debug)]
pub enum DecodeError {
    BadLength,
    BadTag,
}

/// Encoded size of a `CounterStat`: three little-endian `u64`s.
pub const STAT_LEN: usize = 24;

/// The eight little-endian bytes of `v`.
pub open spec fn u64_bytes(v: u64) -> Seq<u8> {
    seq![
        (v & 0xff) as u8, ((v >> 8u64) & 0xff) as u8,
        ((v >> 16u64) & 0xff) as u8, ((v >> 24u64) & 0xff) as u8,
        ((v >> 32u64) & 0xff) as u8, ((v >> 40u64) & 0xff) as u8,
        ((v >> 48u64) & 0xff) as u8, ((v >> 56u64) & 0xff) as u8,
    ]
}

/// The four little-endian bytes of `v`.
pub open spec fn u32_bytes(v: u32) -> Seq<u8> {
    seq![
        (v & 0xff) as u8, ((v >> 8) & 0xff) as u8,
        ((v >> 16) & 0xff) as u8, ((v >> 24) & 0xff) as u8,
    ]
}

/// The `u64` whose little-endian bytes start at `at` in `b`.
pub open spec fn u64_at(b: Seq<u8>, at: int) -> u64 {
    (b[at] as u64)
        | ((b[at + 1] as u64) << 8u64)
        | ((b[at + 2] as u64) << 16u64)
        | ((b[at + 3] as u64) << 24u64)
        | ((b[at + 4] as u64) << 32u64)
        | ((b[at + 5] as u64) << 40u64)
        | ((b[at + 6] as u64) << 48u64)
        | ((b[at + 7] as u64) << 56u64)
}

/// The `u32` whose little-endian bytes start at `at` in `b`.
pub open spec fn u32_at(b: Seq<u8>, at: int) -> u32 {
    (b[at] as u32)
        | ((b[at + 1] as u32) << 8u32)
        | ((b[at + 2] as u32) << 16u32)
        | ((b[at + 3] as u32) << 24u32)
}

/// Wire form of a `CounterStat`: count, time enabled, time running.
pub open spec fn stat_bytes(s: CounterStat) -> Seq<u8> {
    u64_bytes(s.event_count) + u64_bytes(s.time_enabled) + u64_bytes(s.time_running)
}

/// Wire form of the member entries: event id then count, for each in turn.
pub open spec fn entries_bytes(e: Seq<MemberStat>) -> Seq<u8>
    decreases e.len(),
{
    if e.len() == 0 {
        Seq::empty()
    } else {
        entries_bytes(e.drop_last()) + u64_bytes(e.last().event_id) + u64_bytes(e.last().count)
    }
}

/// Wire form of a grouped read: the two times, the member count, then the entries.
pub open spec fn group_stat_bytes(time_enabled: u64, time_running: u64, e: Seq<MemberStat>) -> Seq<u8> {
    u64_bytes(time_enabled) + u64_bytes(time_running) + u64_bytes(e.len() as u64) + entries_bytes(e)
}

/// What a byte string decodes to as a `CounterStat`.
pub open spec fn stat_of(b: Seq<u8>) -> Option<CounterStat> {
    if b.len() == STAT_LEN {
        Some(CounterStat {
            event_count: u64_at(b, 0),
            time_enabled: u64_at(b, 8),
            time_running: u64_at(b, 16),
        })
    } else {
        None
    }
}

/// Wire form of a `Process`: a tag byte, then the pid for `Pid`.
pub open spec fn process_bytes(p: Process) -> Seq<u8> {
    match p {
        Process::Current => seq![0u8],
        Process::Any => seq![1u8],
        Process::Pid(pid) => seq![2u8] + u32_bytes(pid),
    }
}

pub open spec fn process_of(b: Seq<u8>) -> Result<Process, DecodeError> {
    if b.len() == 0 {
        Err(DecodeError::BadLength)
    } else if b[0] == 0 {
        if b.len() == 1 { Ok(Process::Current) } else { Err(DecodeError::BadLength) }
    } else if b[0] == 1 {
        if b.len() == 1 { Ok(Process::Any) } else { Err(DecodeError::BadLength) }
    } else if b[0] == 2 {
        if b.len() == 5 { Ok(Process::Pid(u32_at(b, 1))) } else { Err(DecodeError::BadLength) }
    } else {
        Err(DecodeError::BadTag)
    }
}

/// Wire form of a `Cpu`: a tag byte, then the cpu number for `Id`.
pub open spec fn cpu_bytes(c: Cpu) -> Seq<u8> {
    match c {
        Cpu::Any => seq![0u8],
        Cpu::Id(id) => seq![1u8] + u32_bytes(id),
    }
}

pub open spec fn cpu_of(b: Seq<u8>) -> Result<Cpu, DecodeError> {
    if b.len() == 0 {
        Err(DecodeError::BadLength)
    } else if b[0] == 0 {
        if b.len() == 1 { Ok(Cpu::Any) } else { Err(DecodeError::BadLength) }
    } else if b[0] == 1 {
        if b.len() == 5 { Ok(Cpu::Id(u32_at(b, 1))) } else { Err(DecodeError::BadLength) }
    } else {
        Err(DecodeError::BadTag)
    }
}

proof fn lemma_u64_bytes(v: u64)
    ensures
        u64_at(u64_bytes(v), 0) == v,
{
    let b = u64_bytes(v);
    let (b0, b1, b2, b3) = (b[0], b[1], b[2], b[3]);
    let (b4, b5, b6, b7) = (b[4], b[5], b[6], b[7]);
    assert(b0 == (v & 0xff) as u8 && b1 == ((v >> 8u64) & 0xff) as u8
        && b2 == ((v >> 16u64) & 0xff) as u8 && b3 == ((v >> 24u64) & 0xff) as u8
        && b4 == ((v >> 32u64) & 0xff) as u8 && b5 == ((v >> 40u64) & 0xff) as u8
        && b6 == ((v >> 48u64) & 0xff) as u8 && b7 == ((v >> 56u64) & 0xff) as u8);
    assert((b0 as u64) | ((b1 as u64) << 8u64) | ((b2 as u64) << 16u64) | ((b3 as u64) << 24u64)
        | ((b4 as u64) << 32u64) | ((b5 as u64) << 40u64) | ((b6 as u64) << 48u64)
        | ((b7 as u64) << 56u64) == v) by (bit_vector)
        requires
            b0 == (v & 0xff) as u8, b1 == ((v >> 8u64) & 0xff) as u8,
            b2 == ((v >> 16u64) & 0xff) as u8, b3 == ((v >> 24u64) & 0xff) as u8,
            b4 == ((v >> 32u64) & 0xff) as u8, b5 == ((v >> 40u64) & 0xff) as u8,
            b6 == ((v >> 48u64) & 0xff) as u8, b7 == ((v >> 56u64) & 0xff) as u8,
    ;
}

proof fn lemma_u64_bytes_at(pre: Seq<u8>, v: u64, post: Seq<u8>)
    ensures
        u64_at(pre + u64_bytes(v) + post, pre.len() as int) == v,
{
    let all = pre + u64_bytes(v) + post;
    let n = pre.len() as int;
    assert forall|i: int| 0 <= i < 8 implies all[n + i] == u64_bytes(v)[i] by {}
    lemma_u64_bytes(v);
}

/// Decoding the wire form of any statistics record gives that record back.
pub proof fn lemma_stat_round_trip(s: CounterStat)
    ensures
        stat_of(stat_bytes(s)) == Some(s),
{
    let e = Seq::<u8>::empty();
    let (a, b, c) = (u64_bytes(s.event_count), u64_bytes(s.time_enabled), u64_bytes(s.time_running));
    assert(stat_bytes(s) =~= e + a + (b + c));
    lemma_u64_bytes_at(e, s.event_count, b + c);
    assert(stat_bytes(s) =~= a + b + c);
    lemma_u64_bytes_at(a, s.time_enabled, c);
    assert(stat_bytes(s) =~= (a + b) + c + e);
    lemma_u64_bytes_at(a + b, s.time_running, e);
}

fn push_u64(out: &mut Vec<u8>, v: u64)
    ensures
        final(out)@ == old(out)@ + u64_bytes(v),
{
    out.push((v & 0xff) as u8);
    out.push(((v >> 8u64) & 0xff) as u8);
    out.push(((v >> 16u64) & 0xff) as u8);
    out.push(((v >> 24u64) & 0xff) as u8);
    out.push(((v >> 32u64) & 0xff) as u8);
    out.push(((v >> 40u64) & 0xff) as u8);
    out.push(((v >> 48u64) & 0xff) as u8);
    out.push(((v >> 56u64) & 0xff) as u8);
    assert(out@ =~= old(out)@ + u64_bytes(v));
}

fn read_u64(b: &Vec<u8>, at: usize) -> (r: u64)
    requires
        at <= 16,
        at + 8 <= b@.len(),
    ensures
        r == u64_at(b@, at as int),
{
    (b[at] as u64)
        | ((b[at + 1] as u64) << 8u64)
        | ((b[at + 2] as u64) << 16u64)
        | ((b[at + 3] as u64) << 24u64)
        | ((b[at + 4] as u64) << 32u64)
        | ((b[at + 5] as u64) << 40u64)
        | ((b[at + 6] as u64) << 48u64)
        | ((b[at + 7] as u64) << 56u64)
}

fn read_u32(b: &Vec<u8>, at: usize) -> (r: u32)
    requires
        at <= 16,
        at + 4 <= b@.len(),
    ensures
        r == u32_at(b@, at as int),
{
    (b[at] as u32)
        | ((b[at + 1] as u32) << 8u32)
        | ((b[at + 2] as u32) << 16u32)
        | ((b[at + 3] as u32) << 24u32)
}

/// Serialises a statistics record for the guest.
pub fn encode_stat(s: &CounterStat) -> (r: Vec<u8>)
    ensures
        r@ == stat_bytes(*s),
{
    let mut out: Vec<u8> = Vec::new();
    push_u64(&mut out, s.event_count);
    push_u64(&mut out, s.time_enabled);
    push_u64(&mut out, s.time_running);
    assert(out@ =~= stat_bytes(*s));
    out
}

/// Serialises a grouped read for the guest.
pub fn encode_group_stat(s: &GroupStat) -> (r: Vec<u8>)
    ensures
        r@ == group_stat_bytes(s.time_enabled, s.time_running, s.entries@),
{
    let mut out: Vec<u8> = Vec::new();
    push_u64(&mut out, s.time_enabled);
    push_u64(&mut out, s.time_running);
    push_u64(&mut out, s.entries.len() as u64);
    let ghost head = out@;
    let n = s.entries.len();
    let mut i: usize = 0;
    while i < n
        invariant
            n == s.entries@.len(),
            i <= n,
            out@ == head + entries_bytes(s.entries@.take(i as int)),
        decreases n - i,
    {
        let m = s.entries[i];
        push_u64(&mut out, m.event_id);
        push_u64(&mut out, m.count);
        proof {
            let next = s.entries@.take(i + 1);
            assert(next.drop_last() =~= s.entries@.take(i as int));
            assert(next.last() == m);
        }
        i += 1;
    }
    assert(s.entries@.take(n as int) =~= s.entries@);
    out
}

/// Reads a statistics record back from its wire form.
pub fn decode_stat(b: &Vec<u8>) -> (r: Result<CounterStat, DecodeError>)
    ensures
        match stat_of(b@) {
            Some(s) => r == Ok::<CounterStat, DecodeError>(s),
            None => r == Err::<CounterStat, DecodeError>(DecodeError::BadLength),
        },
{
    if b.len() != STAT_LEN {
        return Err(DecodeError::BadLength);
    }
    Ok(CounterStat {
        event_count: read_u64(b, 0),
        time_enabled: read_u64(b, 8),
        time_running: read_u64(b, 16),
    })
}

/// Reads the process a guest asks for.
pub fn decode_process(b: &Vec<u8>) -> (r: Result<Process, DecodeError>)
    ensures
        r == process_of(b@),
{
    if b.len() == 0 {
        Err(DecodeError::BadLength)
    } else if b[0] == 0 {
        if b.len() == 1 { Ok(Process::Current) } else { Err(DecodeError::BadLength) }
    } else if b[0] == 1 {
        if b.len() == 1 { Ok(Process::Any) } else { Err(DecodeError::BadLength) }
    } else if b[0] == 2 {
        if b.len() == 5 { Ok(Process::Pid(read_u32(b, 1))) } else { Err(DecodeError::BadLength) }
    } else {
        Err(DecodeError::BadTag)
    }
}

/// Reads the cpu a guest asks for.
pub fn decode_cpu(b: &Vec<u8>) -> (r: Result<Cpu, DecodeError>)
    ensures
        r == cpu_of(b@),
{
    if b.len() == 0 {
        Err(DecodeError::BadLength)
    } else if b[0] == 0 {
        if b.len() == 1 { Ok(Cpu::Any) } else { Err(DecodeError::BadLength) }
    } else if b[0] == 1 {
        if b.len() == 5 { Ok(Cpu::Id(read_u32(b, 1))) } else { Err(DecodeError::BadLength) }
    } else {
        Err(DecodeError::BadTag)
    }
}

} // verus!
