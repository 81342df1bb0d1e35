use vstd::prelude::*;
use crate::codec::{CounterStat, GroupStat, MemberStat, encode_group_stat, encode_stat, group_stat_bytes, stat_bytes};
use crate::counting::{FixedModel, FixedState, GroupModel, GroupState, GuardRef, Kind, Resource, Scope, origin_of};
use crate::ops::{OpError, has_room};
use crate::table::{MAX_HANDLE, ResourceTable};

verus! {

/// A native read of a whole group: the shared times and `(event id, count)` pairs in
/// whatever order the kernel gave them.
pub struct GroupRead {
    pub time_enabled: u64,
    pub time_running: u64,
    pub values: Vec<(u64, u64)>,
}

/// The count the first pair for `id` carries.
pub open spec fn count_for(values: Seq<(u64, u64)>, id: u64) -> Option<u64>
    decreases values.len(),
{
    if values.len() == 0 {
        None
    } else if values[0].0 == id {
        Some(values[0].1)
    } else {
        count_for(values.drop_first(), id)
    }
}

/// Every member has a count in the read.
pub open spec fn all_present(members: Seq<u64>, values: Seq<(u64, u64)>) -> bool {
    forall|i: int| 0 <= i < members.len() ==> (#[trigger] count_for(values, members[i])) is Some
}

/// The entries of a grouped read: member `i` at position `i`, with its count.
pub open spec fn assembled(members: Seq<u64>, values: Seq<(u64, u64)>) -> Seq<MemberStat> {
    Seq::new(members.len(), |i: int| MemberStat {
        event_id: members[i],
        count: count_for(values, members[i])->Some_0,
    })
}

pub open spec fn zeros(n: nat) -> Seq<u64> {
    Seq::new(n, |i: int| 0u64)
}

fn lookup_count(values: &Vec<(u64, u64)>, id: u64) -> (r: Option<u64>)
    ensures
        r == count_for(values@, id),
{
    let n = values.len();
    let mut i: usize = 0;
    assert(values@.subrange(0, n as int) =~= values@);
    while i < n
        invariant
            n == values@.len(),
            i <= n,
            count_for(values@, id) == count_for(values@.subrange(i as int, n as int), id),
        decreases n - i,
    {
        let (k, c) = values[i];
        let ghost rest = values@.subrange(i as int, n as int);
        assert(rest[0] == values@[i as int]);
        if k == id {
            return Some(c);
        }
        assert(rest.drop_first() =~= values@.subrange(i + 1, n as int));
        i += 1;
    }
    assert(values@.subrange(n as int, n as int).len() == 0);
    None
}

/// Puts a native grouped read in member order.
pub fn assemble_group_stat(members: &Vec<u64>, read: &GroupRead) -> (r: Result<GroupStat, OpError>)
    ensures
        r is Ok <==> all_present(members@, read.values@),
        match r {
            Ok(s) => {
                &&& s.entries@ == assembled(members@, read.values@)
                &&& s.time_enabled == read.time_enabled
                &&& s.time_running == read.time_running
            },
            Err(e) => e is MissingMember,
        },
{
    let n = members.len();
    let mut entries: Vec<MemberStat> = Vec::new();
    let mut i: usize = 0;
    while i < n
        invariant
            n == members@.len(),
            i <= n,
            entries@ == assembled(members@, read.values@).take(i as int),
            forall|j: int| 0 <= j < i ==> (#[trigger] count_for(read.values@, members@[j])) is Some,
        decreases n - i,
    {
        let id = members[i];
        match lookup_count(&read.values, id) {
            Some(c) => {
                entries.push(MemberStat { event_id: id, count: c });
                assert(entries@ =~= assembled(members@, read.values@).take(i + 1));
            },
            None => {
                return Err(OpError::MissingMember(id));
            },
        }
        i += 1;
    }
    assert(entries@ =~= assembled(members@, read.values@));
    Ok(GroupStat { time_enabled: read.time_enabled, time_running: read.time_running, entries })
}

fn copy_ids(v: &Vec<u64>) -> (r: Vec<u64>)
    ensures
        r@ == v@,
{
    let mut out: Vec<u64> = Vec::new();
    let mut i: usize = 0;
    while i < v.len()
        invariant
            i <= v@.len(),
            out@ == v@.take(i as int),
        decreases v@.len() - i,
    {
        out.push(v[i]);
        i += 1;
        assert(out@ =~= v@.take(i as int));
    }
    assert(out@ =~= v@);
    out
}

fn zero_counts(n: usize) -> (r: Vec<u64>)
    ensures
        r@ == zeros(n as nat),
{
    let mut out: Vec<u64> = Vec::new();
    let mut i: usize = 0;
    while i < n
        invariant
            i <= n,
            out@ == zeros(i as nat),
        decreases n - i,
    {
        out.push(0);
        i += 1;
        assert(out@ =~= zeros(i as nat));
    }
    out
}

/// Registers a group builder the native primitive created for `scope`; it starts empty and
/// its identity is its first handle.
pub fn counter_group_new(t: &mut ResourceTable, scope: Scope, native: Result<(), String>) -> (r: Result<u32, OpError>)
    ensures
        old(t).evolves(final(t)),
        match r {
            Ok(h) => {
                &&& native is Ok
                &&& h as int == old(t)@.len()
                &&& final(t)@.len() == old(t)@.len() + 1
                &&& final(t)@.take(h as int) == old(t)@
                &&& final(t).holds(h, Kind::Group)
                &&& final(t).entry(h)->Group_0@ == (GroupModel { scope, origin: h, members: Seq::empty() })
            },
            Err(e) => {
                &&& final(t)@ == old(t)@
                &&& match native {
                    Err(m) => e == OpError::Native(m),
                    Ok(()) => e == OpError::Exhausted && !has_room(old(t)),
                }
            },
        },
{
    if let Err(m) = native {
        return Err(OpError::Native(m));
    }
    let n = t.issued_count();
    if n > MAX_HANDLE as usize {
        return Err(OpError::Exhausted);
    }
    let g = GroupState { scope, origin: n as u32, members: Vec::new() };
    match t.push(Resource::Group(g)) {
        Ok(h) => {
            assert(t@.take(h as int) =~= old(t)@);
            assert(t@[h as int] == Some(Resource::Group(g)));
            Ok(h)
        },
        Err(_) => Err(OpError::Exhausted),
    }
}

fn group_at(t: &ResourceTable, h: u32) -> (r: Result<&GroupState, OpError>)
    ensures
        match r {
            Ok(g) => t.holds(h, Kind::Group) && t.entry(h) == Resource::Group(*g),
            Err(e) => !t.holds(h, Kind::Group) && e == OpError::InvalidHandle,
        },
{
    match t.get(h, Kind::Group) {
        Ok(Resource::Group(g)) => Ok(g),
        _ => Err(OpError::InvalidHandle),
    }
}

fn fixed_at(t: &ResourceTable, h: u32) -> (r: Result<&FixedState, OpError>)
    ensures
        match r {
            Ok(f) => t.holds(h, Kind::Fixed) && t.entry(h) == Resource::Fixed(*f),
            Err(e) => !t.holds(h, Kind::Fixed) && e == OpError::InvalidHandle,
        },
{
    match t.get(h, Kind::Fixed) {
        Ok(Resource::Fixed(f)) => Ok(f),
        _ => Err(OpError::InvalidHandle),
    }
}

/// `after` differs from `before` at most in slot `h`.
pub open spec fn others_kept(before: &ResourceTable, after: &ResourceTable, h: u32) -> bool {
    &&& after@.len() == before@.len()
    &&& forall|g: int| 0 <= g < before@.len() && g != h ==> after@[g] == before@[g]
}

/// Appends a member the native primitive added to the builder under `h`, with event id
/// `native`, and hands out a guard for it. Members keep the order they were added in.
pub fn counter_group_add_member(t: &mut ResourceTable, h: u32, native: Result<u64, String>) -> (r: Result<u32, OpError>)
    ensures
        old(t).evolves(final(t)),
        !old(t).holds(h, Kind::Group) ==> r == Err::<u32, OpError>(OpError::InvalidHandle) && final(t)@ == old(t)@,
        old(t).holds(h, Kind::Group) ==> match native {
            Err(m) => r == Err::<u32, OpError>(OpError::Native(m)) && final(t)@ == old(t)@,
            Ok(id) => if !has_room(old(t)) {
                r == Err::<u32, OpError>(OpError::Exhausted) && final(t)@ == old(t)@
            } else {
                let g = old(t).entry(h)->Group_0@;
                &&& r == Ok::<u32, OpError>(old(t)@.len() as u32)
                &&& final(t)@.len() == old(t)@.len() + 1
                &&& forall|k: int| 0 <= k < old(t)@.len() && k != h ==> final(t)@[k] == old(t)@[k]
                &&& final(t).holds(h, Kind::Group)
                &&& final(t).entry(h)->Group_0@ == (GroupModel { members: g.members.push(id), ..g })
                &&& final(t)@[old(t)@.len() as int] == Some(Resource::Guard(
                    GuardRef { origin: g.origin, index: g.members.len() as usize, event_id: id }))
            },
        },
{
    let g = match group_at(t, h) {
        Ok(g) => g,
        Err(e) => return Err(e),
    };
    let id = match native {
        Ok(id) => id,
        Err(m) => return Err(OpError::Native(m)),
    };
    if t.issued_count() > MAX_HANDLE as usize {
        return Err(OpError::Exhausted);
    }
    let mut members = copy_ids(&g.members);
    let index = members.len();
    members.push(id);
    let (scope, origin) = (g.scope, g.origin);
    let grown = GroupState { scope, origin, members };
    assert(grown@ == (GroupModel { members: g@.members.push(id), ..g@ }));
    t.replace(h, Resource::Group(grown));
    let guard = GuardRef { origin, index, event_id: id };
    match t.push(Resource::Guard(guard)) {
        Ok(gh) => Ok(gh),
        Err(_) => Err(OpError::Exhausted),
    }
}

/// The enabled group a builder becomes: same scope, identity and members, counting,
/// with nothing read yet.
pub open spec fn enabled_from(g: GroupModel) -> FixedModel {
    FixedModel {
        scope: g.scope,
        origin: g.origin,
        members: g.members,
        enabled: true,
        time_enabled: 0,
        time_running: 0,
        counts: zeros(g.members.len()),
    }
}

/// Turns the builder under `h` into an enabled group once the native enable succeeded.
/// The builder's handle dies and the group gets a fresh one in the same step; on any
/// failure the builder's handle stays and no new one exists.
pub fn counter_group_enable(t: &mut ResourceTable, h: u32, native: Result<(), String>) -> (r: Result<u32, OpError>)
    ensures
        !old(t).holds(h, Kind::Group) ==> r == Err::<u32, OpError>(OpError::InvalidHandle) && final(t)@ == old(t)@,
        old(t).holds(h, Kind::Group) ==> match native {
            Err(m) => r == Err::<u32, OpError>(OpError::Native(m)) && final(t)@ == old(t)@,
            Ok(()) => if !has_room(old(t)) {
                r == Err::<u32, OpError>(OpError::Exhausted) && final(t)@ == old(t)@
            } else {
                &&& r == Ok::<u32, OpError>(old(t)@.len() as u32)
                &&& final(t)@.len() == old(t)@.len() + 1
                &&& forall|k: int| 0 <= k < old(t)@.len() && k != h ==> final(t)@[k] == old(t)@[k]
                &&& final(t)@[h as int] is None
                &&& final(t).holds(r->Ok_0, Kind::Fixed)
                &&& final(t).entry(r->Ok_0)->Fixed_0@ == enabled_from(old(t).entry(h)->Group_0@)
                &&& old(t).evolves(final(t))
            },
        },
{
    match group_at(t, h) {
        Ok(_) => {},
        Err(e) => return Err(e),
    }
    if let Err(m) = native {
        return Err(OpError::Native(m));
    }
    if t.issued_count() > MAX_HANDLE as usize {
        return Err(OpError::Exhausted);
    }
    let g = match t.delete(h, Kind::Group) {
        Ok(Resource::Group(g)) => g,
        _ => return Err(OpError::InvalidHandle),
    };
    let counts = zero_counts(g.members.len());
    let fixed = FixedState {
        scope: g.scope,
        origin: g.origin,
        members: g.members,
        enabled: true,
        time_enabled: 0,
        time_running: 0,
        counts,
    };
    assert(fixed@ == enabled_from(g@));
    let ghost mid = *t;
    match t.push(Resource::Fixed(fixed)) {
        Ok(fh) => {
            proof {
                crate::table::lemma_evolves_trans(old(t), &mid, t);
            }
            Ok(fh)
        },
        Err(_) => Err(OpError::Exhausted),
    }
}

/// The outcome every fixed-group transition shares: the handle is checked first, then
/// the native outcome; only when both pass does the group take its new state.
pub open spec fn fixed_step(
    before: &ResourceTable,
    after: &ResourceTable,
    h: u32,
    native: Result<(), String>,
    r: Result<(), OpError>,
    next: spec_fn(FixedModel) -> FixedModel,
) -> bool {
    if !before.holds(h, Kind::Fixed) {
        r == Err::<(), OpError>(OpError::InvalidHandle) && after@ == before@
    } else if native is Err {
        r == Err::<(), OpError>(OpError::Native(native->Err_0)) && after@ == before@
    } else {
        &&& r is Ok
        &&& others_kept(before, after, h)
        &&& after.holds(h, Kind::Fixed)
        &&& after.entry(h)->Fixed_0@ == next(before.entry(h)->Fixed_0@)
    }
}

/// A paused group: figures untouched.
pub open spec fn disabled(f: FixedModel) -> FixedModel {
    FixedModel { enabled: false, ..f }
}

/// A reset group: every member count zero, enabled or not as before.
pub open spec fn reset_fixed(f: FixedModel) -> FixedModel {
    FixedModel { counts: zeros(f.members.len()), ..f }
}

/// Pauses the group under `h` once the native disable succeeded; its figures stay.
pub fn fixed_counter_group_disable(t: &mut ResourceTable, h: u32, native: Result<(), String>) -> (r: Result<(), OpError>)
    ensures
        old(t).evolves(final(t)),
        fixed_step(old(t), final(t), h, native, r, |f: FixedModel| disabled(f)),
{
    let f = match fixed_at(t, h) {
        Ok(f) => f,
        Err(e) => return Err(e),
    };
    if let Err(m) = native {
        return Err(OpError::Native(m));
    }
    let next = FixedState {
        scope: f.scope,
        origin: f.origin,
        members: copy_ids(&f.members),
        enabled: false,
        time_enabled: f.time_enabled,
        time_running: f.time_running,
        counts: copy_ids(&f.counts),
    };
    assert(next@ == disabled(f@));
    t.replace(h, Resource::Fixed(next));
    Ok(())
}

/// Zeroes every member count of the group under `h` once the native reset succeeded.
pub fn fixed_counter_group_reset(t: &mut ResourceTable, h: u32, native: Result<(), String>) -> (r: Result<(), OpError>)
    ensures
        old(t).evolves(final(t)),
        fixed_step(old(t), final(t), h, native, r, |f: FixedModel| reset_fixed(f)),
{
    let f = match fixed_at(t, h) {
        Ok(f) => f,
        Err(e) => return Err(e),
    };
    if let Err(m) = native {
        return Err(OpError::Native(m));
    }
    let next = FixedState {
        scope: f.scope,
        origin: f.origin,
        members: copy_ids(&f.members),
        enabled: f.enabled,
        time_enabled: f.time_enabled,
        time_running: f.time_running,
        counts: zero_counts(f.members.len()),
    };
    assert(next@ == reset_fixed(f@));
    t.replace(h, Resource::Fixed(next));
    Ok(())
}

/// The member counts of a grouped read, by position.
pub open spec fn counts_of(e: Seq<MemberStat>) -> Seq<u64> {
    Seq::new(e.len(), |i: int| e[i].count)
}

/// A group after a read: the read's times and counts are its last figures.
pub open spec fn read_into(f: FixedModel, read_te: u64, read_tr: u64, values: Seq<(u64, u64)>) -> FixedModel {
    FixedModel {
        time_enabled: read_te,
        time_running: read_tr,
        counts: counts_of(assembled(f.members, values)),
        ..f
    }
}

fn counts_from(s: &GroupStat) -> (r: Vec<u64>)
    ensures
        r@ == counts_of(s.entries@),
{
    let mut out: Vec<u64> = Vec::new();
    let mut i: usize = 0;
    while i < s.entries.len()
        invariant
            i <= s.entries@.len(),
            out@ == counts_of(s.entries@.take(i as int)),
        decreases s.entries@.len() - i,
    {
        out.push(s.entries[i].count);
        i += 1;
        assert(out@ =~= counts_of(s.entries@.take(i as int)));
    }
    assert(s.entries@.take(i as int) =~= s.entries@);
    out
}

/// Takes one consistent grouped read of the group under `h`: records it as the group's
/// last figures and returns its wire form, entry `i` for the member added `i`-th.
pub fn fixed_counter_group_stat(t: &mut ResourceTable, h: u32, native: Result<GroupRead, String>) -> (r: Result<Vec<u8>, OpError>)
    ensures
        old(t).evolves(final(t)),
        !old(t).holds(h, Kind::Fixed) ==> r == Err::<Vec<u8>, OpError>(OpError::InvalidHandle) && final(t)@ == old(t)@,
        old(t).holds(h, Kind::Fixed) ==> match native {
            Err(m) => r == Err::<Vec<u8>, OpError>(OpError::Native(m)) && final(t)@ == old(t)@,
            Ok(read) => {
                let f = old(t).entry(h)->Fixed_0@;
                if !all_present(f.members, read.values@) {
                    r is Err && r->Err_0 is MissingMember && final(t)@ == old(t)@
                } else {
                    &&& r is Ok
                    &&& r->Ok_0@ == group_stat_bytes(read.time_enabled, read.time_running,
                        assembled(f.members, read.values@))
                    &&& others_kept(old(t), final(t), h)
                    &&& final(t).holds(h, Kind::Fixed)
                    &&& final(t).entry(h)->Fixed_0@ == read_into(f, read.time_enabled, read.time_running, read.values@)
                }
            },
        },
{
    let f = match fixed_at(t, h) {
        Ok(f) => f,
        Err(e) => return Err(e),
    };
    let read = match native {
        Ok(read) => read,
        Err(m) => return Err(OpError::Native(m)),
    };
    let s = match assemble_group_stat(&f.members, &read) {
        Ok(s) => s,
        Err(e) => return Err(e),
    };
    let next = FixedState {
        scope: f.scope,
        origin: f.origin,
        members: copy_ids(&f.members),
        enabled: f.enabled,
        time_enabled: s.time_enabled,
        time_running: s.time_running,
        counts: counts_from(&s),
    };
    assert(next@ == read_into(f@, read.time_enabled, read.time_running, read.values@));
    let bytes = encode_group_stat(&s);
    t.replace(h, Resource::Fixed(next));
    Ok(bytes)
}

/// Reads the builder under `h` as one group; nothing about it changes.
pub fn counter_group_stat(t: &ResourceTable, h: u32, native: Result<GroupRead, String>) -> (r: Result<Vec<u8>, OpError>)
    ensures
        !t.holds(h, Kind::Group) ==> r == Err::<Vec<u8>, OpError>(OpError::InvalidHandle),
        t.holds(h, Kind::Group) ==> match native {
            Err(m) => r == Err::<Vec<u8>, OpError>(OpError::Native(m)),
            Ok(read) => {
                let g = t.entry(h)->Group_0@;
                if !all_present(g.members, read.values@) {
                    r is Err && r->Err_0 is MissingMember
                } else {
                    &&& r is Ok
                    &&& r->Ok_0@ == group_stat_bytes(read.time_enabled, read.time_running,
                        assembled(g.members, read.values@))
                }
            },
        },
{
    let g = match group_at(t, h) {
        Ok(g) => g,
        Err(e) => return Err(e),
    };
    let read = match native {
        Ok(read) => read,
        Err(m) => return Err(OpError::Native(m)),
    };
    match assemble_group_stat(&g.members, &read) {
        Ok(s) => Ok(encode_group_stat(&s)),
        Err(e) => Err(e),
    }
}

/// Some live builder or enabled group carries the identity `origin`.
pub open spec fn origin_live(t: &ResourceTable, origin: u32) -> bool {
    exists|g: u32| t.live(g) && #[trigger] origin_of(t.entry(g)) == Some(origin)
}

/// The guard under `h`, provided the group it points into is still alive.
pub open spec fn guard_valid(t: &ResourceTable, h: u32) -> bool {
    t.holds(h, Kind::Guard) && origin_live(t, t.entry(h)->Guard_0.origin)
}

fn find_origin(t: &ResourceTable, origin: u32) -> (r: bool)
    ensures
        r == origin_live(t, origin),
{
    let n = t.issued_count();
    let mut i: usize = 0;
    while i < n && i <= 0xffff_ffff
        invariant
            n == t@.len(),
            forall|g: u32| (g as int) < i ==> !(t.live(g) && #[trigger] origin_of(t.entry(g)) == Some(origin)),
        decreases n - i,
    {
        let g = i as u32;
        let found = match t.get(g, Kind::Group) {
            Ok(Resource::Group(x)) => x.origin == origin,
            _ => match t.get(g, Kind::Fixed) {
                Ok(Resource::Fixed(x)) => x.origin == origin,
                _ => false,
            },
        };
        if found {
            assert(t.live(g) && origin_of(t.entry(g)) == Some(origin));
            return true;
        }
        i += 1;
    }
    false
}

fn guard_at(t: &ResourceTable, h: u32) -> (r: Result<GuardRef, OpError>)
    ensures
        match r {
            Ok(g) => guard_valid(t, h) && t.entry(h) == Resource::Guard(g),
            Err(e) => !guard_valid(t, h) && e == OpError::InvalidHandle,
        },
{
    let g = match t.get(h, Kind::Guard) {
        Ok(Resource::Guard(g)) => *g,
        _ => return Err(OpError::InvalidHandle),
    };
    if find_origin(t, g.origin) {
        Ok(g)
    } else {
        Err(OpError::InvalidHandle)
    }
}

/// The event id of the member the guard under `h` stands for, while its group lives.
pub fn counter_guard_event_id(t: &ResourceTable, h: u32) -> (r: Result<u64, OpError>)
    ensures
        guard_valid(t, h) ==> r == Ok::<u64, OpError>(t.entry(h)->Guard_0.event_id),
        !guard_valid(t, h) ==> r == Err::<u64, OpError>(OpError::InvalidHandle),
{
    match guard_at(t, h) {
        Ok(g) => Ok(g.event_id),
        Err(e) => Err(e),
    }
}

/// The wire form of the native read of the member the guard under `h` stands for,
/// while its group lives.
pub fn counter_guard_stat(t: &ResourceTable, h: u32, native: Result<CounterStat, String>) -> (r: Result<Vec<u8>, OpError>)
    ensures
        !guard_valid(t, h) ==> r == Err::<Vec<u8>, OpError>(OpError::InvalidHandle),
        guard_valid(t, h) ==> match native {
            Err(m) => r == Err::<Vec<u8>, OpError>(OpError::Native(m)),
            Ok(s) => r is Ok && r->Ok_0@ == stat_bytes(s),
        },
{
    match guard_at(t, h) {
        Ok(_) => {},
        Err(e) => return Err(e),
    }
    match native {
        Ok(s) => Ok(encode_stat(&s)),
        Err(m) => Err(OpError::Native(m)),
    }
}

/// A grouped read of an enabled group lists its members in the order they were added
/// to the builder: entry `i` is the `i`-th member added, with its count in the read.
pub proof fn lemma_read_follows_insertion_order(g: GroupModel, values: Seq<(u64, u64)>)
    requires
        all_present(g.members, values),
    ensures
        assembled(enabled_from(g).members, values).len() == g.members.len(),
        forall|i: int| 0 <= i < g.members.len() ==> {
            &&& (#[trigger] assembled(enabled_from(g).members, values)[i]).event_id == g.members[i]
            &&& Some(assembled(enabled_from(g).members, values)[i].count) == count_for(values, g.members[i])
        },
{
}

/// Adding a member appends it: the members already there keep their positions.
pub proof fn lemma_add_member_appends(g: GroupModel, id: u64)
    ensures
        (GroupModel { members: g.members.push(id), ..g }).members.len() == g.members.len() + 1,
        (GroupModel { members: g.members.push(id), ..g }).members.last() == id,
        forall|i: int| 0 <= i < g.members.len() ==>
            (GroupModel { members: g.members.push(id), ..g }).members[i] == #[trigger] g.members[i],
{
}

/// Disabling twice is the same as disabling once, and leaves every figure as it was.
pub proof fn lemma_fixed_disable_idempotent(f: FixedModel)
    ensures
        disabled(disabled(f)) == disabled(f),
        disabled(f).counts == f.counts,
        disabled(f).time_enabled == f.time_enabled,
        disabled(f).time_running == f.time_running,
        !disabled(f).enabled,
{
}

/// A reset zeroes every member count and leaves the enabled state alone.
pub proof fn lemma_fixed_reset_keeps_state(f: FixedModel)
    ensures
        reset_fixed(f).enabled == f.enabled,
        reset_fixed(f).members == f.members,
        reset_fixed(f).counts.len() == f.members.len(),
        forall|i: int| 0 <= i < f.members.len() ==> #[trigger] reset_fixed(f).counts[i] == 0,
{
}

/// Releases the value of kind `k` under `h`; its handle is dead from then on.
pub fn resource_drop(t: &mut ResourceTable, h: u32, k: Kind) -> (r: Result<(), OpError>)
    ensures
        r is Ok <==> old(t).holds(h, k),
        r is Ok ==> final(t)@ == old(t)@.update(h as int, None),
        r is Err ==> r == Err::<(), OpError>(OpError::InvalidHandle) && final(t)@ == old(t)@,
        old(t).evolves(final(t)),
{
    match t.delete(h, k) {
        Ok(_) => Ok(()),
        Err(_) => Err(OpError::InvalidHandle),
    }
}

} // verus!
