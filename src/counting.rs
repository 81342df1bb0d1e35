use vstd::prelude::*;
use crate::codec::CounterStat;

verus! {

/// Which process a counter watches.
#[derive(PartialEq, Eq, Structural, Clone, Copy, Debug)]
pub enum Process {
    Current,
    Any,
    Pid(u32),
}

/// Which CPU a counter watches.
#[derive(PartialEq, Eq, Structural, Clone, Copy, Debug)]
pub enum Cpu {
    Any,
    Id(u32),
}

/// The (process, cpu) pair a counter or a whole group is bound to.
#[derive(PartialEq, Eq, Structural, Clone, Copy, Debug)]
pub struct Scope {
    pub process: Process,
    pub cpu: Cpu,
}

/// The native kinds a handle can name.
#[derive(PartialEq, Eq, Structural, Clone, Copy, Debug)]
pub enum Kind {
    Counter,
    Group,
    Guard,
    Fixed,
}

/// A single counter: created disabled, then enabled, disabled and reset at will.
#[derive(PartialEq, Eq, Structural, Clone, Copy, Debug)]
pub struct CounterState {
    pub scope: Scope,
    pub enabled: bool,
    /// Figures of the last read; a reset zeroes the count.
    pub last: CounterStat,
}

/// A group still being built: members are event ids in the order they were added.
#[derive(Clone, Debug)]
pub struct GroupState {
    pub scope: Scope,
    /// Identifies the group across the move from builder to fixed group.
    pub origin: u32,
    pub members: Vec<u64>,
}

/// A weak reference to one member of a group, by the group's origin and the member's position.
#[derive(PartialEq, Eq, Structural, Clone, Copy, Debug)]
pub struct GuardRef {
    pub origin: u32,
    pub index: usize,
    pub event_id: u64,
}

/// An enabled group: the members of the builder it was made from, with their last counts.
#[derive(Clone, Debug)]
pub struct FixedState {
    pub scope: Scope,
    pub origin: u32,
    pub members: Vec<u64>,
    pub enabled: bool,
    pub time_enabled: u64,
    pub time_running: u64,
    /// Last read count of each member, by position.
    pub counts: Vec<u64>,
}

/// What a group builder is, mathematically.
pub struct GroupModel {
    pub scope: Scope,
    pub origin: u32,
    pub members: Seq<u64>,
}

impl View for GroupState {
    type V = GroupModel;

    open spec fn view(&self) -> GroupModel {
        GroupModel { scope: self.scope, origin: self.origin, members: self.members@ }
    }
}

/// What an enabled group is, mathematically.
pub struct FixedModel {
    pub scope: Scope,
    pub origin: u32,
    pub members: Seq<u64>,
    pub enabled: bool,
    pub time_enabled: u64,
    pub time_running: u64,
    pub counts: Seq<u64>,
}

impl View for FixedState {
    type V = FixedModel;

    open spec fn view(&self) -> FixedModel {
        FixedModel {
            scope: self.scope,
            origin: self.origin,
            members: self.members@,
            enabled: self.enabled,
            time_enabled: self.time_enabled,
            time_running: self.time_running,
            counts: self.counts@,
        }
    }
}

/// The group identity a builder or an enabled group carries, if any.
pub open spec fn origin_of(r: Resource) -> Option<u32> {
    match r {
        Resource::Group(g) => Some(g.origin),
        Resource::Fixed(f) => Some(f.origin),
        _ => None,
    }
}

/// A value held by the resource table.
#[derive(Clone, Debug)]
pub enum Resource {
    Counter(CounterState),
    Group(GroupState),
    Guard(GuardRef),
    Fixed(FixedState),
}

pub open spec fn kind_of(r: Resource) -> Kind {
    match r {
        Resource::Counter(_) => Kind::Counter,
        Resource::Group(_) => Kind::Group,
        Resource::Guard(_) => Kind::Guard,
        Resource::Fixed(_) => Kind::Fixed,
    }
}

impl Resource {
    pub fn kind(&self) -> (k: Kind)
        ensures
            k == kind_of(*self),
    {
        match self {
            Resource::Counter(_) => Kind::Counter,
            Resource::Group(_) => Kind::Group,
            Resource::Guard(_) => Kind::Guard,
            Resource::Fixed(_) => Kind::Fixed,
        }
    }
}

} // verus!
