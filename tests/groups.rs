use profiling_runtime::codec::{decode_stat, encode_stat, CounterStat};
use profiling_runtime::counting::{Cpu, Kind, Process, Resource, Scope};
use profiling_runtime::group::{
    assemble_group_stat, counter_group_add_member, counter_group_enable, counter_group_new, counter_group_stat,
    counter_guard_event_id, counter_guard_stat, fixed_counter_group_disable, fixed_counter_group_reset,
    fixed_counter_group_stat, resource_drop, GroupRead,
};
use profiling_runtime::memory::{copy_into_guest, error_reply, payload_reply, write_output_area};
use profiling_runtime::ops::OpError;
use profiling_runtime::table::ResourceTable;

fn scope() -> Scope {
    Scope { process: Process::Current, cpu: Cpu::Any }
}

fn u64_at(b: &[u8], at: usize) -> u64 {
    let mut a = [0u8; 8];
    a.copy_from_slice(&b[at..at + 8]);
    u64::from_le_bytes(a)
}

fn fixed_counts(t: &ResourceTable, h: u32) -> (bool, Vec<u64>) {
    match t.get(h, Kind::Fixed) {
        Ok(Resource::Fixed(f)) => (f.enabled, f.counts.clone()),
        _ => panic!("fixed group missing"),
    }
}

fn three_member_group(t: &mut ResourceTable) -> (u32, Vec<u32>, u32) {
    let g = counter_group_new(t, scope(), Ok(())).unwrap();
    let guards = vec![
        counter_group_add_member(t, g, Ok(100)).unwrap(),
        counter_group_add_member(t, g, Ok(200)).unwrap(),
        counter_group_add_member(t, g, Ok(300)).unwrap(),
    ];
    let f = counter_group_enable(t, g, Ok(())).unwrap();
    (g, guards, f)
}

#[test]
fn grouped_read_follows_insertion_order() {
    let mut t = ResourceTable::new();
    let (_, _, f) = three_member_group(&mut t);
    let read = GroupRead { time_enabled: 50, time_running: 40, values: vec![(300, 3), (100, 1), (200, 2)] };
    let bytes = fixed_counter_group_stat(&mut t, f, Ok(read)).unwrap();
    assert_eq!(bytes.len(), 24 + 3 * 16);
    assert_eq!(u64_at(&bytes, 0), 50);
    assert_eq!(u64_at(&bytes, 8), 40);
    assert_eq!(u64_at(&bytes, 16), 3);
    for (i, (id, count)) in [(100u64, 1u64), (200, 2), (300, 3)].iter().enumerate() {
        assert_eq!(u64_at(&bytes, 24 + 16 * i), *id);
        assert_eq!(u64_at(&bytes, 32 + 16 * i), *count);
    }
    assert_eq!(fixed_counts(&t, f).1, vec![1, 2, 3]);
}

#[test]
fn assemble_reports_missing_member() {
    let members = vec![1u64, 2];
    let read = GroupRead { time_enabled: 1, time_running: 1, values: vec![(1, 10)] };
    assert!(matches!(assemble_group_stat(&members, &read), Err(OpError::MissingMember(2))));
    let read = GroupRead { time_enabled: 1, time_running: 1, values: vec![(2, 20), (1, 10), (2, 99)] };
    let s = assemble_group_stat(&members, &read).unwrap();
    assert_eq!(s.entries[0].count, 10);
    assert_eq!(s.entries[1].count, 20);
}

#[test]
fn disable_twice_keeps_counts_and_reset_keeps_state() {
    let mut t = ResourceTable::new();
    let (_, _, f) = three_member_group(&mut t);
    let read = GroupRead { time_enabled: 5, time_running: 5, values: vec![(100, 7), (200, 8), (300, 9)] };
    fixed_counter_group_stat(&mut t, f, Ok(read)).unwrap();
    fixed_counter_group_disable(&mut t, f, Ok(())).unwrap();
    let once = fixed_counts(&t, f);
    fixed_counter_group_disable(&mut t, f, Ok(())).unwrap();
    assert_eq!(fixed_counts(&t, f), once);
    assert_eq!(once, (false, vec![7, 8, 9]));
    fixed_counter_group_reset(&mut t, f, Ok(())).unwrap();
    assert_eq!(fixed_counts(&t, f), (false, vec![0, 0, 0]));
}

#[test]
fn reset_leaves_enabled_group_enabled() {
    let mut t = ResourceTable::new();
    let (_, _, f) = three_member_group(&mut t);
    fixed_counter_group_reset(&mut t, f, Ok(())).unwrap();
    assert_eq!(fixed_counts(&t, f), (true, vec![0, 0, 0]));
}

#[test]
fn one_member_group_read_reports_success() {
    let mut t = ResourceTable::new();
    let g = counter_group_new(&mut t, Scope { process: Process::Current, cpu: Cpu::Any }, Ok(())).unwrap();
    counter_group_add_member(&mut t, g, Ok(42)).unwrap();
    let f = counter_group_enable(&mut t, g, Ok(())).unwrap();
    let read = GroupRead { time_enabled: 1000, time_running: 800, values: vec![(42, 12345)] };
    let payload = fixed_counter_group_stat(&mut t, f, Ok(read)).unwrap();
    let te = u64_at(&payload, 0);
    let tr = u64_at(&payload, 8);
    assert!(te >= tr);
    assert_eq!(u64_at(&payload, 32), 12345);
    let mut mem = vec![0u8; 256];
    let (ptr, len) = copy_into_guest(&mut mem, 64, &payload).unwrap();
    write_output_area(&mut mem, 0, payload_reply(ptr, len)).unwrap();
    assert_eq!(&mem[0..4], &1u32.to_le_bytes());
    assert_eq!(&mem[4..8], &64u32.to_le_bytes());
    assert_eq!(&mem[8..12], &(payload.len() as u32).to_le_bytes());
    assert_eq!(&mem[64..64 + payload.len()], payload.as_slice());
}

#[test]
fn stat_after_delete_reports_invalid_resource() {
    let mut t = ResourceTable::new();
    let (_, _, f) = three_member_group(&mut t);
    resource_drop(&mut t, f, Kind::Fixed).unwrap();
    let read = GroupRead { time_enabled: 1, time_running: 1, values: vec![] };
    let e = fixed_counter_group_stat(&mut t, f, Ok(read)).unwrap_err();
    assert!(matches!(e, OpError::InvalidHandle));
    let msg = e.message();
    assert_eq!(msg, "Invalid rid");
    let mut mem = vec![0u8; 64];
    let (ptr, len) = copy_into_guest(&mut mem, 16, msg.as_bytes()).unwrap();
    write_output_area(&mut mem, 0, error_reply(ptr, len)).unwrap();
    assert_eq!(&mem[0..4], &0u32.to_le_bytes());
    assert_eq!(&mem[4..8], &16u32.to_le_bytes());
    assert_eq!(&mem[8..12], &11u32.to_le_bytes());
    assert_eq!(&mem[16..27], b"Invalid rid");
}

#[test]
fn add_member_after_enable_uses_dead_handle() {
    let mut t = ResourceTable::new();
    let (g, _, f) = three_member_group(&mut t);
    assert!(matches!(counter_group_add_member(&mut t, g, Ok(400)), Err(OpError::InvalidHandle)));
    assert!(t.check(g, Kind::Group).is_err());
    assert!(t.check(f, Kind::Fixed).is_ok());
}

#[test]
fn failed_enable_keeps_builder_handle() {
    let mut t = ResourceTable::new();
    let g = counter_group_new(&mut t, scope(), Ok(())).unwrap();
    counter_group_add_member(&mut t, g, Ok(1)).unwrap();
    let before = t.issued_count();
    assert!(matches!(counter_group_enable(&mut t, g, Err("EACCES".to_string())), Err(OpError::Native(_))));
    assert!(t.check(g, Kind::Group).is_ok());
    assert_eq!(t.issued_count(), before);
}

#[test]
fn guards_follow_their_group() {
    let mut t = ResourceTable::new();
    let (_, guards, f) = three_member_group(&mut t);
    assert_eq!(counter_guard_event_id(&t, guards[1]).unwrap(), 200);
    let s = CounterStat { event_count: 77, time_enabled: 3, time_running: 2 };
    let bytes = counter_guard_stat(&t, guards[0], Ok(s)).unwrap();
    assert_eq!(decode_stat(&bytes).unwrap(), s);
    resource_drop(&mut t, f, Kind::Fixed).unwrap();
    assert!(matches!(counter_guard_event_id(&t, guards[1]), Err(OpError::InvalidHandle)));
    assert!(matches!(counter_guard_stat(&t, guards[0], Ok(s)), Err(OpError::InvalidHandle)));
}

#[test]
fn builder_read_changes_nothing() {
    let mut t = ResourceTable::new();
    let g = counter_group_new(&mut t, scope(), Ok(())).unwrap();
    counter_group_add_member(&mut t, g, Ok(9)).unwrap();
    counter_group_add_member(&mut t, g, Ok(8)).unwrap();
    let read = GroupRead { time_enabled: 2, time_running: 1, values: vec![(8, 80), (9, 90)] };
    let bytes = counter_group_stat(&t, g, Ok(read)).unwrap();
    assert_eq!(u64_at(&bytes, 24), 9);
    assert_eq!(u64_at(&bytes, 32), 90);
    assert_eq!(u64_at(&bytes, 40), 8);
    assert_eq!(u64_at(&bytes, 48), 80);
    match t.get(g, Kind::Group) {
        Ok(Resource::Group(x)) => assert_eq!(x.members, vec![9, 8]),
        _ => panic!("group missing"),
    }
    let empty = counter_group_new(&mut t, scope(), Ok(())).unwrap();
    let read = GroupRead { time_enabled: 0, time_running: 0, values: vec![] };
    assert_eq!(counter_group_stat(&t, empty, Ok(read)).unwrap().len(), 24);
    let _ = encode_stat(&CounterStat { event_count: 0, time_enabled: 0, time_running: 0 });
}
