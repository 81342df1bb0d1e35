use profiling_runtime::codec::{decode_cpu, decode_process, decode_stat, encode_stat, CounterStat, DecodeError};
use profiling_runtime::counting::{Cpu, Process, Scope};
use profiling_runtime::memory::{
    copy_into_guest, copy_out_of_guest, scalar_reply, to_host_location, write_output_area, MemoryFault,
};
use profiling_runtime::ops::{decode_scope, OpError};

#[test]
fn stat_round_trip() {
    for s in [
        CounterStat { event_count: 0, time_enabled: 0, time_running: 0 },
        CounterStat { event_count: u64::MAX, time_enabled: 1, time_running: 0x0102_0304_0506_0708 },
        CounterStat { event_count: 123_456_789, time_enabled: 1_000_000, time_running: 999_999 },
    ] {
        assert_eq!(decode_stat(&encode_stat(&s)), Ok(s));
    }
}

#[test]
fn stat_wire_layout() {
    let b = encode_stat(&CounterStat { event_count: 0x0102, time_enabled: 3, time_running: 0xff00_0000_0000_0000 });
    assert_eq!(b.len(), 24);
    assert_eq!(&b[0..8], &[2, 1, 0, 0, 0, 0, 0, 0]);
    assert_eq!(&b[8..16], &[3, 0, 0, 0, 0, 0, 0, 0]);
    assert_eq!(&b[16..24], &[0, 0, 0, 0, 0, 0, 0, 0xff]);
    assert_eq!(decode_stat(&vec![0u8; 23]), Err(DecodeError::BadLength));
}

#[test]
fn scope_decoding() {
    assert_eq!(decode_process(&vec![0]), Ok(Process::Current));
    assert_eq!(decode_process(&vec![1]), Ok(Process::Any));
    assert_eq!(decode_process(&vec![2, 0x39, 0x30, 0, 0]), Ok(Process::Pid(12345)));
    assert_eq!(decode_process(&vec![2, 1]), Err(DecodeError::BadLength));
    assert_eq!(decode_process(&vec![9]), Err(DecodeError::BadTag));
    assert_eq!(decode_process(&vec![]), Err(DecodeError::BadLength));
    assert_eq!(decode_cpu(&vec![0]), Ok(Cpu::Any));
    assert_eq!(decode_cpu(&vec![1, 3, 0, 0, 0]), Ok(Cpu::Id(3)));
    assert_eq!(decode_cpu(&vec![2]), Err(DecodeError::BadTag));
    assert_eq!(decode_scope(&vec![0], &vec![0]).unwrap(), Scope { process: Process::Current, cpu: Cpu::Any });
    assert!(matches!(decode_scope(&vec![0], &vec![7]), Err(OpError::Decode(DecodeError::BadTag))));
}

#[test]
fn copy_out_past_memory_end_faults() {
    let mem = vec![7u8; 32];
    assert_eq!(copy_out_of_guest(&mem, 30, 3), Err(MemoryFault { offset: 30, len: 3 }));
    assert_eq!(copy_out_of_guest(&mem, u32::MAX, 2), Err(MemoryFault { offset: u32::MAX, len: 2 }));
    assert_eq!(copy_out_of_guest(&mem, 30, 2), Ok(vec![7, 7]));
    assert_eq!(copy_out_of_guest(&mem, 32, 0), Ok(vec![]));
}

#[test]
fn host_location_bounds() {
    assert_eq!(to_host_location(16, 4, 12), Ok(4));
    assert_eq!(to_host_location(16, 4, 13), Err(MemoryFault { offset: 4, len: 13 }));
    assert_eq!(to_host_location(0, 0, 0), Ok(0));
}

#[test]
fn copy_into_guest_places_bytes() {
    let mut mem = vec![0u8; 8];
    assert_eq!(copy_into_guest(&mut mem, 2, &[1, 2, 3]), Ok((2, 3)));
    assert_eq!(mem, vec![0, 0, 1, 2, 3, 0, 0, 0]);
    assert_eq!(copy_into_guest(&mut mem, 6, &[9, 9, 9]).unwrap_err().offset, 6);
    assert_eq!(mem, vec![0, 0, 1, 2, 3, 0, 0, 0]);
}

#[test]
fn output_area_is_written_whole() {
    let mut mem = vec![0xaau8; 16];
    write_output_area(&mut mem, 4, scalar_reply(0x0102_0304)).unwrap();
    assert_eq!(&mem[0..4], &[0xaa; 4]);
    assert_eq!(&mem[4..16], &[1, 0, 0, 0, 4, 3, 2, 1, 0, 0, 0, 0]);
    let mut small = vec![0u8; 11];
    assert_eq!(write_output_area(&mut small, 0, scalar_reply(1)), Err(MemoryFault { offset: 0, len: 12 }));
    assert_eq!(small, vec![0u8; 11]);
}
