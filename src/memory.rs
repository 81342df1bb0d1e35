use vstd::prelude::*;
use crate::codec::u32_bytes;

verus! {

/// A guest offset and length that reach past the end of guest memory.
/// The run must stop: the guest gets no reply for the call that asked.
#[derive(PartialEq, Eq, Structural, Clone, Copy, Debug)]
pub struct MemoryFault {
    pub offset: u32,
    pub len: u32,
}

/// `len` bytes from `offset` lie inside a guest memory of `size` bytes.
pub open spec fn in_bounds(size: int, offset: u32, len: u32) -> bool {
    offset as int + len as int <= size
}

/// `mem` with the bytes from `at` on replaced by `data`.
pub open spec fn spliced(mem: Seq<u8>, at: int, data: Seq<u8>) -> Seq<u8> {
    mem.subrange(0, at) + data + mem.subrange(at + data.len(), mem.len() as int)
}

/// Turns a guest offset into an index of host-held guest memory, provided the
/// `len` bytes from there lie inside it. Every access to guest memory goes through here.
pub fn to_host_location(size: usize, offset: u32, len: u32) -> (r: Result<usize, MemoryFault>)
    ensures
        match r {
            Ok(p) => in_bounds(size as int, offset, len) && p == offset as usize,
            Err(f) => !in_bounds(size as int, offset, len) && f == (MemoryFault { offset, len }),
        },
{
    let end: u64 = offset as u64 + len as u64;
    if end > size as u64 {
        Err(MemoryFault { offset, len })
    } else {
        Ok(offset as usize)
    }
}

/// Copies the guest region `[offset, offset + len)` out of guest memory.
pub fn copy_out_of_guest(mem: &[u8], offset: u32, len: u32) -> (r: Result<Vec<u8>, MemoryFault>)
    ensures
        match r {
            Ok(v) => {
                &&& in_bounds(mem@.len() as int, offset, len)
                &&& v@ == mem@.subrange(offset as int, offset as int + len as int)
            },
            Err(f) => !in_bounds(mem@.len() as int, offset, len) && f == (MemoryFault { offset, len }),
        },
{
    let start = match to_host_location(mem.len(), offset, len) {
        Ok(p) => p,
        Err(f) => return Err(f),
    };
    let n = len as usize;
    let size = mem.len();
    let mut out: Vec<u8> = Vec::with_capacity(n);
    let mut i: usize = 0;
    while i < n
        invariant
            n == len as int,
            start == offset as int,
            size == mem@.len(),
            start + n <= size,
            i <= n,
            out@ == mem@.subrange(start as int, start + i),
        decreases n - i,
    {
        out.push(mem[start + i]);
        i += 1;
        assert(out@ =~= mem@.subrange(start as int, start + i));
    }
    Ok(out)
}

/// Copies `data` into guest memory at `offset`, which the guest's own allocator handed out.
/// Returns the pointer and length the guest is told.
pub fn copy_into_guest(mem: &mut [u8], offset: u32, data: &[u8]) -> (r: Result<(u32, u32), MemoryFault>)
    ensures
        match r {
            Ok((p, l)) => {
                &&& p == offset
                &&& l as int == data@.len()
                &&& in_bounds(old(mem)@.len() as int, offset, l)
                &&& final(mem)@ == spliced(old(mem)@, offset as int, data@)
            },
            Err(f) => {
                &&& f.offset == offset
                &&& (data@.len() > u32::MAX || !in_bounds(old(mem)@.len() as int, offset, data@.len() as u32))
                &&& final(mem)@ == old(mem)@
            },
        },
{
    if data.len() > u32::MAX as usize {
        return Err(MemoryFault { offset, len: u32::MAX });
    }
    let len = data.len() as u32;
    let start = match to_host_location(mem.len(), offset, len) {
        Ok(p) => p,
        Err(f) => return Err(f),
    };
    let n = data.len();
    let size = mem.len();
    let mut i: usize = 0;
    while i < n
        invariant
            n == data@.len(),
            start == offset as int,
            size == mem@.len(),
            start + n <= size,
            mem@.len() == old(mem)@.len(),
            i <= n,
            forall|j: int| 0 <= j < i ==> mem@[start + j] == data@[j],
            forall|j: int| 0 <= j < mem@.len() && (j < start || start + i <= j) ==> mem@[j] == old(mem)@[j],
        decreases n - i,
    {
        mem[start + i] = data[i];
        i += 1;
    }
    assert(mem@ =~= spliced(old(mem)@, offset as int, data@));
    Ok((offset, len))
}

/// The three-slot record `[status, a, b]` a host operation leaves for the guest.
#[derive(PartialEq, Eq, Structural, Clone, Copy, Debug)]
pub struct OutputArea {
    pub status: u32,
    pub a: u32,
    pub b: u32,
}

/// Size in bytes of the output area.
pub const OUTPUT_AREA_LEN: u32 = 12;

pub open spec fn area_bytes(o: OutputArea) -> Seq<u8> {
    u32_bytes(o.status) + u32_bytes(o.a) + u32_bytes(o.b)
}

/// Success with a scalar result (a value or a new handle).
pub fn scalar_reply(v: u32) -> (r: OutputArea)
    ensures
        r == (OutputArea { status: 1, a: v, b: 0 }),
{
    OutputArea { status: 1, a: v, b: 0 }
}

/// Success with a payload already copied into the guest at `ptr`.
pub fn payload_reply(ptr: u32, len: u32) -> (r: OutputArea)
    ensures
        r == (OutputArea { status: 1, a: ptr, b: len }),
{
    OutputArea { status: 1, a: ptr, b: len }
}

/// Failure, with the UTF-8 message already copied into the guest at `ptr`.
pub fn error_reply(ptr: u32, len: u32) -> (r: OutputArea)
    ensures
        r == (OutputArea { status: 0, a: ptr, b: len }),
{
    OutputArea { status: 0, a: ptr, b: len }
}

fn push_u32(out: &mut Vec<u8>, v: u32)
    ensures
        final(out)@ == old(out)@ + u32_bytes(v),
{
    out.push((v & 0xff) as u8);
    out.push(((v >> 8) & 0xff) as u8);
    out.push(((v >> 16) & 0xff) as u8);
    out.push(((v >> 24) & 0xff) as u8);
    assert(out@ =~= old(out)@ + u32_bytes(v));
}

/// Writes all three slots of `area`, little-endian, at the guest offset `at`.
pub fn write_output_area(mem: &mut [u8], at: u32, area: OutputArea) -> (r: Result<(), MemoryFault>)
    ensures
        match r {
            Ok(()) => {
                &&& in_bounds(old(mem)@.len() as int, at, OUTPUT_AREA_LEN)
                &&& final(mem)@ == spliced(old(mem)@, at as int, area_bytes(area))
            },
            Err(f) => {
                &&& !in_bounds(old(mem)@.len() as int, at, OUTPUT_AREA_LEN)
                &&& f == (MemoryFault { offset: at, len: OUTPUT_AREA_LEN })
                &&& final(mem)@ == old(mem)@
            },
        },
{
    let mut bytes: Vec<u8> = Vec::new();
    push_u32(&mut bytes, area.status);
    push_u32(&mut bytes, area.a);
    push_u32(&mut bytes, area.b);
    assert(bytes@ =~= area_bytes(area));
    match copy_into_guest(mem, at, bytes.as_slice()) {
        Ok(_) => Ok(()),
        Err(_) => Err(MemoryFault { offset: at, len: OUTPUT_AREA_LEN }),
    }
}

} // verus!
