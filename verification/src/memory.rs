use vstd::prelude::*;

verus! {

// Selector values of the host's memory-region interface.
pub const MEMORY_ID_SAVE_RAM: u32 = 0;
pub const MEMORY_ID_RTC: u32 = 1;
pub const MEMORY_ID_SYSTEM_RAM: u32 = 2;
pub const MEMORY_ID_VIDEO_RAM: u32 = 3;

/// A memory kind the host may query. Only the machine's general working
/// memory is backed; every other kind is a static "unavailable" entry.
#[derive(Clone, Copy, PartialEq, Eq, Structural, Debug)]
pub enum MemoryKind {
    SaveRam,
    Rtc,
    SystemRam,
    VideoRam,
    Unsupported,
}

pub open spec fn spec_memory_kind(id: u32) -> MemoryKind {
    if id == MEMORY_ID_SAVE_RAM {
        MemoryKind::SaveRam
    } else if id == MEMORY_ID_RTC {
        MemoryKind::Rtc
    } else if id == MEMORY_ID_SYSTEM_RAM {
        MemoryKind::SystemRam
    } else if id == MEMORY_ID_VIDEO_RAM {
        MemoryKind::VideoRam
    } else {
        MemoryKind::Unsupported
    }
}

/// Decode a raw host selector. Unknown selectors are treated as the
/// unsupported kind rather than erroring, to match permissive host querying.
pub fn memory_kind(id: u32) -> (k: MemoryKind)
    ensures
        k == spec_memory_kind(id),
{
    if id == MEMORY_ID_SAVE_RAM {
        MemoryKind::SaveRam
    } else if id == MEMORY_ID_RTC {
        MemoryKind::Rtc
    } else if id == MEMORY_ID_SYSTEM_RAM {
        MemoryKind::SystemRam
    } else if id == MEMORY_ID_VIDEO_RAM {
        MemoryKind::VideoRam
    } else {
        MemoryKind::Unsupported
    }
}

/// Byte size reported for a memory kind: the engine-reported working-memory
/// size for the working-memory kind, zero for every other kind.
pub fn memory_region_size(kind: MemoryKind, ram_size: usize) -> (r: usize)
    ensures
        kind is SystemRam ==> r == ram_size,
        !(kind is SystemRam) ==> r == 0,
{
    match kind {
        MemoryKind::SystemRam => ram_size,
        _ => 0,
    }
}

/// Whether a memory kind has a byte view at all: only the working memory
/// does, so the host gets a view exactly for that kind and for no other.
pub fn memory_region_backed(kind: MemoryKind) -> (r: bool)
    ensures
        r == (kind is SystemRam),
{
    match kind {
        MemoryKind::SystemRam => true,
        _ => false,
    }
}

} // verus!
