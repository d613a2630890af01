//! Physical frame allocation from the boot-time memory map.

use bootloader::bootinfo::MemoryMap;
use bootloader::bootinfo::MemoryRegionType;
use vstd::prelude::*;
use x86_64::structures::paging::PhysFrame as HwFrame;
use x86_64::structures::paging::Size4KiB;
use x86_64::PhysAddr;

verus! {

/// Size of one physical frame in bytes.
pub const PAGE_SIZE: u64 = 4096;

/// Frame numbers at or above this bound give addresses outside the 52-bit
/// physical address space.
pub const FRAME_NUMBER_LIMIT: u64 = 0x100_0000_0000;

/// What a region of the memory map is used for.
#[derive(Clone, Copy, Debug, PartialEq, Eq, Structural)]
pub enum RegionType {
    /// Free memory.
    Usable,
    /// Memory that is in use.
    InUse,
    /// Memory that firmware reserves.
    Reserved,
    /// Tables of the power interface that may be reclaimed.
    AcpiReclaimable,
    /// Memory of the power interface that must be kept.
    AcpiNvs,
    /// Memory reported as faulty.
    BadMemory,
    /// The kernel image.
    Kernel,
    /// The kernel's stack.
    KernelStack,
    /// Page tables.
    PageTable,
    /// The bootloader.
    Bootloader,
    /// The frame at address zero.
    FrameZero,
    /// An unused entry.
    Empty,
    /// The boot information.
    BootInfo,
    /// A package handed over at boot.
    Package,
    /// Any type added later.
    NonExhaustive,
}

/// One region of the memory map, as plain values.
#[derive(Clone, Copy, Debug, PartialEq, Eq, Structural)]
pub struct Region {
    /// Number of the first frame of the region.
    pub start_frame_number: u64,
    /// Number of the first frame after the region.
    pub end_frame_number: u64,
    /// What the region is used for.
    pub region_type: RegionType,
}

/// A 4 KiB physical frame, identified by its start address.
#[derive(Clone, Copy, Debug, PartialEq, Eq, Structural)]
pub struct PhysFrame {
    /// Address of the first byte of the frame.
    pub start_address: u64,
}

#[verifier::external_type_specification]
#[verifier::external_body]
pub struct ExMemoryMap(MemoryMap);

#[verifier::external_type_specification]
#[verifier::external_body]
pub struct ExMapEntry(bootloader::bootinfo::MemoryRegion);

/// The regions that a memory map holds, in the order of the map: of each its
/// first frame number, the frame number after its last, and its type.
pub uninterp spec fn map_regions(map: &MemoryMap) -> Seq<Region>;

/// `<[MemoryRegion]>::len` through `MemoryMap`'s `Deref`: the number of
/// regions in the map.
#[verifier::external_body]
fn region_count(map: &MemoryMap) -> (n: usize)
    ensures
        n == map_regions(map).len(),
{
    map.len()
}

/// Indexing through `MemoryMap`'s `Deref`: the frame numbers that bound the
/// region at `index`.
#[verifier::external_body]
fn region_bounds(map: &MemoryMap, index: usize) -> (bounds: (u64, u64))
    requires
        index < map_regions(map).len(),
    ensures
        bounds.0 == map_regions(map)[index as int].start_frame_number,
        bounds.1 == map_regions(map)[index as int].end_frame_number,
{
    let range = &map[index].range;
    (range.start_frame_number, range.end_frame_number)
}

/// Indexing through `MemoryMap`'s `Deref`: the type of the region at
/// `index`, variant for variant.
#[verifier::external_body]
fn region_type_at(map: &MemoryMap, index: usize) -> (region_type: RegionType)
    requires
        index < map_regions(map).len(),
    ensures
        region_type == map_regions(map)[index as int].region_type,
{
    match map[index].region_type { MemoryRegionType::Usable => RegionType::Usable,
        MemoryRegionType::InUse => RegionType::InUse,
        MemoryRegionType::Reserved => RegionType::Reserved,
        MemoryRegionType::AcpiReclaimable => RegionType::AcpiReclaimable,
        MemoryRegionType::AcpiNvs => RegionType::AcpiNvs,
        MemoryRegionType::BadMemory => RegionType::BadMemory,
        MemoryRegionType::Kernel => RegionType::Kernel,
        MemoryRegionType::KernelStack => RegionType::KernelStack,
        MemoryRegionType::PageTable => RegionType::PageTable,
        MemoryRegionType::Bootloader => RegionType::Bootloader,
        MemoryRegionType::FrameZero => RegionType::FrameZero,
        MemoryRegionType::Empty => RegionType::Empty,
        MemoryRegionType::BootInfo => RegionType::BootInfo,
        MemoryRegionType::Package => RegionType::Package,
        MemoryRegionType::NonExhaustive => RegionType::NonExhaustive, }
}

/// The region at `index` of the map.
fn region_at(map: &MemoryMap, index: usize) -> (region: Region)
    requires
        index < map_regions(map).len(),
    ensures
        region == map_regions(map)[index as int],
{
    let bounds = region_bounds(map, index);
    Region {
        start_frame_number: bounds.0,
        end_frame_number: bounds.1,
        region_type: region_type_at(map, index),
    }
}

/// `PhysAddr::new` followed by `PhysFrame::containing_address` and
/// `start_address`: the address rounded down to a multiple of the frame size.
/// `PhysAddr::new` panics on addresses of more than 52 bits.
#[verifier::external_body]
fn containing_frame_start(address: u64) -> (start: u64)
    requires
        address < 0x10_0000_0000_0000,
    ensures
        start == address - address % 4096,
{
    HwFrame::<Size4KiB>::containing_address(PhysAddr::new(address)).start_address().as_u64()
}

impl PhysFrame {
    /// The frame that contains `address`; `None` for an address outside the
    /// 52-bit physical address space.
    pub fn containing_address(address: u64) -> (frame: Option<PhysFrame>)
        ensures
            frame.is_some() == (address < 0x10_0000_0000_0000),
            frame matches Some(f) ==> f.start_address == address - address % 4096,
    {
        if address < 0x10_0000_0000_0000 {
            Some(PhysFrame { start_address: containing_frame_start(address) })
        } else {
            None
        }
    }
}

impl Region {
    /// Whether firmware classified the region as usable: only the type
    /// `Usable` counts.
    pub open spec fn usable(self) -> bool {
        self.region_type == RegionType::Usable
    }

    /// Whether firmware classified the region as usable.
    pub fn is_usable(&self) -> (usable: bool)
        ensures
            usable == self.usable(),
    {
        match self.region_type {
            RegionType::Usable => true,
            _ => false,
        }
    }

    /// Number of frames that the region contributes to the allocator.
    pub open spec fn frame_count(self) -> nat {
        if self.usable() && self.start_frame_number < self.end_frame_number {
            (self.end_frame_number - self.start_frame_number) as nat
        } else {
            0
        }
    }

    /// Start addresses of the frames that the region contributes.
    pub open spec fn frames(self) -> Seq<int> {
        Seq::new(self.frame_count(), |k: int| (self.start_frame_number + k) * 4096)
    }

    /// A usable region must lie inside the physical address space.
    pub open spec fn in_address_space(self) -> bool {
        self.usable() ==> self.end_frame_number <= FRAME_NUMBER_LIMIT
    }
}

/// Start addresses of all allocatable frames: the frames of each usable
/// region, region after region.
pub open spec fn usable_frames(regions: Seq<Region>) -> Seq<int>
    decreases regions.len(),
{
    if regions.len() == 0 {
        Seq::empty()
    } else {
        usable_frames(regions.drop_last()) + regions.last().frames()
    }
}

/// Every usable region lies inside the physical address space.
pub open spec fn regions_valid(regions: Seq<Region>) -> bool {
    forall|i: int| 0 <= i < regions.len() ==> (#[trigger] regions[i]).in_address_space()
}

/// Usable regions appear in increasing address order and do not overlap.
pub open spec fn regions_ordered(regions: Seq<Region>) -> bool {
    forall|i: int, j: int|
        0 <= i < j < regions.len() && (#[trigger] regions[i]).frame_count() > 0 && (
        #[trigger] regions[j]).frame_count() > 0 ==> regions[i].end_frame_number
            <= regions[j].start_frame_number
}

/// The frames of the first `n` regions are the first frames of the whole map.
pub proof fn lemma_usable_frames_prefix(regions: Seq<Region>, n: int)
    requires
        0 <= n <= regions.len(),
    ensures
        usable_frames(regions.take(n)).len() <= usable_frames(regions).len(),
        forall|j: int|
            0 <= j < usable_frames(regions.take(n)).len() ==> usable_frames(regions)[j]
                == #[trigger] usable_frames(regions.take(n))[j],
    decreases regions.len() - n,
{
    if n == regions.len() {
        assert(regions.take(n) =~= regions);
    } else {
        lemma_usable_frames_prefix(regions, n + 1);
        assert(regions.take(n + 1).drop_last() =~= regions.take(n));
        let shorter = usable_frames(regions.take(n));
        let longer = usable_frames(regions.take(n + 1));
        assert(longer == shorter + regions.take(n + 1).last().frames());
        assert forall|j: int| 0 <= j < shorter.len() implies usable_frames(regions)[j]
            == #[trigger] shorter[j] by {
            assert(longer[j] == shorter[j]);
        }
    }
}

/// Every allocatable frame starts at a non-negative multiple of the frame
/// size.
pub proof fn lemma_usable_frames_aligned(regions: Seq<Region>)
    ensures
        forall|j: int|
            0 <= j < usable_frames(regions).len() ==> {
                &&& (#[trigger] usable_frames(regions)[j]) % 4096 == 0
                &&& usable_frames(regions)[j] >= 0
            },
    decreases regions.len(),
{
    if regions.len() > 0 {
        lemma_usable_frames_aligned(regions.drop_last());
        let before = usable_frames(regions.drop_last());
        let last = regions.last();
        assert forall|j: int| 0 <= j < usable_frames(regions).len() implies {
            &&& (#[trigger] usable_frames(regions)[j]) % 4096 == 0
            &&& usable_frames(regions)[j] >= 0
        } by {
            if j >= before.len() {
                let k = j - before.len();
                assert(usable_frames(regions)[j] == last.frames()[k]);
                assert(last.frames()[k] == (last.start_frame_number + k) * 4096);
            } else {
                assert(usable_frames(regions)[j] == before[j]);
            }
        }
    }
}

/// If every contributing region ends at or before frame number `limit`, every
/// allocatable frame ends at or before the address of that frame.
pub proof fn lemma_usable_frames_below(regions: Seq<Region>, limit: int)
    requires
        forall|i: int|
            0 <= i < regions.len() && (#[trigger] regions[i]).frame_count() > 0
                ==> regions[i].end_frame_number <= limit,
    ensures
        forall|j: int|
            0 <= j < usable_frames(regions).len() ==> (#[trigger] usable_frames(regions)[j])
                + 4096 <= limit * 4096,
    decreases regions.len(),
{
    if regions.len() > 0 {
        let shorter = regions.drop_last();
        assert forall|i: int|
            0 <= i < shorter.len() && (#[trigger] shorter[i]).frame_count()
                > 0 implies shorter[i].end_frame_number <= limit by {
            assert(shorter[i] == regions[i]);
        }
        lemma_usable_frames_below(shorter, limit);
        let before = usable_frames(shorter);
        let last = regions.last();
        assert forall|j: int| 0 <= j < usable_frames(regions).len() implies (
        #[trigger] usable_frames(regions)[j]) + 4096 <= limit * 4096 by {
            if j >= before.len() {
                let k = j - before.len();
                assert(usable_frames(regions)[j] == last.frames()[k]);
                assert(last.frames()[k] == (last.start_frame_number + k) * 4096);
                assert(regions[regions.len() - 1].frame_count() > 0);
                assert(last.start_frame_number + k + 1 <= limit);
            } else {
                assert(usable_frames(regions)[j] == before[j]);
            }
        }
    }
}

/// Over a memory map whose usable regions are in address order and do not
/// overlap, the allocatable frames come in strictly increasing address order
/// and no two of them overlap; in particular they are pairwise distinct.
pub proof fn lemma_usable_frames_increasing(regions: Seq<Region>)
    requires
        regions_ordered(regions),
    ensures
        forall|a: int, b: int|
            0 <= a < b < usable_frames(regions).len() ==> (#[trigger] usable_frames(regions)[a])
                + 4096 <= #[trigger] usable_frames(regions)[b],
    decreases regions.len(),
{
    if regions.len() > 0 {
        let shorter = regions.drop_last();
        let last = regions.last();
        let before = usable_frames(shorter);
        assert(regions_ordered(shorter)) by {
            assert forall|i: int, j: int|
                0 <= i < j < shorter.len() && (#[trigger] shorter[i]).frame_count() > 0 && (
                #[trigger] shorter[j]).frame_count() > 0 implies shorter[i].end_frame_number
                <= shorter[j].start_frame_number by {
                assert(shorter[i] == regions[i]);
                assert(shorter[j] == regions[j]);
            }
        }
        lemma_usable_frames_increasing(shorter);
        if last.frame_count() > 0 {
            assert forall|i: int|
                0 <= i < shorter.len() && (#[trigger] shorter[i]).frame_count()
                    > 0 implies shorter[i].end_frame_number <= last.start_frame_number by {
                assert(shorter[i] == regions[i]);
                assert(last == regions[regions.len() - 1]);
            }
            lemma_usable_frames_below(shorter, last.start_frame_number as int);
        }
        assert forall|a: int, b: int| 0 <= a < b < usable_frames(regions).len() implies (
        #[trigger] usable_frames(regions)[a]) + 4096 <= #[trigger] usable_frames(regions)[b] by {
            if b < before.len() {
                assert(usable_frames(regions)[a] == before[a]);
                assert(usable_frames(regions)[b] == before[b]);
            } else {
                let kb = b - before.len();
                assert(usable_frames(regions)[b] == last.frames()[kb]);
                assert(last.frames()[kb] == (last.start_frame_number + kb) * 4096);
                if a < before.len() {
                    assert(usable_frames(regions)[a] == before[a]);
                } else {
                    let ka = a - before.len();
                    assert(usable_frames(regions)[a] == last.frames()[ka]);
                    assert(last.frames()[ka] == (last.start_frame_number + ka) * 4096);
                }
            }
        }
    }
}

/// Every allocatable frame lies inside a region that firmware classified as
/// usable.
pub proof fn lemma_usable_frame_in_usable_region(regions: Seq<Region>, j: int)
    requires
        0 <= j < usable_frames(regions).len(),
    ensures
        exists|i: int|
            0 <= i < regions.len() && (#[trigger] regions[i]).usable() && regions[i].start_frame_number
                * 4096 <= usable_frames(regions)[j] && usable_frames(regions)[j] + 4096
                <= regions[i].end_frame_number * 4096,
    decreases regions.len(),
{
    let shorter = regions.drop_last();
    let before = usable_frames(shorter);
    let last = regions.last();
    if j < before.len() {
        lemma_usable_frame_in_usable_region(shorter, j);
        let i = choose|i: int|
            0 <= i < shorter.len() && (#[trigger] shorter[i]).usable() && shorter[i].start_frame_number
                * 4096 <= before[j] && before[j] + 4096 <= shorter[i].end_frame_number * 4096;
        assert(shorter[i] == regions[i]);
        assert(usable_frames(regions)[j] == before[j]);
    } else {
        let k = j - before.len();
        assert(usable_frames(regions)[j] == last.frames()[k]);
        assert(last.frames()[k] == (last.start_frame_number + k) * 4096);
        assert(regions[regions.len() - 1].usable());
    }
}

/// No region contributes more frames than the physical address space holds,
/// so a valid map has at most that many usable frames for each of its
/// regions.
pub proof fn lemma_usable_frame_count_bounded(regions: Seq<Region>)
    requires
        regions_valid(regions),
    ensures
        usable_frames(regions).len() <= regions.len() * 0x100_0000_0000,
    decreases regions.len(),
{
    if regions.len() > 0 {
        let shorter = regions.drop_last();
        assert forall|i: int| 0 <= i < shorter.len() implies (
        #[trigger] shorter[i]).in_address_space() by {
            assert(shorter[i] == regions[i]);
        }
        lemma_usable_frame_count_bounded(shorter);
        assert(regions[regions.len() - 1].in_address_space());
    }
}

/// Two regions that both contribute frames share none.
pub open spec fn regions_disjoint(regions: Seq<Region>) -> bool {
    forall|i: int, j: int|
        0 <= i < j < regions.len() && (#[trigger] regions[i]).frame_count() > 0 && (
        #[trigger] regions[j]).frame_count() > 0 ==> regions[i].end_frame_number
            <= regions[j].start_frame_number || regions[j].end_frame_number
            <= regions[i].start_frame_number
}

/// Over a memory map whose usable regions are pairwise disjoint, in whatever
/// order they come, no two allocatable frames overlap; in particular they
/// are pairwise distinct.
pub proof fn lemma_usable_frames_distinct(regions: Seq<Region>)
    requires
        regions_disjoint(regions),
    ensures
        forall|a: int, b: int|
            0 <= a < b < usable_frames(regions).len() ==> (#[trigger] usable_frames(regions)[a])
                + 4096 <= #[trigger] usable_frames(regions)[b] || usable_frames(regions)[b] + 4096
                <= usable_frames(regions)[a],
    decreases regions.len(),
{
    if regions.len() > 0 {
        let shorter = regions.drop_last();
        let last = regions.last();
        let before = usable_frames(shorter);
        assert(regions_disjoint(shorter)) by {
            assert forall|i: int, j: int|
                0 <= i < j < shorter.len() && (#[trigger] shorter[i]).frame_count() > 0 && (
                #[trigger] shorter[j]).frame_count() > 0 implies shorter[i].end_frame_number
                <= shorter[j].start_frame_number || shorter[j].end_frame_number
                <= shorter[i].start_frame_number by {
                assert(shorter[i] == regions[i]);
                assert(shorter[j] == regions[j]);
            }
        }
        lemma_usable_frames_distinct(shorter);
        assert forall|a: int, b: int| 0 <= a < b < usable_frames(regions).len() implies (
        #[trigger] usable_frames(regions)[a]) + 4096 <= #[trigger] usable_frames(regions)[b]
            || usable_frames(regions)[b] + 4096 <= usable_frames(regions)[a] by {
            if b < before.len() {
                assert(usable_frames(regions)[a] == before[a]);
                assert(usable_frames(regions)[b] == before[b]);
            } else {
                let kb = b - before.len();
                assert(usable_frames(regions)[b] == last.frames()[kb]);
                assert(last.frames()[kb] == (last.start_frame_number + kb) * 4096);
                if a < before.len() {
                    assert(usable_frames(regions)[a] == before[a]);
                    lemma_usable_frame_in_usable_region(shorter, a);
                    let i = choose|i: int|
                        0 <= i < shorter.len() && (#[trigger] shorter[i]).usable()
                            && shorter[i].start_frame_number * 4096 <= before[a] && before[a] + 4096
                            <= shorter[i].end_frame_number * 4096;
                    assert(shorter[i] == regions[i]);
                    assert(last == regions[regions.len() - 1]);
                    assert(regions[i].frame_count() > 0);
                    assert(regions[regions.len() - 1].frame_count() > 0);
                } else {
                    let ka = a - before.len();
                    assert(usable_frames(regions)[a] == last.frames()[ka]);
                    assert(last.frames()[ka] == (last.start_frame_number + ka) * 4096);
                }
            }
        }
    }
}

/// Checks that every usable region lies inside the physical address space.
pub fn memory_map_is_valid(memory_map: &MemoryMap) -> (valid: bool)
    ensures
        valid == regions_valid(map_regions(memory_map)),
{
    let count = region_count(memory_map);
    let mut i: usize = 0;
    while i < count
        invariant
            count == map_regions(memory_map).len(),
            i <= count,
            forall|k: int| 0 <= k < i ==> (#[trigger] map_regions(memory_map)[k]).in_address_space(),
        decreases count - i,
    {
        let region = region_at(memory_map, i);
        if region.is_usable() && region.end_frame_number > FRAME_NUMBER_LIMIT {
            return false;
        }
        i += 1;
    }
    true
}

/// Hands out the usable frames of a memory map, one after another.
pub struct BootInfoFrameAllocator {
    memory_map: &'static MemoryMap,
    next: u128,
}

impl BootInfoFrameAllocator {
    /// The regions of the memory map the allocator was made from.
    pub closed spec fn regions(&self) -> Seq<Region> {
        map_regions(self.memory_map)
    }

    /// Number of allocation attempts made so far.
    pub closed spec fn cursor(&self) -> nat {
        self.next as nat
    }

    /// The allocator's memory map lies inside the physical address space.
    pub open spec fn well_formed(&self) -> bool {
        regions_valid(self.regions())
    }

    /// Creates an allocator over `memory_map` with the cursor at zero.
    pub fn init(memory_map: &'static MemoryMap) -> (allocator: Self)
        requires
            regions_valid(map_regions(memory_map)),
        ensures
            allocator.well_formed(),
            allocator.regions() == map_regions(memory_map),
            allocator.cursor() == 0,
    {
        BootInfoFrameAllocator { memory_map, next: 0 }
    }

    /// Creates an allocator over `memory_map` if the map is valid.
    pub fn try_init(memory_map: &'static MemoryMap) -> (allocator: Option<Self>)
        ensures
            allocator.is_some() == regions_valid(map_regions(memory_map)),
            allocator.is_some() ==> allocator.unwrap().well_formed()
                && allocator.unwrap().regions() == map_regions(memory_map)
                && allocator.unwrap().cursor() == 0,
    {
        if memory_map_is_valid(memory_map) {
            Some(Self::init(memory_map))
        } else {
            None
        }
    }

    /// The frame at position `index` of the usable frames, if there is one.
    pub fn usable_frame(&self, index: usize) -> (frame: Option<PhysFrame>)
        requires
            self.well_formed(),
        ensures
            frame.is_some() == (index < usable_frames(self.regions()).len()),
            frame.is_some() ==> frame.unwrap().start_address == usable_frames(
                self.regions(),
            )[index as int],
            frame.is_some() ==> frame.unwrap().start_address % 4096 == 0,
    {
        self.frame_at(index as u128)
    }

    /// The frame at position `index` of the usable frames, if there is one,
    /// for any position that a cursor can take. There are fewer usable
    /// frames than a cursor can count.
    fn frame_at(&self, index: u128) -> (frame: Option<PhysFrame>)
        requires
            self.well_formed(),
        ensures
            frame.is_some() == (index < usable_frames(self.regions()).len()),
            frame.is_some() ==> frame.unwrap().start_address == usable_frames(
                self.regions(),
            )[index as int],
            frame.is_some() ==> frame.unwrap().start_address % 4096 == 0,
            usable_frames(self.regions()).len() < u128::MAX,
    {
        let count = region_count(self.memory_map);
        let ghost regions = self.regions();
        proof {
            lemma_usable_frame_count_bounded(regions);
            assert(regions.len() * 0x100_0000_0000 <= 0xffff_ffff_ffff_ffff * 0x100_0000_0000)
                by (nonlinear_arith)
                requires
                    regions.len() <= 0xffff_ffff_ffff_ffff,
            ;
        }
        let mut remaining: u128 = index;
        let mut i: usize = 0;
        while i < count
            invariant
                usable_frames(regions).len() < u128::MAX,
                regions == map_regions(self.memory_map),
                regions_valid(regions),
                count == regions.len(),
                i <= count,
                usable_frames(regions.take(i as int)).len() + remaining == index,
            decreases count - i,
        {
            let region = region_at(self.memory_map, i);
            proof {
                assert(regions.take(i + 1).drop_last() =~= regions.take(i as int));
                assert(regions.take(i + 1).last() == region);
                assert(region.in_address_space());
            }
            if region.is_usable() && region.start_frame_number < region.end_frame_number {
                let frames_here: u64 = region.end_frame_number - region.start_frame_number;
                if remaining < frames_here as u128 {
                    let offset: u64 = remaining as u64;
                    let address: u64 = (region.start_frame_number + offset) * PAGE_SIZE;
                    let start = containing_frame_start(address);
                    proof {
                        lemma_usable_frames_prefix(regions, i + 1);
                        let upto = usable_frames(regions.take(i + 1));
                        assert(upto[index as int] == region.frames()[remaining as int]);
                    }
                    return Some(PhysFrame { start_address: start });
                }
                remaining = remaining - frames_here as u128;
            }
            i += 1;
        }
        proof {
            assert(regions.take(count as int) =~= regions);
        }
        None
    }

    /// Returns the usable frame at the cursor and advances the cursor;
    /// `None` once the usable frames are exhausted. The cursor counts every
    /// call, up to the largest number it can hold, which lies beyond the
    /// number of usable frames of any memory map.
    pub fn allocate_frame(&mut self) -> (frame: Option<PhysFrame>)
        requires
            old(self).well_formed(),
        ensures
            final(self).well_formed(),
            final(self).regions() == old(self).regions(),
            frame.is_some() == (old(self).cursor() < usable_frames(old(self).regions()).len()),
            frame.is_some() ==> frame.unwrap().start_address == usable_frames(
                old(self).regions(),
            )[old(self).cursor() as int],
            frame.is_some() ==> frame.unwrap().start_address % 4096 == 0,
            old(self).cursor() <= usable_frames(old(self).regions()).len() ==> final(self).cursor()
                == old(self).cursor() + 1,
            final(self).cursor() == if old(self).cursor() < u128::MAX {
                old(self).cursor() + 1
            } else {
                old(self).cursor()
            },
    {
        let frame = self.frame_at(self.next);
        if self.next < u128::MAX {
            self.next += 1;
        }
        frame
    }
}

} // verus!
