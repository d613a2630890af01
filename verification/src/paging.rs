//! Translation of virtual addresses by a walk of the four-level page tables.

use std::collections::HashMap;
use vstd::prelude::*;
use x86_64::VirtAddr;

verus! {

broadcast use vstd::std_specs::hash::group_hash_axioms;

/// Physical addresses have at most 52 bits.
pub const PHYSICAL_ADDRESS_LIMIT: u64 = 0x10_0000_0000_0000;

/// Outcome of a page-table walk.
#[derive(Clone, Copy, Debug, PartialEq, Eq, Structural)]
pub enum Translation {
    /// The address is mapped to this physical address.
    Mapped(u64),
    /// An entry on the way was not present.
    NotPresent,
    /// An entry above the last level maps a huge page.
    HugePage,
}

/// The nine bits of `address` that index the table of `level` (4 is the root
/// table, 1 the last).
pub open spec fn table_index(address: u64, level: nat) -> u64 {
    if level == 4 {
        (address >> 39) & 0x1ff
    } else if level == 3 {
        (address >> 30) & 0x1ff
    } else if level == 2 {
        (address >> 21) & 0x1ff
    } else {
        (address >> 12) & 0x1ff
    }
}

/// The twelve bits of `address` inside its page.
pub open spec fn page_offset(address: u64) -> u64 {
    address & 0xfff
}

/// Whether the entry's present flag is set.
pub open spec fn entry_present(entry: u64) -> bool {
    entry & 0x1 != 0
}

/// Whether the entry's huge-page flag is set.
pub open spec fn entry_huge(entry: u64) -> bool {
    entry & 0x80 != 0
}

/// Start address of the frame that the entry points to.
pub open spec fn entry_frame(entry: u64) -> u64 {
    entry & 0x000f_ffff_ffff_f000
}

/// The 64-bit word stored at `address`; words never written read as zero.
pub open spec fn word_at(words: Map<u64, u64>, address: u64) -> u64 {
    if words.contains_key(address) {
        words[address]
    } else {
        0
    }
}

/// Address of entry `index` of the table in the frame at `table`.
pub open spec fn entry_address(table: u64, index: u64) -> u64 {
    (table + 8 * index) as u64
}

/// The walk from the table of `level` in the frame at `table`: follow the
/// entry for `address` at each level down to the frame of the page.
pub open spec fn walk(words: Map<u64, u64>, table: u64, address: u64, level: nat) -> Translation
    decreases level,
{
    if level == 0 {
        Translation::Mapped((table + page_offset(address)) as u64)
    } else {
        let entry = word_at(words, entry_address(table, table_index(address, level)));
        if !entry_present(entry) {
            Translation::NotPresent
        } else if level > 1 && entry_huge(entry) {
            Translation::HugePage
        } else {
            walk(words, entry_frame(entry), address, (level - 1) as nat)
        }
    }
}

/// A snapshot of the words of physical memory that hold page tables.
pub struct PhysicalMemory {
    words: HashMap<u64, u64>,
}

impl View for PhysicalMemory {
    type V = Map<u64, u64>;

    closed spec fn view(&self) -> Map<u64, u64> {
        self.words@
    }
}

impl PhysicalMemory {
    /// Memory in which every word is zero.
    pub fn new() -> (memory: Self)
        ensures
            memory@ == Map::<u64, u64>::empty(),
    {
        PhysicalMemory { words: HashMap::new() }
    }

    /// Stores `value` in the word at `address`.
    pub fn write(&mut self, address: u64, value: u64)
        ensures
            final(self)@ == old(self)@.insert(address, value),
    {
        self.words.insert(address, value);
    }

    /// The word at `address`.
    pub fn read(&self, address: u64) -> (value: u64)
        ensures
            value == word_at(self@, address),
    {
        match self.words.get(&address) {
            Some(value) => *value,
            None => 0,
        }
    }
}

/// The canonical form of a virtual address: the address itself where bits 47
/// to 63 are all equal, the address with bits 48 to 63 set where only bit 47
/// of them is set, and none otherwise.
pub open spec fn canonical_form(address: u64) -> Option<u64> {
    let top = address >> 47;
    if top == 0 || top == 0x1ffff {
        Some(address)
    } else if top == 1 {
        Some(address | 0xffff_0000_0000_0000)
    } else {
        None
    }
}

/// `VirtAddr::try_new` followed by `as_u64`: the canonical form of the
/// address, or `None` where bits 48 to 63 hold anything but a copy of bit 47
/// or zeros.
#[verifier::external_body]
fn canonical_address(address: u64) -> (canonical: Option<u64>)
    ensures
        canonical == canonical_form(address),
{
    match VirtAddr::try_new(address) {
        Ok(valid) => Some(valid.as_u64()),
        Err(_) => None,
    }
}

/// The virtual address at which the table in the frame at `table` is found,
/// when all physical memory is mapped from `physical_memory_offset` on:
/// their sum in canonical form, or `None` where the sum does not fit or has
/// no canonical form.
pub fn table_virtual_address(physical_memory_offset: u64, table: u64) -> (address: Option<u64>)
    ensures
        address == if physical_memory_offset + table > u64::MAX {
            None
        } else {
            canonical_form((physical_memory_offset + table) as u64)
        },
{
    match physical_memory_offset.checked_add(table) {
        Some(sum) => canonical_address(sum),
        None => None,
    }
}

/// The nine index bits of `address` for the table of `level`.
pub fn index_at_level(address: u64, level: u8) -> (index: u64)
    requires
        1 <= level <= 4,
    ensures
        index == table_index(address, level as nat),
        index < 512,
{
    let shifted: u64 = if level == 4 {
        address >> 39
    } else if level == 3 {
        address >> 30
    } else if level == 2 {
        address >> 21
    } else {
        address >> 12
    };
    assert(shifted & 0x1ff < 512) by (bit_vector);
    shifted & 0x1ff
}

/// What one page-table entry says about the next step of a walk.
#[derive(Clone, Copy, Debug, PartialEq, Eq, Structural)]
pub enum EntryTarget {
    /// The entry points to the frame with this start address.
    Frame(u64),
    /// The entry is not present.
    NotPresent,
    /// The entry maps a huge page.
    HugePage,
}

/// Reads one entry found at `level`: not present, a huge page above the last
/// level, or the frame it points to.
pub fn decode_entry(entry: u64, level: u8) -> (target: EntryTarget)
    ensures
        target == if !entry_present(entry) {
            EntryTarget::NotPresent
        } else if level > 1 && entry_huge(entry) {
            EntryTarget::HugePage
        } else {
            EntryTarget::Frame(entry_frame(entry))
        },
        target matches EntryTarget::Frame(frame) ==> frame < PHYSICAL_ADDRESS_LIMIT && frame % 4096
            == 0,
{
    if entry & 0x1 == 0 {
        EntryTarget::NotPresent
    } else if level > 1 && entry & 0x80 != 0 {
        EntryTarget::HugePage
    } else {
        let frame: u64 = entry & 0x000f_ffff_ffff_f000;
        assert(entry & 0x000f_ffff_ffff_f000 < 0x10_0000_0000_0000) by (bit_vector);
        assert((entry & 0x000f_ffff_ffff_f000) % 4096 == 0) by (bit_vector);
        EntryTarget::Frame(frame)
    }
}

/// Where a walk stands: the frame of the table to read next, and its level.
#[derive(Clone, Copy, Debug, PartialEq, Eq, Structural)]
pub struct WalkState {
    /// Start address of the frame that holds the table.
    pub table: u64,
    /// Level of the table: 4 for the root table, 1 for the last.
    pub level: u8,
}

/// What follows after an entry has been read.
#[derive(Clone, Copy, Debug, PartialEq, Eq, Structural)]
pub enum WalkStep {
    /// The walk goes on with the next table.
    Descend(WalkState),
    /// The walk is over.
    Done(Translation),
}

impl WalkState {
    /// The table has a level and lies in the physical address space.
    pub open spec fn well_formed(self) -> bool {
        &&& 1 <= self.level <= 4
        &&& self.table < PHYSICAL_ADDRESS_LIMIT
    }

    /// Physical address of the entry that the walk for `address` reads next.
    pub open spec fn next_entry(self, address: u64) -> u64 {
        entry_address(self.table, table_index(address, self.level as nat))
    }

    /// What follows when the entry read for `address` is `entry`: the walk
    /// ends at an entry that is not present, at a huge page above the last
    /// level, and at the last level with the physical address; otherwise it
    /// goes down to the table that the entry points to.
    pub open spec fn after_entry(self, address: u64, entry: u64) -> WalkStep {
        if !entry_present(entry) {
            WalkStep::Done(Translation::NotPresent)
        } else if self.level > 1 && entry_huge(entry) {
            WalkStep::Done(Translation::HugePage)
        } else if self.level == 1 {
            WalkStep::Done(Translation::Mapped((entry_frame(entry) + page_offset(address)) as u64))
        } else {
            WalkStep::Descend(
                WalkState { table: entry_frame(entry), level: (self.level - 1) as u8 },
            )
        }
    }

    /// The state at the start of a walk from the root table in the frame at
    /// `root`.
    pub fn start(root: u64) -> (state: WalkState)
        ensures
            state == (WalkState { table: root, level: 4 }),
    {
        WalkState { table: root, level: 4 }
    }

    /// Physical address of the entry to read next for `address`.
    pub fn entry_location(self, address: u64) -> (location: u64)
        requires
            self.well_formed(),
        ensures
            location == self.next_entry(address),
            location == self.table + 8 * table_index(address, self.level as nat),
    {
        let index = index_at_level(address, self.level);
        self.table + 8 * index
    }

    /// Takes the entry that was read for `address` and says what follows.
    pub fn step(self, address: u64, entry: u64) -> (next: WalkStep)
        requires
            self.well_formed(),
        ensures
            next == self.after_entry(address, entry),
            next matches WalkStep::Descend(state) ==> state.well_formed(),
    {
        match decode_entry(entry, self.level) {
            EntryTarget::NotPresent => WalkStep::Done(Translation::NotPresent),
            EntryTarget::HugePage => WalkStep::Done(Translation::HugePage),
            EntryTarget::Frame(frame) => {
                if self.level == 1 {
                    let offset: u64 = address & 0xfff;
                    assert(address & 0xfff < 4096) by (bit_vector);
                    WalkStep::Done(Translation::Mapped(frame + offset))
                } else {
                    WalkStep::Descend(WalkState { table: frame, level: self.level - 1 })
                }
            },
        }
    }
}

/// A walk is its first step, followed by the walk from the table that the
/// step goes down to.
pub proof fn lemma_walk_by_steps(words: Map<u64, u64>, state: WalkState, address: u64)
    requires
        state.well_formed(),
    ensures
        walk(words, state.table, address, state.level as nat) == match state.after_entry(
            address,
            word_at(words, state.next_entry(address)),
        ) {
            WalkStep::Done(outcome) => outcome,
            WalkStep::Descend(next) => walk(words, next.table, address, next.level as nat),
        },
{
    reveal_with_fuel(walk, 2);
}

/// Walks the page tables in `memory` from the root table in the frame at
/// `root` and says what `address` is mapped to.
pub fn walk_tables(memory: &PhysicalMemory, root: u64, address: u64) -> (outcome: Translation)
    requires
        root < PHYSICAL_ADDRESS_LIMIT,
    ensures
        outcome == walk(memory@, root, address, 4),
{
    let mut state = WalkState::start(root);
    loop
        invariant
            state.well_formed(),
            walk(memory@, state.table, address, state.level as nat) == walk(
                memory@,
                root,
                address,
                4,
            ),
        decreases state.level,
    {
        let entry = memory.read(state.entry_location(address));
        proof {
            lemma_walk_by_steps(memory@, state, address);
        }
        match state.step(address, entry) {
            WalkStep::Done(outcome) => {
                return outcome;
            },
            WalkStep::Descend(next) => {
                state = next;
            },
        }
    }
}

/// Translates `address` to the physical address it is mapped to, or `None`
/// where it is not mapped. The walk must not meet a huge page.
pub fn translate_addr(memory: &PhysicalMemory, root: u64, address: u64) -> (physical: Option<u64>)
    requires
        root < PHYSICAL_ADDRESS_LIMIT,
        walk(memory@, root, address, 4) != Translation::HugePage,
    ensures
        physical == match walk(memory@, root, address, 4) {
            Translation::Mapped(target) => Some(target),
            _ => None::<u64>,
        },
{
    match walk_tables(memory, root, address) {
        Translation::Mapped(target) => Some(target),
        _ => None,
    }
}

/// The entry that a walk for `address` reads at `level`, where the walk gets
/// that far: the entry of the root table at level 4, and below it the entry
/// of the table that the entry one level up points to.
pub open spec fn entry_on_path(words: Map<u64, u64>, root: u64, address: u64, level: nat) -> u64
    decreases 4 - level,
{
    let table = if level >= 4 {
        root
    } else {
        entry_frame(entry_on_path(words, root, address, level + 1))
    };
    word_at(words, entry_address(table, table_index(address, level)))
}

/// Whether the walk for `address` gets to `level`: every entry above it is
/// present and none of them maps a huge page.
pub open spec fn path_reaches(words: Map<u64, u64>, root: u64, address: u64, level: nat) -> bool
    decreases 4 - level,
{
    level >= 4 || {
        let above = entry_on_path(words, root, address, level + 1);
        path_reaches(words, root, address, level + 1) && entry_present(above) && !entry_huge(
            above,
        )
    }
}

/// A walk ends at the first level it gets to whose entry is not present,
/// with the answer that the address is not mapped; what tables lie below
/// that entry does not matter.
pub proof fn lemma_unmapped_at_level(words: Map<u64, u64>, root: u64, address: u64, level: nat)
    requires
        1 <= level <= 4,
        path_reaches(words, root, address, level),
        !entry_present(entry_on_path(words, root, address, level)),
    ensures
        walk(words, root, address, 4) == Translation::NotPresent,
{
    reveal_with_fuel(walk, 5);
    reveal_with_fuel(entry_on_path, 5);
    reveal_with_fuel(path_reaches, 5);
}

/// A walk ends at the first level above the last that it gets to whose entry
/// is present and maps a huge page, with the answer that it met one.
pub proof fn lemma_huge_page_at_level(words: Map<u64, u64>, root: u64, address: u64, level: nat)
    requires
        2 <= level <= 4,
        path_reaches(words, root, address, level),
        entry_present(entry_on_path(words, root, address, level)),
        entry_huge(entry_on_path(words, root, address, level)),
    ensures
        walk(words, root, address, 4) == Translation::HugePage,
{
    reveal_with_fuel(walk, 5);
    reveal_with_fuel(entry_on_path, 5);
    reveal_with_fuel(path_reaches, 5);
}

/// A walk that gets to the last level and finds its entry present ends with
/// the frame of that entry plus the address's offset in its page.
pub proof fn lemma_mapped_at_last_level(words: Map<u64, u64>, root: u64, address: u64)
    requires
        path_reaches(words, root, address, 1),
        entry_present(entry_on_path(words, root, address, 1)),
    ensures
        walk(words, root, address, 4) == Translation::Mapped(
            (entry_frame(entry_on_path(words, root, address, 1)) + page_offset(address)) as u64,
        ),
{
    reveal_with_fuel(walk, 5);
    reveal_with_fuel(entry_on_path, 5);
    reveal_with_fuel(path_reaches, 5);
}

/// The frame that the last-level entry for `address` points to, where the
/// entries of all four levels are present and none of the upper three maps a
/// huge page.
pub open spec fn leaf_frame(words: Map<u64, u64>, root: u64, address: u64) -> Option<u64> {
    let e4 = word_at(words, entry_address(root, table_index(address, 4)));
    let e3 = word_at(words, entry_address(entry_frame(e4), table_index(address, 3)));
    let e2 = word_at(words, entry_address(entry_frame(e3), table_index(address, 2)));
    let e1 = word_at(words, entry_address(entry_frame(e2), table_index(address, 1)));
    if entry_present(e4) && entry_present(e3) && entry_present(e2) && entry_present(e1)
        && !entry_huge(e4) && !entry_huge(e3) && !entry_huge(e2) {
        Some(entry_frame(e1))
    } else {
        None
    }
}

/// An address whose four entries are present, none of the upper three a huge
/// page, translates to the frame of the last entry plus the address's offset
/// in its page.
pub proof fn lemma_mapped_address(words: Map<u64, u64>, root: u64, address: u64)
    requires
        leaf_frame(words, root, address).is_some(),
    ensures
        walk(words, root, address, 4) == Translation::Mapped(
            (leaf_frame(words, root, address).unwrap() + page_offset(address)) as u64,
        ),
{
    reveal_with_fuel(walk, 5);
}

/// An address with an entry that is not present, below entries that are
/// present and no huge pages, is not mapped.
pub proof fn lemma_unmapped_address(words: Map<u64, u64>, root: u64, address: u64)
    requires
        leaf_frame(words, root, address).is_none(),
        walk(words, root, address, 4) != Translation::HugePage,
    ensures
        walk(words, root, address, 4) == Translation::NotPresent,
{
    reveal_with_fuel(walk, 5);
}

/// Where the last entry for `address` points to the page of `address` itself
/// (an identity mapping), the address translates to itself; where it points
/// to that page moved down by `offset` (an offset mapping), the address
/// translates to itself less `offset`.
pub proof fn lemma_offset_mapping(words: Map<u64, u64>, root: u64, address: u64, offset: u64)
    requires
        offset + page_offset(address) <= address,
        leaf_frame(words, root, address) == Some((address - page_offset(address) - offset) as u64),
    ensures
        walk(words, root, address, 4) == Translation::Mapped((address - offset) as u64),
{
    lemma_mapped_address(words, root, address);
}

} // verus!
