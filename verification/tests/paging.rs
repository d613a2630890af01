use minircore::paging::{
    decode_entry, index_at_level, table_virtual_address, translate_addr, walk_tables,
    EntryTarget, PhysicalMemory, Translation, WalkState, WalkStep,
};

const PRESENT: u64 = 0x1;
const WRITABLE: u64 = 0x2;
const HUGE: u64 = 0x80;

const ROOT: u64 = 0x1000;
const LEVEL_3: u64 = 0x2000;
const LEVEL_2: u64 = 0x3000;
const LEVEL_1: u64 = 0x4000;

/// Tables that map the page at `page` to the frame at `frame`.
fn map_page(memory: &mut PhysicalMemory, page: u64, frame: u64) {
    memory.write(ROOT + 8 * index_at_level(page, 4), LEVEL_3 | PRESENT | WRITABLE);
    memory.write(LEVEL_3 + 8 * index_at_level(page, 3), LEVEL_2 | PRESENT | WRITABLE);
    memory.write(LEVEL_2 + 8 * index_at_level(page, 2), LEVEL_1 | PRESENT | WRITABLE);
    memory.write(LEVEL_1 + 8 * index_at_level(page, 1), frame | PRESENT | WRITABLE);
}

#[test]
fn identity_mapped_address_translates_to_itself() {
    let mut memory = PhysicalMemory::new();
    map_page(&mut memory, 0xb8000, 0xb8000);
    assert_eq!(translate_addr(&memory, ROOT, 0xb8000), Some(0xb8000));
    assert_eq!(translate_addr(&memory, ROOT, 0xb8123), Some(0xb8123));
    assert_eq!(translate_addr(&memory, ROOT, 0xb8fff), Some(0xb8fff));
}

#[test]
fn offset_mapped_address_translates_to_the_frame() {
    let mut memory = PhysicalMemory::new();
    map_page(&mut memory, 0x201000, 0x5000);
    assert_eq!(translate_addr(&memory, ROOT, 0x201008), Some(0x5008));
    assert_eq!(walk_tables(&memory, ROOT, 0x201008), Translation::Mapped(0x5008));
}

#[test]
fn unmapped_address_translates_to_none() {
    let mut memory = PhysicalMemory::new();
    map_page(&mut memory, 0xb8000, 0xb8000);
    assert_eq!(translate_addr(&memory, ROOT, 0xb9000), None);
    assert_eq!(translate_addr(&memory, ROOT, 0x0100_0020_1a10), None);
    assert_eq!(translate_addr(&memory, ROOT, 0xdeadbeef), None);
    assert_eq!(walk_tables(&memory, ROOT, 0xdeadbeef), Translation::NotPresent);
}

#[test]
fn empty_memory_maps_nothing() {
    let memory = PhysicalMemory::new();
    assert_eq!(translate_addr(&memory, ROOT, 0), None);
    assert_eq!(memory.read(0x1000), 0);
}

#[test]
fn entry_without_present_flag_stops_the_walk() {
    let mut memory = PhysicalMemory::new();
    map_page(&mut memory, 0xb8000, 0xb8000);
    memory.write(LEVEL_2 + 8 * index_at_level(0xb8000, 2), LEVEL_1 | WRITABLE);
    assert_eq!(translate_addr(&memory, ROOT, 0xb8000), None);
}

#[test]
fn huge_page_is_reported() {
    let mut memory = PhysicalMemory::new();
    map_page(&mut memory, 0x20_0000, 0x20_0000);
    memory.write(LEVEL_2 + 8 * index_at_level(0x20_0000, 2), 0x20_0000 | PRESENT | HUGE);
    assert_eq!(walk_tables(&memory, ROOT, 0x20_0123), Translation::HugePage);
}

#[test]
fn huge_flag_in_the_last_level_is_not_a_huge_page() {
    let mut memory = PhysicalMemory::new();
    map_page(&mut memory, 0xb8000, 0xb8000);
    memory.write(LEVEL_1 + 8 * index_at_level(0xb8000, 1), 0xb8000 | PRESENT | HUGE);
    assert_eq!(walk_tables(&memory, ROOT, 0xb8010), Translation::Mapped(0xb8010));
}

#[test]
fn table_indices_of_an_address() {
    let address: u64 = (5 << 39) | (17 << 30) | (300 << 21) | (511 << 12) | 0xabc;
    assert_eq!(index_at_level(address, 4), 5);
    assert_eq!(index_at_level(address, 3), 17);
    assert_eq!(index_at_level(address, 2), 300);
    assert_eq!(index_at_level(address, 1), 511);
    assert_eq!(index_at_level(u64::MAX, 4), 511);
}

#[test]
fn entries_decode_by_their_flags() {
    assert_eq!(decode_entry(0, 4), EntryTarget::NotPresent);
    assert_eq!(decode_entry(0x5000 | WRITABLE, 3), EntryTarget::NotPresent);
    assert_eq!(decode_entry(0x5000 | PRESENT, 3), EntryTarget::Frame(0x5000));
    assert_eq!(decode_entry(0x5000 | PRESENT | HUGE, 2), EntryTarget::HugePage);
    assert_eq!(decode_entry(0x5000 | PRESENT | HUGE, 1), EntryTarget::Frame(0x5000));
    assert_eq!(
        decode_entry(0x8000_0000_0000_5fff, 1),
        EntryTarget::Frame(0x5000)
    );
}

#[test]
fn later_write_replaces_earlier() {
    let mut memory = PhysicalMemory::new();
    memory.write(0x10, 7);
    memory.write(0x10, 9);
    assert_eq!(memory.read(0x10), 9);
    assert_eq!(memory.read(0x18), 0);
}

#[test]
fn walk_step_by_step() {
    let address: u64 = 0x201008;
    let state = WalkState::start(ROOT);
    assert_eq!(state, WalkState { table: ROOT, level: 4 });
    assert_eq!(state.entry_location(address), ROOT);
    let next = state.step(address, LEVEL_3 | PRESENT);
    assert_eq!(next, WalkStep::Descend(WalkState { table: LEVEL_3, level: 3 }));
    let state = WalkState { table: LEVEL_2, level: 2 };
    assert_eq!(state.entry_location(address), LEVEL_2 + 8);
    assert_eq!(state.step(address, 0), WalkStep::Done(Translation::NotPresent));
    assert_eq!(state.step(address, PRESENT | HUGE), WalkStep::Done(Translation::HugePage));
    let state = WalkState { table: LEVEL_1, level: 1 };
    assert_eq!(state.entry_location(address), LEVEL_1 + 8);
    assert_eq!(state.step(address, 0x5000 | PRESENT), WalkStep::Done(Translation::Mapped(0x5008)));
}

#[test]
fn table_address_in_the_offset_mapping() {
    assert_eq!(table_virtual_address(0xffff_8000_0000_0000, 0x1000), Some(0xffff_8000_0000_1000));
    assert_eq!(table_virtual_address(0, 0x1000), Some(0x1000));
    assert_eq!(table_virtual_address(0x0000_7fff_ffff_f000, 0x1000), Some(0xffff_8000_0000_0000));
    assert_eq!(table_virtual_address(0x0000_ffff_ffff_f000, 0x1000), None);
    assert_eq!(table_virtual_address(u64::MAX, 1), None);
    assert_eq!(table_virtual_address(0xffff_ffff_ffff_f000, 0xfff), Some(u64::MAX));
}
