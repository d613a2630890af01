use minircore::pic::{EndOfInterrupt, InterruptController};

#[test]
fn remap_after_the_reserved_vectors() {
    let controller = InterruptController::remap(32, 40).unwrap();
    assert_eq!(controller.primary_offset(), 32);
    assert_eq!(controller.secondary_offset(), 40);
    for line in 0..8 {
        assert_eq!(controller.vector_of_line(line), 32 + line);
    }
    for line in 8..16 {
        assert_eq!(controller.vector_of_line(line), 40 + (line - 8));
    }
}

#[test]
fn end_of_interrupt_by_vector() {
    let controller = InterruptController::remap(32, 40).unwrap();
    assert_eq!(controller.notify_end_of_interrupt(31), EndOfInterrupt::Nothing);
    assert_eq!(controller.notify_end_of_interrupt(32), EndOfInterrupt::Primary);
    assert_eq!(controller.notify_end_of_interrupt(39), EndOfInterrupt::Primary);
    assert_eq!(controller.notify_end_of_interrupt(40), EndOfInterrupt::SecondaryThenPrimary);
    assert_eq!(controller.notify_end_of_interrupt(47), EndOfInterrupt::SecondaryThenPrimary);
    assert_eq!(controller.notify_end_of_interrupt(48), EndOfInterrupt::Nothing);
    assert_eq!(controller.notify_end_of_interrupt(3), EndOfInterrupt::Nothing);
    assert_eq!(controller.notify_end_of_interrupt(255), EndOfInterrupt::Nothing);
}

#[test]
fn handled_vectors() {
    let controller = InterruptController::remap(32, 40).unwrap();
    let handled = (0..=255u8).filter(|v| controller.handles_interrupt(*v)).count();
    assert_eq!(handled, 16);
    assert!(controller.handles_interrupt(32));
    assert!(controller.handles_interrupt(47));
    assert!(!controller.handles_interrupt(31));
    assert!(!controller.handles_interrupt(48));
}

#[test]
fn offsets_in_the_reserved_vectors_are_refused() {
    assert!(InterruptController::remap(8, 40).is_none());
    assert!(InterruptController::remap(31, 40).is_none());
    assert!(InterruptController::remap(32, 0).is_none());
}

#[test]
fn overlapping_offsets_are_refused() {
    assert!(InterruptController::remap(32, 32).is_none());
    assert!(InterruptController::remap(32, 39).is_none());
    assert!(InterruptController::remap(40, 33).is_none());
    assert!(InterruptController::remap(40, 32).is_some());
}

#[test]
fn offsets_past_the_table_are_refused() {
    assert!(InterruptController::remap(249, 32).is_none());
    assert!(InterruptController::remap(32, 255).is_none());
    let controller = InterruptController::remap(240, 248).unwrap();
    assert_eq!(controller.vector_of_line(15), 255);
    assert_eq!(controller.notify_end_of_interrupt(255), EndOfInterrupt::SecondaryThenPrimary);
}
