use smos::exceptions::interrupts as irq;
use smos::interrupts as old_irq;

#[test]
fn timer_and_keyboard_vectors() {
    assert_eq!(old_irq::InterruptIndex::Timer.as_u8(), 32);
    assert_eq!(old_irq::InterruptIndex::Keyboard.as_u8(), 33);
    assert_eq!(old_irq::InterruptIndex::Keyboard.as_usize(), 33usize);
    assert_eq!(old_irq::PIC_2_OFFSET, 40);
}

#[test]
fn irq_vectors_follow_the_primary_offset() {
    assert_eq!(irq::InterruptIndex::Timer.as_u8(), 0x20);
    assert_eq!(irq::InterruptIndex::Keyboard.as_u8(), 0x21);
    assert_eq!(irq::InterruptIndex::PIC.as_u8(), 0x22);
    assert_eq!(irq::InterruptIndex::_IRQ11.as_u8(), 0x2b);
    assert_eq!(irq::PIC_2_OFFSET, 0x28);
}

#[test]
fn irq_vectors_of_the_upper_lines() {
    assert_eq!(irq::InterruptIndex::Mouse.as_u8(), 0x74);
    assert_eq!(irq::InterruptIndex::MathematicalCoprocessor.as_u8(), 0x75);
    assert_eq!(irq::InterruptIndex::HardDiskController.as_usize(), 0x76);
    assert_eq!(irq::InterruptIndex::_IRQ15.as_usize(), 0x77);
}

#[test]
fn irq_vectors_are_distinct_and_past_the_exceptions() {
    let all = [
        irq::InterruptIndex::Timer,
        irq::InterruptIndex::Keyboard,
        irq::InterruptIndex::PIC,
        irq::InterruptIndex::COM2,
        irq::InterruptIndex::COM1,
        irq::InterruptIndex::LPT2,
        irq::InterruptIndex::FloppyDiskController,
        irq::InterruptIndex::LPT1,
        irq::InterruptIndex::RealTimeClock,
        irq::InterruptIndex::RDIRQ,
        irq::InterruptIndex::_IRQ10,
        irq::InterruptIndex::_IRQ11,
        irq::InterruptIndex::Mouse,
        irq::InterruptIndex::MathematicalCoprocessor,
        irq::InterruptIndex::HardDiskController,
        irq::InterruptIndex::_IRQ15,
    ];
    let mut seen = std::collections::HashSet::new();
    for index in all.iter() {
        let v = index.as_u8();
        assert!(v >= 32);
        assert_eq!(index.as_usize(), v as usize);
        assert!(seen.insert(v));
    }
}
