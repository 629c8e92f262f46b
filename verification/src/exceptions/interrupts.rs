use vstd::prelude::*;

verus! {

/// First interrupt vector of the primary PIC.
pub const PIC_1_OFFSET: u8 = 0x20;

/// First interrupt vector of the secondary PIC, right after the eight of
/// the primary one.
pub const PIC_2_OFFSET: u8 = PIC_1_OFFSET + 8;

/// The sixteen IRQ lines of the two chained PICs, in IRQ order. The
/// variants carry no discriminants: the vector of each is what `as_u8`
/// returns, while a bare `as u8` cast gives its IRQ line.
#[derive(Debug, Clone, Copy)]
pub enum InterruptIndex {
    Timer,
    Keyboard,
    PIC,
    COM2,
    COM1,
    LPT2,
    FloppyDiskController,
    LPT1,
    RealTimeClock,
    RDIRQ,
    _IRQ10,
    _IRQ11,
    Mouse,
    MathematicalCoprocessor,
    HardDiskController,
    _IRQ15,
}

/// The IRQ line of each interrupt.
pub open spec fn irq_line(index: InterruptIndex) -> u8 {
    match index {
        InterruptIndex::Timer => 0,
        InterruptIndex::Keyboard => 1,
        InterruptIndex::PIC => 2,
        InterruptIndex::COM2 => 3,
        InterruptIndex::COM1 => 4,
        InterruptIndex::LPT2 => 5,
        InterruptIndex::FloppyDiskController => 6,
        InterruptIndex::LPT1 => 7,
        InterruptIndex::RealTimeClock => 8,
        InterruptIndex::RDIRQ => 9,
        InterruptIndex::_IRQ10 => 10,
        InterruptIndex::_IRQ11 => 11,
        InterruptIndex::Mouse => 12,
        InterruptIndex::MathematicalCoprocessor => 13,
        InterruptIndex::HardDiskController => 14,
        InterruptIndex::_IRQ15 => 15,
    }
}

/// The interrupt vector of each interrupt: IRQ0 to IRQ11 count up from
/// the primary offset; IRQ12 to IRQ15 count up from 0x74.
pub open spec fn vector(index: InterruptIndex) -> u8 {
    if irq_line(index) < 12 {
        (PIC_1_OFFSET + irq_line(index)) as u8
    } else {
        (0x74 + irq_line(index) - 12) as u8
    }
}

impl InterruptIndex {
    pub fn as_u8(self) -> (vector_number: u8)
        ensures
            vector_number == vector(self),
    {
        match self {
            InterruptIndex::Timer => PIC_1_OFFSET,
            InterruptIndex::Keyboard => PIC_1_OFFSET + 1,
            InterruptIndex::PIC => PIC_1_OFFSET + 2,
            InterruptIndex::COM2 => PIC_1_OFFSET + 3,
            InterruptIndex::COM1 => PIC_1_OFFSET + 4,
            InterruptIndex::LPT2 => PIC_1_OFFSET + 5,
            InterruptIndex::FloppyDiskController => PIC_1_OFFSET + 6,
            InterruptIndex::LPT1 => PIC_1_OFFSET + 7,
            InterruptIndex::RealTimeClock => PIC_1_OFFSET + 8,
            InterruptIndex::RDIRQ => PIC_1_OFFSET + 9,
            InterruptIndex::_IRQ10 => PIC_1_OFFSET + 10,
            InterruptIndex::_IRQ11 => PIC_1_OFFSET + 11,
            InterruptIndex::Mouse => 0x74,
            InterruptIndex::MathematicalCoprocessor => 0x75,
            InterruptIndex::HardDiskController => 0x76,
            InterruptIndex::_IRQ15 => 0x77,
        }
    }

    pub fn as_usize(self) -> (vector_number: usize)
        ensures
            vector_number == vector(self),
    {
        usize::from(self.as_u8())
    }
}

/// Different interrupts have different vectors, and no vector falls
/// among the 32 that the processor reserves for its exceptions.
pub proof fn lemma_vectors(a: InterruptIndex, b: InterruptIndex)
    ensures
        a != b ==> vector(a) != vector(b),
        vector(a) >= 32,
        irq_line(a) < 16,
{
}

} // verus!

verus! {

/// Each interrupt sits on its own IRQ line, in declaration order, and the
/// vector of line n is the primary offset plus n for n < 12, and 0x74 plus
/// n - 12 for the last four lines.
pub proof fn lemma_vector_numbers(index: InterruptIndex)
    ensures
        index == InterruptIndex::Timer ==> irq_line(index) == 0 && vector(index) == 0x20,
        index == InterruptIndex::Keyboard ==> irq_line(index) == 1 && vector(index) == 0x21,
        index == InterruptIndex::PIC ==> irq_line(index) == 2 && vector(index) == 0x22,
        index == InterruptIndex::COM2 ==> irq_line(index) == 3 && vector(index) == 0x23,
        index == InterruptIndex::COM1 ==> irq_line(index) == 4 && vector(index) == 0x24,
        index == InterruptIndex::LPT2 ==> irq_line(index) == 5 && vector(index) == 0x25,
        index == InterruptIndex::FloppyDiskController ==> irq_line(index) == 6 && vector(index) == 0x26,
        index == InterruptIndex::LPT1 ==> irq_line(index) == 7 && vector(index) == 0x27,
        index == InterruptIndex::RealTimeClock ==> irq_line(index) == 8 && vector(index) == 0x28,
        index == InterruptIndex::RDIRQ ==> irq_line(index) == 9 && vector(index) == 0x29,
        index == InterruptIndex::_IRQ10 ==> irq_line(index) == 10 && vector(index) == 0x2a,
        index == InterruptIndex::_IRQ11 ==> irq_line(index) == 11 && vector(index) == 0x2b,
        index == InterruptIndex::Mouse ==> irq_line(index) == 12 && vector(index) == 0x74,
        index == InterruptIndex::MathematicalCoprocessor ==> irq_line(index) == 13 && vector(index) == 0x75,
        index == InterruptIndex::HardDiskController ==> irq_line(index) == 14 && vector(index) == 0x76,
        index == InterruptIndex::_IRQ15 ==> irq_line(index) == 15 && vector(index) == 0x77,
        irq_line(index) < 12 ==> vector(index) == PIC_1_OFFSET + irq_line(index),
        irq_line(index) >= 12 ==> vector(index) == 0x74 + irq_line(index) - 12,
        PIC_1_OFFSET == 0x20 && PIC_2_OFFSET == 0x28,
{
}

} // verus!
