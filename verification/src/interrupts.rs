use vstd::prelude::*;

verus! {

/// First interrupt vector of the primary PIC.
pub const PIC_1_OFFSET: u8 = 32;

/// First interrupt vector of the secondary PIC, right after the eight of
/// the primary one.
pub const PIC_2_OFFSET: u8 = PIC_1_OFFSET + 8;

/// The hardware interrupts that have a handler. The variants carry no
/// discriminants: the vector of each is what `as_u8` returns, while a bare
/// `as u8` cast gives its position (0, 1).
#[derive(Debug, Clone, Copy)]
pub enum InterruptIndex {
    Timer,
    Keyboard,
}

/// The interrupt vector of each hardware interrupt: IRQ0 (timer) and IRQ1
/// (keyboard) of the primary PIC.
pub open spec fn vector(index: InterruptIndex) -> u8 {
    match index {
        InterruptIndex::Timer => PIC_1_OFFSET,
        InterruptIndex::Keyboard => (PIC_1_OFFSET + 1) as u8,
    }
}

impl InterruptIndex {
    pub fn as_u8(self) -> (vector_number: u8)
        ensures
            vector_number == vector(self),
    {
        match self {
            InterruptIndex::Timer => PIC_1_OFFSET,
            InterruptIndex::Keyboard => PIC_1_OFFSET + 1,
        }
    }

    pub fn as_usize(self) -> (vector_number: usize)
        ensures
            vector_number == vector(self),
    {
        usize::from(self.as_u8())
    }
}

/// Different interrupts have different vectors, and every vector lies
/// among the eight of the primary PIC, past the 32 that the processor
/// reserves for its exceptions.
pub proof fn lemma_vectors(a: InterruptIndex, b: InterruptIndex)
    ensures
        a != b ==> vector(a) != vector(b),
        PIC_1_OFFSET <= vector(a) < PIC_2_OFFSET,
        vector(a) >= 32,
{
}

} // verus!

verus! {

/// The timer is vector 32 and the keyboard vector 33, the first two
/// vectors of the primary PIC, whose eight vectors end at 40 where the
/// secondary PIC's begin.
pub proof fn lemma_vector_numbers(index: InterruptIndex)
    ensures
        index == InterruptIndex::Timer ==> vector(index) == 32,
        index == InterruptIndex::Keyboard ==> vector(index) == 33,
        PIC_1_OFFSET == 32 && PIC_2_OFFSET == 40,
{
}

} // verus!
