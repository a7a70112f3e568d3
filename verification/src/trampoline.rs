//! The arithmetic of the reset trampoline.
//!
//! The first code after reset runs with no stack and no initialized
//! statics: it zeroes every word between the linker-provided bounds of
//! uninitialized storage, points the stack pointer at the top of a reserved
//! region, and jumps to the application entry. The routine itself is a few
//! target instructions in the unverified runtime; what is verified here is
//! its logic over a word-addressed view of memory: which words the zeroing
//! loop clears, and where the stack top lies.

use vstd::prelude::*;

verus! {

/// Bytes reserved for the boot stack.
pub const STACK_SIZE: u32 = 1024;

/// The zeroing loop of the reset path: clear the words of `mem` with
/// indices in `start..end`, one word at a time, and touch nothing else.
pub fn zero_words(mem: &mut Vec<u32>, start: usize, end: usize)
    requires
        start <= end,
        end <= old(mem)@.len(),
    ensures
        final(mem)@.len() == old(mem)@.len(),
        forall|i: int| start <= i < end ==> final(mem)@[i] == 0,
        forall|i: int| 0 <= i < start ==> final(mem)@[i] == old(mem)@[i],
        forall|i: int| end <= i < old(mem)@.len() ==> final(mem)@[i] == old(mem)@[i],
{
    let mut a = start;
    while a < end
        invariant
            start <= a <= end,
            end <= mem@.len(),
            mem@.len() == old(mem)@.len(),
            forall|i: int| start <= i < a ==> mem@[i] == 0,
            forall|i: int| 0 <= i < start ==> mem@[i] == old(mem)@[i],
            forall|i: int| end <= i < old(mem)@.len() ==> mem@[i] == old(mem)@[i],
        decreases end - a,
    {
        mem[a] = 0;
        a = a + 1;
    }
}

/// How many word stores the zeroing loop performs between two
/// word-aligned linker symbols.
pub fn bss_word_count(sbss: u32, ebss: u32) -> (n: u32)
    requires
        sbss <= ebss,
        (ebss - sbss) % 4 == 0,
    ensures
        n == (ebss - sbss) / 4,
{
    (ebss - sbss) / 4
}

/// Where the trampoline points the stack pointer: one past the highest
/// byte of the reserved stack region (the stack grows downward).
pub fn stack_top(stack_start: u32, stack_size: u32) -> (t: u32)
    requires
        stack_start + stack_size <= u32::MAX,
    ensures
        t == stack_start + stack_size,
{
    stack_start + stack_size
}

} // verus!
