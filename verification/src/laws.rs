//! Properties that relate several engine operations, proved over the
//! spec-level model in `cpu`.

use vstd::prelude::*;
use crate::cpu::{VmError, spec_peek, spec_poke, spec_pop, spec_push};

verus! {

/// A whole sequence of pushes, first element first: each push moves the
/// stack pointer down one slot; the first failing push, if any, ends the
/// sequence with its error.
pub open spec fn spec_push_seq(sp: u16, mem: Seq<u8>, values: Seq<u8>) -> (u16, Seq<u8>, Result<(), VmError>)
    decreases values.len(),
{
    if values.len() == 0 {
        (sp, mem, Ok(()))
    } else {
        let (sp1, m1, r) = spec_push(sp, mem, values[0]);
        match r {
            Err(e) => (sp1, m1, Err(e)),
            Ok(_) => spec_push_seq(sp1, m1, values.skip(1)),
        }
    }
}

/// Pushing a value and at once popping yields that value back and leaves
/// the stack pointer exactly where it was before the push.
pub proof fn lemma_push_pop(sp: u16, mem: Seq<u8>, value: u8)
    requires
        1 <= sp < mem.len(),
    ensures
        ({
            let (sp1, m1, r1) = spec_push(sp, mem, value);
            let (sp2, r2) = spec_pop(sp1, m1);
            r1 is Ok && r2 == Ok::<u8, VmError>(value) && sp2 == sp
        }),
{
}

/// Consecutive pushes move the stack pointer down by exactly one slot each,
/// so as long as the stack has room they all succeed, and the n-th push
/// (counting from 1) lands at index `sp - n`: from the initial stack pointer
/// 0xFF, at index `0xFF - n`. Every slot outside the freshly filled band
/// keeps its old byte.
pub proof fn lemma_push_seq(sp: u16, mem: Seq<u8>, values: Seq<u8>)
    requires
        values.len() <= sp,
        sp <= mem.len(),
    ensures
        ({
            let (sp_end, m_end, r) = spec_push_seq(sp, mem, values);
            &&& r is Ok
            &&& sp_end == sp - values.len()
            &&& m_end.len() == mem.len()
            &&& forall|j: int| sp - values.len() <= j < sp ==> m_end[j] == values[sp - 1 - j]
            &&& forall|j: int|
                0 <= j < mem.len() && !(sp - values.len() <= j < sp) ==> m_end[j] == mem[j]
        }),
    decreases values.len(),
{
    if values.len() == 0 {
    } else {
        let (sp1, m1, r1) = spec_push(sp, mem, values[0]);
        assert(sp1 == sp - 1 && m1 == mem.update(sp - 1, values[0]) && r1 is Ok);
        lemma_push_seq(sp1, m1, values.skip(1));
        let (sp_end, m_end, r) = spec_push_seq(sp1, m1, values.skip(1));
        assert forall|j: int| sp - values.len() <= j < sp implies m_end[j] == values[sp - 1 - j] by {
            if j == sp - 1 {
                assert(m_end[j] == m1[j]);
                assert(m1[j] == values[0]);
            } else {
                assert(m_end[j] == values.skip(1)[sp1 - 1 - j]);
                assert(values.skip(1)[sp1 - 1 - j] == values[sp - 1 - j]);
            }
        }
    }
}

/// A stack over 256 bytes of memory holds exactly 255 values: from the
/// initial stack pointer 0xFF every one of 255 pushes succeeds, filling the
/// memory down to index 0, and whatever value comes next, one more push
/// fails with `StackOverflow`.
pub proof fn lemma_stack_capacity(mem: Seq<u8>, values: Seq<u8>, extra: u8)
    requires
        mem.len() == 256,
        values.len() == 255,
    ensures
        ({
            let (sp_end, m_end, r) = spec_push_seq(0xFF, mem, values);
            &&& r is Ok
            &&& sp_end == 0
            &&& spec_push(sp_end, m_end, extra) == (sp_end, m_end, Err::<(), VmError>(VmError::StackOverflow))
        }),
{
    lemma_push_seq(0xFF, mem, values);
}

/// Poking the top-of-stack slot and then peeking reads back exactly the
/// poked value; neither operation moves the stack pointer, which both take
/// unchanged.
pub proof fn lemma_poke_peek(sp: u16, mem: Seq<u8>, value: u8)
    requires
        sp < mem.len(),
    ensures
        ({
            let (m1, r1) = spec_poke(sp, mem, value);
            r1 is Ok && spec_peek(sp, m1) == Ok::<u8, VmError>(value)
        }),
{
}

} // verus!
