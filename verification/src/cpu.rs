//! The execution engine: register file, stack primitives, and the
//! fetch-decode-execute loop, each proved against a small spec-level model.

use vstd::prelude::*;

verus! {

/// A failure of one engine operation. Every failure is surfaced to the
/// caller; the engine never recovers or retries on its own.
#[derive(Clone, Copy, Debug, PartialEq, Eq, Structural)]
pub enum VmError {
    /// A push found no free slot below the stack (`sp` was already 0).
    StackOverflow,
    /// A pop found nothing pushed since the top-of-memory sentinel.
    StackUnderflow,
    /// A peek or poke found `sp` outside the memory bounds.
    InvalidStackAccess,
    /// A fetch found the program counter past the end of memory.
    OutOfBoundsFetch,
}

/// The register file. Memory is not a field: every operation borrows the
/// caller-owned buffer for just that call.
#[derive(Clone, Copy, Debug, PartialEq, Eq, Structural)]
pub struct CPU {
    /// Index of the next instruction byte to fetch.
    pub pc: u16,
    /// Index of the top-of-stack slot; the stack grows downward, and a
    /// fresh register file points at the top-of-memory sentinel 0xFF.
    pub sp: u16,
    /// The sole general-purpose register.
    pub acc: u8,
}

/// What `push` does: with no free slot below index 0 it fails and changes
/// nothing; otherwise the stack pointer moves down one slot and the value
/// lands there.
pub open spec fn spec_push(sp: u16, mem: Seq<u8>, value: u8) -> (u16, Seq<u8>, Result<(), VmError>) {
    if sp == 0 {
        (sp, mem, Err(VmError::StackOverflow))
    } else {
        ((sp - 1) as u16, mem.update(sp - 1, value), Ok(()))
    }
}

/// What `pop` does: with nothing pushed below the top-of-memory sentinel
/// (`sp` at or above index `mem.len() - 1`) it fails and changes nothing;
/// otherwise it returns the byte at `sp` and moves the stack pointer up one
/// slot.
pub open spec fn spec_pop(sp: u16, mem: Seq<u8>) -> (u16, Result<u8, VmError>) {
    if sp + 1 >= mem.len() {
        (sp, Err(VmError::StackUnderflow))
    } else {
        ((sp + 1) as u16, Ok(mem[sp as int]))
    }
}

/// What `peek` does: fails when `sp` is outside the memory bounds, and
/// otherwise returns the byte at `sp`.
pub open spec fn spec_peek(sp: u16, mem: Seq<u8>) -> Result<u8, VmError> {
    if sp >= mem.len() {
        Err(VmError::InvalidStackAccess)
    } else {
        Ok(mem[sp as int])
    }
}

/// What `poke` does: the same guard as `peek`; on success the byte at `sp`
/// is overwritten and nothing else changes.
pub open spec fn spec_poke(sp: u16, mem: Seq<u8>, value: u8) -> (Seq<u8>, Result<(), VmError>) {
    if sp >= mem.len() {
        (mem, Err(VmError::InvalidStackAccess))
    } else {
        (mem.update(sp as int, value), Ok(()))
    }
}

/// The accumulator after an increment, wrapping on 8-bit overflow.
pub open spec fn wrap_inc(a: u8) -> u8 {
    if a == 0xFF {
        0
    } else {
        (a + 1) as u8
    }
}

/// The accumulator after a decrement, wrapping on 8-bit underflow.
pub open spec fn wrap_dec(a: u8) -> u8 {
    if a == 0 {
        0xFF
    } else {
        (a - 1) as u8
    }
}

/// What `fetch_instruction` does: with the program counter past the end of
/// memory it fails and the counter stays put; otherwise it returns the byte
/// at the counter and advances the counter by one.
pub open spec fn spec_fetch(pc: u16, mem: Seq<u8>) -> (u16, Result<u8, VmError>) {
    if pc >= mem.len() {
        (pc, Err(VmError::OutOfBoundsFetch))
    } else {
        ((pc + 1) as u16, Ok(mem[pc as int]))
    }
}

/// What `execute_instruction` does to the stack pointer, the accumulator and
/// memory; the program counter is never touched by execution. Opcode 0x01
/// increments the accumulator (wrapping) and pushes the new value; 0x02 pops
/// into the accumulator; 0x03 decrements the accumulator (wrapping) without
/// touching the stack; every other opcode is a no-op. When the push or the
/// pop fails, the accumulator already holds its new value for 0x01 and its
/// old value for 0x02, and the error is handed through.
pub open spec fn spec_exec(sp: u16, acc: u8, mem: Seq<u8>, op: u8) -> (u16, u8, Seq<u8>, Result<(), VmError>) {
    if op == 0x01 {
        let bumped = wrap_inc(acc);
        let (sp1, m1, r) = spec_push(sp, mem, bumped);
        (sp1, bumped, m1, r)
    } else if op == 0x02 {
        let (sp1, r) = spec_pop(sp, mem);
        match r {
            Ok(v) => (sp1, v, mem, Ok(())),
            Err(e) => (sp1, acc, mem, Err(e)),
        }
    } else if op == 0x03 {
        (sp, wrap_dec(acc), mem, Ok(()))
    } else {
        (sp, acc, mem, Ok(()))
    }
}

/// What `run` does: fetch a byte; on an out-of-bounds fetch stop with that
/// error; on the halt opcode 0x00 stop successfully, the counter already
/// advanced past the halt byte; otherwise execute the opcode, stop on its
/// error, and repeat. The result is the final register file, the final
/// memory, and how the loop ended.
pub open spec fn spec_run(cpu: CPU, mem: Seq<u8>) -> (CPU, Seq<u8>, Result<(), VmError>)
    decreases mem.len() - cpu.pc
        when mem.len() <= 0xFFFF && cpu.sp <= mem.len()
{
    let (pc1, fr) = spec_fetch(cpu.pc, mem);
    match fr {
        Err(e) => (cpu, mem, Err(e)),
        Ok(op) => {
            if op == 0x00 {
                (CPU { pc: pc1, sp: cpu.sp, acc: cpu.acc }, mem, Ok(()))
            } else {
                let (sp2, acc2, m2, er) = spec_exec(cpu.sp, cpu.acc, mem, op);
                let stepped = CPU { pc: pc1, sp: sp2, acc: acc2 };
                match er {
                    Err(e) => (stepped, m2, Err(e)),
                    Ok(_) => spec_run(stepped, m2),
                }
            }
        }
    }
}

impl CPU {
    /// A register file in its initial state: `pc = 0`, `sp = 0xFF`, `acc = 0`.
    pub fn new() -> (c: CPU)
        ensures
            c.pc == 0 && c.sp == 0xFF && c.acc == 0,
    {
        CPU { pc: 0, sp: 0xFF, acc: 0 }
    }

    /// Restores the initial register values. Memory is not touched: this
    /// function does not even borrow it.
    pub fn reset(&mut self)
        ensures
            final(self).pc == 0 && final(self).sp == 0xFF && final(self).acc == 0,
    {
        self.pc = 0;
        self.sp = 0xFF;
        self.acc = 0;
    }

    /// Pushes `value` onto the stack: `sp` moves down one slot and the value
    /// is written there. Fails with `StackOverflow`, changing nothing, when
    /// `sp` is already 0.
    ///
    /// A stack pointer past the end of memory would make the write land out
    /// of bounds, so it is ruled out here.
    pub fn push(&mut self, value: u8, memory: &mut Vec<u8>) -> (r: Result<(), VmError>)
        requires
            old(self).sp <= old(memory)@.len(),
        ensures
            final(self).pc == old(self).pc,
            final(self).acc == old(self).acc,
            final(memory)@.len() == old(memory)@.len(),
            (final(self).sp, final(memory)@, r) == spec_push(old(self).sp, old(memory)@, value),
            r is Ok <==> old(self).sp != 0,
    {
        if self.sp == 0 {
            Err(VmError::StackOverflow)
        } else {
            self.sp = self.sp - 1;
            memory.set(self.sp as usize, value);
            Ok(())
        }
    }

    /// Pops the top stack value: returns the byte at `sp` and moves `sp` up
    /// one slot. Fails with `StackUnderflow`, changing nothing, when nothing
    /// has been pushed below the top-of-memory sentinel slot.
    ///
    /// Memory longer than the 16-bit stack pointer can address is ruled out.
    pub fn pop(&mut self, memory: &Vec<u8>) -> (r: Result<u8, VmError>)
        requires
            memory@.len() <= 0xFFFF,
        ensures
            final(self).pc == old(self).pc,
            final(self).acc == old(self).acc,
            (final(self).sp, r) == spec_pop(old(self).sp, memory@),
            r is Ok <==> old(self).sp + 1 < memory@.len(),
    {
        if self.sp as usize + 1 >= memory.len() {
            Err(VmError::StackUnderflow)
        } else {
            let value = memory[self.sp as usize];
            self.sp = self.sp + 1;
            Ok(value)
        }
    }

    /// Returns the byte at `sp` without moving `sp`. Fails with
    /// `InvalidStackAccess` when `sp` is outside the memory bounds.
    pub fn peek(&self, memory: &Vec<u8>) -> (r: Result<u8, VmError>)
        ensures
            r == spec_peek(self.sp, memory@),
            r is Ok <==> self.sp < memory@.len(),
    {
        if self.sp as usize >= memory.len() {
            Err(VmError::InvalidStackAccess)
        } else {
            Ok(memory[self.sp as usize])
        }
    }

    /// Overwrites the byte at `sp` in place, without moving `sp`. Fails with
    /// `InvalidStackAccess`, changing nothing, when `sp` is outside the
    /// memory bounds.
    pub fn poke(&mut self, value: u8, memory: &mut Vec<u8>) -> (r: Result<(), VmError>)
        ensures
            *final(self) == *old(self),
            (final(memory)@, r) == spec_poke(old(self).sp, old(memory)@, value),
            r is Ok <==> old(self).sp < old(memory)@.len(),
    {
        if self.sp as usize >= memory.len() {
            Err(VmError::InvalidStackAccess)
        } else {
            memory.set(self.sp as usize, value);
            Ok(())
        }
    }

    /// Reads the byte at the program counter and advances the counter by
    /// one. Fails with `OutOfBoundsFetch`, leaving the counter unchanged,
    /// when the counter is already past the end of memory.
    ///
    /// Memory longer than the 16-bit program counter can address is ruled
    /// out.
    pub fn fetch_instruction(&mut self, memory: &Vec<u8>) -> (r: Result<u8, VmError>)
        requires
            memory@.len() <= 0xFFFF,
        ensures
            final(self).sp == old(self).sp,
            final(self).acc == old(self).acc,
            (final(self).pc, r) == spec_fetch(old(self).pc, memory@),
            r is Ok <==> old(self).pc < memory@.len(),
    {
        if self.pc as usize >= memory.len() {
            Err(VmError::OutOfBoundsFetch)
        } else {
            let instruction = memory[self.pc as usize];
            self.pc = self.pc + 1;
            Ok(instruction)
        }
    }

    /// Dispatches one already-fetched opcode, exactly as `spec_exec` says:
    /// 0x01 increments the accumulator (wrapping) and pushes it, 0x02 pops
    /// into the accumulator, 0x03 decrements the accumulator (wrapping), and
    /// any other opcode changes nothing. The program counter is never
    /// touched. A failing push or pop surfaces its error.
    pub fn execute_instruction(&mut self, instruction: u8, memory: &mut Vec<u8>) -> (r: Result<(), VmError>)
        requires
            old(self).sp <= old(memory)@.len(),
            old(memory)@.len() <= 0xFFFF,
        ensures
            final(self).pc == old(self).pc,
            final(memory)@.len() == old(memory)@.len(),
            final(self).sp <= final(memory)@.len(),
            (final(self).sp, final(self).acc, final(memory)@, r) == spec_exec(
                old(self).sp,
                old(self).acc,
                old(memory)@,
                instruction,
            ),
    {
        match instruction {
            0x01 => {
                self.acc = if self.acc == 0xFF {
                    0
                } else {
                    self.acc + 1
                };
                let bumped = self.acc;
                self.push(bumped, memory)
            },
            0x02 => {
                match self.pop(memory) {
                    Ok(value) => {
                        self.acc = value;
                        Ok(())
                    },
                    Err(e) => Err(e),
                }
            },
            0x03 => {
                self.acc = if self.acc == 0 {
                    0xFF
                } else {
                    self.acc - 1
                };
                Ok(())
            },
            _ => Ok(()),
        }
    }

    /// The fetch-execute loop: fetches opcodes until the halt opcode 0x00,
    /// an out-of-bounds fetch, or a failing stack operation ends the run,
    /// exactly as `spec_run` says of the starting state. On any failure the
    /// registers and memory are left as they were at the failing step, so
    /// the caller can inspect them.
    pub fn run(&mut self, memory: &mut Vec<u8>) -> (r: Result<(), VmError>)
        requires
            old(self).sp <= old(memory)@.len(),
            old(memory)@.len() <= 0xFFFF,
        ensures
            ({
                let (end_cpu, end_mem, end_r) = spec_run(*old(self), old(memory)@);
                *final(self) == end_cpu && final(memory)@ == end_mem && r == end_r
            }),
    {
        loop
            invariant
                self.sp <= memory@.len(),
                memory@.len() <= 0xFFFF,
                spec_run(*self, memory@) == spec_run(*old(self), old(memory)@),
            decreases memory@.len() - self.pc,
        {
            match self.fetch_instruction(memory) {
                Err(e) => {
                    return Err(e);
                },
                Ok(instruction) => {
                    if instruction == 0x00 {
                        return Ok(());
                    }
                    match self.execute_instruction(instruction, memory) {
                        Err(e) => {
                            return Err(e);
                        },
                        Ok(_) => {},
                    }
                },
            }
        }
    }
}

} // verus!
