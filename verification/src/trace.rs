//! Text for looking at a machine from outside: a dump of the memory that is
//! in use, and the operand bytes of the instruction about to be executed.

use vstd::prelude::*;
use vstd::string::*;
use crate::memory::{next_addr, MyMem, MEMORY_SIZE};
use crate::text::{byte_text, hex_text, push_byte, push_hex};

verus! {

/// The line that a dump has for a byte that is not zero.
pub open spec fn memory_line(addr: nat, value: u8) -> Seq<char> {
    "Memory "@ + hex_text(addr) + " = "@ + hex_text(value as nat) + "\n"@
}

/// The dump of the addresses below `upto`: in rising order, one line for
/// each byte that is not zero.
pub open spec fn dump_of(mem: Seq<u8>, upto: nat) -> Seq<char>
    decreases upto,
{
    if upto == 0 {
        Seq::empty()
    } else {
        let addr = (upto - 1) as nat;
        let line = if mem[addr as int] > 0 {
            memory_line(addr, mem[addr as int])
        } else {
            Seq::empty()
        };
        dump_of(mem, addr) + line
    }
}

/// The operand bytes of an instruction of `len` bytes whose opcode byte lies
/// before `pc`, as text nine characters wide: one byte and five spaces, two
/// bytes with a space between them, or nine spaces where there is none.
pub open spec fn next_bytes_text(mem: Seq<u8>, pc: u16, len: u8) -> Seq<char> {
    if len == 2 {
        byte_text(mem[pc as int]) + "     "@
    } else if len == 3 {
        byte_text(mem[pc as int]) + " "@ + byte_text(mem[next_addr(pc) as int])
    } else {
        "         "@
    }
}

/// Lists every byte of memory that is not zero, with its address.
pub fn dump_memory<M: MyMem>(mem: &M) -> (dump: String)
    ensures
        dump@ == dump_of(mem.memory(), MEMORY_SIZE as nat),
{
    let mut dump = String::new();
    let mut i: usize = 0;
    while i < MEMORY_SIZE
        invariant
            i <= MEMORY_SIZE,
            dump@ == dump_of(mem.memory(), i as nat),
        decreases MEMORY_SIZE - i,
    {
        let value = mem.mem_read(i as u16);
        if value > 0 {
            dump.append("Memory ");
            push_hex(&mut dump, i);
            dump.append(" = ");
            push_hex(&mut dump, value as usize);
            dump.append("\n");
        } else {
        }
        i = i + 1;
    }
    dump
}

/// The operand bytes of the instruction of `len` bytes whose opcode byte
/// lies before `pc`, as text.
pub fn next_bytes<M: MyMem>(mem: &M, pc: u16, len: u8) -> (text: String)
    ensures
        text@ == next_bytes_text(mem.memory(), pc, len),
{
    let mut text = String::new();
    if len == 2 {
        push_byte(&mut text, mem.mem_read(pc));
        text.append("     ");
    } else if len == 3 {
        push_byte(&mut text, mem.mem_read(pc));
        text.append(" ");
        push_byte(&mut text, mem.mem_read(pc.wrapping_add(1)));
    } else {
        text.append("         ");
    }
    text
}

} // verus!
