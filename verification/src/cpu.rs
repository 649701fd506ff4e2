//! The processor together with its memory, loading programs at 0x8000.

use vstd::prelude::*;
use crate::execute::{run_spec, step, step_spec, Stop};
use crate::flags::CpuFlags;
use crate::memory::{read_u16, write_u16, MyMem, Ram, MEMORY_SIZE};
use crate::state::{reset_registers, reset_status, Machine, RegisterFile, Registers, STACK_RESET};
use crate::trace::{dump_memory, dump_of, next_bytes, next_bytes_text};

verus! {

/// Where `load` puts a program.
pub const PROGRAM_START: u16 = 0x8000;

/// Where the address lies at which a reset starts the program.
pub const RESET_VECTOR: u16 = 0xFFFC;

/// The number of instructions after which a run gives up.
pub const STEP_LIMIT: u64 = 0xFFFF_FFFF_FFFF_FFFF;

/// `mem` with `bytes` copied to `start` and the addresses behind it.
pub open spec fn with_bytes_at(mem: Seq<u8>, start: int, bytes: Seq<u8>) -> Seq<u8> {
    Seq::new(
        mem.len(),
        |i: int|
            if start <= i < start + bytes.len() {
                bytes[i - start]
            } else {
                mem[i]
            },
    )
}

/// `mem` after the program `bytes` was loaded at `start`: the bytes copied
/// there, then `start` written to the reset vector.
pub open spec fn with_program_at(mem: Seq<u8>, start: u16, bytes: Seq<u8>) -> Seq<u8> {
    write_u16(with_bytes_at(mem, start as int, bytes), RESET_VECTOR, start)
}

/// The machine after a reset: the registers at their initial values, the
/// program counter taken from the reset vector, the memory as it was.
pub open spec fn reset_spec(s: Machine) -> Machine {
    Machine { regs: reset_registers(read_u16(s.mem, RESET_VECTOR)), ..s }
}

/// Copies `program` into `mem` at `start` and the addresses behind it.
pub fn copy_program<M: MyMem>(mem: &mut M, program: &Vec<u8>, start: u16)
    requires
        start + program@.len() <= MEMORY_SIZE,
    ensures
        final(mem).memory() == with_bytes_at(old(mem).memory(), start as int, program@),
{
    proof {
        mem.lemma_memory_size();
    }
    let mut i: usize = 0;
    while i < program.len()
        invariant
            i <= program@.len(),
            start + program@.len() <= MEMORY_SIZE,
            mem.memory() == with_bytes_at(old(mem).memory(), start as int, program@.take(i as int)),
            old(mem).memory().len() == MEMORY_SIZE,
        decreases program@.len() - i,
    {
        mem.mem_write((start as usize + i) as u16, program[i]);
        i = i + 1;
    }
}

/// A 6502 processor with 64 KiB of memory of its own.
pub struct MyCPU {
    /// The accumulator.
    pub register_a: u8,
    /// The X index register.
    pub register_x: u8,
    /// The Y index register.
    pub register_y: u8,
    /// The status flags.
    pub status: CpuFlags,
    /// The address of the next byte to fetch.
    pub program_counter: u16,
    /// The stack pointer, an offset into page one.
    pub stack_pointer: u8,
    /// The 64 KiB that the processor addresses.
    pub memory: Ram,
}

impl View for MyCPU {
    type V = Machine;

    /// The machine as a plain value: the six registers and the memory.
    open spec fn view(&self) -> Machine {
        Machine {
            regs: RegisterFile {
                a: self.register_a,
                x: self.register_x,
                y: self.register_y,
                status: self.status@,
                pc: self.program_counter,
                sp: self.stack_pointer,
            },
            mem: self.memory(),
        }
    }
}

impl MyMem for MyCPU {
    open spec fn memory(&self) -> Seq<u8> {
        self.memory.memory()
    }

    proof fn lemma_memory_size(&self) {
        self.memory.lemma_memory_size();
    }

    fn mem_read(&self, addr: u16) -> (data: u8) {
        self.memory.mem_read(addr)
    }

    fn mem_write(&mut self, addr: u16, data: u8)
        ensures
            final(self)@.regs == old(self)@.regs,
    {
        self.memory.mem_write(addr, data);
    }

    fn mem_read_u16(&self, pos: u16) -> (data: u16) {
        self.memory.mem_read_u16(pos)
    }

    fn mem_write_u16(&mut self, pos: u16, data: u16)
        ensures
            final(self)@.regs == old(self)@.regs,
    {
        self.memory.mem_write_u16(pos, data);
    }
}

impl MyCPU {
    /// A processor as it comes out of a reset, with the program counter at
    /// the start of the program area and a zero in every byte of memory.
    pub fn new() -> (cpu: Self)
        ensures
            cpu@.regs == reset_registers(PROGRAM_START),
            cpu@.mem == Seq::new(MEMORY_SIZE as nat, |i: int| 0u8),
    {
        MyCPU {
            register_a: 0,
            register_x: 0,
            register_y: 0,
            stack_pointer: STACK_RESET,
            status: reset_status(),
            program_counter: PROGRAM_START,
            memory: Ram::new(),
        }
    }

    /// The registers as the instructions take them.
    fn registers(&self) -> (regs: Registers)
        ensures
            regs@ == self@.regs,
    {
        Registers {
            a: self.register_a,
            x: self.register_x,
            y: self.register_y,
            status: self.status,
            pc: self.program_counter,
            sp: self.stack_pointer,
        }
    }

    /// Takes the registers back from the instructions.
    fn set_registers(&mut self, regs: Registers)
        ensures
            final(self)@ == (Machine { regs: regs@, ..old(self)@ }),
    {
        self.register_a = regs.a;
        self.register_x = regs.x;
        self.register_y = regs.y;
        self.status = regs.status;
        self.program_counter = regs.pc;
        self.stack_pointer = regs.sp;
    }

    /// Lists every byte of memory that is not zero, with its address.
    pub fn dump_non_empty_memory(&self) -> (dump: String)
        ensures
            dump@ == dump_of(self@.mem, MEMORY_SIZE as nat),
    {
        dump_memory(&self.memory)
    }

    /// The operand bytes, as text, of an instruction of `len` bytes whose
    /// opcode byte has just been fetched.
    pub fn get_next_bytes(&self, len: u8) -> (text: String)
        ensures
            text@ == next_bytes_text(self@.mem, self@.regs.pc, len),
    {
        next_bytes(&self.memory, self.program_counter, len)
    }

    /// Loads `program` at the start of the program area and points the reset
    /// vector there. The registers keep their values.
    pub fn load(&mut self, program: Vec<u8>)
        requires
            PROGRAM_START + program@.len() <= MEMORY_SIZE,
        ensures
            final(self)@ == (Machine {
                mem: with_program_at(old(self)@.mem, PROGRAM_START, program@),
                ..old(self)@
            }),
    {
        self.load_with_address(program, PROGRAM_START);
    }

    /// Loads `program` at `start_address` and points the reset vector there.
    /// The registers keep their values.
    pub fn load_with_address(&mut self, program: Vec<u8>, start_address: u16)
        requires
            start_address + program@.len() <= MEMORY_SIZE,
        ensures
            final(self)@ == (Machine {
                mem: with_program_at(old(self)@.mem, start_address, program@),
                ..old(self)@
            }),
    {
        copy_program(&mut self.memory, &program, start_address);
        self.memory.mem_write_u16(RESET_VECTOR, start_address);
    }

    /// Puts the registers back to their initial values and the program
    /// counter to the address in the reset vector.
    pub fn reset(&mut self)
        ensures
            final(self)@ == reset_spec(old(self)@),
    {
        let start = self.memory.mem_read_u16(RESET_VECTOR);
        self.set_registers(Registers::new(start));
    }

    /// Executes one instruction and says whether it ended the run.
    pub fn step(&mut self) -> (stop: Option<Stop>)
        ensures
            (final(self)@, stop) == step_spec(old(self)@),
    {
        let mut regs = self.registers();
        let stop = step(&mut regs, &mut self.memory);
        self.set_registers(regs);
        stop
    }

    /// Executes instructions until BRK, a byte that is no instruction, or the
    /// step limit, and says which it was. After each instruction that did not
    /// end the run, `callback` is handed the processor to look at.
    pub fn run_with_callback<F>(&mut self, mut callback: F) -> (stop: Stop) where F: FnMut(&MyCPU)
        requires
            forall|cpu: &MyCPU| call_requires(callback, (cpu,)),
        ensures
            (final(self)@, stop) == run_spec(old(self)@, STEP_LIMIT as nat),
    {
        let mut left: u64 = STEP_LIMIT;
        while left > 0
            invariant
                run_spec(self@, left as nat) == run_spec(old(self)@, STEP_LIMIT as nat),
                forall|cpu: &MyCPU| call_requires(callback, (cpu,)),
            decreases left,
        {
            match self.step() {
                Some(reason) => {
                    return reason;
                },
                None => {
                    callback(&*self);
                    left = left - 1;
                },
            }
        }
        Stop::StepLimit
    }

    /// Executes instructions until BRK, a byte that is no instruction, or the
    /// step limit, and says which it was.
    pub fn run(&mut self) -> (stop: Stop)
        ensures
            (final(self)@, stop) == run_spec(old(self)@, STEP_LIMIT as nat),
    {
        self.run_with_callback(|_cpu: &MyCPU| {})
    }

    /// Loads `program` and runs it with the registers as they are.
    pub fn load_and_run(&mut self, program: Vec<u8>) -> (stop: Stop)
        requires
            PROGRAM_START + program@.len() <= MEMORY_SIZE,
        ensures
            (final(self)@, stop) == run_spec(
                Machine {
                    mem: with_program_at(old(self)@.mem, PROGRAM_START, program@),
                    ..old(self)@
                },
                STEP_LIMIT as nat,
            ),
    {
        self.load(program);
        self.run()
    }

    /// Loads `program`, resets the processor and runs the program.
    pub fn load_reset_and_run(&mut self, program: Vec<u8>) -> (stop: Stop)
        requires
            PROGRAM_START + program@.len() <= MEMORY_SIZE,
        ensures
            (final(self)@, stop) == run_spec(
                reset_spec(
                    Machine {
                        mem: with_program_at(old(self)@.mem, PROGRAM_START, program@),
                        ..old(self)@
                    },
                ),
                STEP_LIMIT as nat,
            ),
    {
        self.load(program);
        self.reset();
        self.run()
    }
}

} // verus!
