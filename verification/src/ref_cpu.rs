//! The processor together with its memory, loading programs at 0x0600 and
//! resetting before it runs them.

use vstd::prelude::*;
use crate::cpu::{copy_program, reset_spec, with_program_at, RESET_VECTOR, STEP_LIMIT};
use crate::execute::{run_spec, step, step_spec, Stop};
use crate::flags::CpuFlags;
use crate::memory::{Mem, MyMem, Ram, MEMORY_SIZE};
use crate::state::{reset_registers, reset_status, Machine, RegisterFile, Registers, STACK_RESET};

verus! {

/// Where `load` puts a program.
pub const PROGRAM_START: u16 = 0x0600;

/// Where the program counter of a new processor stands.
pub const INITIAL_PROGRAM_COUNTER: u16 = 0x8000;

/// A 6502 processor with 64 KiB of memory of its own.
pub struct CPU {
    /// The accumulator.
    pub register_a: u8,
    /// The X index register.
    pub register_x: u8,
    /// The Y index register.
    pub register_y: u8,
    /// The status flags.
    pub status: CpuFlags,
    /// The address of the next byte to fetch.
    pub program_counter: u16,
    /// The stack pointer, an offset into page one.
    pub stack_pointer: u8,
    /// The 64 KiB that the processor addresses.
    pub memory: Ram,
}

impl View for CPU {
    type V = Machine;

    /// The machine as a plain value: the six registers and the memory.
    open spec fn view(&self) -> Machine {
        Machine {
            regs: RegisterFile {
                a: self.register_a,
                x: self.register_x,
                y: self.register_y,
                status: self.status@,
                pc: self.program_counter,
                sp: self.stack_pointer,
            },
            mem: self.memory.memory(),
        }
    }
}

impl Mem for CPU {
    open spec fn memory(&self) -> Seq<u8> {
        self.memory.memory()
    }

    proof fn lemma_memory_size(&self) {
        self.memory.lemma_memory_size();
    }

    fn mem_read(&self, addr: u16) -> (data: u8) {
        self.memory.mem_read(addr)
    }

    fn mem_write(&mut self, addr: u16, data: u8)
        ensures
            final(self)@.regs == old(self)@.regs,
    {
        self.memory.mem_write(addr, data);
    }

    fn mem_read_u16(&self, pos: u16) -> (data: u16) {
        self.memory.mem_read_u16(pos)
    }

    fn mem_write_u16(&mut self, pos: u16, data: u16)
        ensures
            final(self)@.regs == old(self)@.regs,
    {
        self.memory.mem_write_u16(pos, data);
    }
}

impl CPU {
    /// A processor as it comes out of a reset, with a zero in every byte of
    /// memory.
    pub fn new() -> (cpu: Self)
        ensures
            cpu@.regs == reset_registers(INITIAL_PROGRAM_COUNTER),
            cpu@.mem == Seq::new(MEMORY_SIZE as nat, |i: int| 0u8),
    {
        CPU {
            register_a: 0,
            register_x: 0,
            register_y: 0,
            stack_pointer: STACK_RESET,
            program_counter: INITIAL_PROGRAM_COUNTER,
            status: reset_status(),
            memory: Ram::new(),
        }
    }

    /// The registers as the instructions take them.
    fn registers(&self) -> (regs: Registers)
        ensures
            regs@ == self@.regs,
    {
        Registers {
            a: self.register_a,
            x: self.register_x,
            y: self.register_y,
            status: self.status,
            pc: self.program_counter,
            sp: self.stack_pointer,
        }
    }

    /// Takes the registers back from the instructions.
    fn set_registers(&mut self, regs: Registers)
        ensures
            final(self)@ == (Machine { regs: regs@, ..old(self)@ }),
    {
        self.register_a = regs.a;
        self.register_x = regs.x;
        self.register_y = regs.y;
        self.status = regs.status;
        self.program_counter = regs.pc;
        self.stack_pointer = regs.sp;
    }

    /// Loads `program`, resets the processor and runs the program.
    pub fn load_and_run(&mut self, program: Vec<u8>) -> (stop: Stop)
        requires
            PROGRAM_START + program@.len() <= MEMORY_SIZE,
        ensures
            (final(self)@, stop) == run_spec(
                reset_spec(
                    Machine {
                        mem: with_program_at(old(self)@.mem, PROGRAM_START, program@),
                        ..old(self)@
                    },
                ),
                STEP_LIMIT as nat,
            ),
    {
        self.load(program);
        self.reset();
        self.run()
    }

    /// Loads `program` at the start of the program area and points the reset
    /// vector there. The registers keep their values.
    pub fn load(&mut self, program: Vec<u8>)
        requires
            PROGRAM_START + program@.len() <= MEMORY_SIZE,
        ensures
            final(self)@ == (Machine {
                mem: with_program_at(old(self)@.mem, PROGRAM_START, program@),
                ..old(self)@
            }),
    {
        self.load_with_address(program, PROGRAM_START);
    }

    /// Loads `program` at `start_address` and points the reset vector there.
    /// The registers keep their values.
    pub fn load_with_address(&mut self, program: Vec<u8>, start_address: u16)
        requires
            start_address + program@.len() <= MEMORY_SIZE,
        ensures
            final(self)@ == (Machine {
                mem: with_program_at(old(self)@.mem, start_address, program@),
                ..old(self)@
            }),
    {
        copy_program(&mut self.memory, &program, start_address);
        self.memory.mem_write_u16(RESET_VECTOR, start_address);
    }

    /// Puts the registers back to their initial values and the program
    /// counter to the address in the reset vector.
    pub fn reset(&mut self)
        ensures
            final(self)@ == reset_spec(old(self)@),
    {
        let start = self.memory.mem_read_u16(RESET_VECTOR);
        self.set_registers(Registers::new(start));
    }

    /// Executes one instruction and says whether it ended the run.
    pub fn step(&mut self) -> (stop: Option<Stop>)
        ensures
            (final(self)@, stop) == step_spec(old(self)@),
    {
        let mut regs = self.registers();
        let stop = step(&mut regs, &mut self.memory);
        self.set_registers(regs);
        stop
    }

    /// Executes instructions until BRK, a byte that is no instruction, or the
    /// step limit, and says which it was.
    pub fn run(&mut self) -> (stop: Stop)
        ensures
            (final(self)@, stop) == run_spec(old(self)@, STEP_LIMIT as nat),
    {
        self.run_with_callback(|_cpu: &CPU| {})
    }

    /// Executes instructions until BRK, a byte that is no instruction, or the
    /// step limit, and says which it was. After each instruction that did not
    /// end the run, `callback` is handed the processor to look at.
    pub fn run_with_callback<F>(&mut self, mut callback: F) -> (stop: Stop) where F: FnMut(&CPU)
        requires
            forall|cpu: &CPU| call_requires(callback, (cpu,)),
        ensures
            (final(self)@, stop) == run_spec(old(self)@, STEP_LIMIT as nat),
    {
        let mut left: u64 = STEP_LIMIT;
        while left > 0
            invariant
                run_spec(self@, left as nat) == run_spec(old(self)@, STEP_LIMIT as nat),
                forall|cpu: &CPU| call_requires(callback, (cpu,)),
            decreases left,
        {
            match self.step() {
                Some(reason) => {
                    return reason;
                },
                None => {
                    callback(&*self);
                    left = left - 1;
                },
            }
        }
        Stop::StepLimit
    }
}

} // verus!
