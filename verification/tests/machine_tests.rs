use nes_emulator::cartridge::{create_rom, Mirroring, Rom, TestRom, CHR_ROM_PAGE_SIZE, PRG_ROM_PAGE_SIZE};
use nes_emulator::cpu::MyCPU;
use nes_emulator::execute::Stop;
use nes_emulator::flags::CpuFlags;
use nes_emulator::memory::{Mem, MyMem};
use nes_emulator::ref_cpu::CPU;
use nes_emulator::text::push_hex;

#[test]
fn new_processor_is_in_its_reset_state() {
    let cpu = MyCPU::new();

    assert_eq!(0, cpu.register_a);
    assert_eq!(0, cpu.register_x);
    assert_eq!(0, cpu.register_y);
    assert_eq!(0xFF, cpu.stack_pointer);
    assert_eq!(0x8000, cpu.program_counter);
    assert_eq!(CpuFlags::INTERRUPT_DISABLE() | CpuFlags::BREAK2(), cpu.status);
    assert_eq!(0b0010_0100, cpu.status.bits());
    assert_eq!("", cpu.dump_non_empty_memory());
}

#[test]
fn load_copies_the_program_and_sets_the_reset_vector() {
    let mut cpu = MyCPU::new();
    cpu.register_a = 7;
    cpu.load(vec![0xA9, 0x05, 0x00]);

    assert_eq!(0xA9, cpu.mem_read(0x8000));
    assert_eq!(0x05, cpu.mem_read(0x8001));
    assert_eq!(0x00, cpu.mem_read(0x8002));
    assert_eq!(0x8000, cpu.mem_read_u16(0xFFFC));
    assert_eq!(0x00, cpu.mem_read(0xFFFC));
    assert_eq!(0x80, cpu.mem_read(0xFFFD));
    assert_eq!(7, cpu.register_a);
}

#[test]
fn load_with_address_and_reset_start_the_program_there() {
    let mut cpu = MyCPU::new();
    cpu.register_a = 7;
    cpu.status.insert(CpuFlags::CARRY());
    cpu.stack_pointer = 0x10;
    cpu.load_with_address(vec![0xE8, 0xE8], 0x0600);
    cpu.reset();

    assert_eq!(0x0600, cpu.program_counter);
    assert_eq!(0, cpu.register_a);
    assert_eq!(0xFF, cpu.stack_pointer);
    assert_eq!(0b0010_0100, cpu.status.bits());

    assert_eq!(Stop::Break, cpu.run());
    assert_eq!(2, cpu.register_x);
    assert_eq!(0x0603, cpu.program_counter);
}

#[test]
fn load_fills_memory_up_to_its_last_byte() {
    let mut cpu = MyCPU::new();
    cpu.load_with_address(vec![0x11, 0x22], 0xFFFE);

    assert_eq!(0x11, cpu.mem_read(0xFFFE));
    assert_eq!(0x22, cpu.mem_read(0xFFFF));
    assert_eq!(0xFFFE, cpu.mem_read_u16(0xFFFC));
}

#[test]
fn second_processor_loads_at_0600_and_resets_before_running() {
    let mut cpu = CPU::new();
    cpu.register_x = 0x55;
    let stop = cpu.load_and_run(vec![0xE8, 0x00]);

    assert_eq!(Stop::Break, stop);
    assert_eq!(0xE8, cpu.mem_read(0x0600));
    assert_eq!(0x0600, cpu.mem_read_u16(0xFFFC));
    assert_eq!(1, cpu.register_x);
    assert_eq!(0x0602, cpu.program_counter);
}

#[test]
fn callback_sees_the_processor_after_each_instruction() {
    let mut seen = Vec::new();
    let mut cpu = MyCPU::new();
    cpu.load(vec![0xE8, 0xE8, 0xE8, 0x00]);

    let stop = cpu.run_with_callback(|cpu: &MyCPU| seen.push((cpu.program_counter, cpu.register_x)));

    assert_eq!(Stop::Break, stop);
    assert_eq!(vec![(0x8001, 1), (0x8002, 2), (0x8003, 3)], seen);
}

#[test]
fn callback_of_the_second_processor_is_not_called_for_brk() {
    let mut calls = 0;
    let mut cpu = CPU::new();
    cpu.load(vec![0x00]);
    cpu.reset();

    let stop = cpu.run_with_callback(|_cpu: &CPU| calls += 1);

    assert_eq!(Stop::Break, stop);
    assert_eq!(0, calls);
}

#[test]
fn dump_lists_the_bytes_that_are_not_zero() {
    let mut cpu = MyCPU::new();
    cpu.mem_write(0x0000, 0x01);
    cpu.mem_write(0x01FF, 0x80);
    cpu.mem_write(0xFFFF, 0x0A);

    assert_eq!(
        "Memory 0 = 1\nMemory 1ff = 80\nMemory ffff = a\n",
        cpu.dump_non_empty_memory()
    );
}

#[test]
fn next_bytes_are_nine_characters_wide() {
    let mut cpu = MyCPU::new();
    cpu.program_counter = 0x8001;
    cpu.mem_write(0x8001, 0x05);
    cpu.mem_write(0x8002, 0xAB);

    assert_eq!("         ", cpu.get_next_bytes(1));
    assert_eq!("0x05     ", cpu.get_next_bytes(2));
    assert_eq!("0x05 0xab", cpu.get_next_bytes(3));
}

#[test]
fn hex_text_has_no_leading_zeros() {
    for (n, text) in [(0usize, "0"), (9, "9"), (10, "a"), (15, "f"), (16, "10"), (255, "ff"), (0x1FF, "1ff"), (0xFFFF, "ffff")] {
        let mut out = String::from(">");
        push_hex(&mut out, n);
        assert_eq!(format!(">{}", text), out);
        assert_eq!(format!(">{:x}", n), out);
    }
}

#[test]
fn flags_behave_as_a_bit_set() {
    let mut flags = CpuFlags::empty();
    assert_eq!(0, flags.bits());
    flags.insert(CpuFlags::CARRY());
    flags.insert(CpuFlags::NEGATIVE());
    assert_eq!(0x81, flags.bits());
    assert!(flags.contains(CpuFlags::CARRY()));
    assert!(flags.contains(CpuFlags::CARRY() | CpuFlags::NEGATIVE()));
    assert!(!flags.contains(CpuFlags::CARRY() | CpuFlags::ZERO()));
    flags.remove(CpuFlags::CARRY());
    assert_eq!(CpuFlags::NEGATIVE(), flags);
    flags.set(CpuFlags::OVERFLOW(), true);
    flags.set(CpuFlags::NEGATIVE(), false);
    assert_eq!(0x40, flags.bits());
    assert_eq!(CpuFlags::empty(), flags & CpuFlags::DECIMAL_MODE());
    assert_eq!(0x0C, (CpuFlags::DECIMAL_MODE() | CpuFlags::INTERRUPT_DISABLE()).bits());
    assert_eq!(0x30, (CpuFlags::BREAK() | CpuFlags::BREAK2()).bits());
    assert_eq!(0xA5, CpuFlags::from_bits_truncate(0xA5).bits());
}

fn header(prg_pages: u8, chr_pages: u8, flags6: u8, flags7: u8) -> Vec<u8> {
    vec![0x4E, 0x45, 0x53, 0x1A, prg_pages, chr_pages, flags6, flags7, 0, 0, 0, 0, 0, 0, 0, 0]
}

#[test]
fn cartridge_without_the_tag_is_refused() {
    let mut bytes = header(1, 1, 0, 0);
    bytes[3] = 0x1B;
    bytes.extend(vec![0; PRG_ROM_PAGE_SIZE + CHR_ROM_PAGE_SIZE]);

    assert_eq!(
        "File is not in iNES file format",
        Rom::new(&bytes).err().unwrap()
    );
    assert_eq!(
        "File is not in iNES file format",
        Rom::new(&vec![0x4E, 0x45, 0x53]).err().unwrap()
    );
    assert_eq!("File is not in iNES file format", Rom::new(&vec![]).err().unwrap());
}

#[test]
fn cartridge_shorter_than_its_header_says_is_refused() {
    let mut bytes = header(1, 1, 0, 0);
    bytes.extend(vec![0; PRG_ROM_PAGE_SIZE + CHR_ROM_PAGE_SIZE - 1]);

    assert_eq!(
        "File is shorter than its header says",
        Rom::new(&bytes).err().unwrap()
    );
}

#[test]
fn cartridge_marked_nes2_is_refused_and_other_version_bits_are_not() {
    let mut nes2 = header(1, 0, 0, 0b0000_1000);
    nes2.extend(vec![7; PRG_ROM_PAGE_SIZE]);
    assert_eq!(
        "only iNES1.0 format is supported!",
        Rom::new(&nes2).err().unwrap()
    );

    let mut other = header(1, 0, 0, 0b0000_0100);
    other.extend(vec![7; PRG_ROM_PAGE_SIZE]);
    assert!(Rom::new(&other).is_ok());
}

#[test]
fn cartridge_header_gives_mapper_and_mirroring() {
    let rom = Rom::new(&create_rom(TestRom {
        header: header(1, 0, 0x20, 0x40),
        trainer: None,
        pgp_rom: vec![3; PRG_ROM_PAGE_SIZE],
        chr_rom: vec![],
    }))
    .unwrap();

    assert_eq!(0x42, rom.mapper);
    assert_eq!(Mirroring::HORIZONTAL, rom.screen_mirroring);
    assert_eq!(vec![3; PRG_ROM_PAGE_SIZE], rom.prg_rom);
    assert!(rom.chr_rom.is_empty());
}

#[test]
fn cartridge_trainer_is_skipped() {
    let rom = Rom::new(&create_rom(TestRom {
        header: header(1, 1, 0b0000_0101, 0),
        trainer: Some(vec![9; 512]),
        pgp_rom: vec![1; PRG_ROM_PAGE_SIZE],
        chr_rom: vec![2; CHR_ROM_PAGE_SIZE],
    }))
    .unwrap();

    assert_eq!(vec![1; PRG_ROM_PAGE_SIZE], rom.prg_rom);
    assert_eq!(vec![2; CHR_ROM_PAGE_SIZE], rom.chr_rom);
    assert_eq!(Mirroring::VERTICAL, rom.screen_mirroring);
}

#[test]
fn create_rom_puts_the_parts_in_file_order() {
    let bytes = create_rom(TestRom {
        header: vec![1, 2],
        trainer: Some(vec![3]),
        pgp_rom: vec![4, 5],
        chr_rom: vec![6],
    });
    assert_eq!(vec![1, 2, 3, 4, 5, 6], bytes);
}
