use std::cell::RefCell;

use nes_rs::cpu::bus::Bus;
use nes_rs::cpu::mem::Memory;
use nes_rs::cpu::trace::trace;
use nes_rs::cpu::CPU;
use nes_rs::nes::{Header, Mirroring, NesRom, Region, RomMapper};

fn empty_rom() -> NesRom {
    NesRom {
        header: Header {
            len_prg_rom: 0,
            len_chr_rom: 0,
            len_prg_ram: 0,
            mirroring: Mirroring::Vertical,
            battery_backed_ram: false,
            trainer: false,
            vs_system: false,
            rom_mapper: RomMapper::NoMapper,
            region: Region::NTSC,
        },
        trainer: None,
        prg_rom: vec![],
        chr_rom: vec![],
    }
}

#[test]
fn test_format_trace() {
    let mut bus = Bus::new(empty_rom());
    bus.mem_write(100, 0xa2);
    bus.mem_write(101, 0x01);
    bus.mem_write(102, 0xca);
    bus.mem_write(103, 0x88);
    bus.mem_write(104, 0x00);

    let mut cpu = CPU::with_bus(bus);
    cpu.program_counter = 0x64;
    cpu.registers.a = 1;
    cpu.registers.x = 2;
    cpu.registers.y = 3;
    let result: RefCell<Vec<String>> = RefCell::new(vec![]);
    cpu.run_with_callback(|cpu: &CPU<Bus>| {
        result.borrow_mut().push(trace(cpu));
    })
    .unwrap();
    let result = result.into_inner();
    assert_eq!(
        "0064  A2 01     LDX #$01                        A:01 X:02 Y:03 P:24 SP:FD",
        result[0]
    );
    assert_eq!(
        "0066  CA        DEX                             A:01 X:01 Y:03 P:24 SP:FD",
        result[1]
    );
    assert_eq!(
        "0067  88        DEY                             A:01 X:00 Y:03 P:26 SP:FD",
        result[2]
    );
}

#[test]
fn test_format_mem_access() {
    let mut bus = Bus::new(empty_rom());

    // ORA ($33), Y
    bus.mem_write(100, 0x11);
    bus.mem_write(101, 0x33);

    //data
    bus.mem_write(0x33, 00);
    bus.mem_write(0x34, 04);

    //target cell
    bus.mem_write(0x400, 0xAA);

    let mut cpu = CPU::with_bus(bus);
    cpu.program_counter = 0x64;
    cpu.registers.y = 0;
    let result: RefCell<Vec<String>> = RefCell::new(vec![]);
    cpu.run_with_callback(|cpu: &CPU<Bus>| {
        result.borrow_mut().push(trace(cpu));
    })
    .unwrap();
    let result = result.into_inner();
    assert_eq!(
        "0064  11 33     ORA ($33),Y = 0400 @ 0400 = AA  A:00 X:00 Y:00 P:24 SP:FD",
        result[0]
    );
}
