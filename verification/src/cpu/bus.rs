use crate::cpu::mem::{spec_mem_write, Memory};
use crate::nes::{Header, Mirroring, NesRom, Region, RomMapper};
use vstd::prelude::*;

verus! {

/// The 64 KiB bus view assembled from 2 KiB of work RAM and the cartridge
/// program ROM: RAM fills the bottom quarter, mirrored every 2 KiB; the
/// unmodelled picture-unit and input/output windows read as zero; the top
/// half is the ROM, repeated to fill the window when the cartridge is
/// smaller (or zero when there is no ROM at all).
pub open spec fn bus_layout(ram: Seq<u8>, prg: Seq<u8>) -> Seq<u8> {
    Seq::new(
        0x10000,
        |i: int|
            if i < 0x2000 {
                ram[i % 0x800]
            } else if i < 0x8000 {
                0u8
            } else if prg.len() == 0 {
                0u8
            } else {
                prg[(i - 0x8000) % (prg.len() as int)]
            },
    )
}

pub open spec fn zero_ram() -> Seq<u8> {
    Seq::new(0x800, |i: int| 0u8)
}

/// The address decoder of the machine: 2 KiB of work RAM and a read-only
/// cartridge.
pub struct Bus {
    cpu_vram: Vec<u8>,
    rom: NesRom,
}

#[verifier::type_invariant]
pub closed spec fn bus_wf(b: &Bus) -> bool {
    b.cpu_vram@.len() == 0x800
}

impl Bus {
    /// A bus over a fresh, zeroed work RAM and the given cartridge.
    pub fn new(rom: NesRom) -> (r: Bus)
        ensures
            r.mem_view() == bus_layout(zero_ram(), rom.prg_rom@),
    {
        let mut cpu_vram: Vec<u8> = Vec::new();
        let mut i: usize = 0;
        while i < 0x800
            invariant
                cpu_vram@.len() == i,
                i <= 0x800,
                forall|j: int| 0 <= j < i ==> cpu_vram@[j] == 0u8,
            decreases 0x800 - i,
        {
            cpu_vram.push(0u8);
            i += 1;
        }
        proof {
            assert(cpu_vram@ =~= zero_ram());
        }
        Bus { cpu_vram, rom }
    }

    /// The ROM byte visible at an address in the cartridge window.
    fn read_prg_rom(&self, addr: u16) -> (r: u8)
        requires
            addr >= 0x8000,
        ensures
            r == self.mem_view()[addr as int],
    {
        let size = self.rom.prg_rom.len();
        if size == 0 {
            0
        } else {
            let idx = (addr - 0x8000) as usize % size;
            self.rom.prg_rom[idx]
        }
    }
}

impl Default for Bus {
    /// A bus with no cartridge: the ROM window reads as zero.
    fn default() -> (r: Bus)
        ensures
            r.mem_view() == bus_layout(zero_ram(), Seq::<u8>::empty()),
    {
        let rom = NesRom {
            header: Header {
                len_prg_rom: 0,
                len_chr_rom: 0,
                len_prg_ram: 0,
                mirroring: Mirroring::Horizontal,
                battery_backed_ram: false,
                trainer: false,
                vs_system: false,
                rom_mapper: RomMapper::NoMapper,
                region: Region::NTSC,
            },
            trainer: None,
            prg_rom: Vec::new(),
            chr_rom: Vec::new(),
        };
        let r = Bus::new(rom);
        proof {
            assert(bus_layout(zero_ram(), Seq::<u8>::empty()) =~= r.mem_view());
        }
        r
    }
}

impl Memory for Bus {
    closed spec fn mem_view(&self) -> Seq<u8> {
        bus_layout(self.cpu_vram@, self.rom.prg_rom@)
    }

    /// Only the work RAM takes stores; everything else on the bus is
    /// read-only or unmodelled, and stores there are dropped.
    open spec fn writable(&self, addr: u16) -> bool {
        addr < 0x2000
    }

    /// Work RAM is mirrored every 2 KiB; no other address is aliased.
    open spec fn alias(&self, addr: u16) -> u16 {
        if addr < 0x2000 {
            (addr % 0x800) as u16
        } else {
            addr
        }
    }

    fn mem_read(&self, addr: u16) -> (r: u8) {
        proof {
            use_type_invariant(self);
        }
        if addr < 0x2000 {
            let p = (addr & 0x07FF) as usize;
            proof {
                assert(addr & 0x07FF == addr % 0x800) by (bit_vector);
            }
            self.cpu_vram[p]
        } else if addr < 0x8000 {
            // The picture-unit registers and the input/output window are not
            // part of this core; reads there surface as zero.
            0
        } else {
            self.read_prg_rom(addr)
        }
    }

    fn mem_write(&mut self, addr: u16, data: u8) {
        proof {
            use_type_invariant(&*self);
        }
        if addr < 0x2000 {
            let p = (addr & 0x07FF) as usize;
            proof {
                assert(addr & 0x07FF == addr % 0x800) by (bit_vector);
            }
            self.cpu_vram[p] = data;
        }
        // Stores into the cartridge window or the unmodelled windows are
        // dropped: the ROM is read-only.
        proof {
            assert(self.mem_view() =~= spec_mem_write(
                old(self).mem_view(),
                (|a: u16| old(self).writable(a)),
                (|a: u16| old(self).alias(a)),
                addr,
                data,
            ));
        }
    }
}

} // verus!
