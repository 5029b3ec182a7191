use vstd::prelude::*;
use vstd::slice::{slice_subrange, slice_to_vec};

verus! {

/// Size of one program-ROM page: 16 KiB.
pub const PRG_ROM_PAGE_SIZE: usize = 0x4000;

/// Size of one character-ROM page: 8 KiB.
pub const CHR_ROM_PAGE_SIZE: usize = 0x2000;

/// Nametable arrangement of the cartridge.
#[derive(Clone, Copy, Debug, PartialEq, Eq, Structural)]
pub enum Mirroring {
    Horizontal,
    Vertical,
    FourScreen,
}

/// The cartridge mapper circuits this container format can name.
#[allow(non_camel_case_types)]
#[derive(Clone, Copy, Debug, PartialEq, Eq, Structural)]
pub enum RomMapper {
    NoMapper,
    NintendoMMC1,
    CNROM_Switch,
    UNROM_Switch,
    NintendoMMC3,
    NintendoMMC5,
    FFE_F4xxx,
    AOROM_Switch,
    FFE_F3xxx,
    NintendoMMC2,
    NintendoMMC4,
    ColorDreams_Chip,
    FFE_F6xxx,
    CPROM_Switch,
    HundredInOne_Switch,
    Bandai_Chip,
    FFE_F8xxx,
    JalecoSS8806_Chip,
    Namcot106_Chip,
    NintendoDiskSystem,
    KonamiVRC4a,
    KonamiVRC2a_1,
    KonamiVRC2a_2,
    KonamiVRC6,
    KonamiVRC4b,
    IremG101_Chip,
    TaitoTC0190_TC0350,
    Nina1_Board,
    TengenRAMBO1_Chip,
    IremH3001_Chip,
    GNROM_Switch,
    SunSoft3_Chip,
    SunSoft4_Chip,
    SunSoft5_FME7_Chip,
    Camerica_Chip,
    Irem74HC161_32based,
    AVENina3_Board,
    AVENina6_Board,
    PirateHK_SF3_Chip,
}

/// Television standard of the cartridge.
#[derive(Clone, Copy, Debug, PartialEq, Eq, Structural)]
pub enum Region {
    NTSC,
    PAL,
}

/// Why a byte stream is not a valid cartridge container.
#[derive(Clone, Copy, Debug, PartialEq, Eq, Structural)]
pub enum RomParseError {
    /// Fewer than the 16 header bytes.
    TruncatedHeader,
    /// The four magic bytes are wrong.
    BadMagic,
    /// A bit that must be zero in the seventh flag byte is set.
    BadFlags7(u8),
    /// A bit that must be zero in the ninth flag byte is set.
    BadFlags9(u8),
    /// A non-zero byte among the six padding bytes.
    BadPadding,
    /// The mapper number is not one this format can name.
    UnknownMapper(u8),
    /// The trainer section is cut short.
    TruncatedTrainer,
    /// The program-ROM section is cut short.
    TruncatedPrgRom,
    /// The character-ROM section is cut short.
    TruncatedChrRom,
}

/// The mapper named by a mapper number, if any.
pub open spec fn spec_mapper_from_number(n: u8) -> Option<RomMapper> {
    match n {
        0u8 => Some(RomMapper::NoMapper),
        1u8 => Some(RomMapper::NintendoMMC1),
        2u8 => Some(RomMapper::CNROM_Switch),
        3u8 => Some(RomMapper::UNROM_Switch),
        4u8 => Some(RomMapper::NintendoMMC3),
        5u8 => Some(RomMapper::NintendoMMC5),
        6u8 => Some(RomMapper::FFE_F4xxx),
        7u8 => Some(RomMapper::AOROM_Switch),
        8u8 => Some(RomMapper::FFE_F3xxx),
        9u8 => Some(RomMapper::NintendoMMC2),
        10u8 => Some(RomMapper::NintendoMMC4),
        11u8 => Some(RomMapper::ColorDreams_Chip),
        12u8 => Some(RomMapper::FFE_F6xxx),
        13u8 => Some(RomMapper::CPROM_Switch),
        15u8 => Some(RomMapper::HundredInOne_Switch),
        16u8 => Some(RomMapper::Bandai_Chip),
        17u8 => Some(RomMapper::FFE_F8xxx),
        18u8 => Some(RomMapper::JalecoSS8806_Chip),
        19u8 => Some(RomMapper::Namcot106_Chip),
        20u8 => Some(RomMapper::NintendoDiskSystem),
        21u8 => Some(RomMapper::KonamiVRC4a),
        22u8 => Some(RomMapper::KonamiVRC2a_1),
        23u8 => Some(RomMapper::KonamiVRC2a_2),
        24u8 => Some(RomMapper::KonamiVRC6),
        25u8 => Some(RomMapper::KonamiVRC4b),
        32u8 => Some(RomMapper::IremG101_Chip),
        33u8 => Some(RomMapper::TaitoTC0190_TC0350),
        34u8 => Some(RomMapper::Nina1_Board),
        64u8 => Some(RomMapper::TengenRAMBO1_Chip),
        65u8 => Some(RomMapper::IremH3001_Chip),
        66u8 => Some(RomMapper::GNROM_Switch),
        67u8 => Some(RomMapper::SunSoft3_Chip),
        68u8 => Some(RomMapper::SunSoft4_Chip),
        69u8 => Some(RomMapper::SunSoft5_FME7_Chip),
        71u8 => Some(RomMapper::Camerica_Chip),
        78u8 => Some(RomMapper::Irem74HC161_32based),
        79u8 => Some(RomMapper::AVENina3_Board),
        81u8 => Some(RomMapper::AVENina6_Board),
        91u8 => Some(RomMapper::PirateHK_SF3_Chip),
        _ => None,
    }
}

impl RomMapper {
    /// Look a mapper number up in the table of known mappers.
    pub fn from_number(n: u8) -> (r: Option<RomMapper>)
        ensures
            r == spec_mapper_from_number(n),
    {
        match n {
            0u8 => Some(RomMapper::NoMapper),
            1u8 => Some(RomMapper::NintendoMMC1),
            2u8 => Some(RomMapper::CNROM_Switch),
            3u8 => Some(RomMapper::UNROM_Switch),
            4u8 => Some(RomMapper::NintendoMMC3),
            5u8 => Some(RomMapper::NintendoMMC5),
            6u8 => Some(RomMapper::FFE_F4xxx),
            7u8 => Some(RomMapper::AOROM_Switch),
            8u8 => Some(RomMapper::FFE_F3xxx),
            9u8 => Some(RomMapper::NintendoMMC2),
            10u8 => Some(RomMapper::NintendoMMC4),
            11u8 => Some(RomMapper::ColorDreams_Chip),
            12u8 => Some(RomMapper::FFE_F6xxx),
            13u8 => Some(RomMapper::CPROM_Switch),
            15u8 => Some(RomMapper::HundredInOne_Switch),
            16u8 => Some(RomMapper::Bandai_Chip),
            17u8 => Some(RomMapper::FFE_F8xxx),
            18u8 => Some(RomMapper::JalecoSS8806_Chip),
            19u8 => Some(RomMapper::Namcot106_Chip),
            20u8 => Some(RomMapper::NintendoDiskSystem),
            21u8 => Some(RomMapper::KonamiVRC4a),
            22u8 => Some(RomMapper::KonamiVRC2a_1),
            23u8 => Some(RomMapper::KonamiVRC2a_2),
            24u8 => Some(RomMapper::KonamiVRC6),
            25u8 => Some(RomMapper::KonamiVRC4b),
            32u8 => Some(RomMapper::IremG101_Chip),
            33u8 => Some(RomMapper::TaitoTC0190_TC0350),
            34u8 => Some(RomMapper::Nina1_Board),
            64u8 => Some(RomMapper::TengenRAMBO1_Chip),
            65u8 => Some(RomMapper::IremH3001_Chip),
            66u8 => Some(RomMapper::GNROM_Switch),
            67u8 => Some(RomMapper::SunSoft3_Chip),
            68u8 => Some(RomMapper::SunSoft4_Chip),
            69u8 => Some(RomMapper::SunSoft5_FME7_Chip),
            71u8 => Some(RomMapper::Camerica_Chip),
            78u8 => Some(RomMapper::Irem74HC161_32based),
            79u8 => Some(RomMapper::AVENina3_Board),
            81u8 => Some(RomMapper::AVENina6_Board),
            91u8 => Some(RomMapper::PirateHK_SF3_Chip),
            _ => None,
        }
    }
}

/// The decoded 16-byte container header.
#[derive(Clone, Copy, Debug, PartialEq, Eq, Structural)]
pub struct Header {
    pub len_prg_rom: u8,
    pub len_chr_rom: u8,
    pub len_prg_ram: u8,
    pub mirroring: Mirroring,
    pub battery_backed_ram: bool,
    pub trainer: bool,
    pub vs_system: bool,
    pub rom_mapper: RomMapper,
    pub region: Region,
}

/// Decode of the 16 header bytes. The magic must match; the three middle
/// bits of the seventh flag byte, the top seven bits of the ninth, and the
/// six padding bytes must all be zero; and the mapper number, assembled from
/// the high nibbles of the two flag bytes, must be known. The four-screen
/// bit overrides the mirroring bit.
pub open spec fn spec_parse_header(input: Seq<u8>) -> Result<Header, RomParseError> {
    if input.len() < 16 {
        Err(RomParseError::TruncatedHeader)
    } else if !(input[0] == 0x4E && input[1] == 0x45 && input[2] == 0x53 && input[3] == 0x1A) {
        Err(RomParseError::BadMagic)
    } else if input[7] & 0x0E != 0 {
        Err(RomParseError::BadFlags7(input[7]))
    } else if input[9] & 0xFE != 0 {
        Err(RomParseError::BadFlags9(input[9]))
    } else if !(input[10] == 0 && input[11] == 0 && input[12] == 0 && input[13] == 0 && input[14]
        == 0 && input[15] == 0) {
        Err(RomParseError::BadPadding)
    } else {
        let number = (input[7] & 0xF0) | (input[6] >> 4);
        match spec_mapper_from_number(number) {
            None => Err(RomParseError::UnknownMapper(number)),
            Some(mapper) => Ok(
                Header {
                    len_prg_rom: input[4],
                    len_chr_rom: input[5],
                    len_prg_ram: input[8],
                    mirroring: if input[6] & 0x08 != 0 {
                        Mirroring::FourScreen
                    } else if input[6] & 0x01 != 0 {
                        Mirroring::Vertical
                    } else {
                        Mirroring::Horizontal
                    },
                    battery_backed_ram: input[6] & 0x02 != 0,
                    trainer: input[6] & 0x04 != 0,
                    vs_system: input[7] & 0x01 != 0,
                    rom_mapper: mapper,
                    region: if input[9] & 0x01 != 0 {
                        Region::PAL
                    } else {
                        Region::NTSC
                    },
                },
            ),
        }
    }
}

impl Header {
    /// Decode the 16-byte header and hand back the rest of the input.
    pub fn parse(input: &[u8]) -> (r: Result<(&[u8], Header), RomParseError>)
        ensures
            match r {
                Ok((rest, header)) => spec_parse_header(input@) == Ok::<Header, RomParseError>(
                    header,
                ) && rest@ == input@.skip(16),
                Err(e) => spec_parse_header(input@) == Err::<Header, RomParseError>(e),
            },
    {
        if input.len() < 16 {
            return Err(RomParseError::TruncatedHeader);
        }
        if !(input[0] == 0x4E && input[1] == 0x45 && input[2] == 0x53 && input[3] == 0x1A) {
            return Err(RomParseError::BadMagic);
        }
        if input[7] & 0x0E != 0 {
            return Err(RomParseError::BadFlags7(input[7]));
        }
        if input[9] & 0xFE != 0 {
            return Err(RomParseError::BadFlags9(input[9]));
        }
        if !(input[10] == 0 && input[11] == 0 && input[12] == 0 && input[13] == 0 && input[14] == 0
            && input[15] == 0) {
            return Err(RomParseError::BadPadding);
        }
        let number = (input[7] & 0xF0) | (input[6] >> 4);
        let mapper = match RomMapper::from_number(number) {
            None => {
                return Err(RomParseError::UnknownMapper(number));
            },
            Some(mapper) => mapper,
        };
        let header = Header {
            len_prg_rom: input[4],
            len_chr_rom: input[5],
            len_prg_ram: input[8],
            mirroring: if input[6] & 0x08 != 0 {
                Mirroring::FourScreen
            } else if input[6] & 0x01 != 0 {
                Mirroring::Vertical
            } else {
                Mirroring::Horizontal
            },
            battery_backed_ram: input[6] & 0x02 != 0,
            trainer: input[6] & 0x04 != 0,
            vs_system: input[7] & 0x01 != 0,
            rom_mapper: mapper,
            region: if input[9] & 0x01 != 0 {
                Region::PAL
            } else {
                Region::NTSC
            },
        };
        let rest = slice_subrange(input, 16, input.len());
        proof {
            assert(rest@ =~= input@.skip(16));
        }
        Ok((rest, header))
    }
}

/// Length of the trainer section the header announces.
pub open spec fn trainer_len(h: Header) -> int {
    if h.trainer {
        512
    } else {
        0
    }
}

/// Length of the program-ROM section the header announces.
pub open spec fn prg_len(h: Header) -> int {
    h.len_prg_rom * 0x4000
}

/// Length of the character-ROM section the header announces.
pub open spec fn chr_len(h: Header) -> int {
    h.len_chr_rom * 0x2000
}

/// A decoded cartridge: header, optional trainer, and the two ROM sections.
#[derive(Debug, PartialEq)]
pub struct NesRom {
    pub header: Header,
    pub trainer: Option<Vec<u8>>,
    pub prg_rom: Vec<u8>,
    pub chr_rom: Vec<u8>,
}

impl NesRom {
    /// Decode a whole cartridge container: the header, the 512-byte trainer
    /// when announced, then the program and character ROM sections, whose
    /// sizes the header gives in pages. Succeeds exactly when the header
    /// decodes and the input holds all announced sections; the unread tail
    /// is handed back.
    pub fn parse(input: &[u8]) -> (r: Result<(&[u8], NesRom), RomParseError>)
        ensures
            match r {
                Ok((rest, rom)) => {
                    let h = rom.header;
                    &&& spec_parse_header(input@) == Ok::<Header, RomParseError>(h)
                    &&& input@.len() >= 16 + trainer_len(h) + prg_len(h) + chr_len(h)
                    &&& (h.trainer ==> (rom.trainer matches Some(t) && t@ == input@.subrange(
                        16,
                        16 + 512int,
                    )))
                    &&& (!h.trainer ==> rom.trainer is None)
                    &&& rom.prg_rom@ == input@.subrange(
                        16 + trainer_len(h),
                        16 + trainer_len(h) + prg_len(h),
                    )
                    &&& rom.chr_rom@ == input@.subrange(
                        16 + trainer_len(h) + prg_len(h),
                        16 + trainer_len(h) + prg_len(h) + chr_len(h),
                    )
                    &&& rest@ == input@.skip(16 + trainer_len(h) + prg_len(h) + chr_len(h))
                },
                Err(e) => match spec_parse_header(input@) {
                    Err(eh) => e == eh,
                    Ok(h) => {
                        &&& input@.len() < 16 + trainer_len(h) + prg_len(h) + chr_len(h)
                        &&& if input@.len() < 16 + trainer_len(h) {
                            e == RomParseError::TruncatedTrainer
                        } else if input@.len() < 16 + trainer_len(h) + prg_len(h) {
                            e == RomParseError::TruncatedPrgRom
                        } else {
                            e == RomParseError::TruncatedChrRom
                        }
                    },
                },
            },
    {
        let (rest, header) = match Header::parse(input) {
            Ok(p) => p,
            Err(e) => {
                return Err(e);
            },
        };
        let tlen: usize = if header.trainer {
            512
        } else {
            0
        };
        let plen: usize = header.len_prg_rom as usize * PRG_ROM_PAGE_SIZE;
        let clen: usize = header.len_chr_rom as usize * CHR_ROM_PAGE_SIZE;
        if rest.len() < tlen {
            return Err(RomParseError::TruncatedTrainer);
        }
        let trainer = if header.trainer {
            Some(slice_to_vec(slice_subrange(rest, 0, 512)))
        } else {
            None
        };
        let rest2 = slice_subrange(rest, tlen, rest.len());
        if rest2.len() < plen {
            return Err(RomParseError::TruncatedPrgRom);
        }
        let prg_rom = slice_to_vec(slice_subrange(rest2, 0, plen));
        let rest3 = slice_subrange(rest2, plen, rest2.len());
        if rest3.len() < clen {
            return Err(RomParseError::TruncatedChrRom);
        }
        let chr_rom = slice_to_vec(slice_subrange(rest3, 0, clen));
        let rest4 = slice_subrange(rest3, clen, rest3.len());
        proof {
            let h = header;
            assert(prg_rom@ =~= input@.subrange(
                16 + trainer_len(h),
                16 + trainer_len(h) + prg_len(h),
            ));
            assert(chr_rom@ =~= input@.subrange(
                16 + trainer_len(h) + prg_len(h),
                16 + trainer_len(h) + prg_len(h) + chr_len(h),
            ));
            assert(rest4@ =~= input@.skip(16 + trainer_len(h) + prg_len(h) + chr_len(h)));
            if h.trainer {
                assert(input@.subrange(16, 16 + 512int) =~= rest@.subrange(0, 512));
            }
        }
        Ok((rest4, NesRom { header, trainer, prg_rom, chr_rom }))
    }
}

} // verus!
