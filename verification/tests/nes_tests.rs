use nes_rs::nes::{Header, Mirroring, NesRom, Region, RomMapper, RomParseError};

#[test]
fn test_header_parser() {
    const HEADER: [u8; 16] = [
        0x4e, 0x45, 0x53, 0x1a, 0x02, 0x00, 0x01, 0x00, 0x00, 0x00, 0x00, 0x00, 0x00, 0x00,
        0x00, 0x00,
    ];
    let (input, header) = Header::parse(&HEADER).unwrap();
    assert!(input.is_empty());
    assert_eq!(
        header,
        Header {
            len_prg_rom: 0x02,
            len_chr_rom: 0x00,
            rom_mapper: RomMapper::NoMapper,
            mirroring: Mirroring::Vertical,
            vs_system: false,
            trainer: false,
            battery_backed_ram: false,
            len_prg_ram: 0x00,
            region: Region::NTSC,
        }
    )
}

#[test]
fn test_header_parser_rejects() {
    let good: [u8; 16] = [
        0x4e, 0x45, 0x53, 0x1a, 0x02, 0x00, 0x01, 0x00, 0x00, 0x00, 0x00, 0x00, 0x00, 0x00,
        0x00, 0x00,
    ];

    let mut bad_magic = good;
    bad_magic[0] = 0x4d;
    assert_eq!(Header::parse(&bad_magic), Err(RomParseError::BadMagic));

    let mut bad_flags7 = good;
    bad_flags7[7] = 0x04;
    assert_eq!(Header::parse(&bad_flags7), Err(RomParseError::BadFlags7(0x04)));

    let mut bad_flags9 = good;
    bad_flags9[9] = 0x80;
    assert_eq!(Header::parse(&bad_flags9), Err(RomParseError::BadFlags9(0x80)));

    let mut bad_padding = good;
    bad_padding[12] = 0x01;
    assert_eq!(Header::parse(&bad_padding), Err(RomParseError::BadPadding));

    let mut unknown_mapper = good;
    unknown_mapper[7] = 0xe0;
    assert_eq!(
        Header::parse(&unknown_mapper),
        Err(RomParseError::UnknownMapper(0xe0))
    );

    assert_eq!(
        Header::parse(&good[..8]),
        Err(RomParseError::TruncatedHeader)
    );
}

#[test]
fn test_rom_parse_sections() {
    // One 16 KiB program page, no character ROM, no trainer.
    let mut image: Vec<u8> = vec![
        0x4e, 0x45, 0x53, 0x1a, 0x01, 0x00, 0x01, 0x00, 0x00, 0x00, 0x00, 0x00, 0x00, 0x00,
        0x00, 0x00,
    ];
    let mut i: usize = 0;
    while i < 0x4000 {
        image.push((i % 251) as u8);
        i += 1;
    }
    let (rest, rom) = NesRom::parse(&image).unwrap();
    assert!(rest.is_empty());
    assert_eq!(rom.header.len_prg_rom, 1);
    assert_eq!(rom.trainer, None);
    assert_eq!(rom.prg_rom.len(), 0x4000);
    assert_eq!(rom.prg_rom[0], 0);
    assert_eq!(rom.prg_rom[252], 1);
    assert_eq!(rom.chr_rom.len(), 0);
}

#[test]
fn test_rom_parse_truncated_prg() {
    let mut image: Vec<u8> = vec![
        0x4e, 0x45, 0x53, 0x1a, 0x01, 0x00, 0x01, 0x00, 0x00, 0x00, 0x00, 0x00, 0x00, 0x00,
        0x00, 0x00,
    ];
    image.push(0xab);
    assert_eq!(NesRom::parse(&image), Err(RomParseError::TruncatedPrgRom));
}

#[test]
fn test_mapper_numbers() {
    assert_eq!(RomMapper::from_number(0), Some(RomMapper::NoMapper));
    assert_eq!(RomMapper::from_number(4), Some(RomMapper::NintendoMMC3));
    assert_eq!(RomMapper::from_number(91), Some(RomMapper::PirateHK_SF3_Chip));
    assert_eq!(RomMapper::from_number(14), None);
    assert_eq!(RomMapper::from_number(255), None);
}
