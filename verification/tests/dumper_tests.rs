use mtp_dumper::dumper::{
    address_line_levels, chr_plan, chunk_ranges_inclusive, chunk_starts, config_change_messages,
    data_from_levels, data_line_levels, majority_vote, mmc1_write_ops, nes_header, nes_rom_size,
    prg_plan, romsel_asserted, snes_bank_count, snes_data_from_levels, snes_read_plan,
    snes_rom_size, snes_rom_type, snes_scan_levels, DumpEngine, DumpError, DumperConfig, Msg,
    SnesRomType,
};

#[test]
fn majority_vote_single_sample() {
    assert_eq!(majority_vote(&vec![0xAB]), 0xAB);
}

#[test]
fn majority_vote_clear_winner() {
    assert_eq!(majority_vote(&vec![1, 2, 2, 2, 1]), 2);
}

#[test]
fn majority_vote_tie_resolves_to_earliest() {
    // 3 and 7 both occur twice; 3 occurs first.
    assert_eq!(majority_vote(&vec![3, 7, 7, 3, 9]), 3);
    assert_eq!(majority_vote(&vec![4, 4, 9, 9]), 4);
}

#[test]
fn majority_vote_all_equal() {
    assert_eq!(majority_vote(&vec![5, 5, 5]), 5);
}

#[test]
fn nes_header_round_trip() {
    // mapper 1, 128 KB PRG, no CHR.
    let config = DumperConfig { mapper: 1, prgsize: 3, chrsize: 0, prg: 128, chr: 0 };
    let header = nes_header(&config);
    assert_eq!(
        header,
        vec![0x4E, 0x45, 0x53, 0x1A, 0x08, 0x00, 0x10, 0, 0, 0, 0, 0, 0, 0, 0, 0]
    );
    assert_eq!(nes_rom_size(&config), 128 * 1024 + 16);
}

#[test]
fn nes_header_mapper_nibble() {
    let config = DumperConfig { mapper: 0x14, prgsize: 1, chrsize: 1, prg: 32, chr: 8 };
    let header = nes_header(&config);
    assert_eq!(header[4], 2);
    assert_eq!(header[5], 1);
    assert_eq!(header[6], 0x40);
    assert_eq!(nes_rom_size(&config), 40 * 1024 + 16);
}

#[test]
fn snes_type_classification() {
    assert_eq!(snes_rom_type(0x35), SnesRomType::EX.code());
    assert_eq!(snes_rom_type(0x3A), SnesRomType::HI.code());
    // Top three bits 000.
    assert_eq!(snes_rom_type(0x05), SnesRomType::LO.code());
    // Top three bits 001: the classification is the low bit.
    assert_eq!(snes_rom_type(0x21), 1);
    assert_eq!(snes_rom_type(0x20), 0);
}

#[test]
fn snes_bank_counts() {
    // Size byte 0x0A: 2^3 = 8 megabits = 1 MB; 32 KB LoROM banks.
    assert_eq!(snes_bank_count(0, 0x0A), 32);
    // Size byte 0x0C: 2^5 = 32 megabits = 4 MB; 64 KB HiROM banks.
    assert_eq!(snes_bank_count(1, 0x0C), 64);
}

#[test]
fn snes_rom_sizes() {
    assert_eq!(snes_rom_size(0, 32), 32 * 0x8000);
    assert_eq!(snes_rom_size(1, 64), 64 * 0x10000);
    assert_eq!(snes_rom_size(4, 10), 0);
}

#[test]
fn snes_read_plans() {
    let lo = snes_read_plan(0, 32);
    assert!(lo.read);
    assert_eq!(lo.first_bank, 0);
    assert_eq!(lo.bank_count, 32);
    assert_eq!(lo.window_from, 0x8000);
    assert_eq!(lo.window_to, 0xFFFF);
    let hi = snes_read_plan(1, 63);
    assert!(hi.read);
    assert_eq!(hi.first_bank, 192);
    assert_eq!(hi.bank_count, 63);
    assert_eq!(hi.window_from, 0);
    let ex = snes_read_plan(4, 10);
    assert!(!ex.read);
}

#[test]
fn snes_chunks_cover_bank() {
    let chunks = chunk_ranges_inclusive(0x8000, 0xFFFF);
    assert_eq!(chunks.len(), 1024);
    assert_eq!(chunks[0], (0x8000, 32));
    assert_eq!(chunks[1023], (0xFFE0, 32));
    let full = chunk_ranges_inclusive(0, 0xFFFF);
    assert_eq!(full.len(), 2048);
}

#[test]
fn mmc1_serial_writes() {
    let ops = mmc1_write_ops(0xE000, 0x0C);
    assert_eq!(ops.len(), 5);
    let data: Vec<u8> = ops.iter().map(|w| w.data).collect();
    assert_eq!(data, vec![0x0C, 0x06, 0x03, 0x01, 0x00]);
    assert!(ops.iter().all(|w| w.address == 0xE000 && w.race_safe));
    let low = mmc1_write_ops(0x8000, 0x10);
    assert!(low.iter().all(|w| !w.race_safe));
}

#[test]
fn prg_plan_mapper0() {
    let plan = prg_plan(0, 1).unwrap();
    assert!(plan.finalize);
    assert!(plan.pre.is_empty());
    assert_eq!(plan.banks.len(), 1);
    assert_eq!(plan.banks[0].from, 0);
    assert_eq!(plan.banks[0].to, 0x8000);
    assert_eq!(plan.banks[0].base, 0x8000);
    assert!(plan.banks[0].setup.is_empty());
}

#[test]
fn prg_plan_mapper1() {
    // Exponent 1: the whole window after one reset write.
    let direct = prg_plan(1, 1).unwrap();
    assert_eq!(direct.banks.len(), 1);
    assert_eq!(direct.banks[0].setup.len(), 1);
    assert_eq!(direct.banks[0].to, 0x8000);
    // Exponent 3: eight banks, each with reset, mode and bank-select writes.
    let banked = prg_plan(1, 3).unwrap();
    assert_eq!(banked.banks.len(), 8);
    // Reset write + 5 mode writes + 5 bank writes.
    assert_eq!(banked.banks[0].setup.len(), 11);
    assert_eq!(banked.banks[0].to, 0x4000);
    // Exponent 5: a second mode write per bank.
    let large = prg_plan(1, 5).unwrap();
    assert_eq!(large.banks.len(), 32);
    assert_eq!(large.banks[0].setup.len(), 16);
    // Banks past 15 get the extended-bank write.
    assert_eq!(large.banks[16].setup.len(), 21);
}

#[test]
fn prg_plan_mapper4() {
    let plan = prg_plan(4, 2).unwrap();
    assert_eq!(plan.pre.len(), 1);
    assert_eq!(plan.pre[0].address, 0xA001);
    assert_eq!(plan.pre[0].data, 0x80);
    assert_eq!(plan.banks.len(), 8);
    assert_eq!(plan.banks[3].setup.len(), 2);
    assert_eq!(plan.banks[3].setup[0].address, 0x8000);
    assert_eq!(plan.banks[3].setup[0].data, 0x06);
    assert_eq!(plan.banks[3].setup[1].address, 0x8001);
    assert_eq!(plan.banks[3].setup[1].data, 3);
    assert_eq!(plan.banks[3].to, 0x2000);
}

#[test]
fn prg_plan_mapper4_bank_overflow_is_fatal() {
    assert_eq!(prg_plan(4, 8).unwrap_err(), DumpError::BankOverflow);
}

#[test]
fn prg_plan_unknown_mapper_is_silent() {
    let plan = prg_plan(9, 3).unwrap();
    assert!(plan.banks.is_empty());
    assert!(!plan.finalize);
}

#[test]
fn chr_plan_shapes() {
    let flat = chr_plan(0, 0).unwrap();
    assert_eq!(flat.banks.len(), 1);
    assert_eq!(flat.banks[0].to, 0x2000);
    let banked = chr_plan(4, 2).unwrap();
    assert_eq!(banked.banks.len(), 16);
    assert_eq!(banked.banks[0].from, 0x1000);
    assert_eq!(banked.banks[0].to, 0x1400);
    assert_eq!(banked.banks[0].setup[0].data, 0x02);
    assert_eq!(chr_plan(4, 7).unwrap_err(), DumpError::BankOverflow);
    assert!(chr_plan(1, 3).unwrap().banks.is_empty());
}

#[test]
fn chunk_starts_step() {
    let starts = chunk_starts(0, 0x2000);
    assert_eq!(starts.len(), 256);
    assert_eq!(starts[0], 0);
    assert_eq!(starts[255], 0x1FE0);
    assert!(chunk_starts(16, 16).is_empty());
}

#[test]
fn address_lines_invert_mirror_bit() {
    let levels = address_line_levels(0x2001);
    assert!(levels[0]);
    assert!(!levels[1]);
    assert!(levels[13]);
    // The last line carries the inverted bit 13.
    assert!(!levels[15]);
    let low = address_line_levels(0x0000);
    assert!(low[15]);
}

#[test]
fn romsel_upper_half() {
    assert!(romsel_asserted(0x8000));
    assert!(!romsel_asserted(0x7FFF));
}

#[test]
fn data_lines_round_trip() {
    for value in [0x00u8, 0x5A, 0xFF, 0x81] {
        let levels = data_line_levels(value);
        assert_eq!(data_from_levels(&levels), value);
    }
}

#[test]
fn snes_data_bit_layout() {
    // Lines 0 and 6 high plus the mirror line: bits 0, 7 and 2.
    let levels = [true, false, false, false, false, false, true];
    assert_eq!(snes_data_from_levels(&levels, true), 0x85);
    assert_eq!(snes_data_from_levels(&levels, false), 0x81);
}

#[test]
fn snes_scan_levels_follow_bits() {
    let levels = snes_scan_levels(0x0105);
    assert!(levels[0]);
    assert!(!levels[1]);
    assert!(levels[2]);
    assert!(levels[8]);
    assert!(!levels[15]);
}

#[test]
fn config_push_round_trip() {
    // A full five-field configuration pushed as change messages and applied
    // to a different starting configuration.
    let target = DumperConfig { mapper: 4, prgsize: 4, chrsize: 5, prg: 256, chr: 128 };
    let messages = config_change_messages(&target);
    assert_eq!(messages.len(), 5);
    let mut engine = DumpEngine::new();
    for message in &messages {
        match message {
            Msg::DumpSetupDataChanged { field, value } => {
                engine.apply_config_change(field, value);
            }
            _ => panic!("unexpected message kind"),
        }
    }
    assert_eq!(engine.config.mapper, 4);
    assert_eq!(engine.config.prgsize, 4);
    assert_eq!(engine.config.chrsize, 5);
    assert_eq!(engine.config.prg, 256);
    assert_eq!(engine.config.chr, 128);
}

#[test]
fn config_change_unknown_field_ignored() {
    let mut engine = DumpEngine::new();
    let field = [0xFFu8; 16];
    let value = [9u8; 16];
    engine.apply_config_change(&field, &value);
    assert_eq!(engine.config.mapper, 1);
    assert_eq!(engine.config.prg, 128);
}

#[test]
fn config_change_value_decoding_is_little_endian() {
    let mut engine = DumpEngine::new();
    let mut field = [0u8; 16];
    field[..3].copy_from_slice(&[0x70, 0x72, 0x67]);
    let mut value = [0u8; 16];
    value[0] = 0x00;
    value[1] = 0x01;
    engine.apply_config_change(&field, &value);
    assert_eq!(engine.config.prg, 256);
}

#[test]
fn default_configuration() {
    let engine = DumpEngine::new();
    assert_eq!(engine.config.mapper, 1);
    assert_eq!(engine.config.prgsize, 3);
    assert_eq!(engine.config.chrsize, 0);
    assert_eq!(engine.config.prg, 128);
    assert_eq!(engine.config.chr, 0);
}
