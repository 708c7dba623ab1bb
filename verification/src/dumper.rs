//! Dump-engine data model and decision logic: the channel message vocabulary,
//! the dump configuration, majority-vote sampling, image-header generation and
//! the bit-level line mappings of the cartridge bus.
//!
//! The physical bus operations (driving pins, settle delays) are not here:
//! they are pure I/O and live with the hardware. Every decision they depend
//! on — which level each line takes for an address, how a sampled byte is
//! assembled, what register writes select a bank — is a function in this
//! module with an exact contract.

use vstd::prelude::*;

use crate::wire::spec_u16_at;

verus! {

/// Number of payload bytes in one data chunk message.
pub const DATA_CHANNEL_SIZE: usize = 32;

/// Width of the field-identifier and raw-value parts of a configuration
/// change message.
pub const DUMP_SETUP_DATA_CHANGED_LENGTH: usize = 16;

/// How many times a byte is sampled by the noise-resilient read.
pub const BYTE_READ_RETRIES: usize = 1;

/// Which console family a dump request targets.
pub enum MsgStartConsole {
    Nes,
    Snes,
}

/// The tagged messages carried by the two single-slot channels between the
/// protocol engine and the dump engine.
pub enum Msg {
    /// Begin a full dump for the given console.
    Start { console: MsgStartConsole },
    /// Sent once, before any data chunk: the total image size in bytes.
    DumpSetupData { rom_size: u32 },
    /// Update one configuration field, identified by a null-padded name.
    DumpSetupDataChanged { field: [u8; DUMP_SETUP_DATA_CHANGED_LENGTH], value: [u8; DUMP_SETUP_DATA_CHANGED_LENGTH] },
    /// One chunk of dump output, in address order; only the first `length`
    /// bytes of `data` are meaningful.
    Data { data: [u8; DATA_CHANNEL_SIZE], length: usize },
    /// Terminates the stream of one dump.
    End,
}

/// The dump configuration: mapper identifier, size exponents and sizes in KB.
pub struct DumperConfig {
    pub mapper: u8,
    pub prgsize: u8,
    pub chrsize: u8,
    /// PRG size in KB.
    pub prg: u16,
    /// CHR size in KB.
    pub chr: u16,
}

impl Default for DumperConfig {
    /// The power-on configuration: a mid-size mapper-1 cartridge.
    fn default() -> (r: Self)
        ensures
            r.mapper == 1,
            r.prgsize == 3,
            r.chrsize == 0,
            r.prg == 128,
            r.chr == 0,
    {
        DumperConfig { mapper: 1, prgsize: 3, chrsize: 0, prg: 128, chr: 0 }
    }
}

/// Cartridge types of the second console family.
pub enum SnesRomType {
    LO,
    HI,
    SA,
    EX,
}

impl SnesRomType {
    /// The numeric code a type is reported as.
    pub fn code(&self) -> (r: u8)
        ensures
            r == self.spec_code(),
    {
        match self {
            SnesRomType::LO => 0,
            SnesRomType::HI => 1,
            SnesRomType::SA => 3,
            SnesRomType::EX => 4,
        }
    }

    /// The numeric code a type is reported as.
    pub open spec fn spec_code(&self) -> u8 {
        match self {
            SnesRomType::LO => 0,
            SnesRomType::HI => 1,
            SnesRomType::SA => 3,
            SnesRomType::EX => 4,
        }
    }
}

/// How many times `v` occurs in `s`.
pub open spec fn count_val(s: Seq<u8>, v: u8) -> nat
    decreases s.len(),
{
    if s.len() == 0 {
        0
    } else {
        count_val(s.drop_last(), v) + if s.last() == v {
            1nat
        } else {
            0nat
        }
    }
}

/// `i` indexes the first sample whose value occurs most often in `s`.
pub open spec fn is_majority_index(s: Seq<u8>, i: int) -> bool {
    &&& 0 <= i < s.len()
    &&& forall|j: int| 0 <= j < s.len() ==> count_val(s, s[j]) <= count_val(s, s[i])
    &&& forall|j: int| 0 <= j < i ==> count_val(s, s[j]) < count_val(s, s[i])
}

proof fn lemma_count_take_step(s: Seq<u8>, v: u8, j: int)
    requires
        0 <= j < s.len(),
    ensures
        count_val(s.take(j + 1), v) == count_val(s.take(j), v) + if s[j] == v {
            1nat
        } else {
            0nat
        },
{
    assert(s.take(j + 1).drop_last() =~= s.take(j));
}

/// How many entries of `samples` equal `v`.
fn count_occurrences(samples: &Vec<u8>, v: u8) -> (r: usize)
    ensures
        r == count_val(samples@, v),
{
    let n = samples.len();
    let mut cnt: usize = 0;
    for j in 0..n
        invariant
            n == samples@.len(),
            cnt == count_val(samples@.take(j as int), v),
            cnt <= j,
    {
        proof {
            lemma_count_take_step(samples@, v, j as int);
        }
        if samples[j] == v {
            cnt = cnt + 1;
        }
    }
    proof {
        assert(samples@.take(n as int) =~= samples@);
    }
    cnt
}

/// The value occurring most often among the samples, ties resolved to the
/// earliest-occurring maximal value. With a single sample it returns that
/// sample.
pub fn majority_vote(samples: &Vec<u8>) -> (r: u8)
    requires
        samples@.len() >= 1,
    ensures
        exists|i: int| is_majority_index(samples@, i) && r == samples@[i],
        samples@.len() == 1 ==> r == samples@[0],
{
    let n = samples.len();
    let mut best_val = samples[0];
    let mut best_count = count_occurrences(samples, best_val);
    let ghost mut best_idx: int = 0;
    for i in 1..n
        invariant
            n == samples@.len(),
            0 <= best_idx < i <= n,
            best_val == samples@[best_idx],
            best_count == count_val(samples@, samples@[best_idx]),
            forall|j: int| 0 <= j < i ==> count_val(samples@, samples@[j]) <= best_count,
            forall|j: int| 0 <= j < best_idx ==> count_val(samples@, samples@[j]) < best_count,
    {
        let c = count_occurrences(samples, samples[i]);
        if c > best_count {
            best_val = samples[i];
            best_count = c;
            proof {
                best_idx = i as int;
            }
        }
    }
    proof {
        assert(is_majority_index(samples@, best_idx));
    }
    best_val
}

/// Total image size announced for a dump of the first console family:
/// PRG and CHR content plus the 16-byte header.
pub fn nes_rom_size(config: &DumperConfig) -> (r: u32)
    ensures
        r == (config.prg + config.chr) * 1024 + 16,
{
    (config.prg as u32 + config.chr as u32) * 1024 + 16
}

/// The 16-byte image header for the first console family.
pub open spec fn spec_nes_header(c: DumperConfig) -> Seq<u8> {
    seq![
        0x4Eu8,
        0x45u8,
        0x53u8,
        0x1Au8,
        (c.prg / 16) as u8,
        (c.chr / 8) as u8,
        ((c.mapper & 0xF) << 4) as u8,
        0u8,
        0u8,
        0u8,
        0u8,
        0u8,
        0u8,
        0u8,
        0u8,
        0u8,
    ]
}

/// Builds the 16-byte image header: magic bytes, PRG size / 16, CHR size / 8,
/// the mapper number's low nibble in the high nibble of byte 6, nine zeroes.
pub fn nes_header(config: &DumperConfig) -> (r: Vec<u8>)
    ensures
        r@ == spec_nes_header(*config),
{
    let mut h: Vec<u8> = Vec::new();
    h.push(0x4E);
    h.push(0x45);
    h.push(0x53);
    h.push(0x1A);
    h.push(#[verifier::truncate] ((config.prg / 16) as u8));
    h.push(#[verifier::truncate] ((config.chr / 8) as u8));
    h.push((config.mapper & 0xF) << 4);
    let mut i: usize = 0;
    while i < 9
        invariant
            h@.len() == 7 + i,
            i <= 9,
            h@ == spec_nes_header(*config).take(7 + i),
        decreases 9 - i,
    {
        h.push(0);
        assert(h@ =~= spec_nes_header(*config).take(7 + i + 1));
        i = i + 1;
    }
    assert(h@ =~= spec_nes_header(*config));
    h
}

/// Whether bit `i` of `a` is set.
pub open spec fn spec_addr_bit(a: u16, i: u16) -> bool {
    (a & (1u16 << i)) > 0
}

/// Whether bit `i` of byte `d` is set.
pub open spec fn spec_data_bit(d: u8, i: u8) -> bool {
    (d & (1u8 << i)) > 0
}

/// The levels the sixteen address lines take for `address`: lines 0..15 carry
/// address bits 0..14; the last line carries the inverted bit 13 (the
/// address-mirroring line used for CHR-space reads).
pub fn address_line_levels(address: u16) -> (r: [bool; 16])
    ensures
        forall|i: int| 0 <= i < 15 ==> r@[i] == spec_addr_bit(address, i as u16),
        r@[15] == !spec_addr_bit(address, 13),
{
    let mut levels = [false; 16];
    let mut i: usize = 0;
    while i < 15
        invariant
            i <= 15,
            forall|j: int| 0 <= j < i ==> levels@[j] == spec_addr_bit(address, j as u16),
        decreases 15 - i,
    {
        levels[i] = (address & (1u16 << (i as u16))) > 0;
        i = i + 1;
    }
    levels[15] = (address & (1u16 << 13u16)) == 0;
    levels
}

/// The level of the ROM-select line for a read at `address`: asserted (low)
/// exactly in the upper half of the address space.
pub fn romsel_asserted(address: u16) -> (r: bool)
    ensures
        r == ((address & 0x8000) > 0),
{
    (address & 0x8000) > 0
}

/// The levels the eight data lines take when driving `data`.
pub fn data_line_levels(data: u8) -> (r: [bool; 8])
    ensures
        forall|i: int| 0 <= i < 8 ==> r@[i] == spec_data_bit(data, i as u8),
{
    let mut levels = [false; 8];
    let mut i: usize = 0;
    while i < 8
        invariant
            i <= 8,
            forall|j: int| 0 <= j < i ==> levels@[j] == spec_data_bit(data, j as u8),
        decreases 8 - i,
    {
        levels[i] = (data & (1u8 << (i as u8))) > 0;
        i = i + 1;
    }
    levels
}

/// The numeric value of one sampled level.
pub open spec fn spec_bit_val(b: bool) -> u8 {
    if b {
        1
    } else {
        0
    }
}

/// The byte read off the eight data lines: line `i` contributes bit `i`.
pub open spec fn spec_data_from_levels(l: Seq<bool>) -> u8 {
    (spec_bit_val(l[0]) | (spec_bit_val(l[1]) << 1) | (spec_bit_val(l[2]) << 2) | (spec_bit_val(
        l[3],
    ) << 3) | (spec_bit_val(l[4]) << 4) | (spec_bit_val(l[5]) << 5) | (spec_bit_val(l[6]) << 6) | (
    spec_bit_val(l[7]) << 7)) as u8
}

/// Assembles the byte read off the eight data lines.
pub fn data_from_levels(levels: &[bool; 8]) -> (r: u8)
    ensures
        r == spec_data_from_levels(levels@),
{
    let mut data: u8 = bit_val(levels[0]);
    data = data | (bit_val(levels[1]) << 1);
    data = data | (bit_val(levels[2]) << 2);
    data = data | (bit_val(levels[3]) << 3);
    data = data | (bit_val(levels[4]) << 4);
    data = data | (bit_val(levels[5]) << 5);
    data = data | (bit_val(levels[6]) << 6);
    data = data | (bit_val(levels[7]) << 7);
    data
}

fn bit_val(b: bool) -> (r: u8)
    ensures
        r == spec_bit_val(b),
{
    if b {
        1
    } else {
        0
    }
}

/// `name` padded with zero bytes to the field-identifier width.
pub open spec fn spec_padded16(name: Seq<u8>) -> Seq<u8> {
    name + Seq::new((DUMP_SETUP_DATA_CHANGED_LENGTH - name.len()) as nat, |i: int| 0u8)
}

/// Pads `name` with zero bytes to the field-identifier width.
pub fn padded16(name: &[u8]) -> (r: [u8; DUMP_SETUP_DATA_CHANGED_LENGTH])
    requires
        name@.len() <= DUMP_SETUP_DATA_CHANGED_LENGTH,
    ensures
        r@ == spec_padded16(name@),
{
    let mut a = [0u8; DUMP_SETUP_DATA_CHANGED_LENGTH];
    let n = name.len();
    let mut i: usize = 0;
    while i < n
        invariant
            n == name@.len(),
            n <= DUMP_SETUP_DATA_CHANGED_LENGTH,
            i <= n,
            forall|j: int| 0 <= j < i ==> a@[j] == name@[j],
            forall|j: int| i <= j < DUMP_SETUP_DATA_CHANGED_LENGTH ==> a@[j] == 0u8,
        decreases n - i,
    {
        a[i] = name[i];
        i = i + 1;
    }
    assert(a@ =~= spec_padded16(name@));
    a
}

/// The identifier of the mapper field.
pub open spec fn spec_field_mapper() -> Seq<u8> {
    seq![0x6Du8, 0x61u8, 0x70u8, 0x70u8, 0x65u8, 0x72u8]
}

/// The identifier of the PRG size-exponent field.
pub open spec fn spec_field_prgsize() -> Seq<u8> {
    seq![0x70u8, 0x72u8, 0x67u8, 0x73u8, 0x69u8, 0x7Au8, 0x65u8]
}

/// The identifier of the CHR size-exponent field.
pub open spec fn spec_field_chrsize() -> Seq<u8> {
    seq![0x63u8, 0x68u8, 0x72u8, 0x73u8, 0x69u8, 0x7Au8, 0x65u8]
}

/// The identifier of the PRG size-in-KB field.
pub open spec fn spec_field_prg() -> Seq<u8> {
    seq![0x70u8, 0x72u8, 0x67u8]
}

/// The identifier of the CHR size-in-KB field.
pub open spec fn spec_field_chr() -> Seq<u8> {
    seq![0x63u8, 0x68u8, 0x72u8]
}

/// The mapper field identifier, as bytes.
pub fn field_mapper() -> (r: Vec<u8>)
    ensures
        r@ == spec_field_mapper(),
{
    let mut v: Vec<u8> = Vec::new();
    v.push(0x6D);
    v.push(0x61);
    v.push(0x70);
    v.push(0x70);
    v.push(0x65);
    v.push(0x72);
    assert(v@ =~= spec_field_mapper());
    v
}

/// The PRG size-exponent field identifier, as bytes.
pub fn field_prgsize() -> (r: Vec<u8>)
    ensures
        r@ == spec_field_prgsize(),
{
    let mut v: Vec<u8> = Vec::new();
    v.push(0x70);
    v.push(0x72);
    v.push(0x67);
    v.push(0x73);
    v.push(0x69);
    v.push(0x7A);
    v.push(0x65);
    assert(v@ =~= spec_field_prgsize());
    v
}

/// The CHR size-exponent field identifier, as bytes.
pub fn field_chrsize() -> (r: Vec<u8>)
    ensures
        r@ == spec_field_chrsize(),
{
    let mut v: Vec<u8> = Vec::new();
    v.push(0x63);
    v.push(0x68);
    v.push(0x72);
    v.push(0x73);
    v.push(0x69);
    v.push(0x7A);
    v.push(0x65);
    assert(v@ =~= spec_field_chrsize());
    v
}

/// The PRG size-in-KB field identifier, as bytes.
pub fn field_prg() -> (r: Vec<u8>)
    ensures
        r@ == spec_field_prg(),
{
    let mut v: Vec<u8> = Vec::new();
    v.push(0x70);
    v.push(0x72);
    v.push(0x67);
    assert(v@ =~= spec_field_prg());
    v
}

/// The CHR size-in-KB field identifier, as bytes.
pub fn field_chr() -> (r: Vec<u8>)
    ensures
        r@ == spec_field_chr(),
{
    let mut v: Vec<u8> = Vec::new();
    v.push(0x63);
    v.push(0x68);
    v.push(0x72);
    assert(v@ =~= spec_field_chr());
    v
}

/// The raw-value bytes of a one-byte configuration value.
pub open spec fn spec_value_u8(x: u8) -> Seq<u8> {
    Seq::new(DUMP_SETUP_DATA_CHANGED_LENGTH as nat, |i: int| if i == 0 { x } else { 0u8 })
}

/// The raw-value bytes of a two-byte configuration value, little-endian.
pub open spec fn spec_value_u16(x: u16) -> Seq<u8> {
    Seq::new(
        DUMP_SETUP_DATA_CHANGED_LENGTH as nat,
        |i: int|
            if i == 0 {
                (x & 0xFF) as u8
            } else if i == 1 {
                ((x >> 8) & 0xFF) as u8
            } else {
                0u8
            },
    )
}

/// The configuration after one change message is applied: a recognized field
/// identifier replaces its field (multi-byte values decode little-endian);
/// an unrecognized identifier leaves the configuration unchanged.
pub open spec fn spec_apply_config_change(
    c: DumperConfig,
    field: Seq<u8>,
    value: Seq<u8>,
) -> DumperConfig {
    if field == spec_padded16(spec_field_mapper()) {
        DumperConfig { mapper: value[0], prgsize: c.prgsize, chrsize: c.chrsize, prg: c.prg, chr: c.chr }
    } else if field == spec_padded16(spec_field_prgsize()) {
        DumperConfig { mapper: c.mapper, prgsize: value[0], chrsize: c.chrsize, prg: c.prg, chr: c.chr }
    } else if field == spec_padded16(spec_field_chrsize()) {
        DumperConfig { mapper: c.mapper, prgsize: c.prgsize, chrsize: value[0], prg: c.prg, chr: c.chr }
    } else if field == spec_padded16(spec_field_prg()) {
        DumperConfig { mapper: c.mapper, prgsize: c.prgsize, chrsize: c.chrsize, prg: spec_u16_at(value, 0), chr: c.chr }
    } else if field == spec_padded16(spec_field_chr()) {
        DumperConfig { mapper: c.mapper, prgsize: c.prgsize, chrsize: c.chrsize, prg: c.prg, chr: spec_u16_at(value, 0) }
    } else {
        c
    }
}

/// The dump engine's mutable state: the configuration the next dump uses.
/// The engine owns it exclusively; the only external mutator is a sequence
/// of per-field change messages.
pub struct DumpEngine {
    pub config: DumperConfig,
}

impl DumpEngine {
    /// A new engine with the power-on configuration.
    pub fn new() -> (r: Self)
        ensures
            r.config == (DumperConfig { mapper: 1u8, prgsize: 3u8, chrsize: 0u8, prg: 128u16, chr: 0u16 }),
    {
        DumpEngine { config: DumperConfig::default() }
    }

    /// Applies one configuration change message.
    pub fn apply_config_change(
        &mut self,
        field: &[u8; DUMP_SETUP_DATA_CHANGED_LENGTH],
        value: &[u8; DUMP_SETUP_DATA_CHANGED_LENGTH],
    )
        ensures
            final(self).config == spec_apply_config_change(old(self).config, field@, value@),
    {
        let f: &[u8] = field.as_slice();
        if crate::wire::bytes_eq(f, padded16(field_mapper().as_slice()).as_slice()) {
            self.config.mapper = value[0];
        } else if crate::wire::bytes_eq(f, padded16(field_prgsize().as_slice()).as_slice()) {
            self.config.prgsize = value[0];
        } else if crate::wire::bytes_eq(f, padded16(field_chrsize().as_slice()).as_slice()) {
            self.config.chrsize = value[0];
        } else if crate::wire::bytes_eq(f, padded16(field_prg().as_slice()).as_slice()) {
            self.config.prg = crate::wire::read_u16_at(value.as_slice(), 0);
        } else if crate::wire::bytes_eq(f, padded16(field_chr().as_slice()).as_slice()) {
            self.config.chr = crate::wire::read_u16_at(value.as_slice(), 0);
        }
    }
}

fn value_u8(x: u8) -> (r: [u8; DUMP_SETUP_DATA_CHANGED_LENGTH])
    ensures
        r@ == spec_value_u8(x),
{
    let mut a = [0u8; DUMP_SETUP_DATA_CHANGED_LENGTH];
    a[0] = x;
    assert(a@ =~= spec_value_u8(x));
    a
}

fn value_u16(x: u16) -> (r: [u8; DUMP_SETUP_DATA_CHANGED_LENGTH])
    ensures
        r@ == spec_value_u16(x),
{
    let mut a = [0u8; DUMP_SETUP_DATA_CHANGED_LENGTH];
    a[0] = (x & 0xFF) as u8;
    a[1] = ((x >> 8) & 0xFF) as u8;
    assert(a@ =~= spec_value_u16(x));
    a
}

/// The five change messages that push a whole configuration to the dump
/// engine: one message per field, in declaration order, each carrying the
/// field's identifier and its raw value bytes.
pub fn config_change_messages(c: &DumperConfig) -> (r: Vec<Msg>)
    ensures
        r@.len() == 5,
        (r@[0] matches Msg::DumpSetupDataChanged { field, value } && field@ == spec_padded16(
            spec_field_mapper(),
        ) && value@ == spec_value_u8(c.mapper)),
        (r@[1] matches Msg::DumpSetupDataChanged { field, value } && field@ == spec_padded16(
            spec_field_prgsize(),
        ) && value@ == spec_value_u8(c.prgsize)),
        (r@[2] matches Msg::DumpSetupDataChanged { field, value } && field@ == spec_padded16(
            spec_field_chrsize(),
        ) && value@ == spec_value_u8(c.chrsize)),
        (r@[3] matches Msg::DumpSetupDataChanged { field, value } && field@ == spec_padded16(
            spec_field_prg(),
        ) && value@ == spec_value_u16(c.prg)),
        (r@[4] matches Msg::DumpSetupDataChanged { field, value } && field@ == spec_padded16(
            spec_field_chr(),
        ) && value@ == spec_value_u16(c.chr)),
{
    let mut msgs: Vec<Msg> = Vec::new();
    msgs.push(
        Msg::DumpSetupDataChanged {
            field: padded16(field_mapper().as_slice()),
            value: value_u8(c.mapper),
        },
    );
    msgs.push(
        Msg::DumpSetupDataChanged {
            field: padded16(field_prgsize().as_slice()),
            value: value_u8(c.prgsize),
        },
    );
    msgs.push(
        Msg::DumpSetupDataChanged {
            field: padded16(field_chrsize().as_slice()),
            value: value_u8(c.chrsize),
        },
    );
    msgs.push(
        Msg::DumpSetupDataChanged {
            field: padded16(field_prg().as_slice()),
            value: value_u16(c.prg),
        },
    );
    msgs.push(
        Msg::DumpSetupDataChanged {
            field: padded16(field_chr().as_slice()),
            value: value_u16(c.chr),
        },
    );
    msgs
}

/// Pushing a whole configuration as its five change messages, applied in
/// order to any starting configuration, yields exactly that configuration:
/// each message is decodable back to the field value it carries.
pub proof fn lemma_config_push_roundtrip(start: DumperConfig, c: DumperConfig)
    ensures
        spec_apply_config_change(
            spec_apply_config_change(
                spec_apply_config_change(
                    spec_apply_config_change(
                        spec_apply_config_change(
                            start,
                            spec_padded16(spec_field_mapper()),
                            spec_value_u8(c.mapper),
                        ),
                        spec_padded16(spec_field_prgsize()),
                        spec_value_u8(c.prgsize),
                    ),
                    spec_padded16(spec_field_chrsize()),
                    spec_value_u8(c.chrsize),
                ),
                spec_padded16(spec_field_prg()),
                spec_value_u16(c.prg),
            ),
            spec_padded16(spec_field_chr()),
            spec_value_u16(c.chr),
        ) == c,
{
    lemma_field_names_distinct();
    crate::wire::lemma_le16_roundtrip(c.prg);
    crate::wire::lemma_le16_roundtrip(c.chr);
    assert(spec_u16_at(spec_value_u16(c.prg), 0) == c.prg);
    assert(spec_u16_at(spec_value_u16(c.chr), 0) == c.chr);
}

/// The five padded field identifiers are pairwise distinct.
proof fn lemma_field_names_distinct()
    ensures
        spec_padded16(spec_field_mapper()) != spec_padded16(spec_field_prgsize()),
        spec_padded16(spec_field_mapper()) != spec_padded16(spec_field_chrsize()),
        spec_padded16(spec_field_mapper()) != spec_padded16(spec_field_prg()),
        spec_padded16(spec_field_mapper()) != spec_padded16(spec_field_chr()),
        spec_padded16(spec_field_prgsize()) != spec_padded16(spec_field_chrsize()),
        spec_padded16(spec_field_prgsize()) != spec_padded16(spec_field_prg()),
        spec_padded16(spec_field_prgsize()) != spec_padded16(spec_field_chr()),
        spec_padded16(spec_field_chrsize()) != spec_padded16(spec_field_prg()),
        spec_padded16(spec_field_chrsize()) != spec_padded16(spec_field_chr()),
        spec_padded16(spec_field_prg()) != spec_padded16(spec_field_chr()),
{
    assert(spec_padded16(spec_field_mapper())[0] == 0x6Du8);
    assert(spec_padded16(spec_field_prgsize())[0] == 0x70u8);
    assert(spec_padded16(spec_field_chrsize())[0] == 0x63u8);
    assert(spec_padded16(spec_field_prg())[0] == 0x70u8);
    assert(spec_padded16(spec_field_chr())[0] == 0x63u8);
    assert(spec_padded16(spec_field_prgsize())[3] == 0x73u8);
    assert(spec_padded16(spec_field_prg())[3] == 0u8);
    assert(spec_padded16(spec_field_chrsize())[3] == 0x73u8);
    assert(spec_padded16(spec_field_chr())[3] == 0u8);
}

/// The one fatal dump-engine condition: a bank-switched read would need more
/// banks than the bank-select register can address.
#[derive(PartialEq, Eq, Structural, Clone, Copy, Debug)]
pub enum DumpError {
    BankOverflow,
}

/// One mapper register write. When `race_safe` holds, the write must use the
/// register-write path whose clock/select edges are driven back to back (the
/// documented hardware race: a slow gap corrupts the work-RAM region).
#[derive(PartialEq, Eq, Structural, Clone, Copy, Debug)]
pub struct RegWrite {
    pub address: u16,
    pub data: u8,
    pub race_safe: bool,
}

/// One bank of a dump: the register writes that select it, then the window
/// `[from, to)` read at `base + offset`, in address order, in 32-byte chunks.
#[derive(Debug)]
pub struct BankDump {
    pub setup: Vec<RegWrite>,
    pub from: u16,
    pub to: u16,
    pub base: u16,
}

/// A whole PRG read: writes performed once up front, the banks in order, and
/// whether the bus is restored to idle afterwards.
#[derive(Debug)]
pub struct PrgPlan {
    pub pre: Vec<RegWrite>,
    pub banks: Vec<BankDump>,
    pub finalize: bool,
}

/// A whole CHR read: writes performed once up front, then the banks in order.
#[derive(Debug)]
pub struct ChrPlan {
    pub pre: Vec<RegWrite>,
    pub banks: Vec<BankDump>,
}

/// The five writes of the bit-serial bank-select protocol: each write hands
/// the register one more bit of `data`, lowest first. Writes to the upper
/// register range must take the race-safe path.
pub open spec fn spec_mmc1_writes(address: u16, data: u8) -> Seq<RegWrite> {
    Seq::new(
        5,
        |i: int|
            RegWrite {
                address,
                data: data >> (i as u8),
                race_safe: address >= 0xE000,
            },
    )
}

/// Builds the five bit-serial writes that load `data` into the mapper-1
/// register at `address`.
pub fn mmc1_write_ops(address: u16, data: u8) -> (r: Vec<RegWrite>)
    ensures
        r@ == spec_mmc1_writes(address, data),
{
    let mut ops: Vec<RegWrite> = Vec::new();
    let race_safe = address >= 0xE000;
    let mut i: u8 = 0;
    while i < 5
        invariant
            i <= 5,
            ops@.len() == i,
            race_safe == (address >= 0xE000),
            forall|j: int|
                #![trigger ops@[j]]
                0 <= j < i ==> ops@[j] == (RegWrite {
                    address,
                    data: data >> (j as u8),
                    race_safe: address >= 0xE000,
                }),
        decreases 5 - i,
    {
        ops.push(RegWrite { address, data: data >> i, race_safe });
        assert(ops@[i as int] == (RegWrite {
            address,
            data: data >> ((i as int) as u8),
            race_safe: address >= 0xE000,
        }));
        i = i + 1;
    }
    assert(ops@ =~= spec_mmc1_writes(address, data));
    ops
}

/// The register writes that select PRG bank `i` of a mapper-1 cartridge: a
/// control-register reset, a fixed mode value, a second mode write for large
/// images, an extended-bank bit past bank 15, then the bank number itself.
pub open spec fn spec_mapper1_bank_setup(size: u8, i: u8) -> Seq<RegWrite> {
    seq![RegWrite { address: 0x8000, data: 0x80, race_safe: false }]
        + spec_mmc1_writes(0x8000, 0x0C) + (if size > 4 {
        spec_mmc1_writes(0xA000, 0x0C)
    } else {
        Seq::empty()
    }) + (if i > 15 {
        spec_mmc1_writes(0xA000, 0x10)
    } else {
        Seq::empty()
    }) + spec_mmc1_writes(0xE000, i)
}

fn mapper1_bank_setup(size: u8, i: u8) -> (r: Vec<RegWrite>)
    ensures
        r@ == spec_mapper1_bank_setup(size, i),
{
    let mut setup: Vec<RegWrite> = Vec::new();
    setup.push(RegWrite { address: 0x8000, data: 0x80, race_safe: false });
    let mut ops = mmc1_write_ops(0x8000, 0x0C);
    setup.append(&mut ops);
    if size > 4 {
        let mut ops2 = mmc1_write_ops(0xA000, 0x0C);
        setup.append(&mut ops2);
    }
    if i > 15 {
        let mut ops3 = mmc1_write_ops(0xA000, 0x10);
        setup.append(&mut ops3);
    }
    let mut ops4 = mmc1_write_ops(0xE000, i);
    setup.append(&mut ops4);
    assert(setup@ =~= spec_mapper1_bank_setup(size, i));
    setup
}

/// The PRG read sequence for a cartridge of the first console family.
///
/// Mapper 0 reads one contiguous window of 16 KB x 2^size. Mapper 1 reads the
/// whole 32 KB window after one reset when the exponent is 1, and otherwise
/// selects each of its 2^size banks through the bit-serial protocol and reads
/// a 16 KB window per bank. Mapper 4 enables its PRG-RAM control bit once and
/// reads 2 x 2^size banks of 8 KB; more than 256 banks is the fatal
/// bank-overflow condition. Any other mapper reads nothing and skips the
/// idle-restore step.
///
/// The bounds required of `size` keep every window and shift inside the
/// 16-bit address space.
pub fn prg_plan(mapper: u8, size: u8) -> (r: Result<PrgPlan, DumpError>)
    requires
        mapper == 0 ==> size <= 1,
        mapper == 1 ==> size <= 7,
    ensures
        mapper == 4 && size > 7 <==> (r matches Err(e) && e == DumpError::BankOverflow),
        (r matches Ok(p) ==> p.finalize == (mapper == 0 || mapper == 1 || mapper == 4)),
        mapper == 0 ==> (r matches Ok(p) && p.pre@.len() == 0 && p.banks@.len() == 1
            && p.banks@[0].setup@.len() == 0 && p.banks@[0].from == 0 && p.banks@[0].to == (
        0x4000u16 << size) && p.banks@[0].base == 0x8000),
        mapper == 1 && size == 1 ==> (r matches Ok(p) && p.pre@.len() == 0 && p.banks@.len() == 1
            && p.banks@[0].setup@ == seq![
            RegWrite { address: 0x8000u16, data: 0x80u8, race_safe: false },
        ] && p.banks@[0].from == 0 && p.banks@[0].to == 0x8000 && p.banks@[0].base == 0x8000),
        mapper == 1 && size != 1 ==> (r matches Ok(p) && p.pre@.len() == 0 && p.banks@.len() == (
        1u16 << size) && (forall|i: int|
            0 <= i < p.banks@.len() ==> p.banks@[i].setup@ == spec_mapper1_bank_setup(size, i as u8)
                && p.banks@[i].from == 0 && p.banks@[i].to == 0x4000 && p.banks@[i].base
                == 0x8000)),
        mapper == 4 && size <= 7 ==> (r matches Ok(p) && p.pre@ == seq![
            RegWrite { address: 0xA001u16, data: 0x80u8, race_safe: false },
        ] && p.banks@.len() == (2u16 << size) && (forall|i: int|
            0 <= i < p.banks@.len() ==> p.banks@[i].setup@ == seq![
                RegWrite { address: 0x8000u16, data: 0x06u8, race_safe: false },
                RegWrite { address: 0x8001u16, data: (i as u8), race_safe: false },
            ] && p.banks@[i].from == 0 && p.banks@[i].to == 0x2000 && p.banks@[i].base == 0x8000)),
        !(mapper == 0 || mapper == 1 || mapper == 4) ==> (r matches Ok(p) && p.pre@.len() == 0
            && p.banks@.len() == 0),
{
    let mut pre: Vec<RegWrite> = Vec::new();
    let mut banks: Vec<BankDump> = Vec::new();
    if mapper == 0 {
        banks.push(BankDump { setup: Vec::new(), from: 0, to: 0x4000u16 << size, base: 0x8000 });
        Ok(PrgPlan { pre, banks, finalize: true })
    } else if mapper == 1 {
        if size == 1 {
            let mut setup: Vec<RegWrite> = Vec::new();
            setup.push(RegWrite { address: 0x8000, data: 0x80, race_safe: false });
            assert(setup@ =~= seq![
                RegWrite { address: 0x8000u16, data: 0x80u8, race_safe: false },
            ]);
            banks.push(BankDump { setup, from: 0, to: 0x8000, base: 0x8000 });
            Ok(PrgPlan { pre, banks, finalize: true })
        } else {
            let n: u16 = 1u16 << size;
            proof {
                assert(size <= 7 ==> (1u16 << size) <= 128) by (bit_vector);
            }
            let mut i: u16 = 0;
            while i < n
                invariant
                    size <= 7,
                    n == (1u16 << size),
                    n <= 128,
                    i <= n,
                    banks@.len() == i,
                    forall|j: int| 0 <= j < i ==> banks@[j].setup@ == spec_mapper1_bank_setup(
                        size,
                        j as u8,
                    ) && banks@[j].from == 0 && banks@[j].to == 0x4000 && banks@[j].base == 0x8000,
                decreases n - i,
            {
                proof {
                    assert(1u16 << size <= 128 ==> i < 128) by (bit_vector)
                        requires size <= 7 && i < (1u16 << size);
                }
                let setup = mapper1_bank_setup(size, i as u8);
                banks.push(BankDump { setup, from: 0, to: 0x4000, base: 0x8000 });
                i = i + 1;
            }
            Ok(PrgPlan { pre, banks, finalize: true })
        }
    } else if mapper == 4 {
        if size > 7 {
            return Err(DumpError::BankOverflow);
        }
        pre.push(RegWrite { address: 0xA001, data: 0x80, race_safe: false });
        assert(pre@ =~= seq![RegWrite { address: 0xA001u16, data: 0x80u8, race_safe: false }]);
        let n: u16 = 2u16 << size;
        proof {
            assert(size <= 7 ==> (2u16 << size) <= 256) by (bit_vector);
        }
        let mut i: u16 = 0;
        while i < n
            invariant
                n == (2u16 << size),
                n <= 256,
                i <= n,
                banks@.len() == i,
                forall|j: int| 0 <= j < i ==> banks@[j].setup@ == seq![
                    RegWrite { address: 0x8000u16, data: 0x06u8, race_safe: false },
                    RegWrite { address: 0x8001u16, data: (j as u8), race_safe: false },
                ] && banks@[j].from == 0 && banks@[j].to == 0x2000 && banks@[j].base == 0x8000,
            decreases n - i,
        {
            let mut setup: Vec<RegWrite> = Vec::new();
            setup.push(RegWrite { address: 0x8000, data: 0x06, race_safe: false });
            setup.push(RegWrite { address: 0x8001, data: (i & 0xFF) as u8, race_safe: false });
            proof {
                assert(i < 256 ==> (i & 0xFF) == i) by (bit_vector);
                assert(setup@ =~= seq![
                    RegWrite { address: 0x8000u16, data: 0x06u8, race_safe: false },
                    RegWrite { address: 0x8001u16, data: (i as u8), race_safe: false },
                ]);
            }
            banks.push(BankDump { setup, from: 0, to: 0x2000, base: 0x8000 });
            i = i + 1;
        }
        Ok(PrgPlan { pre, banks, finalize: true })
    } else {
        Ok(PrgPlan { pre, banks, finalize: false })
    }
}

/// The CHR read sequence for a cartridge of the first console family.
///
/// Mapper 0 reads one contiguous 8 KB window with the CHR strobe. Mapper 4
/// enables its control bit once and reads 4 x 2^size banks of 1 KB at the
/// fixed CHR window, selecting each through its two-register pair; more than
/// 256 banks is the fatal bank-overflow condition. Other mappers read
/// nothing.
pub fn chr_plan(mapper: u8, size: u8) -> (r: Result<ChrPlan, DumpError>)
    ensures
        mapper == 4 && size > 6 <==> (r matches Err(e) && e == DumpError::BankOverflow),
        mapper == 0 ==> (r matches Ok(p) && p.pre@.len() == 0 && p.banks@.len() == 1
            && p.banks@[0].setup@.len() == 0 && p.banks@[0].from == 0 && p.banks@[0].to == 0x2000
            && p.banks@[0].base == 0),
        mapper == 4 && size <= 6 ==> (r matches Ok(p) && p.pre@ == seq![
            RegWrite { address: 0xA001u16, data: 0x80u8, race_safe: false },
        ] && p.banks@.len() == (4u16 << size) && (forall|i: int|
            0 <= i < p.banks@.len() ==> p.banks@[i].setup@ == seq![
                RegWrite { address: 0x8000u16, data: 0x02u8, race_safe: false },
                RegWrite { address: 0x8001u16, data: (i as u8), race_safe: false },
            ] && p.banks@[i].from == 0x1000 && p.banks@[i].to == 0x1400 && p.banks@[i].base == 0)),
        !(mapper == 0 || mapper == 4) ==> (r matches Ok(p) && p.pre@.len() == 0 && p.banks@.len()
            == 0),
{
    let mut pre: Vec<RegWrite> = Vec::new();
    let mut banks: Vec<BankDump> = Vec::new();
    if mapper == 0 {
        banks.push(BankDump { setup: Vec::new(), from: 0, to: 0x2000, base: 0 });
        Ok(ChrPlan { pre, banks })
    } else if mapper == 4 {
        if size > 6 {
            return Err(DumpError::BankOverflow);
        }
        pre.push(RegWrite { address: 0xA001, data: 0x80, race_safe: false });
        assert(pre@ =~= seq![RegWrite { address: 0xA001u16, data: 0x80u8, race_safe: false }]);
        let n: u16 = 4u16 << size;
        proof {
            assert(size <= 6 ==> (4u16 << size) <= 256) by (bit_vector);
        }
        let mut i: u16 = 0;
        while i < n
            invariant
                n == (4u16 << size),
                n <= 256,
                i <= n,
                banks@.len() == i,
                forall|j: int| 0 <= j < i ==> banks@[j].setup@ == seq![
                    RegWrite { address: 0x8000u16, data: 0x02u8, race_safe: false },
                    RegWrite { address: 0x8001u16, data: (j as u8), race_safe: false },
                ] && banks@[j].from == 0x1000 && banks@[j].to == 0x1400 && banks@[j].base == 0,
            decreases n - i,
        {
            let mut setup: Vec<RegWrite> = Vec::new();
            setup.push(RegWrite { address: 0x8000, data: 0x02, race_safe: false });
            setup.push(RegWrite { address: 0x8001, data: (i & 0xFF) as u8, race_safe: false });
            proof {
                assert(i < 256 ==> (i & 0xFF) == i) by (bit_vector);
                assert(setup@ =~= seq![
                    RegWrite { address: 0x8000u16, data: 0x02u8, race_safe: false },
                    RegWrite { address: 0x8001u16, data: (i as u8), race_safe: false },
                ]);
            }
            banks.push(BankDump { setup, from: 0x1000, to: 0x1400, base: 0 });
            i = i + 1;
        }
        Ok(ChrPlan { pre, banks })
    } else {
        Ok(ChrPlan { pre, banks })
    }
}

/// The chunk start offsets of a window `[from, to)` walked in steps of the
/// data-chunk size: `from`, `from + 32`, ... below `to`.
pub fn chunk_starts(from: u16, to: u16) -> (r: Vec<u16>)
    requires
        from <= to,
    ensures
        r@.len() == ((to - from) + 31) / 32,
        forall|i: int| 0 <= i < r@.len() ==> r@[i] == from + 32 * i,
{
    let mut starts: Vec<u16> = Vec::new();
    let mut a: u32 = from as u32;
    while a < to as u32
        invariant
            from <= to,
            a == from + 32 * starts@.len(),
            a <= to + 31,
            forall|i: int| 0 <= i < starts@.len() ==> starts@[i] == from + 32 * i,
        decreases to + 32 - a,
    {
        proof {
            assert(a < 0x10000 ==> ((a & 0xFFFF) == a)) by (bit_vector);
        }
        starts.push(#[verifier::truncate] ((a & 0xFFFF) as u16));
        a = a + 32;
    }
    starts
}

/// Classifies a cartridge of the second console family from the type byte of
/// its header: the two exact signature values first, then any byte whose top
/// three bits are not `0b001` is the LoROM type, and otherwise the type is
/// the byte's lowest bit.
pub fn snes_rom_type(v: u8) -> (r: u8)
    ensures
        v == 0x35 ==> r == 4,
        v != 0x35 && v == 0x3A ==> r == 1,
        v != 0x35 && v != 0x3A && (v >> 5) != 1 ==> r == 0,
        v != 0x35 && v != 0x3A && (v >> 5) == 1 ==> r == (v & 1),
{
    if v == 0x35 {
        4
    } else if v == 0x3A {
        1
    } else if (v >> 5) != 1 {
        0
    } else {
        v & 1
    }
}

/// The bank count derived from the header's size-exponent byte: the image
/// holds 2^(byte - 7) megabits, and a bank is 32 KB scaled by the type code
/// plus one. The count is reported in one byte, so larger quotients wrap.
pub open spec fn spec_snes_bank_count(rom_type: u8, size_byte: u8) -> u8 {
    ((((1u64 << ((size_byte - 7) as u64)) * 0x20000) as u64 / (0x8000u64 * (1 + rom_type as u64))
        as u64) % 256) as u8
}

/// Computes the bank count from the header's size-exponent byte.
///
/// The bounds on `size_byte` keep the intermediate byte count inside the
/// machine word; bytes below 7 would make the exponent negative.
pub fn snes_bank_count(rom_type: u8, size_byte: u8) -> (r: u8)
    requires
        7 <= size_byte <= 38,
    ensures
        r == spec_snes_bank_count(rom_type, size_byte),
{
    let exp: u64 = (size_byte - 7) as u64;
    let mbit: u64 = 1u64 << exp;
    proof {
        assert(exp <= 31 ==> (1u64 << exp) <= 0x80000000) by (bit_vector);
    }
    let total_bytes: u64 = mbit * 0x20000;
    let bank_bytes: u64 = 0x8000u64 * (1 + rom_type as u64);
    let count: u64 = total_bytes / bank_bytes;
    proof {
        assert((count & 0xFF) == count % 256) by (bit_vector);
    }
    (count & 0xFF) as u8
}

/// Total image size in bytes announced for a dump of the second console
/// family: half a bank window per LoROM bank, a full window per HiROM bank,
/// and zero for any other type, which is not sized.
pub fn snes_rom_size(rom_type: u8, num_banks: u8) -> (r: u32)
    ensures
        rom_type == 0 ==> r == 0x8000 * num_banks,
        rom_type == 1 ==> r == 0x10000 * num_banks,
        rom_type != 0 && rom_type != 1 ==> r == 0,
{
    if rom_type == 0 {
        0x8000u32 * num_banks as u32
    } else if rom_type == 1 {
        0x10000u32 * num_banks as u32
    } else {
        0
    }
}

/// Which banks a dump of the second console family reads, and the inclusive
/// address window scanned inside each bank.
pub struct SnesReadPlan {
    /// Whether anything is read at all.
    pub read: bool,
    pub first_bank: u8,
    pub bank_count: u8,
    pub window_from: u16,
    pub window_to: u16,
}

/// The read plan for a detected cartridge: the LoROM type reads banks
/// 0..count over the upper half of the address space; the HiROM type reads
/// banks 192..192+count over the full address space; other types read
/// nothing.
///
/// The bank numbers are reported in one byte, which bounds a HiROM count.
pub fn snes_read_plan(rom_type: u8, num_banks: u8) -> (r: SnesReadPlan)
    requires
        rom_type == 1 ==> num_banks <= 63,
    ensures
        rom_type == 0 ==> r.read && r.first_bank == 0 && r.bank_count == num_banks
            && r.window_from == 0x8000 && r.window_to == 0xFFFF,
        rom_type == 1 ==> r.read && r.first_bank == 192 && r.bank_count == num_banks
            && r.window_from == 0 && r.window_to == 0xFFFF,
        rom_type != 0 && rom_type != 1 ==> !r.read,
{
    if rom_type == 0 {
        SnesReadPlan {
            read: true,
            first_bank: 0,
            bank_count: num_banks,
            window_from: 0x8000,
            window_to: 0xFFFF,
        }
    } else if rom_type == 1 {
        SnesReadPlan {
            read: true,
            first_bank: 192,
            bank_count: num_banks,
            window_from: 0,
            window_to: 0xFFFF,
        }
    } else {
        SnesReadPlan {
            read: false,
            first_bank: 0,
            bank_count: 0,
            window_from: 0,
            window_to: 0,
        }
    }
}

/// The chunks of an inclusive window `[from, to]` walked in steps of the
/// data-chunk size: each entry is a chunk's start and its length, the last
/// chunk clipped at the window's end.
pub fn chunk_ranges_inclusive(from: u16, to: u16) -> (r: Vec<(u16, u16)>)
    requires
        from <= to,
    ensures
        r@.len() == ((to - from) / 32) + 1,
        forall|i: int|
            #![trigger r@[i]]
            0 <= i < r@.len() ==> r@[i].0 == from + 32 * i && (r@[i].1 == if from + 32 * i + 32
                <= to + 1 {
                32int
            } else {
                to + 1 - (from + 32 * i)
            }),
{
    let mut chunks: Vec<(u16, u16)> = Vec::new();
    let mut a: u32 = from as u32;
    while a <= to as u32
        invariant
            from <= to,
            a == from + 32 * chunks@.len(),
            a <= to + 32,
            forall|i: int|
                #![trigger chunks@[i]]
                0 <= i < chunks@.len() ==> chunks@[i].0 == from + 32 * i && (chunks@[i].1 == if from
                    + 32 * i + 32 <= to + 1 {
                    32int
                } else {
                    to + 1 - (from + 32 * i)
                }),
        decreases to + 32 - a,
    {
        let len: u32 = if a + 31 <= to as u32 {
            32
        } else {
            to as u32 - a + 1
        };
        proof {
            assert(a < 0x10000 ==> ((a & 0xFFFF) == a)) by (bit_vector);
            assert(len < 0x10000 ==> ((len & 0xFFFF) == len)) by (bit_vector);
        }
        chunks.push(
            (
                #[verifier::truncate] ((a & 0xFFFF) as u16),
                #[verifier::truncate] ((len & 0xFFFF) as u16),
            ),
        );
        a = a + 32;
    }
    chunks
}

/// The byte sampled off the second console family's bus: the first two data
/// lines give the two lowest bits, the address-mirroring line gives the third
/// bit, and the remaining data lines are shifted up by one position.
pub open spec fn spec_snes_data_from_levels(l: Seq<bool>, mirror: bool) -> u8 {
    (spec_bit_val(l[0]) | (spec_bit_val(l[1]) << 1) | (spec_bit_val(mirror) << 2) | (spec_bit_val(
        l[2],
    ) << 3) | (spec_bit_val(l[3]) << 4) | (spec_bit_val(l[4]) << 5) | (spec_bit_val(l[5]) << 6) | (
    spec_bit_val(l[6]) << 7)) as u8
}

/// Assembles the byte sampled off the seven data lines and the
/// address-mirroring line.
pub fn snes_data_from_levels(levels: &[bool; 7], mirror: bool) -> (r: u8)
    ensures
        r == spec_snes_data_from_levels(levels@, mirror),
{
    let mut data: u8 = bit_val(levels[0]);
    data = data | (bit_val(levels[1]) << 1);
    data = data | (bit_val(mirror) << 2);
    data = data | (bit_val(levels[2]) << 3);
    data = data | (bit_val(levels[3]) << 4);
    data = data | (bit_val(levels[4]) << 5);
    data = data | (bit_val(levels[5]) << 6);
    data = data | (bit_val(levels[6]) << 7);
    data
}

/// The levels of the sixteen lines repurposed as the scan address of the
/// second console family, in this order: clock, ROM-select, CHR write
/// strobe, CIRAM select, the extra high address line, CHR read strobe, IRQ,
/// the read/write strobe, then the eight data lines. Line `i` carries bit
/// `i` of the address.
pub fn snes_scan_levels(address: u16) -> (r: [bool; 16])
    ensures
        forall|i: int| 0 <= i < 16 ==> r@[i] == spec_addr_bit(address, i as u16),
{
    let mut levels = [false; 16];
    let mut i: usize = 0;
    while i < 16
        invariant
            i <= 16,
            forall|j: int| 0 <= j < i ==> levels@[j] == spec_addr_bit(address, j as u16),
        decreases 16 - i,
    {
        levels[i] = (address & (1u16 << (i as u16))) > 0;
        i = i + 1;
    }
    levels
}

/// Driving a byte onto the data lines and reading it back yields the byte.
pub proof fn lemma_data_lines_roundtrip(d: u8)
    ensures
        spec_data_from_levels(Seq::new(8, |i: int| spec_data_bit(d, i as u8))) == d,
{
    let l = Seq::new(8, |i: int| spec_data_bit(d, i as u8));
    assert((spec_bit_val((d & (1u8 << 0)) > 0) | (spec_bit_val((d & (1u8 << 1)) > 0) << 1) | (
    spec_bit_val((d & (1u8 << 2)) > 0) << 2) | (spec_bit_val((d & (1u8 << 3)) > 0) << 3) | (
    spec_bit_val((d & (1u8 << 4)) > 0) << 4) | (spec_bit_val((d & (1u8 << 5)) > 0) << 5) | (
    spec_bit_val((d & (1u8 << 6)) > 0) << 6) | (spec_bit_val((d & (1u8 << 7)) > 0) << 7)) as u8
        == d) by (bit_vector);
}

} // verus!
