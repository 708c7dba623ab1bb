//! The virtual-filesystem protocol engine: request-container parsing, the
//! fixed virtual object table with its one live configuration object, the
//! response generators, and the packet framing of data-in transfers.
//!
//! The packet transport itself (endpoint reads and writes) is I/O and lives
//! outside the crate; every byte the engine emits or accepts is decided here.

use vstd::prelude::*;

use crate::dumper::MsgStartConsole;
use crate::wire::{
    spec_le16, spec_le32, spec_le64, spec_ptp_string, spec_u16_at, spec_u32_at,
    spec_utf16le_ascii, write_u16, write_u32, write_u64, write_buffer, write_string,
};

verus! {

/// One parsed request container: operation code, transaction id and the
/// payload bytes that follow the 12-byte header.
#[derive(Debug, PartialEq, Eq)]
pub struct PtpCommand {
    pub op_code: u16,
    pub transaction_id: u32,
    pub payload: Vec<u8>,
}

/// Errors returned by [`MtpEngine::parse_mtp_command`].
#[derive(Copy, Clone, Eq, PartialEq, Structural, Debug)]
pub enum MtpError {
    CannotParseHeader,
    WrongPacketType,
}

/// The typed status codes a response block can carry.
#[derive(Copy, Clone, Eq, PartialEq, Structural, Debug)]
pub enum MtpCommandError {
    Okay,
    OperationNotSupported,
    InvalidObjectFormatCode,
    StoreNotAvailable,
    InvalidParentObject,
    ObjectTooLarge,
}

impl MtpCommandError {
    /// The numeric response code, fixed for host compatibility.
    pub open spec fn spec_code(&self) -> u16 {
        match self {
            MtpCommandError::Okay => 0x2001,
            MtpCommandError::OperationNotSupported => 0x2005,
            MtpCommandError::InvalidObjectFormatCode => 0x200B,
            MtpCommandError::StoreNotAvailable => 0x2013,
            MtpCommandError::InvalidParentObject => 0x201A,
            MtpCommandError::ObjectTooLarge => 0xA809,
        }
    }

    /// The numeric response code, fixed for host compatibility.
    pub fn code(&self) -> (r: u16)
        ensures
            r == self.spec_code(),
    {
        match self {
            MtpCommandError::Okay => 0x2001,
            MtpCommandError::OperationNotSupported => 0x2005,
            MtpCommandError::InvalidObjectFormatCode => 0x200B,
            MtpCommandError::StoreNotAvailable => 0x2013,
            MtpCommandError::InvalidParentObject => 0x201A,
            MtpCommandError::ObjectTooLarge => 0xA809,
        }
    }
}

/// The container phases of the protocol.
#[derive(Copy, Clone, Eq, PartialEq, Structural, Debug)]
pub enum MtpContainerType {
    Command,
    Data,
    Response,
}

impl MtpContainerType {
    /// The numeric tag of the phase.
    pub open spec fn spec_code(&self) -> u16 {
        match self {
            MtpContainerType::Command => 1,
            MtpContainerType::Data => 2,
            MtpContainerType::Response => 3,
        }
    }

    /// The numeric tag of the phase.
    pub fn code(&self) -> (r: u16)
        ensures
            r == self.spec_code(),
    {
        match self {
            MtpContainerType::Command => 1,
            MtpContainerType::Data => 2,
            MtpContainerType::Response => 3,
        }
    }
}

/// A whole container: the 12-byte header — length, container-type tag,
/// operation or response code, transaction id, all little-endian — followed
/// by the payload.
pub open spec fn spec_container(ctype: u16, code: u16, tid: u32, payload: Seq<u8>) -> Seq<u8> {
    spec_le32((12 + payload.len()) as u32) + spec_le16(ctype) + spec_le16(code) + spec_le32(tid)
        + payload
}

/// Builds one container around `payload`.
pub fn make_container(ctype: u16, code: u16, tid: u32, payload: &Vec<u8>) -> (r: Vec<u8>)
    requires
        payload@.len() + 12 <= u32::MAX,
    ensures
        r@ == spec_container(ctype, code, tid, payload@),
{
    let mut buf: Vec<u8> = Vec::new();
    write_u32(&mut buf, 12 + payload.len() as u32);
    write_u16(&mut buf, ctype);
    write_u16(&mut buf, code);
    write_u32(&mut buf, tid);
    write_buffer(&mut buf, payload.as_slice());
    assert(buf@ =~= spec_container(ctype, code, tid, payload@));
    buf
}

/// Capacity of the configuration-file buffer, in bytes.
pub const CONFIGURATION_FILE_CAPACITY: usize = 1024;

/// The protocol engine's mutable state: the configuration file's content and
/// size, and its soft-delete flag.
pub struct MtpEngine {
    /// Backing buffer of the configuration file; always full capacity long.
    pub configuration_file: Vec<u8>,
    /// How many leading bytes of the buffer are the file's content.
    pub configuration_file_size: usize,
    /// Set by a delete request; the handle then disappears from listings but
    /// stays resolvable.
    pub configuration_file_deleted: bool,
}

impl MtpEngine {
    /// The engine's structural invariant.
    pub open spec fn wf(&self) -> bool {
        &&& self.configuration_file@.len() == CONFIGURATION_FILE_CAPACITY
        &&& self.configuration_file_size <= CONFIGURATION_FILE_CAPACITY
    }

    /// The configuration file's current content.
    pub open spec fn spec_configuration_content(&self) -> Seq<u8> {
        self.configuration_file@.take(self.configuration_file_size as int)
    }

    /// A new engine whose configuration file holds `initial_content`.
    pub fn new(initial_content: &[u8]) -> (r: Self)
        requires
            initial_content@.len() <= CONFIGURATION_FILE_CAPACITY,
        ensures
            r.wf(),
            r.spec_configuration_content() == initial_content@,
            r.configuration_file_size == initial_content@.len(),
            !r.configuration_file_deleted,
    {
        let mut file: Vec<u8> = Vec::new();
        let n = initial_content.len();
        write_buffer(&mut file, initial_content);
        let mut i: usize = n;
        while i < CONFIGURATION_FILE_CAPACITY
        invariant
            n <= i <= CONFIGURATION_FILE_CAPACITY,
            file@.len() == i,
            file@.take(n as int) == initial_content@,
        decreases CONFIGURATION_FILE_CAPACITY - i,
        {
            file.push(0);
            assert(file@.take(n as int) =~= initial_content@);
            i = i + 1;
        }
        let r = MtpEngine {
            configuration_file: file,
            configuration_file_size: n,
            configuration_file_deleted: false,
        };
        assert(r.spec_configuration_content() =~= initial_content@);
        r
    }

    /// Parses a request container against the expected phase: a declared
    /// length below the header's 12 bytes or past the end of the buffer
    /// cannot be parsed; the container-type tag must match the phase; the
    /// payload is the declared range past the header.
    pub fn parse_mtp_command(&self, buf: &[u8], phase: MtpContainerType) -> (r: Result<
        PtpCommand,
        MtpError,
    >)
        requires
            buf@.len() >= 12,
        ensures
            spec_u32_at(buf@, 0) < 12 || spec_u32_at(buf@, 0) > buf@.len() ==> (r matches Err(e)
                && e == MtpError::CannotParseHeader),
            12 <= spec_u32_at(buf@, 0) <= buf@.len() && spec_u16_at(buf@, 4) != phase.spec_code()
                ==> (r matches Err(e) && e == MtpError::WrongPacketType),
            12 <= spec_u32_at(buf@, 0) <= buf@.len() && spec_u16_at(buf@, 4) == phase.spec_code()
                ==> (r matches Ok(c) && c.op_code == spec_u16_at(buf@, 6) && c.transaction_id
                == spec_u32_at(buf@, 8) && c.payload@ == buf@.subrange(
                12,
                spec_u32_at(buf@, 0) as int,
            )),
    {
        let length = crate::wire::read_u32_at(buf, 0);
        if length < 12 || length as usize > buf.len() {
            return Err(MtpError::CannotParseHeader);
        }
        let packet_type = crate::wire::read_u16_at(buf, 4);
        let op_code = crate::wire::read_u16_at(buf, 6);
        let transaction_id = crate::wire::read_u32_at(buf, 8);
        if packet_type != phase.code() {
            return Err(MtpError::WrongPacketType);
        }
        let mut payload: Vec<u8> = Vec::new();
        let end = length as usize;
        let mut i: usize = 12;
        while i < end
            invariant
                12 <= i <= end,
                end <= buf@.len(),
                payload@ == buf@.subrange(12, i as int),
            decreases end - i,
        {
            payload.push(buf[i]);
            assert(payload@ =~= buf@.subrange(12, i + 1));
            i = i + 1;
        }
        Ok(PtpCommand { op_code, transaction_id, payload })
    }

    /// The 12-byte response block that reports success.
    pub fn generate_ok_response_block(&self, transaction_id: u32) -> (r: Vec<u8>)
        ensures
            r@ == spec_container(3, 0x2001, transaction_id, Seq::empty()),
    {
        let empty: Vec<u8> = Vec::new();
        make_container(3, 0x2001, transaction_id, &empty)
    }

    /// The 12-byte response block that reports `error`.
    pub fn generate_error_response_block(&self, transaction_id: u32, error: MtpCommandError) -> (r:
        Vec<u8>)
        ensures
            r@ == spec_container(3, error.spec_code(), transaction_id, Seq::empty()),
    {
        let empty: Vec<u8> = Vec::new();
        make_container(3, error.code(), transaction_id, &empty)
    }
}

/// The little-endian bytes of a list of 16-bit values, in order.
pub open spec fn spec_u16_list_bytes(l: Seq<u16>) -> Seq<u8>
    decreases l.len(),
{
    if l.len() == 0 {
        Seq::empty()
    } else {
        spec_u16_list_bytes(l.drop_last()) + spec_le16(l.last())
    }
}

/// The bytes of a 16-bit list take two bytes per entry.
pub proof fn lemma_u16_list_bytes_len(l: Seq<u16>)
    ensures
        spec_u16_list_bytes(l).len() == 2 * l.len(),
    decreases l.len(),
{
    if l.len() > 0 {
        lemma_u16_list_bytes_len(l.drop_last());
    }
}

/// Appends each value of `l` little-endian to `buf`.
pub fn write_u16_list(buf: &mut Vec<u8>, l: &Vec<u16>)
    ensures
        final(buf)@ == old(buf)@ + spec_u16_list_bytes(l@),
{
    let n = l.len();
    for i in 0..n
        invariant
            n == l@.len(),
            buf@ == old(buf)@ + spec_u16_list_bytes(l@.take(i as int)),
    {
        write_u16(buf, l[i]);
        proof {
            assert(l@.take(i + 1).drop_last() =~= l@.take(i as int));
            assert(buf@ =~= old(buf)@ + spec_u16_list_bytes(l@.take(i + 1)));
        }
    }
    proof {
        assert(l@.take(n as int) =~= l@);
    }
}

/// Bytes of the first console family's folder name.
pub open spec fn spec_str_nes() -> Seq<u8> {
    seq![0x4Eu8, 0x45u8, 0x53u8]
}

/// Bytes of the first console family's folder name.
pub fn str_nes() -> (r: Vec<u8>)
    ensures
        r@ == spec_str_nes(),
{
    let mut v: Vec<u8> = Vec::new();
    v.push(0x4E);
    v.push(0x45);
    v.push(0x53);
    assert(v@ =~= spec_str_nes());
    v
}

/// Bytes of the second console family's folder name.
pub open spec fn spec_str_snes() -> Seq<u8> {
    seq![0x53u8, 0x4Eu8, 0x45u8, 0x53u8]
}

/// Bytes of the second console family's folder name.
pub fn str_snes() -> (r: Vec<u8>)
    ensures
        r@ == spec_str_snes(),
{
    let mut v: Vec<u8> = Vec::new();
    v.push(0x53);
    v.push(0x4E);
    v.push(0x45);
    v.push(0x53);
    assert(v@ =~= spec_str_snes());
    v
}

/// Bytes of the first family's ROM-image file name.
pub open spec fn spec_str_rom_nes() -> Seq<u8> {
    seq![0x72u8, 0x6Fu8, 0x6Du8, 0x2Eu8, 0x6Eu8, 0x65u8, 0x73u8]
}

/// Bytes of the first family's ROM-image file name.
pub fn str_rom_nes() -> (r: Vec<u8>)
    ensures
        r@ == spec_str_rom_nes(),
{
    let mut v: Vec<u8> = Vec::new();
    v.push(0x72);
    v.push(0x6F);
    v.push(0x6D);
    v.push(0x2E);
    v.push(0x6E);
    v.push(0x65);
    v.push(0x73);
    assert(v@ =~= spec_str_rom_nes());
    v
}

/// Bytes of the second family's ROM-image file name.
pub open spec fn spec_str_rom_sfc() -> Seq<u8> {
    seq![0x72u8, 0x6Fu8, 0x6Du8, 0x2Eu8, 0x73u8, 0x66u8, 0x63u8]
}

/// Bytes of the second family's ROM-image file name.
pub fn str_rom_sfc() -> (r: Vec<u8>)
    ensures
        r@ == spec_str_rom_sfc(),
{
    let mut v: Vec<u8> = Vec::new();
    v.push(0x72);
    v.push(0x6F);
    v.push(0x6D);
    v.push(0x2E);
    v.push(0x73);
    v.push(0x66);
    v.push(0x63);
    assert(v@ =~= spec_str_rom_sfc());
    v
}

/// Bytes of the configuration file's name.
pub open spec fn spec_str_config_json() -> Seq<u8> {
    seq![0x63u8, 0x6Fu8, 0x6Eu8, 0x66u8, 0x69u8, 0x67u8, 0x2Eu8, 0x6Au8, 0x73u8, 0x6Fu8, 0x6Eu8]
}

/// Bytes of the configuration file's name.
pub fn str_config_json() -> (r: Vec<u8>)
    ensures
        r@ == spec_str_config_json(),
{
    let mut v: Vec<u8> = Vec::new();
    v.push(0x63);
    v.push(0x6F);
    v.push(0x6E);
    v.push(0x66);
    v.push(0x69);
    v.push(0x67);
    v.push(0x2E);
    v.push(0x6A);
    v.push(0x73);
    v.push(0x6F);
    v.push(0x6E);
    assert(v@ =~= spec_str_config_json());
    v
}

/// Bytes of the fixed creation timestamp of every object.
pub open spec fn spec_str_date_created() -> Seq<u8> {
    seq![0x32u8, 0x30u8, 0x32u8, 0x35u8, 0x30u8, 0x37u8, 0x31u8, 0x34u8, 0x54u8, 0x31u8, 0x37u8, 0x33u8, 0x32u8, 0x32u8, 0x32u8, 0x2Eu8, 0x30u8, 0x5Au8]
}

/// Bytes of the fixed creation timestamp of every object.
pub fn str_date_created() -> (r: Vec<u8>)
    ensures
        r@ == spec_str_date_created(),
{
    let mut v: Vec<u8> = Vec::new();
    v.push(0x32);
    v.push(0x30);
    v.push(0x32);
    v.push(0x35);
    v.push(0x30);
    v.push(0x37);
    v.push(0x31);
    v.push(0x34);
    v.push(0x54);
    v.push(0x31);
    v.push(0x37);
    v.push(0x33);
    v.push(0x32);
    v.push(0x32);
    v.push(0x32);
    v.push(0x2E);
    v.push(0x30);
    v.push(0x5A);
    assert(v@ =~= spec_str_date_created());
    v
}

/// Bytes of the fixed modification timestamp of every object.
pub open spec fn spec_str_date_modified() -> Seq<u8> {
    seq![0x32u8, 0x30u8, 0x32u8, 0x35u8, 0x30u8, 0x37u8, 0x31u8, 0x35u8, 0x54u8, 0x31u8, 0x38u8, 0x33u8, 0x32u8, 0x32u8, 0x32u8, 0x2Eu8, 0x30u8, 0x5Au8]
}

/// Bytes of the fixed modification timestamp of every object.
pub fn str_date_modified() -> (r: Vec<u8>)
    ensures
        r@ == spec_str_date_modified(),
{
    let mut v: Vec<u8> = Vec::new();
    v.push(0x32);
    v.push(0x30);
    v.push(0x32);
    v.push(0x35);
    v.push(0x30);
    v.push(0x37);
    v.push(0x31);
    v.push(0x35);
    v.push(0x54);
    v.push(0x31);
    v.push(0x38);
    v.push(0x33);
    v.push(0x32);
    v.push(0x32);
    v.push(0x32);
    v.push(0x2E);
    v.push(0x30);
    v.push(0x5A);
    assert(v@ =~= spec_str_date_modified());
    v
}

/// Bytes of the fixed keywords string of every object.
pub open spec fn spec_str_keywords() -> Seq<u8> {
    seq![0x30u8]
}

/// Bytes of the fixed keywords string of every object.
pub fn str_keywords() -> (r: Vec<u8>)
    ensures
        r@ == spec_str_keywords(),
{
    let mut v: Vec<u8> = Vec::new();
    v.push(0x30);
    assert(v@ =~= spec_str_keywords());
    v
}

/// Bytes of the storage description.
pub open spec fn spec_str_storage_description() -> Seq<u8> {
    seq![0x52u8, 0x4Fu8, 0x4Du8, 0x73u8]
}

/// Bytes of the storage description.
pub fn str_storage_description() -> (r: Vec<u8>)
    ensures
        r@ == spec_str_storage_description(),
{
    let mut v: Vec<u8> = Vec::new();
    v.push(0x52);
    v.push(0x4F);
    v.push(0x4D);
    v.push(0x73);
    assert(v@ =~= spec_str_storage_description());
    v
}

/// Bytes of the (empty) volume identifier.
pub open spec fn spec_str_volume_identifier() -> Seq<u8> {
    Seq::empty()
}

/// Bytes of the (empty) volume identifier.
pub fn str_volume_identifier() -> (r: Vec<u8>)
    ensures
        r@ == spec_str_volume_identifier(),
{
    let mut v: Vec<u8> = Vec::new();
    assert(v@ =~= spec_str_volume_identifier());
    v
}

/// Bytes of the vendor extension description.
pub open spec fn spec_str_vendor_extension() -> Seq<u8> {
    seq![0x6Du8, 0x69u8, 0x63u8, 0x72u8, 0x6Fu8, 0x73u8, 0x6Fu8, 0x66u8, 0x74u8, 0x2Eu8, 0x63u8, 0x6Fu8, 0x6Du8, 0x3Au8, 0x20u8, 0x31u8, 0x2Eu8, 0x30u8]
}

/// Bytes of the vendor extension description.
pub fn str_vendor_extension() -> (r: Vec<u8>)
    ensures
        r@ == spec_str_vendor_extension(),
{
    let mut v: Vec<u8> = Vec::new();
    v.push(0x6D);
    v.push(0x69);
    v.push(0x63);
    v.push(0x72);
    v.push(0x6F);
    v.push(0x73);
    v.push(0x6F);
    v.push(0x66);
    v.push(0x74);
    v.push(0x2E);
    v.push(0x63);
    v.push(0x6F);
    v.push(0x6D);
    v.push(0x3A);
    v.push(0x20);
    v.push(0x31);
    v.push(0x2E);
    v.push(0x30);
    assert(v@ =~= spec_str_vendor_extension());
    v
}

/// Bytes of the device manufacturer string.
pub open spec fn spec_str_manufacturer() -> Seq<u8> {
    seq![0x61u8, 0x72u8, 0x6Bu8, 0x48u8, 0x69u8, 0x76u8, 0x65u8]
}

/// Bytes of the device manufacturer string.
pub fn str_manufacturer() -> (r: Vec<u8>)
    ensures
        r@ == spec_str_manufacturer(),
{
    let mut v: Vec<u8> = Vec::new();
    v.push(0x61);
    v.push(0x72);
    v.push(0x6B);
    v.push(0x48);
    v.push(0x69);
    v.push(0x76);
    v.push(0x65);
    assert(v@ =~= spec_str_manufacturer());
    v
}

/// Bytes of the device model string.
pub open spec fn spec_str_model() -> Seq<u8> {
    seq![0x4Du8, 0x54u8, 0x50u8, 0x20u8, 0x44u8, 0x75u8, 0x6Du8, 0x70u8, 0x65u8, 0x72u8]
}

/// Bytes of the device model string.
pub fn str_model() -> (r: Vec<u8>)
    ensures
        r@ == spec_str_model(),
{
    let mut v: Vec<u8> = Vec::new();
    v.push(0x4D);
    v.push(0x54);
    v.push(0x50);
    v.push(0x20);
    v.push(0x44);
    v.push(0x75);
    v.push(0x6D);
    v.push(0x70);
    v.push(0x65);
    v.push(0x72);
    assert(v@ =~= spec_str_model());
    v
}

/// Bytes of the device version string.
pub open spec fn spec_str_device_version() -> Seq<u8> {
    seq![0x31u8, 0x2Eu8, 0x30u8]
}

/// Bytes of the device version string.
pub fn str_device_version() -> (r: Vec<u8>)
    ensures
        r@ == spec_str_device_version(),
{
    let mut v: Vec<u8> = Vec::new();
    v.push(0x31);
    v.push(0x2E);
    v.push(0x30);
    assert(v@ =~= spec_str_device_version());
    v
}

/// Bytes of the device serial-number string.
pub open spec fn spec_str_serial_number() -> Seq<u8> {
    seq![0x31u8, 0x32u8, 0x33u8, 0x34u8, 0x35u8, 0x36u8, 0x37u8, 0x38u8]
}

/// Bytes of the device serial-number string.
pub fn str_serial_number() -> (r: Vec<u8>)
    ensures
        r@ == spec_str_serial_number(),
{
    let mut v: Vec<u8> = Vec::new();
    v.push(0x31);
    v.push(0x32);
    v.push(0x33);
    v.push(0x34);
    v.push(0x35);
    v.push(0x36);
    v.push(0x37);
    v.push(0x38);
    assert(v@ =~= spec_str_serial_number());
    v
}

/// The operation codes the device supports.
pub open spec fn spec_supported_operations() -> Seq<u16> {
    seq![0x1001u16, 0x1002u16, 0x1003u16, 0x1004u16, 0x1005u16, 0x1006u16, 0x1007u16, 0x1008u16, 0x1009u16, 0x100Au16, 0x100Bu16, 0x100Cu16, 0x100Du16, 0x100Eu16, 0x100Fu16, 0x1010u16, 0x1011u16, 0x1012u16, 0x1013u16, 0x1014u16, 0x1015u16, 0x1016u16, 0x1017u16, 0x1018u16, 0x1019u16, 0x101Au16, 0x101Bu16, 0x101Cu16, 0x9801u16, 0x9802u16, 0x9803u16, 0x9804u16, 0x9810u16, 0x9811u16, 0x9820u16, 0x9805u16, 0x9806u16, 0x9807u16, 0x9808u16]
}

/// The operation codes the device supports.
pub fn supported_operations() -> (r: Vec<u16>)
    ensures
        r@ == spec_supported_operations(),
{
    let mut v: Vec<u16> = Vec::new();
    v.push(0x1001);
    v.push(0x1002);
    v.push(0x1003);
    v.push(0x1004);
    v.push(0x1005);
    v.push(0x1006);
    v.push(0x1007);
    v.push(0x1008);
    v.push(0x1009);
    v.push(0x100A);
    v.push(0x100B);
    v.push(0x100C);
    v.push(0x100D);
    v.push(0x100E);
    v.push(0x100F);
    v.push(0x1010);
    v.push(0x1011);
    v.push(0x1012);
    v.push(0x1013);
    v.push(0x1014);
    v.push(0x1015);
    v.push(0x1016);
    v.push(0x1017);
    v.push(0x1018);
    v.push(0x1019);
    v.push(0x101A);
    v.push(0x101B);
    v.push(0x101C);
    v.push(0x9801);
    v.push(0x9802);
    v.push(0x9803);
    v.push(0x9804);
    v.push(0x9810);
    v.push(0x9811);
    v.push(0x9820);
    v.push(0x9805);
    v.push(0x9806);
    v.push(0x9807);
    v.push(0x9808);
    assert(v@ =~= spec_supported_operations());
    v
}

/// The event codes the device supports.
pub open spec fn spec_supported_events() -> Seq<u16> {
    seq![0x4000u16, 0x4001u16, 0x4002u16, 0x4003u16, 0x4004u16, 0x4005u16, 0x4006u16, 0x4007u16, 0x4008u16, 0x4009u16, 0x400Au16, 0x400Bu16, 0x400Cu16, 0x400Du16, 0x400Eu16, 0xC801u16, 0xC802u16, 0xC803u16]
}

/// The event codes the device supports.
pub fn supported_events() -> (r: Vec<u16>)
    ensures
        r@ == spec_supported_events(),
{
    let mut v: Vec<u16> = Vec::new();
    v.push(0x4000);
    v.push(0x4001);
    v.push(0x4002);
    v.push(0x4003);
    v.push(0x4004);
    v.push(0x4005);
    v.push(0x4006);
    v.push(0x4007);
    v.push(0x4008);
    v.push(0x4009);
    v.push(0x400A);
    v.push(0x400B);
    v.push(0x400C);
    v.push(0x400D);
    v.push(0x400E);
    v.push(0xC801);
    v.push(0xC802);
    v.push(0xC803);
    assert(v@ =~= spec_supported_events());
    v
}

/// The device property codes the device supports.
pub open spec fn spec_supported_device_properties() -> Seq<u16> {
    seq![0xD401u16, 0xD402u16, 0x5002u16, 0x5011u16]
}

/// The device property codes the device supports.
pub fn supported_device_properties() -> (r: Vec<u16>)
    ensures
        r@ == spec_supported_device_properties(),
{
    let mut v: Vec<u16> = Vec::new();
    v.push(0xD401);
    v.push(0xD402);
    v.push(0x5002);
    v.push(0x5011);
    assert(v@ =~= spec_supported_device_properties());
    v
}

/// The playback format codes the device supports.
pub open spec fn spec_supported_playbacks() -> Seq<u16> {
    seq![0x3000u16, 0x3001u16, 0x3004u16, 0x3005u16, 0x3008u16, 0x3009u16, 0x300Bu16, 0x3801u16, 0x3802u16, 0x3804u16, 0x3807u16, 0x3808u16, 0x380Bu16, 0x380Du16, 0xB901u16, 0xB902u16, 0xB903u16, 0xB982u16, 0xB983u16, 0xB984u16, 0xBA05u16, 0xBA10u16, 0xBA11u16, 0xBA14u16, 0xBA82u16, 0xB906u16, 0x3811u16, 0x3812u16]
}

/// The playback format codes the device supports.
pub fn supported_playbacks() -> (r: Vec<u16>)
    ensures
        r@ == spec_supported_playbacks(),
{
    let mut v: Vec<u16> = Vec::new();
    v.push(0x3000);
    v.push(0x3001);
    v.push(0x3004);
    v.push(0x3005);
    v.push(0x3008);
    v.push(0x3009);
    v.push(0x300B);
    v.push(0x3801);
    v.push(0x3802);
    v.push(0x3804);
    v.push(0x3807);
    v.push(0x3808);
    v.push(0x380B);
    v.push(0x380D);
    v.push(0xB901);
    v.push(0xB902);
    v.push(0xB903);
    v.push(0xB982);
    v.push(0xB983);
    v.push(0xB984);
    v.push(0xBA05);
    v.push(0xBA10);
    v.push(0xBA11);
    v.push(0xBA14);
    v.push(0xBA82);
    v.push(0xB906);
    v.push(0x3811);
    v.push(0x3812);
    assert(v@ =~= spec_supported_playbacks());
    v
}


/// The capability block of the device: protocol version, vendor extension,
/// the supported operation, event, property and playback-format lists, and
/// the four device identity strings.
pub open spec fn spec_device_info_payload() -> Seq<u8> {
    spec_le16(110) + spec_le32(6) + spec_le16(100) + spec_ptp_string(spec_str_vendor_extension())
        + spec_le16(0) + spec_le32(39) + spec_u16_list_bytes(spec_supported_operations())
        + spec_le32(18) + spec_u16_list_bytes(spec_supported_events()) + spec_le32(4)
        + spec_u16_list_bytes(spec_supported_device_properties()) + spec_le32(0) + spec_le32(28)
        + spec_u16_list_bytes(spec_supported_playbacks()) + spec_ptp_string(
        spec_str_manufacturer(),
    ) + spec_ptp_string(spec_str_model()) + spec_ptp_string(spec_str_device_version())
        + spec_ptp_string(spec_str_serial_number())
}

/// The capacity/type metadata of the single fixed store.
pub open spec fn spec_storage_info_payload() -> Seq<u8> {
    spec_le16(0x0004) + spec_le16(0x0002) + spec_le16(0x0000) + spec_le64(0xFFFFFFFFFFFFFFFF)
        + spec_le64(0) + spec_le32(0xFFFFFFFF) + spec_ptp_string(spec_str_storage_description())
        + spec_ptp_string(spec_str_volume_identifier())
}

/// The static metadata block of one virtual object: store, format code,
/// protection, size, the zeroed thumbnail and image fields, parent handle,
/// association type, and the name and timestamp strings.
pub open spec fn spec_object_info_block(
    fmt: u16,
    protection: u16,
    size: u32,
    parent: u32,
    assoc: u16,
    name: Seq<u8>,
) -> Seq<u8> {
    spec_le32(0x00010001) + spec_le16(fmt) + spec_le16(protection) + spec_le32(size) + spec_le16(
        fmt,
    ) + spec_le32(0) + spec_le32(0) + spec_le32(0) + spec_le32(0) + spec_le32(0) + spec_le32(0)
        + spec_le32(parent) + spec_le16(assoc) + spec_le32(0) + spec_le32(0) + spec_ptp_string(name)
        + spec_ptp_string(spec_str_date_created()) + spec_ptp_string(spec_str_date_modified())
        + spec_ptp_string(spec_str_keywords())
}

fn object_info_block(
    fmt: u16,
    protection: u16,
    size: u32,
    parent: u32,
    assoc: u16,
    name: &Vec<u8>,
) -> (r: Vec<u8>)
    requires
        name@.len() <= 254,
    ensures
        r@ == spec_object_info_block(fmt, protection, size, parent, assoc, name@),
{
    let mut p: Vec<u8> = Vec::new();
    write_u32(&mut p, 0x00010001);
    write_u16(&mut p, fmt);
    write_u16(&mut p, protection);
    write_u32(&mut p, size);
    write_u16(&mut p, fmt);
    write_u32(&mut p, 0);
    write_u32(&mut p, 0);
    write_u32(&mut p, 0);
    write_u32(&mut p, 0);
    write_u32(&mut p, 0);
    write_u32(&mut p, 0);
    write_u32(&mut p, parent);
    write_u16(&mut p, assoc);
    write_u32(&mut p, 0);
    write_u32(&mut p, 0);
    write_string(&mut p, name.as_slice());
    write_string(&mut p, str_date_created().as_slice());
    write_string(&mut p, str_date_modified().as_slice());
    write_string(&mut p, str_keywords().as_slice());
    assert(p@ =~= spec_object_info_block(fmt, protection, size, parent, assoc, name@));
    p
}

impl MtpEngine {
    /// The static capability block: data phase of the device-info operation.
    pub fn generate_device_info_response(&self, transaction_id: u32) -> (r: Vec<u8>)
        ensures
            r@ == spec_container(2, 0x1001, transaction_id, spec_device_info_payload()),
    {
        let mut p: Vec<u8> = Vec::new();
        write_u16(&mut p, 110);
        write_u32(&mut p, 6);
        write_u16(&mut p, 100);
        write_string(&mut p, str_vendor_extension().as_slice());
        write_u16(&mut p, 0);
        let ops = supported_operations();
        write_u32(&mut p, 39);
        write_u16_list(&mut p, &ops);
        let events = supported_events();
        write_u32(&mut p, 18);
        write_u16_list(&mut p, &events);
        let props = supported_device_properties();
        write_u32(&mut p, 4);
        write_u16_list(&mut p, &props);
        write_u32(&mut p, 0);
        let playbacks = supported_playbacks();
        write_u32(&mut p, 28);
        write_u16_list(&mut p, &playbacks);
        write_string(&mut p, str_manufacturer().as_slice());
        write_string(&mut p, str_model().as_slice());
        write_string(&mut p, str_device_version().as_slice());
        write_string(&mut p, str_serial_number().as_slice());
        proof {
            assert(p@ =~= spec_device_info_payload());
            crate::wire::lemma_ptp_string_len(spec_str_vendor_extension());
            crate::wire::lemma_ptp_string_len(spec_str_manufacturer());
            crate::wire::lemma_ptp_string_len(spec_str_model());
            crate::wire::lemma_ptp_string_len(spec_str_device_version());
            crate::wire::lemma_ptp_string_len(spec_str_serial_number());
            lemma_u16_list_bytes_len(spec_supported_operations());
            lemma_u16_list_bytes_len(spec_supported_events());
            lemma_u16_list_bytes_len(spec_supported_device_properties());
            lemma_u16_list_bytes_len(spec_supported_playbacks());
        }
        make_container(2, 0x1001, transaction_id, &p)
    }

    /// The single fixed storage id: data phase of the storage-ids operation.
    pub fn generate_storage_id_response(&self, transaction_id: u32) -> (r: Vec<u8>)
        ensures
            r@ == spec_container(2, 0x1004, transaction_id, spec_le32(1) + spec_le32(0x00010001)),
    {
        let mut p: Vec<u8> = Vec::new();
        write_u32(&mut p, 1);
        write_u32(&mut p, 0x00010001);
        assert(p@ =~= spec_le32(1) + spec_le32(0x00010001));
        make_container(2, 0x1004, transaction_id, &p)
    }

    /// Data phase of the storage-info operation: the store's metadata when
    /// the requested id matches the fixed store, and nothing otherwise.
    pub fn generate_storage_info_response(&self, transaction_id: u32, cmd: &PtpCommand) -> (r: Vec<
        u8,
    >)
        requires
            cmd.payload@.len() >= 4,
        ensures
            spec_u32_at(cmd.payload@, 0) != 0x00010001 ==> r@.len() == 0,
            spec_u32_at(cmd.payload@, 0) == 0x00010001 ==> r@ == spec_container(
                2,
                0x1005,
                transaction_id,
                spec_storage_info_payload(),
            ),
    {
        let storage_id = crate::wire::read_u32_at(cmd.payload.as_slice(), 0);
        if storage_id != 0x00010001 {
            return Vec::new();
        }
        let mut p: Vec<u8> = Vec::new();
        write_u16(&mut p, 0x0004);
        write_u16(&mut p, 0x0002);
        write_u16(&mut p, 0x0000);
        write_u64(&mut p, 0xFFFFFFFFFFFFFFFF);
        write_u64(&mut p, 0);
        write_u32(&mut p, 0xFFFFFFFF);
        write_string(&mut p, str_storage_description().as_slice());
        write_string(&mut p, str_volume_identifier().as_slice());
        proof {
            assert(p@ =~= spec_storage_info_payload());
            crate::wire::lemma_ptp_string_len(spec_str_storage_description());
            crate::wire::lemma_ptp_string_len(spec_str_volume_identifier());
        }
        make_container(2, 0x1005, transaction_id, &p)
    }

    /// Data phase of the object-info operation: the metadata of any of the
    /// five fixed handles — the configuration file's size is its live content
    /// size, whether or not the object is soft-deleted — and nothing for an
    /// unknown handle.
    pub fn generate_object_info_response(&self, transaction_id: u32, cmd: &PtpCommand) -> (r: Vec<
        u8,
    >)
        requires
            self.wf(),
            cmd.payload@.len() >= 4,
        ensures
            spec_u32_at(cmd.payload@, 0) == 1 ==> r@ == spec_container(
                2,
                0x1008,
                transaction_id,
                spec_object_info_block(0x3001, 0x0001, 0, 0, 0x0001, spec_str_nes()),
            ),
            spec_u32_at(cmd.payload@, 0) == 2 ==> r@ == spec_container(
                2,
                0x1008,
                transaction_id,
                spec_object_info_block(0x3000, 0x0001, 0xA010, 1, 0, spec_str_rom_nes()),
            ),
            spec_u32_at(cmd.payload@, 0) == 3 ==> r@ == spec_container(
                2,
                0x1008,
                transaction_id,
                spec_object_info_block(
                    0x3000,
                    0x0000,
                    self.configuration_file_size as u32,
                    1,
                    0,
                    spec_str_config_json(),
                ),
            ),
            spec_u32_at(cmd.payload@, 0) == 4 ==> r@ == spec_container(
                2,
                0x1008,
                transaction_id,
                spec_object_info_block(0x3001, 0x0001, 0, 0, 0x0001, spec_str_snes()),
            ),
            spec_u32_at(cmd.payload@, 0) == 5 ==> r@ == spec_container(
                2,
                0x1008,
                transaction_id,
                spec_object_info_block(0x3000, 0x0001, 0x100000, 4, 0, spec_str_rom_sfc()),
            ),
            !(1 <= spec_u32_at(cmd.payload@, 0) <= 5) ==> r@.len() == 0,
    {
        let object_handle = crate::wire::read_u32_at(cmd.payload.as_slice(), 0);
        let p: Vec<u8> = if object_handle == 1 {
            object_info_block(0x3001, 0x0001, 0, 0, 0x0001, &str_nes())
        } else if object_handle == 2 {
            object_info_block(0x3000, 0x0001, 0xA010, 1, 0, &str_rom_nes())
        } else if object_handle == 3 {
            object_info_block(
                0x3000,
                0x0000,
                self.configuration_file_size as u32,
                1,
                0,
                &str_config_json(),
            )
        } else if object_handle == 4 {
            object_info_block(0x3001, 0x0001, 0, 0, 0x0001, &str_snes())
        } else if object_handle == 5 {
            object_info_block(0x3000, 0x0001, 0x100000, 4, 0, &str_rom_sfc())
        } else {
            return Vec::new();
        };
        proof {
            crate::wire::lemma_ptp_string_len(spec_str_nes());
            crate::wire::lemma_ptp_string_len(spec_str_snes());
            crate::wire::lemma_ptp_string_len(spec_str_rom_nes());
            crate::wire::lemma_ptp_string_len(spec_str_rom_sfc());
            crate::wire::lemma_ptp_string_len(spec_str_config_json());
            crate::wire::lemma_ptp_string_len(spec_str_date_created());
            crate::wire::lemma_ptp_string_len(spec_str_date_modified());
            crate::wire::lemma_ptp_string_len(spec_str_keywords());
        }
        make_container(2, 0x1008, transaction_id, &p)
    }

    /// Data phase of an object read of the configuration file: a container
    /// holding its current content.
    pub fn generate_config_json_object_response(&self, transaction_id: u32) -> (r: Vec<u8>)
        requires
            self.wf(),
        ensures
            r@ == spec_container(2, 0x1009, transaction_id, self.spec_configuration_content()),
    {
        let mut p: Vec<u8> = Vec::new();
        let n = self.configuration_file_size;
        let mut i: usize = 0;
        while i < n
            invariant
                i <= n,
                n == self.configuration_file_size,
                self.wf(),
                p@ == self.configuration_file@.subrange(0, i as int),
            decreases n - i,
        {
            p.push(self.configuration_file[i]);
            assert(p@ =~= self.configuration_file@.subrange(0, i + 1));
            i = i + 1;
        }
        assert(p@ =~= self.spec_configuration_content());
        make_container(2, 0x1009, transaction_id, &p)
    }

    /// Applies a delete request: the configuration-file handle, or the
    /// wildcard id, sets the soft-delete flag; anything else changes nothing.
    /// Deletion is logical: content and size stay as they are.
    pub fn generate_delete_object_response(&mut self, cmd: &PtpCommand)
        requires
            cmd.payload@.len() >= 4,
        ensures
            final(self).configuration_file_deleted == (old(self).configuration_file_deleted || spec_u32_at(
                cmd.payload@,
                0,
            ) == 3 || spec_u32_at(cmd.payload@, 0) == 0xFFFFFFFF),
            final(self).configuration_file == old(self).configuration_file,
            final(self).configuration_file_size == old(self).configuration_file_size,
    {
        let object_id = crate::wire::read_u32_at(cmd.payload.as_slice(), 0);
        if object_id == 3 || object_id == 0xFFFFFFFF {
            self.configuration_file_deleted = true;
        }
    }
}


/// Whether the request's object-format-code list admits `needle`: an empty
/// list is a wildcard, otherwise the code must be listed.
pub open spec fn spec_format_codes_contains(payload: Seq<u8>, needle: u16) -> bool {
    ||| spec_u32_at(payload, 4) == 0
    ||| exists|k: int|
        0 <= k < spec_u32_at(payload, 4) && #[trigger] spec_u16_at(payload, 8 + 2 * k) == needle
}

/// The parent/association filter of the request: the handle it names, read
/// past the format-code list.
pub open spec fn spec_association_handle(payload: Seq<u8>) -> u32 {
    spec_u32_at(payload, 8 + 2 * (spec_u32_at(payload, 4) as int))
}

/// Whether the request's parent/association filter admits `needle`: the zero
/// handle is a wildcard, otherwise the handles must match.
pub open spec fn spec_association_contains(payload: Seq<u8>, needle: u32) -> bool {
    spec_association_handle(payload) == 0 || spec_association_handle(payload) == needle
}

/// Whether the request's storage id admits the fixed store: its exact id or
/// the wildcard id.
pub open spec fn spec_storage_matches(payload: Seq<u8>) -> bool {
    spec_u32_at(payload, 0) == 0xFFFFFFFF || spec_u32_at(payload, 0) == 0x00010001
}

/// The handles a handle-listing request returns, in order: the two root
/// folders when folder objects are admitted with a wildcard parent; the
/// first family's file objects when file objects are admitted under the
/// first folder — the configuration file only while it is not soft-deleted —
/// and the second family's file object under the second folder.
pub open spec fn spec_object_handles(deleted: bool, payload: Seq<u8>) -> Seq<u32> {
    (if spec_storage_matches(payload) && spec_format_codes_contains(payload, 0x3001)
        && spec_association_contains(payload, 0xFFFFFFFF) {
        seq![1u32, 4u32]
    } else {
        Seq::empty()
    }) + (if spec_storage_matches(payload) && spec_format_codes_contains(payload, 0x3000)
        && spec_association_contains(payload, 1) {
        seq![2u32] + if !deleted {
            seq![3u32]
        } else {
            Seq::empty()
        }
    } else {
        Seq::empty()
    }) + (if spec_storage_matches(payload) && spec_format_codes_contains(payload, 0x3000)
        && spec_association_contains(payload, 4) {
        seq![5u32]
    } else {
        Seq::empty()
    })
}

/// The little-endian bytes of a list of 32-bit values, in order.
pub open spec fn spec_u32_list_bytes(l: Seq<u32>) -> Seq<u8>
    decreases l.len(),
{
    if l.len() == 0 {
        Seq::empty()
    } else {
        spec_u32_list_bytes(l.drop_last()) + spec_le32(l.last())
    }
}

/// The bytes of a 32-bit list take four bytes per entry.
pub proof fn lemma_u32_list_bytes_len(l: Seq<u32>)
    ensures
        spec_u32_list_bytes(l).len() == 4 * l.len(),
    decreases l.len(),
{
    if l.len() > 0 {
        lemma_u32_list_bytes_len(l.drop_last());
    }
}

/// A payload long enough that the format-code list and the handle that
/// follows it can be read.
pub open spec fn spec_handles_request_wf(payload: Seq<u8>) -> bool {
    &&& payload.len() >= 8
    &&& 8 + 2 * (spec_u32_at(payload, 4) as int) + 4 <= payload.len()
}

impl MtpEngine {
    /// Whether the request's object-format-code list admits `needle`.
    pub fn object_format_codes_contains(cmd: &PtpCommand, needle: u16) -> (r: bool)
        requires
            spec_handles_request_wf(cmd.payload@),
        ensures
            r == spec_format_codes_contains(cmd.payload@, needle),
    {
        let plen = cmd.payload.len();
        let count = crate::wire::read_u32_at(cmd.payload.as_slice(), 4);
        if count == 0 {
            return true;
        }
        let mut k: u32 = 0;
        while k < count
            invariant
                spec_handles_request_wf(cmd.payload@),
                plen == cmd.payload@.len(),
                count == spec_u32_at(cmd.payload@, 4),
                k <= count,
                forall|j: int| 0 <= j < k ==> #[trigger] spec_u16_at(cmd.payload@, 8 + 2 * j) != needle,
            decreases count - k,
        {
            let code = crate::wire::read_u16_at(cmd.payload.as_slice(), 8 + 2 * (k as usize));
            if code == needle {
                return true;
            }
            k = k + 1;
        }
        false
    }

    /// Whether the request's parent/association filter admits `needle`.
    pub fn object_handle_of_association_contains(cmd: &PtpCommand, needle: u32) -> (r: bool)
        requires
            spec_handles_request_wf(cmd.payload@),
        ensures
            r == spec_association_contains(cmd.payload@, needle),
    {
        let plen = cmd.payload.len();
        let count = crate::wire::read_u32_at(cmd.payload.as_slice(), 4);
        let handle = crate::wire::read_u32_at(cmd.payload.as_slice(), 8 + 2 * (count as usize));
        handle == 0 || handle == needle
    }

    /// Data phase of the handle-listing operation: the count of matching
    /// handles followed by the handles, filtered by storage id, the
    /// format-code list and the parent filter, with the configuration file
    /// omitted while soft-deleted.
    pub fn generate_object_handles_response(&self, transaction_id: u32, cmd: &PtpCommand) -> (r:
        Vec<u8>)
        requires
            spec_handles_request_wf(cmd.payload@),
        ensures
            r@ == spec_container(
                2,
                0x1007,
                transaction_id,
                spec_le32(
                    spec_object_handles(self.configuration_file_deleted, cmd.payload@).len() as u32,
                ) + spec_u32_list_bytes(
                    spec_object_handles(self.configuration_file_deleted, cmd.payload@),
                ),
            ),
    {
        let ghost expected = spec_object_handles(self.configuration_file_deleted, cmd.payload@);
        let storage_id = crate::wire::read_u32_at(cmd.payload.as_slice(), 0);
        let storage_matches = storage_id == 0xFFFFFFFF || storage_id == 0x00010001;
        let mut handles: Vec<u32> = Vec::new();
        if storage_matches && Self::object_format_codes_contains(cmd, 0x3001)
            && Self::object_handle_of_association_contains(cmd, 0xFFFFFFFF) {
            handles.push(1);
            handles.push(4);
        }
        if storage_matches && Self::object_format_codes_contains(cmd, 0x3000) {
            if Self::object_handle_of_association_contains(cmd, 1) {
                handles.push(2);
                if !self.configuration_file_deleted {
                    handles.push(3);
                }
            }
            if Self::object_handle_of_association_contains(cmd, 4) {
                handles.push(5);
            }
        }
        assert(handles@ =~= expected);
        let mut p: Vec<u8> = Vec::new();
        write_u32(&mut p, handles.len() as u32);
        let n = handles.len();
        for i in 0..n
            invariant
                n == handles@.len(),
                n <= 5,
                p@ == spec_le32(handles@.len() as u32) + spec_u32_list_bytes(
                    handles@.take(i as int),
                ),
        {
            write_u32(&mut p, handles[i]);
            proof {
                assert(handles@.take(i + 1).drop_last() =~= handles@.take(i as int));
                assert(p@ =~= spec_le32(handles@.len() as u32) + spec_u32_list_bytes(
                    handles@.take(i + 1),
                ));
            }
        }
        proof {
            assert(handles@.take(n as int) =~= handles@);
            lemma_u32_list_bytes_len(handles@);
        }
        make_container(2, 0x1007, transaction_id, &p)
    }
}

/// Soft delete: once the flag is set, the configuration-file handle is absent
/// from every handle listing; while it is clear, any listing that admits file
/// objects under the first folder includes it. Its object-info lookup is
/// unaffected either way: the metadata block depends only on the live content
/// size, never on the flag.
pub proof fn lemma_soft_delete(payload: Seq<u8>)
    ensures
        !spec_object_handles(true, payload).contains(3u32),
        spec_storage_matches(payload) && spec_format_codes_contains(payload, 0x3000)
            && spec_association_contains(payload, 1) ==> spec_object_handles(
            false,
            payload,
        ).contains(3u32),
{
    let with = spec_object_handles(false, payload);
    let without = spec_object_handles(true, payload);
    assert forall|i: int| 0 <= i < without.len() implies without[i] != 3u32 by {}
    if spec_storage_matches(payload) && spec_format_codes_contains(payload, 0x3000)
        && spec_association_contains(payload, 1) {
        let folders = spec_storage_matches(payload) && spec_format_codes_contains(payload, 0x3001)
            && spec_association_contains(payload, 0xFFFFFFFF);
        if folders {
            assert(with[3] == 3u32);
        } else {
            assert(with[1] == 3u32);
        }
    }
}


/// A data-phase payload of the send-object-info operation that is long
/// enough to read every validated field, including the declared filename.
pub open spec fn spec_object_info_request_wf(payload: Seq<u8>) -> bool {
    &&& payload.len() >= 53
    &&& payload[52] >= 1
    &&& 53 + 2 * (payload[52] - 1) <= payload.len()
}

/// The validation verdict over a send-object-info data payload: the object
/// must be a generic file no larger than the configuration buffer, a plain
/// file (no association) under the first folder, named exactly like the
/// configuration file; the first violation in that order is the verdict.
pub open spec fn spec_validate_send_object_info(payload: Seq<u8>) -> Result<(), MtpCommandError> {
    if spec_u16_at(payload, 4) != 0x3000 {
        Err(MtpCommandError::InvalidObjectFormatCode)
    } else if spec_u32_at(payload, 8) > CONFIGURATION_FILE_CAPACITY {
        Err(MtpCommandError::ObjectTooLarge)
    } else if spec_u32_at(payload, 38) != 1 {
        Err(MtpCommandError::InvalidParentObject)
    } else if spec_u16_at(payload, 42) != 0 {
        Err(MtpCommandError::OperationNotSupported)
    } else if spec_u32_at(payload, 44) != 0 {
        Err(MtpCommandError::OperationNotSupported)
    } else if payload[52] != 12 || payload.subrange(53, 75) != spec_utf16le_ascii(
        spec_str_config_json(),
    ) {
        Err(MtpCommandError::OperationNotSupported)
    } else {
        Ok(())
    }
}

/// The UTF-16LE bytes of the ASCII name `s`.
pub fn utf16le_bytes(s: &[u8]) -> (r: Vec<u8>)
    ensures
        r@ == spec_utf16le_ascii(s@),
{
    let n = s.len();
    let mut v: Vec<u8> = Vec::new();
    for i in 0..n
        invariant
            n == s@.len(),
            v@ == spec_utf16le_ascii(s@.take(i as int)),
    {
        v.push(s[i]);
        v.push(0);
        proof {
            assert(s@.take(i + 1).drop_last() =~= s@.take(i as int));
            assert(v@ =~= spec_utf16le_ascii(s@.take(i + 1)));
        }
    }
    proof {
        assert(s@.take(n as int) =~= s@);
    }
    v
}

impl MtpEngine {
    /// Validates the data payload of a send-object-info request whose inner
    /// operation code already matched.
    pub fn validate_send_object_info(&self, data_cmd: &PtpCommand) -> (r: Result<
        (),
        MtpCommandError,
    >)
        requires
            spec_object_info_request_wf(data_cmd.payload@),
        ensures
            r == spec_validate_send_object_info(data_cmd.payload@),
    {
        let p = data_cmd.payload.as_slice();
        let object_format = crate::wire::read_u16_at(p, 4);
        let object_compressed_size = crate::wire::read_u32_at(p, 8);
        let parent_object = crate::wire::read_u32_at(p, 38);
        let association_type = crate::wire::read_u16_at(p, 42);
        let association_description = crate::wire::read_u32_at(p, 44);
        if object_format != 0x3000 {
            return Err(MtpCommandError::InvalidObjectFormatCode);
        }
        if object_compressed_size as usize > CONFIGURATION_FILE_CAPACITY {
            return Err(MtpCommandError::ObjectTooLarge);
        }
        if parent_object != 1 {
            return Err(MtpCommandError::InvalidParentObject);
        }
        if association_type != 0 {
            return Err(MtpCommandError::OperationNotSupported);
        }
        if association_description != 0 {
            return Err(MtpCommandError::OperationNotSupported);
        }
        if p[52] != 12 {
            return Err(MtpCommandError::OperationNotSupported);
        }
        let expected = utf16le_bytes(str_config_json().as_slice());
        let mut filename: Vec<u8> = Vec::new();
        let mut i: usize = 53;
        while i < 75
            invariant
                53 <= i <= 75,
                p@ == data_cmd.payload@,
                data_cmd.payload@.len() >= 75,
                filename@ == data_cmd.payload@.subrange(53, i as int),
            decreases 75 - i,
        {
            filename.push(p[i]);
            assert(filename@ =~= data_cmd.payload@.subrange(53, i + 1));
            i = i + 1;
        }
        if !crate::wire::bytes_eq(filename.as_slice(), expected.as_slice()) {
            return Err(MtpCommandError::OperationNotSupported);
        }
        Ok(())
    }

    /// The response block of a successful send-object-info request: a
    /// success code carrying the store, the parent folder and the handle
    /// reserved for the incoming object.
    pub fn send_object_info_success_block(&self, transaction_id: u32) -> (r: Vec<u8>)
        ensures
            r@ == spec_container(
                3,
                0x2001,
                transaction_id,
                spec_le32(0x00010001) + spec_le32(1) + spec_le32(3),
            ),
    {
        let mut p: Vec<u8> = Vec::new();
        write_u32(&mut p, 0x00010001);
        write_u32(&mut p, 1);
        write_u32(&mut p, 3);
        assert(p@ =~= spec_le32(0x00010001) + spec_le32(1) + spec_le32(3));
        make_container(3, 0x2001, transaction_id, &p)
    }

    /// Stores an incoming object's payload as the configuration file: the
    /// buffer is cleared, then the payload — clipped at the buffer's
    /// capacity — becomes the content; every buffer byte past the content is
    /// zero. The store happens whether or not the content later decodes.
    pub fn store_configuration(&mut self, payload: &Vec<u8>)
        requires
            old(self).wf(),
        ensures
            final(self).wf(),
            final(self).configuration_file_size == if payload@.len()
                <= CONFIGURATION_FILE_CAPACITY {
                payload@.len() as int
            } else {
                CONFIGURATION_FILE_CAPACITY as int
            },
            final(self).spec_configuration_content() == payload@.take(
                final(self).configuration_file_size as int,
            ),
            forall|j: int|
                final(self).configuration_file_size <= j < CONFIGURATION_FILE_CAPACITY
                    ==> final(self).configuration_file@[j] == 0,
            final(self).configuration_file_deleted == old(self).configuration_file_deleted,
    {
        let n = if payload.len() <= CONFIGURATION_FILE_CAPACITY {
            payload.len()
        } else {
            CONFIGURATION_FILE_CAPACITY
        };
        let mut file: Vec<u8> = Vec::new();
        let mut i: usize = 0;
        while i < n
            invariant
                i <= n,
                n <= payload@.len(),
                n <= CONFIGURATION_FILE_CAPACITY,
                file@ == payload@.take(i as int),
            decreases n - i,
        {
            file.push(payload[i]);
            assert(file@ =~= payload@.take(i + 1));
            i = i + 1;
        }
        while i < CONFIGURATION_FILE_CAPACITY
            invariant
                n <= i <= CONFIGURATION_FILE_CAPACITY,
                n <= payload@.len(),
                file@.len() == i,
                file@.take(n as int) == payload@.take(n as int),
                forall|j: int| n <= j < i ==> file@[j] == 0,
            decreases CONFIGURATION_FILE_CAPACITY - i,
        {
            file.push(0);
            assert(file@.take(n as int) =~= payload@.take(n as int));
            i = i + 1;
        }
        self.configuration_file = file;
        self.configuration_file_size = n;
        assert(final(self).spec_configuration_content() =~= payload@.take(n as int));
    }
}


/// How many packets a transfer of `n` bytes takes at `mps` bytes per packet,
/// before any trailing zero-length packet.
pub open spec fn spec_num_packets(n: int, mps: int) -> int {
    if n == 0 {
        0
    } else {
        (n - 1) / mps + 1
    }
}

/// The bytes of packet `i` of a transfer of `data`: a full packet, or the
/// remainder for the last one.
pub open spec fn spec_packet(data: Seq<u8>, mps: int, i: int) -> Seq<u8> {
    data.subrange(
        mps * i,
        if mps * (i + 1) <= data.len() {
            mps * (i + 1)
        } else {
            data.len() as int
        },
    )
}

/// Splits `data` at the maximum packet size, in order, with no trailing
/// zero-length packet.
pub fn split_packets(data: &Vec<u8>, max_packet_size: usize) -> (r: Vec<Vec<u8>>)
    requires
        max_packet_size >= 1,
    ensures
        r@.len() == spec_num_packets(data@.len() as int, max_packet_size as int),
        forall|i: int|
            #![trigger r@[i]]
            0 <= i < r@.len() ==> r@[i]@ == spec_packet(data@, max_packet_size as int, i),
{
    let n = data.len();
    let mps = max_packet_size;
    let mut packets: Vec<Vec<u8>> = Vec::new();
    let mut off: usize = 0;
    proof {
        vstd::arithmetic::mul::lemma_mul_basics(mps as int);
    }
    while off < n
        invariant
            mps >= 1,
            n == data@.len(),
            off <= n,
            off == n || off == mps * packets@.len(),
            packets@.len() > 0 ==> mps * (packets@.len() - 1) < off,
            off <= mps * packets@.len(),
            forall|i: int|
                #![trigger packets@[i]]
                0 <= i < packets@.len() ==> packets@[i]@ == spec_packet(data@, mps as int, i),
        decreases n - off,
    {
        let ghost k = packets@.len() as int;
        let end = if n - off > mps {
            off + mps
        } else {
            n
        };
        let mut chunk: Vec<u8> = Vec::new();
        let mut j = off;
        while j < end
            invariant
                off <= j <= end,
                end <= n,
                n == data@.len(),
                chunk@ == data@.subrange(off as int, j as int),
            decreases end - j,
        {
            chunk.push(data[j]);
            assert(chunk@ =~= data@.subrange(off as int, j + 1));
            j = j + 1;
        }
        proof {
            vstd::arithmetic::mul::lemma_mul_is_distributive_add(mps as int, k, 1);
            assert(mps * (k + 1) == mps * k + mps);
            assert(chunk@ =~= spec_packet(data@, mps as int, k));
        }
        packets.push(chunk);
        off = end;
    }
    proof {
        let k = packets@.len() as int;
        let mi = mps as int;
        let ni = n as int;
        if ni == 0 {
            assert(k == 0);
        } else {
            assert(k > 0);
            assert(off == n);
            assert(mi * (k - 1) < ni <= mi * k);
            vstd::arithmetic::mul::lemma_mul_is_distributive_add(mi, k - 1, 1);
            vstd::arithmetic::div_mod::lemma_fundamental_div_mod_converse(
                ni - 1,
                mi,
                k - 1,
                ni - 1 - mi * (k - 1),
            );
            assert((ni - 1) / mi == k - 1);
        }
    }
    packets
}

/// Splits a data block for transmission: packets of the maximum packet size,
/// and — the short-packet termination rule — one trailing zero-length packet
/// exactly when the transfer's total length is a positive multiple of 64.
pub fn framed_packets(data: &Vec<u8>, max_packet_size: usize) -> (r: Vec<Vec<u8>>)
    requires
        max_packet_size >= 1,
    ensures
        forall|i: int|
            #![trigger r@[i]]
            0 <= i < spec_num_packets(data@.len() as int, max_packet_size as int) ==> r@[i]@
                == spec_packet(data@, max_packet_size as int, i),
        data@.len() > 0 && data@.len() % 64 == 0 ==> r@.len() == spec_num_packets(
            data@.len() as int,
            max_packet_size as int,
        ) + 1,
        !(data@.len() > 0 && data@.len() % 64 == 0) ==> r@.len() == spec_num_packets(
            data@.len() as int,
            max_packet_size as int,
        ),
        data@.len() > 0 ==> (r@[r@.len() - 1]@.len() == 0 <==> data@.len() % 64 == 0),
{
    let mut packets = split_packets(data, max_packet_size);
    let n = data.len();
    if n > 0 && n % 64 == 0 {
        packets.push(Vec::new());
        return packets;
    }
    proof {
        let ni = n as int;
        let mi = max_packet_size as int;
        if ni > 0 {
            let k = spec_num_packets(ni, mi);
            vstd::arithmetic::div_mod::lemma_fundamental_div_mod(ni - 1, mi);
            vstd::arithmetic::mul::lemma_mul_is_distributive_add(mi, k - 1, 1);
            assert(mi * (k - 1) <= ni - 1);
            assert(mi * k == mi * (k - 1) + mi);
            assert(packets@[k - 1]@ == spec_packet(data@, mi, k - 1));
            assert(spec_packet(data@, mi, k - 1).len() > 0);
        }
    }
    packets
}


/// The container header announcing a streamed object of `rom_size` bytes:
/// the declared length covers the header itself plus the object.
pub open spec fn spec_rom_header(rom_size: u32, tid: u32) -> Seq<u8> {
    spec_le32((rom_size + 12) as u32) + spec_le16(2) + spec_le16(0x1009) + spec_le32(tid)
}

/// The state of one streamed object transfer: dump output is accumulated
/// into packets of the transport's packet size, each flushed exactly when
/// full; the remainder and the short-packet termination rule are applied at
/// the end of the stream.
pub struct RomTransferSession {
    /// Bytes accumulated but not yet handed to the transport.
    pub buffer: Vec<u8>,
    /// The transport's negotiated packet size.
    pub max_packet_size: usize,
    /// Bytes already handed to the transport.
    pub total_sent: u64,
}

impl RomTransferSession {
    /// The session's structural invariant: a packet size is positive and the
    /// accumulator never holds a full packet.
    pub open spec fn wf(&self) -> bool {
        &&& self.max_packet_size >= 1
        &&& self.buffer@.len() < self.max_packet_size
    }

    /// A fresh session for one transfer.
    pub fn new(max_packet_size: usize) -> (r: Self)
        requires
            max_packet_size >= 1,
        ensures
            r.wf(),
            r.max_packet_size == max_packet_size,
            r.buffer@.len() == 0,
            r.total_sent == 0,
    {
        RomTransferSession { buffer: Vec::new(), max_packet_size, total_sent: 0 }
    }

    /// Accumulates `bytes` and returns every packet that fills exactly, in
    /// order; the remainder stays accumulated.
    fn absorb(&mut self, bytes: &[u8]) -> (r: Vec<Vec<u8>>)
        requires
            old(self).wf(),
            old(self).total_sent + old(self).buffer@.len() + bytes@.len() <= u64::MAX,
        ensures
            final(self).wf(),
            final(self).max_packet_size == old(self).max_packet_size,
            r@.len() == (old(self).buffer@ + bytes@).len() as int / old(self).max_packet_size as int,
            forall|i: int|
                #![trigger r@[i]]
                0 <= i < r@.len() ==> r@[i]@ == (old(self).buffer@ + bytes@).subrange(
                    old(self).max_packet_size * i,
                    old(self).max_packet_size * (i + 1),
                ),
            final(self).buffer@ == (old(self).buffer@ + bytes@).subrange(
                old(self).max_packet_size as int * r@.len() as int,
                (old(self).buffer@ + bytes@).len() as int,
            ),
            final(self).total_sent == old(self).total_sent + old(self).max_packet_size as int
                * r@.len() as int,
    {
        let ghost combined = old(self).buffer@ + bytes@;
        let ghost start_total = old(self).total_sent;
        let mps = self.max_packet_size;
        crate::wire::write_buffer(&mut self.buffer, bytes);
        let mut packets: Vec<Vec<u8>> = Vec::new();
        proof {
            vstd::arithmetic::mul::lemma_mul_basics(mps as int);
            assert(self.buffer@ =~= combined.subrange(0, combined.len() as int));
        }
        while self.buffer.len() >= mps
            invariant
                mps == self.max_packet_size,
                mps >= 1,
                start_total + combined.len() <= u64::MAX,
                self.total_sent == start_total + mps as int * packets@.len() as int,
                mps as int * packets@.len() as int <= combined.len(),
                self.buffer@ == combined.subrange(
                    mps as int * packets@.len() as int,
                    combined.len() as int,
                ),
                forall|i: int|
                    #![trigger packets@[i]]
                    0 <= i < packets@.len() ==> packets@[i]@ == combined.subrange(
                        mps * i,
                        mps * (i + 1),
                    ),
            decreases self.buffer@.len(),
        {
            let ghost k = packets@.len() as int;
            let mut packet: Vec<u8> = Vec::new();
            let mut j: usize = 0;
            while j < mps
                invariant
                    j <= mps,
                    mps <= self.buffer@.len(),
                    packet@ == self.buffer@.subrange(0, j as int),
                decreases mps - j,
            {
                packet.push(self.buffer[j]);
                assert(packet@ =~= self.buffer@.subrange(0, j + 1));
                j = j + 1;
            }
            let blen = self.buffer.len();
            let mut rest: Vec<u8> = Vec::new();
            let mut j2: usize = mps;
            while j2 < blen
                invariant
                    mps <= j2 <= blen,
                    blen == self.buffer@.len(),
                    rest@ == self.buffer@.subrange(mps as int, j2 as int),
                decreases blen - j2,
            {
                rest.push(self.buffer[j2]);
                assert(rest@ =~= self.buffer@.subrange(mps as int, j2 + 1));
                j2 = j2 + 1;
            }
            proof {
                vstd::arithmetic::mul::lemma_mul_is_distributive_add(mps as int, k, 1);
                assert(mps as int * (k + 1) == mps as int * k + mps as int);
                assert(packet@ =~= combined.subrange(mps as int * k, mps as int * (k + 1)));
                assert(rest@ =~= combined.subrange(mps as int * (k + 1), combined.len() as int));
            }
            self.buffer = rest;
            self.total_sent = self.total_sent + mps as u64;
            packets.push(packet);
        }
        proof {
            let k = packets@.len() as int;
            let mi = mps as int;
            let ci = combined.len() as int;
            assert(ci - mi * k == self.buffer@.len());
            vstd::arithmetic::div_mod::lemma_fundamental_div_mod_converse(ci, mi, k, ci - mi * k);
            assert(ci / mi == k);
        }
        packets
    }

    /// Takes the one setup message of a dump: accumulates the container
    /// header that announces the image, flushing any packets that fill.
    pub fn on_setup_data(&mut self, rom_size: u32, transaction_id: u32) -> (r: Vec<Vec<u8>>)
        requires
            old(self).wf(),
            rom_size + 12 <= u32::MAX,
            old(self).total_sent + old(self).buffer@.len() + 12 <= u64::MAX,
        ensures
            final(self).wf(),
            final(self).max_packet_size == old(self).max_packet_size,
            r@.len() == (old(self).buffer@ + spec_rom_header(rom_size, transaction_id)).len() as int
                / old(self).max_packet_size as int,
            forall|i: int|
                #![trigger r@[i]]
                0 <= i < r@.len() ==> r@[i]@ == (old(self).buffer@ + spec_rom_header(
                    rom_size,
                    transaction_id,
                )).subrange(
                    old(self).max_packet_size * i,
                    old(self).max_packet_size * (i + 1),
                ),
            final(self).buffer@ == (old(self).buffer@ + spec_rom_header(
                rom_size,
                transaction_id,
            )).subrange(
                old(self).max_packet_size as int * r@.len() as int,
                (old(self).buffer@ + spec_rom_header(rom_size, transaction_id)).len() as int,
            ),
            final(self).total_sent == old(self).total_sent + old(self).max_packet_size as int
                * r@.len() as int,
    {
        let mut header: Vec<u8> = Vec::new();
        write_u32(&mut header, rom_size + 12);
        write_u16(&mut header, 2);
        write_u16(&mut header, 0x1009);
        write_u32(&mut header, transaction_id);
        assert(header@ =~= spec_rom_header(rom_size, transaction_id));
        self.absorb(header.as_slice())
    }

    /// Takes one data chunk of the dump: accumulates its meaningful bytes,
    /// flushing any packets that fill.
    pub fn on_data(&mut self, data: &[u8; 32], length: usize) -> (r: Vec<Vec<u8>>)
        requires
            old(self).wf(),
            length <= 32,
            old(self).total_sent + old(self).buffer@.len() + length <= u64::MAX,
        ensures
            final(self).wf(),
            final(self).max_packet_size == old(self).max_packet_size,
            r@.len() == (old(self).buffer@ + data@.take(length as int)).len() as int / old(
                self,
            ).max_packet_size as int,
            forall|i: int|
                #![trigger r@[i]]
                0 <= i < r@.len() ==> r@[i]@ == (old(self).buffer@ + data@.take(
                    length as int,
                )).subrange(
                    old(self).max_packet_size * i,
                    old(self).max_packet_size * (i + 1),
                ),
            final(self).buffer@ == (old(self).buffer@ + data@.take(length as int)).subrange(
                old(self).max_packet_size as int * r@.len() as int,
                (old(self).buffer@ + data@.take(length as int)).len() as int,
            ),
            final(self).total_sent == old(self).total_sent + old(self).max_packet_size as int
                * r@.len() as int,
    {
        let mut chunk: Vec<u8> = Vec::new();
        let mut i: usize = 0;
        while i < length
            invariant
                i <= length,
                length <= 32,
                chunk@ == data@.take(i as int),
            decreases length - i,
        {
            chunk.push(data[i]);
            assert(chunk@ =~= data@.take(i + 1));
            i = i + 1;
        }
        self.absorb(chunk.as_slice())
    }

    /// Ends the stream: flushes the remainder, if any, and appends one
    /// zero-length packet exactly when the total transmitted length is a
    /// multiple of 64.
    pub fn on_end(&mut self) -> (r: Vec<Vec<u8>>)
        requires
            old(self).wf(),
            old(self).total_sent + old(self).buffer@.len() <= u64::MAX,
        ensures
            final(self).wf(),
            final(self).max_packet_size == old(self).max_packet_size,
            final(self).buffer@.len() == 0,
            final(self).total_sent == old(self).total_sent + old(self).buffer@.len(),
            final(self).total_sent % 64 == 0 && old(self).buffer@.len() > 0 ==> r@.len() == 2
                && r@[0]@ == old(self).buffer@ && r@[1]@.len() == 0,
            final(self).total_sent % 64 != 0 && old(self).buffer@.len() > 0 ==> r@.len() == 1
                && r@[0]@ == old(self).buffer@,
            final(self).total_sent % 64 == 0 && old(self).buffer@.len() == 0 ==> r@.len() == 1
                && r@[0]@.len() == 0,
            final(self).total_sent % 64 != 0 && old(self).buffer@.len() == 0 ==> r@.len() == 0,
    {
        let mut packets: Vec<Vec<u8>> = Vec::new();
        let rem_len = self.buffer.len();
        if rem_len > 0 {
            let mut rem: Vec<u8> = Vec::new();
            std::mem::swap(&mut rem, &mut self.buffer);
            packets.push(rem);
        }
        self.total_sent = self.total_sent + rem_len as u64;
        if self.total_sent % 64 == 0 {
            packets.push(Vec::new());
        }
        packets
    }
}


/// What the data phase of one request does: a block of bytes to transmit, a
/// live exchange with the dump engine, a follow-up read of a data-out
/// container, or nothing.
pub enum DataPhaseAction {
    /// Transmit these bytes, framed at the packet size.
    Reply(Vec<u8>),
    /// Drive the dump engine and stream its output.
    RomTransfer(MsgStartConsole),
    /// Read a data-out container and validate it as object metadata.
    ReceiveObjectInfo,
    /// Read a data-out container and store it as the configuration file.
    ReceiveObject,
    /// No data phase.
    NoData,
}

/// The payload lengths each operation's data phase needs before its fields
/// can be read.
pub open spec fn spec_data_phase_wf(cmd: PtpCommand) -> bool {
    &&& (cmd.op_code == 0x1005 ==> cmd.payload.len() >= 4)
    &&& (cmd.op_code == 0x1007 ==> spec_handles_request_wf(cmd.payload@))
    &&& (cmd.op_code == 0x1008 ==> cmd.payload.len() >= 4)
    &&& (cmd.op_code == 0x1009 ==> cmd.payload.len() >= 4)
    &&& (cmd.op_code == 0x100b ==> cmd.payload.len() >= 4)
    &&& (cmd.op_code == 0x100c ==> cmd.payload.len() >= 8)
}

impl MtpEngine {
    /// Decides the data phase of one parsed request, by operation code: the
    /// metadata operations reply with their blocks; an object read of a ROM
    /// file becomes a live dump exchange, and of the configuration file its
    /// content; a delete request takes effect here; the two send operations
    /// ask for a follow-up data-out read — send-object-info only when the
    /// destination storage id and the parent handle both name the fixed
    /// store's first folder; anything else has no data phase.
    pub fn data_phase(&mut self, cmd: &PtpCommand) -> (r: DataPhaseAction)
        requires
            old(self).wf(),
            spec_data_phase_wf(*cmd),
        ensures
            final(self).wf(),
            cmd.op_code != 0x100b ==> *final(self) == *old(self),
            cmd.op_code == 0x100b ==> final(self).configuration_file_deleted == (old(
                self,
            ).configuration_file_deleted || spec_u32_at(cmd.payload@, 0) == 3 || spec_u32_at(
                cmd.payload@,
                0,
            ) == 0xFFFFFFFF) && final(self).configuration_file == old(self).configuration_file
                && final(self).configuration_file_size == old(self).configuration_file_size,
            cmd.op_code == 0x1001 ==> (r matches DataPhaseAction::Reply(b) && b@ == spec_container(
                2,
                0x1001,
                cmd.transaction_id,
                spec_device_info_payload(),
            )),
            cmd.op_code == 0x1004 ==> (r matches DataPhaseAction::Reply(b) && b@ == spec_container(
                2,
                0x1004,
                cmd.transaction_id,
                spec_le32(1) + spec_le32(0x00010001),
            )),
            cmd.op_code == 0x1005 && spec_u32_at(cmd.payload@, 0) == 0x00010001 ==> (
            r matches DataPhaseAction::Reply(b) && b@ == spec_container(
                2,
                0x1005,
                cmd.transaction_id,
                spec_storage_info_payload(),
            )),
            cmd.op_code == 0x1005 && spec_u32_at(cmd.payload@, 0) != 0x00010001 ==> (
            r matches DataPhaseAction::Reply(b) && b@.len() == 0),
            cmd.op_code == 0x1007 ==> (r matches DataPhaseAction::Reply(b) && b@ == spec_container(
                2,
                0x1007,
                cmd.transaction_id,
                spec_le32(
                    spec_object_handles(
                        old(self).configuration_file_deleted,
                        cmd.payload@,
                    ).len() as u32,
                ) + spec_u32_list_bytes(
                    spec_object_handles(old(self).configuration_file_deleted, cmd.payload@),
                ),
            )),
            cmd.op_code == 0x1008 ==> (r matches DataPhaseAction::Reply(b) && (spec_u32_at(
                cmd.payload@,
                0,
            ) == 1 ==> b@ == spec_container(
                2,
                0x1008,
                cmd.transaction_id,
                spec_object_info_block(0x3001, 0x0001, 0, 0, 0x0001, spec_str_nes()),
            )) && (spec_u32_at(cmd.payload@, 0) == 2 ==> b@ == spec_container(
                2,
                0x1008,
                cmd.transaction_id,
                spec_object_info_block(0x3000, 0x0001, 0xA010, 1, 0, spec_str_rom_nes()),
            )) && (spec_u32_at(cmd.payload@, 0) == 3 ==> b@ == spec_container(
                2,
                0x1008,
                cmd.transaction_id,
                spec_object_info_block(
                    0x3000,
                    0x0000,
                    old(self).configuration_file_size as u32,
                    1,
                    0,
                    spec_str_config_json(),
                ),
            )) && (spec_u32_at(cmd.payload@, 0) == 4 ==> b@ == spec_container(
                2,
                0x1008,
                cmd.transaction_id,
                spec_object_info_block(0x3001, 0x0001, 0, 0, 0x0001, spec_str_snes()),
            )) && (spec_u32_at(cmd.payload@, 0) == 5 ==> b@ == spec_container(
                2,
                0x1008,
                cmd.transaction_id,
                spec_object_info_block(0x3000, 0x0001, 0x100000, 4, 0, spec_str_rom_sfc()),
            )) && (!(1 <= spec_u32_at(cmd.payload@, 0) <= 5) ==> b@.len() == 0)),
            cmd.op_code == 0x1009 && spec_u32_at(cmd.payload@, 0) == 2 ==> (
            r matches DataPhaseAction::RomTransfer(c) && c is Nes),
            cmd.op_code == 0x1009 && spec_u32_at(cmd.payload@, 0) == 5 ==> (
            r matches DataPhaseAction::RomTransfer(c) && c is Snes),
            cmd.op_code == 0x1009 && spec_u32_at(cmd.payload@, 0) == 3 ==> (
            r matches DataPhaseAction::Reply(b) && b@ == spec_container(
                2,
                0x1009,
                cmd.transaction_id,
                old(self).spec_configuration_content(),
            )),
            cmd.op_code == 0x1009 && !(spec_u32_at(cmd.payload@, 0) == 2 || spec_u32_at(
                cmd.payload@,
                0,
            ) == 3 || spec_u32_at(cmd.payload@, 0) == 5) ==> (r is NoData),
            cmd.op_code == 0x100b ==> (r is NoData),
            cmd.op_code == 0x100c && spec_u32_at(cmd.payload@, 0) == 0x00010001 && spec_u32_at(
                cmd.payload@,
                4,
            ) == 1 ==> (r is ReceiveObjectInfo),
            cmd.op_code == 0x100c && !(spec_u32_at(cmd.payload@, 0) == 0x00010001 && spec_u32_at(
                cmd.payload@,
                4,
            ) == 1) ==> (r is NoData),
            cmd.op_code == 0x100d ==> (r is ReceiveObject),
            !(cmd.op_code == 0x1001 || cmd.op_code == 0x1004 || cmd.op_code == 0x1005
                || cmd.op_code == 0x1007 || cmd.op_code == 0x1008 || cmd.op_code == 0x1009
                || cmd.op_code == 0x100b || cmd.op_code == 0x100c || cmd.op_code == 0x100d) ==> (
            r is NoData),
    {
        if cmd.op_code == 0x1001 {
            DataPhaseAction::Reply(self.generate_device_info_response(cmd.transaction_id))
        } else if cmd.op_code == 0x1004 {
            DataPhaseAction::Reply(self.generate_storage_id_response(cmd.transaction_id))
        } else if cmd.op_code == 0x1005 {
            DataPhaseAction::Reply(self.generate_storage_info_response(cmd.transaction_id, cmd))
        } else if cmd.op_code == 0x1007 {
            DataPhaseAction::Reply(self.generate_object_handles_response(cmd.transaction_id, cmd))
        } else if cmd.op_code == 0x1008 {
            DataPhaseAction::Reply(self.generate_object_info_response(cmd.transaction_id, cmd))
        } else if cmd.op_code == 0x1009 {
            let handle = crate::wire::read_u32_at(cmd.payload.as_slice(), 0);
            if handle == 2 {
                DataPhaseAction::RomTransfer(MsgStartConsole::Nes)
            } else if handle == 3 {
                DataPhaseAction::Reply(self.generate_config_json_object_response(
                    cmd.transaction_id,
                ))
            } else if handle == 5 {
                DataPhaseAction::RomTransfer(MsgStartConsole::Snes)
            } else {
                DataPhaseAction::NoData
            }
        } else if cmd.op_code == 0x100b {
            self.generate_delete_object_response(cmd);
            DataPhaseAction::NoData
        } else if cmd.op_code == 0x100c {
            let storage_id = crate::wire::read_u32_at(cmd.payload.as_slice(), 0);
            let parent_id = crate::wire::read_u32_at(cmd.payload.as_slice(), 4);
            if storage_id == 0x00010001 && parent_id == 1 {
                DataPhaseAction::ReceiveObjectInfo
            } else {
                DataPhaseAction::NoData
            }
        } else if cmd.op_code == 0x100d {
            DataPhaseAction::ReceiveObject
        } else {
            DataPhaseAction::NoData
        }
    }

    /// The response block that closes one request: success for every
    /// supported operation — except storage-info, which reports the store as
    /// unavailable when its data phase produced nothing — and no block at
    /// all for send-object-info, which answers during its data phase, or for
    /// an unsupported operation.
    pub fn response_phase(&self, op_code: u16, data_len: usize, transaction_id: u32) -> (r: Vec<
        u8,
    >)
        ensures
            op_code == 0x1001 || op_code == 0x1002 || op_code == 0x1003 || op_code == 0x1004
                || op_code == 0x1007 || op_code == 0x1008 || op_code == 0x1009 || op_code == 0x100b
                || op_code == 0x100d ==> r@ == spec_container(
                3,
                0x2001,
                transaction_id,
                Seq::empty(),
            ),
            op_code == 0x1005 && data_len == 0 ==> r@ == spec_container(
                3,
                0x2013,
                transaction_id,
                Seq::empty(),
            ),
            op_code == 0x1005 && data_len > 0 ==> r@ == spec_container(
                3,
                0x2001,
                transaction_id,
                Seq::empty(),
            ),
            !(op_code == 0x1001 || op_code == 0x1002 || op_code == 0x1003 || op_code == 0x1004
                || op_code == 0x1005 || op_code == 0x1007 || op_code == 0x1008 || op_code == 0x1009
                || op_code == 0x100b || op_code == 0x100d) ==> r@.len() == 0,
    {
        if op_code == 0x1001 || op_code == 0x1002 || op_code == 0x1003 || op_code == 0x1004
            || op_code == 0x1007 || op_code == 0x1008 || op_code == 0x1009 || op_code == 0x100b
            || op_code == 0x100d {
            self.generate_ok_response_block(transaction_id)
        } else if op_code == 0x1005 {
            if data_len == 0 {
                self.generate_error_response_block(
                    transaction_id,
                    MtpCommandError::StoreNotAvailable,
                )
            } else {
                self.generate_ok_response_block(transaction_id)
            }
        } else {
            Vec::new()
        }
    }
}

} // verus!
