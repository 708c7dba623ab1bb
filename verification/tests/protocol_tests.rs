use mtp_dumper::dumper::MsgStartConsole;
use mtp_dumper::mtp::{
    framed_packets, split_packets, utf16le_bytes, DataPhaseAction, MtpCommandError,
    MtpContainerType, MtpEngine, MtpError, PtpCommand, RomTransferSession,
};
use mtp_dumper::mtp_handler::{MtpRequest, UsbMtpDevice};
use mtp_dumper::wire::{read_u16_at, read_u32_at, write_string, write_u16, write_u32, write_u64, write_u8};

fn engine_with(content: &[u8]) -> MtpEngine {
    MtpEngine::new(content)
}

/// A handle-listing request payload: storage id, format-code list, parent
/// filter.
fn handles_payload(storage_id: u32, codes: &[u16], assoc: u32) -> Vec<u8> {
    let mut p = Vec::new();
    write_u32(&mut p, storage_id);
    write_u32(&mut p, codes.len() as u32);
    for c in codes {
        write_u16(&mut p, *c);
    }
    write_u32(&mut p, assoc);
    p
}

fn command(op_code: u16, transaction_id: u32, payload: Vec<u8>) -> PtpCommand {
    PtpCommand { op_code, transaction_id, payload }
}

#[test]
fn parse_accepts_well_formed_command() {
    let mut buf = Vec::new();
    write_u32(&mut buf, 16);
    write_u16(&mut buf, 1); // command phase
    write_u16(&mut buf, 0x1001);
    write_u32(&mut buf, 0xDEADBEEF);
    write_u32(&mut buf, 0x11223344); // payload
    let engine = engine_with(b"");
    let cmd = engine
        .parse_mtp_command(&buf, MtpContainerType::Command)
        .unwrap();
    assert_eq!(cmd.op_code, 0x1001);
    assert_eq!(cmd.transaction_id, 0xDEADBEEF);
    assert_eq!(cmd.payload, vec![0x44, 0x33, 0x22, 0x11]);
}

#[test]
fn parse_rejects_short_declared_length() {
    let mut buf = Vec::new();
    write_u32(&mut buf, 11);
    write_u16(&mut buf, 1);
    write_u16(&mut buf, 0x1001);
    write_u32(&mut buf, 7);
    let engine = engine_with(b"");
    assert_eq!(
        engine.parse_mtp_command(&buf, MtpContainerType::Command),
        Err(MtpError::CannotParseHeader)
    );
}

#[test]
fn parse_rejects_out_of_phase_container() {
    let mut buf = Vec::new();
    write_u32(&mut buf, 12);
    write_u16(&mut buf, 2); // data phase tag
    write_u16(&mut buf, 0x1001);
    write_u32(&mut buf, 7);
    let engine = engine_with(b"");
    assert_eq!(
        engine.parse_mtp_command(&buf, MtpContainerType::Command),
        Err(MtpError::WrongPacketType)
    );
}

#[test]
fn parse_rejects_declared_length_past_buffer() {
    let mut buf = Vec::new();
    write_u32(&mut buf, 200);
    write_u16(&mut buf, 1);
    write_u16(&mut buf, 0x1001);
    write_u32(&mut buf, 7);
    buf.resize(64, 0);
    let engine = engine_with(b"");
    assert_eq!(
        engine.parse_mtp_command(&buf, MtpContainerType::Command),
        Err(MtpError::CannotParseHeader)
    );
}

#[test]
fn ok_and_error_response_blocks() {
    let engine = engine_with(b"");
    let ok = engine.generate_ok_response_block(0x01020304);
    assert_eq!(ok, vec![12, 0, 0, 0, 3, 0, 0x01, 0x20, 0x04, 0x03, 0x02, 0x01]);
    let err = engine.generate_error_response_block(5, MtpCommandError::StoreNotAvailable);
    assert_eq!(err[6..8], [0x13, 0x20]);
    let too_large = engine.generate_error_response_block(5, MtpCommandError::ObjectTooLarge);
    assert_eq!(too_large[6..8], [0x09, 0xA8]);
}

#[test]
fn device_info_header_and_version() {
    let engine = engine_with(b"");
    let info = engine.generate_device_info_response(9);
    let total = read_u32_at(&info, 0) as usize;
    assert_eq!(total, info.len());
    assert_eq!(read_u16_at(&info, 4), 2);
    assert_eq!(read_u16_at(&info, 6), 0x1001);
    assert_eq!(read_u32_at(&info, 8), 9);
    // StandardVersion, VendorExtensionID, VendorExtensionVersion.
    assert_eq!(read_u16_at(&info, 12), 110);
    assert_eq!(read_u32_at(&info, 14), 6);
    assert_eq!(read_u16_at(&info, 18), 100);
}

#[test]
fn storage_id_list() {
    let engine = engine_with(b"");
    let ids = engine.generate_storage_id_response(1);
    assert_eq!(read_u32_at(&ids, 0), 20);
    assert_eq!(read_u32_at(&ids, 12), 1);
    assert_eq!(read_u32_at(&ids, 16), 0x00010001);
}

#[test]
fn storage_info_requires_fixed_id() {
    let engine = engine_with(b"");
    let mut good = Vec::new();
    write_u32(&mut good, 0x00010001);
    let info = engine.generate_storage_info_response(1, &command(0x1005, 1, good));
    assert!(!info.is_empty());
    assert_eq!(read_u16_at(&info, 12), 0x0004);
    let mut bad = Vec::new();
    write_u32(&mut bad, 0x00010002);
    let empty = engine.generate_storage_info_response(1, &command(0x1005, 1, bad));
    assert!(empty.is_empty());
    // The response phase then reports the store as unavailable.
    let block = engine.response_phase(0x1005, 0, 1);
    assert_eq!(read_u16_at(&block, 6), 0x2013);
    let ok_block = engine.response_phase(0x1005, 40, 1);
    assert_eq!(read_u16_at(&ok_block, 6), 0x2001);
}

#[test]
fn object_listing_folders_ascending() {
    // Fixed storage id, folder format code, wildcard parent: exactly the two
    // root folders, in ascending numeric order.
    let engine = engine_with(b"");
    let payload = handles_payload(0x00010001, &[0x3001], 0);
    let r = engine.generate_object_handles_response(7, &command(0x1007, 7, payload));
    assert_eq!(read_u32_at(&r, 12), 2);
    assert_eq!(read_u32_at(&r, 16), 1);
    assert_eq!(read_u32_at(&r, 20), 4);
}

#[test]
fn object_listing_all_wildcards() {
    let engine = engine_with(b"");
    let payload = handles_payload(0xFFFFFFFF, &[], 0);
    let r = engine.generate_object_handles_response(7, &command(0x1007, 7, payload));
    assert_eq!(read_u32_at(&r, 12), 5);
    let handles: Vec<u32> = (0..5).map(|i| read_u32_at(&r, 16 + 4 * i)).collect();
    assert_eq!(handles, vec![1, 4, 2, 3, 5]);
}

#[test]
fn object_listing_unknown_storage_is_empty() {
    let engine = engine_with(b"");
    let payload = handles_payload(0x00020001, &[], 0);
    let r = engine.generate_object_handles_response(7, &command(0x1007, 7, payload));
    assert_eq!(read_u32_at(&r, 12), 0);
    assert_eq!(r.len(), 16);
}

#[test]
fn soft_delete_hides_handle_but_keeps_info() {
    let content = b"{\"mapper\":1}";
    let mut engine = engine_with(content);
    // Delete the configuration-file handle.
    let mut del = Vec::new();
    write_u32(&mut del, 3);
    let action = engine.data_phase(&command(0x100b, 2, del));
    assert!(matches!(action, DataPhaseAction::NoData));
    assert!(engine.configuration_file_deleted);
    // It disappears from listings.
    let payload = handles_payload(0x00010001, &[], 0);
    let r = engine.generate_object_handles_response(7, &command(0x1007, 7, payload));
    assert_eq!(read_u32_at(&r, 12), 4);
    let handles: Vec<u32> = (0..4).map(|i| read_u32_at(&r, 16 + 4 * i)).collect();
    assert_eq!(handles, vec![1, 4, 2, 5]);
    // Its object info still resolves and reports the live size.
    let mut info_req = Vec::new();
    write_u32(&mut info_req, 3);
    let info = engine.generate_object_info_response(7, &command(0x1008, 7, info_req));
    assert!(!info.is_empty());
    // Object Compressed Size sits after storage id, format and protection.
    assert_eq!(read_u32_at(&info, 20) as usize, content.len());
}

#[test]
fn delete_wildcard_also_deletes() {
    let mut engine = engine_with(b"x");
    let mut del = Vec::new();
    write_u32(&mut del, 0xFFFFFFFF);
    engine.generate_delete_object_response(&command(0x100b, 2, del));
    assert!(engine.configuration_file_deleted);
    let mut other = Vec::new();
    write_u32(&mut other, 2);
    let mut engine2 = engine_with(b"x");
    engine2.generate_delete_object_response(&command(0x100b, 2, other));
    assert!(!engine2.configuration_file_deleted);
}

#[test]
fn object_info_unknown_handle_is_empty() {
    let engine = engine_with(b"");
    let mut req = Vec::new();
    write_u32(&mut req, 9);
    assert!(engine
        .generate_object_info_response(7, &command(0x1008, 7, req))
        .is_empty());
}

#[test]
fn config_object_content() {
    let content = b"{\"mapper\":4}";
    let engine = engine_with(content);
    let r = engine.generate_config_json_object_response(3);
    assert_eq!(read_u32_at(&r, 0) as usize, 12 + content.len());
    assert_eq!(read_u16_at(&r, 6), 0x1009);
    assert_eq!(&r[12..], content);
}

/// A well-formed send-object-info data payload naming the configuration
/// file, laid out at the offsets the validator reads.
fn object_info_payload(
    format: u16,
    size: u32,
    parent: u32,
    assoc_type: u16,
    assoc_desc: u32,
    name: &[u8],
) -> Vec<u8> {
    let mut p = vec![0u8; 52];
    p[4..6].copy_from_slice(&format.to_le_bytes());
    p[8..12].copy_from_slice(&size.to_le_bytes());
    p[38..42].copy_from_slice(&parent.to_le_bytes());
    p[42..44].copy_from_slice(&assoc_type.to_le_bytes());
    p[44..48].copy_from_slice(&assoc_desc.to_le_bytes());
    p.push((name.len() + 1) as u8);
    p.extend_from_slice(&utf16le_bytes(name));
    p.push(0);
    p.push(0);
    p
}

#[test]
fn send_object_info_accepts_the_expected_file() {
    let engine = engine_with(b"");
    let payload = object_info_payload(0x3000, 100, 1, 0, 0, b"config.json");
    let cmd = command(0x100c, 5, payload);
    assert_eq!(engine.validate_send_object_info(&cmd), Ok(()));
    let block = engine.send_object_info_success_block(5);
    assert_eq!(read_u32_at(&block, 0), 24);
    assert_eq!(read_u16_at(&block, 6), 0x2001);
    assert_eq!(read_u32_at(&block, 12), 0x00010001);
    assert_eq!(read_u32_at(&block, 16), 1);
    assert_eq!(read_u32_at(&block, 20), 3);
}

#[test]
fn send_object_info_error_codes() {
    let engine = engine_with(b"");
    let wrong_format = object_info_payload(0x3001, 100, 1, 0, 0, b"config.json");
    assert_eq!(
        engine.validate_send_object_info(&command(0x100c, 5, wrong_format)),
        Err(MtpCommandError::InvalidObjectFormatCode)
    );
    let too_large = object_info_payload(0x3000, 1025, 1, 0, 0, b"config.json");
    assert_eq!(
        engine.validate_send_object_info(&command(0x100c, 5, too_large)),
        Err(MtpCommandError::ObjectTooLarge)
    );
    let wrong_parent = object_info_payload(0x3000, 100, 2, 0, 0, b"config.json");
    assert_eq!(
        engine.validate_send_object_info(&command(0x100c, 5, wrong_parent)),
        Err(MtpCommandError::InvalidParentObject)
    );
    let with_assoc = object_info_payload(0x3000, 100, 1, 1, 0, b"config.json");
    assert_eq!(
        engine.validate_send_object_info(&command(0x100c, 5, with_assoc)),
        Err(MtpCommandError::OperationNotSupported)
    );
    let with_desc = object_info_payload(0x3000, 100, 1, 0, 7, b"config.json");
    assert_eq!(
        engine.validate_send_object_info(&command(0x100c, 5, with_desc)),
        Err(MtpCommandError::OperationNotSupported)
    );
    let wrong_name = object_info_payload(0x3000, 100, 1, 0, 0, b"config.trust");
    assert_eq!(
        engine.validate_send_object_info(&command(0x100c, 5, wrong_name)),
        Err(MtpCommandError::OperationNotSupported)
    );
}

#[test]
fn store_configuration_clips_at_capacity() {
    let mut engine = engine_with(b"old");
    engine.store_configuration(&vec![7u8; 10]);
    assert_eq!(engine.configuration_file_size, 10);
    assert_eq!(&engine.configuration_file[..10], &[7u8; 10]);
    // Every buffer byte past the content is cleared.
    assert!(engine.configuration_file[10..].iter().all(|b| *b == 0));
    engine.store_configuration(&vec![9u8; 2000]);
    assert_eq!(engine.configuration_file_size, 1024);
}

#[test]
fn packet_framing_split() {
    let data: Vec<u8> = (0..150u32).map(|i| i as u8).collect();
    let packets = split_packets(&data, 64);
    assert_eq!(packets.len(), 3);
    assert_eq!(packets[0].len(), 64);
    assert_eq!(packets[1].len(), 64);
    assert_eq!(packets[2].len(), 22);
    assert_eq!(packets[0][0], 0);
    assert_eq!(packets[2][21], 149);
}

#[test]
fn packet_framing_zero_length_packet_rule() {
    // An exact multiple of 64 ends with one zero-length packet.
    let exact: Vec<u8> = vec![1; 128];
    let framed = framed_packets(&exact, 64);
    assert_eq!(framed.len(), 3);
    assert!(framed[2].is_empty());
    // A length that is not a multiple of 64 does not.
    let uneven: Vec<u8> = vec![1; 100];
    let framed = framed_packets(&uneven, 64);
    assert_eq!(framed.len(), 2);
    assert!(!framed[1].is_empty());
}

#[test]
fn rom_transfer_streams_and_terminates() {
    // A 116-byte image: with the 12-byte container header the transfer is
    // 128 bytes, an exact multiple of 64.
    let mut session = RomTransferSession::new(64);
    let mut sent: Vec<Vec<u8>> = Vec::new();
    sent.extend(session.on_setup_data(116, 1));
    let chunk = [0xAAu8; 32];
    for _ in 0..3 {
        sent.extend(session.on_data(&chunk, 32));
    }
    sent.extend(session.on_data(&chunk, 20));
    sent.extend(session.on_end());
    let total: usize = sent.iter().map(|p| p.len()).sum();
    assert_eq!(total, 128);
    assert_eq!(sent.len(), 3);
    assert_eq!(sent[0].len(), 64);
    assert_eq!(sent[1].len(), 64);
    assert!(sent[2].is_empty());
    // The header leads the stream.
    assert_eq!(read_u32_at(&sent[0], 0), 128);
    assert_eq!(read_u16_at(&sent[0], 4), 2);
    assert_eq!(read_u16_at(&sent[0], 6), 0x1009);
}

#[test]
fn rom_transfer_uneven_length_has_no_zero_packet() {
    let mut session = RomTransferSession::new(64);
    let mut sent: Vec<Vec<u8>> = Vec::new();
    sent.extend(session.on_setup_data(50, 1));
    let chunk = [0x55u8; 32];
    sent.extend(session.on_data(&chunk, 32));
    sent.extend(session.on_data(&chunk, 18));
    sent.extend(session.on_end());
    let total: usize = sent.iter().map(|p| p.len()).sum();
    assert_eq!(total, 62);
    assert_eq!(sent.len(), 1);
    assert_eq!(sent[0].len(), 62);
}

#[test]
fn data_phase_dispatch() {
    let mut engine = engine_with(b"{}");
    let info = engine.data_phase(&command(0x1001, 1, Vec::new()));
    assert!(matches!(info, DataPhaseAction::Reply(b) if !b.is_empty()));
    let mut h2 = Vec::new();
    write_u32(&mut h2, 2);
    let nes = engine.data_phase(&command(0x1009, 1, h2));
    assert!(matches!(nes, DataPhaseAction::RomTransfer(MsgStartConsole::Nes)));
    let mut h5 = Vec::new();
    write_u32(&mut h5, 5);
    let snes = engine.data_phase(&command(0x1009, 1, h5));
    assert!(matches!(snes, DataPhaseAction::RomTransfer(MsgStartConsole::Snes)));
    let mut h1 = Vec::new();
    write_u32(&mut h1, 1);
    let folder = engine.data_phase(&command(0x1009, 1, h1));
    assert!(matches!(folder, DataPhaseAction::NoData));
    let recv = engine.data_phase(&command(0x100d, 1, Vec::new()));
    assert!(matches!(recv, DataPhaseAction::ReceiveObject));
    let unknown = engine.data_phase(&command(0x1015, 1, Vec::new()));
    assert!(matches!(unknown, DataPhaseAction::NoData));
    // Send-object-info reads its data phase only when the destination
    // storage id and the parent handle both match.
    let mut precheck = Vec::new();
    write_u32(&mut precheck, 0x00010001);
    write_u32(&mut precheck, 1);
    let recv_info = engine.data_phase(&command(0x100c, 1, precheck));
    assert!(matches!(recv_info, DataPhaseAction::ReceiveObjectInfo));
    let mut bad_storage = Vec::new();
    write_u32(&mut bad_storage, 0x00020001);
    write_u32(&mut bad_storage, 1);
    let none = engine.data_phase(&command(0x100c, 1, bad_storage));
    assert!(matches!(none, DataPhaseAction::NoData));
    let mut bad_parent = Vec::new();
    write_u32(&mut bad_parent, 0x00010001);
    write_u32(&mut bad_parent, 9);
    let none = engine.data_phase(&command(0x100c, 1, bad_parent));
    assert!(matches!(none, DataPhaseAction::NoData));
    let mut bad_both = Vec::new();
    write_u32(&mut bad_both, 0x00020001);
    write_u32(&mut bad_both, 9);
    let none = engine.data_phase(&command(0x100c, 1, bad_both));
    assert!(matches!(none, DataPhaseAction::NoData));
}

#[test]
fn response_phase_codes() {
    let engine = engine_with(b"");
    for op in [0x1001u16, 0x1002, 0x1003, 0x1004, 0x1007, 0x1008, 0x1009, 0x100b, 0x100d] {
        let block = engine.response_phase(op, 0, 1);
        assert_eq!(read_u16_at(&block, 6), 0x2001);
    }
    // Send-object-info answers during its own data phase.
    assert!(engine.response_phase(0x100c, 0, 1).is_empty());
    assert!(engine.response_phase(0x1099, 0, 1).is_empty());
}

#[test]
fn ptp_string_encoding() {
    let mut buf = Vec::new();
    write_string(&mut buf, b"NES");
    assert_eq!(buf, vec![4, 0x4E, 0, 0x45, 0, 0x53, 0, 0, 0]);
    let mut empty = Vec::new();
    write_string(&mut empty, b"");
    assert_eq!(empty, vec![0]);
}

#[test]
fn little_endian_field_writers() {
    let mut buf = Vec::new();
    write_u8(&mut buf, 0xAB);
    write_u16(&mut buf, 0x1234);
    write_u32(&mut buf, 0x01020304);
    write_u64(&mut buf, 0x1122334455667788);
    assert_eq!(
        buf,
        vec![
            0xAB, 0x34, 0x12, 0x04, 0x03, 0x02, 0x01, 0x88, 0x77, 0x66, 0x55, 0x44, 0x33, 0x22,
            0x11
        ]
    );
    assert_eq!(read_u16_at(&buf, 1), 0x1234);
    assert_eq!(read_u32_at(&buf, 3), 0x01020304);
}

#[test]
fn mtp_request_try_from() {
    assert_eq!(MtpRequest::try_from(0), Ok(MtpRequest::Detach));
    assert_eq!(MtpRequest::try_from(1), Ok(MtpRequest::Dnload));
    assert_eq!(MtpRequest::try_from(2), Ok(MtpRequest::Upload));
    assert_eq!(MtpRequest::try_from(3), Ok(MtpRequest::GetStatus));
    assert_eq!(MtpRequest::try_from(4), Ok(MtpRequest::ClrStatus));
    assert_eq!(MtpRequest::try_from(5), Ok(MtpRequest::GetState));
    assert_eq!(MtpRequest::try_from(6), Ok(MtpRequest::Abort));
    assert_eq!(MtpRequest::try_from(7), Err(()));
}

#[test]
fn usb_mtp_device_rejects_requests() {
    let mut device = UsbMtpDevice::new();
    let mut buf = [3u8; 8];
    assert_eq!(device.handle_mtp_in(MtpRequest::GetStatus, &mut buf), Err(()));
    // The buffer is left untouched.
    assert_eq!(buf, [3u8; 8]);
}
