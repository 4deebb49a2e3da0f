use komari_monitor_rs::netlink::{
    count_netlink_messages, netlink_message_header, nlm_align_of, serialize_netlink_message,
    tally_batch, ByteOrder, NetlinkError, FAMILY_INET, FAMILY_INET6, PROTOCOL_TCP, PROTOCOL_UDP,
    REQUEST_LEN,
};

const LE: ByteOrder = ByteOrder::Little;
const BE: ByteOrder = ByteOrder::Big;

fn header_in(len: u32, kind: u16, o: ByteOrder) -> Vec<u8> {
    let mut v = Vec::new();
    match o {
        ByteOrder::Little => {
            v.extend_from_slice(&len.to_le_bytes());
            v.extend_from_slice(&kind.to_le_bytes());
        }
        ByteOrder::Big => {
            v.extend_from_slice(&len.to_be_bytes());
            v.extend_from_slice(&kind.to_be_bytes());
        }
    }
    v.extend_from_slice(&[0u8; 10]);
    v
}

fn header(len: u32, kind: u16) -> Vec<u8> {
    header_in(len, kind, LE)
}

fn message_in(len: u32, kind: u16, o: ByteOrder) -> Vec<u8> {
    let mut v = header_in(len, kind, o);
    let padded = ((len as usize) + 3) / 4 * 4;
    v.resize(padded, 0);
    v
}

fn message(len: u32, kind: u16) -> Vec<u8> {
    message_in(len, kind, LE)
}

#[test]
fn tcp_request_layout() {
    let r = serialize_netlink_message(FAMILY_INET, PROTOCOL_TCP, LE);
    assert_eq!(r.len(), REQUEST_LEN);
    assert_eq!(&r[0..4], &72u32.to_le_bytes());
    assert_eq!(&r[4..6], &20u16.to_le_bytes());
    assert_eq!(&r[6..8], &0x301u16.to_le_bytes());
    assert!(r[8..16].iter().all(|b| *b == 0));
    assert_eq!(&r[16..20], &[2, 6, 0, 0]);
    assert_eq!(&r[20..24], &2u32.to_le_bytes());
    assert!(r[24..].iter().all(|b| *b == 0));
}

#[test]
fn big_endian_request_layout() {
    let r = serialize_netlink_message(FAMILY_INET, PROTOCOL_TCP, BE);
    assert_eq!(&r[0..4], &72u32.to_be_bytes());
    assert_eq!(&r[4..6], &20u16.to_be_bytes());
    assert_eq!(&r[6..8], &0x301u16.to_be_bytes());
    assert_eq!(&r[20..24], &2u32.to_be_bytes());
}

#[test]
fn udp_request_asks_every_state() {
    let r = serialize_netlink_message(FAMILY_INET6, PROTOCOL_UDP, LE);
    assert_eq!(&r[16..18], &[10, 17]);
    assert_eq!(&r[20..24], &[0xff, 0xff, 0xff, 0xff]);
}

#[test]
fn alignment_values() {
    assert_eq!(nlm_align_of(0), 0);
    assert_eq!(nlm_align_of(1), 4);
    assert_eq!(nlm_align_of(16), 16);
    assert_eq!(nlm_align_of(17), 20);
    assert_eq!(nlm_align_of(u32::MAX), 4294967296);
}

#[test]
fn header_reads_length_and_end() {
    assert_eq!(netlink_message_header(&message(18, 20), LE), Ok((20, false)));
    assert_eq!(netlink_message_header(&message(16, 3), LE), Ok((16, true)));
    assert_eq!(netlink_message_header(&message(16, 2), LE), Ok((16, true)));
    assert_eq!(netlink_message_header(&message_in(18, 3, BE), BE), Ok((20, true)));
    assert_eq!(netlink_message_header(&header(15, 20), LE), Err(NetlinkError::Malformed));
    assert_eq!(netlink_message_header(&header(40, 20), LE), Err(NetlinkError::Malformed));
    assert_eq!(netlink_message_header(&[0u8; 8], LE), Err(NetlinkError::Malformed));
}

#[test]
fn counts_records_before_done() {
    let mut batch = message(72, 20);
    batch.extend(message(72, 20));
    batch.extend(message(16, 3));
    batch.extend(message(72, 20));
    assert_eq!(count_netlink_messages(&batch, LE), Ok((2, true)));
}

#[test]
fn done_alone_counts_no_record() {
    assert_eq!(count_netlink_messages(&message(16, 3), LE), Ok((0, true)));
    assert_eq!(count_netlink_messages(&message(20, 2), LE), Ok((0, true)));
}

#[test]
fn counts_big_endian_batch() {
    let mut batch = message_in(72, 20, BE);
    batch.extend(message_in(16, 3, BE));
    assert_eq!(count_netlink_messages(&batch, BE), Ok((1, true)));
}

#[test]
fn counts_messages_without_done() {
    let mut batch = message(72, 20);
    batch.extend(message(30, 20));
    batch.extend_from_slice(&[1, 2, 3]);
    assert_eq!(count_netlink_messages(&batch, LE), Ok((2, false)));
    assert_eq!(count_netlink_messages(&[], LE), Ok((0, false)));
}

#[test]
fn malformed_batch_is_an_error() {
    let mut batch = message(72, 20);
    batch.extend(header(8, 20));
    assert_eq!(count_netlink_messages(&batch, LE), Err(NetlinkError::Malformed));
}

#[test]
fn tally_adds_batches() {
    assert_eq!(tally_batch(5, &message(16, 20), LE), Ok((6, false)));
    assert_eq!(tally_batch(5, &message(16, 3), LE), Ok((5, true)));
    let mut batch = message(16, 20);
    batch.extend(message(16, 3));
    assert_eq!(tally_batch(u64::MAX, &batch, LE), Ok((u64::MAX, true)));
    assert_eq!(tally_batch(0, &[0u8; 4], LE), Err(NetlinkError::Malformed));
}
