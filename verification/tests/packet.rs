use pinguin::packet::{
    encode_packs, DecodeError, TunnelPacket, FRAME_LEN, HEADER_LEN, MAX_PAYLOAD, MAX_RUN,
};

fn sample(len: usize) -> Vec<u8> {
    (0..len).map(|i| (i * 7 + 3) as u8).collect()
}

fn padded(bytes: &[u8]) -> Vec<u8> {
    let mut out = bytes.to_vec();
    out.resize(MAX_PAYLOAD, 0);
    out
}

#[test]
fn constants_describe_the_wire_format() {
    assert_eq!(FRAME_LEN, 64);
    assert_eq!(HEADER_LEN, 8);
    assert_eq!(MAX_PAYLOAD, 56);
    assert_eq!(MAX_RUN, 56 * 65536);
}

#[test]
fn checksum_of_nothing_is_zero() {
    assert_eq!(TunnelPacket::calculate_checksum(&[]), 0);
}

#[test]
fn checksum_of_zeros_is_zero() {
    assert_eq!(TunnelPacket::calculate_checksum(&[0u8; 64]), 0);
}

#[test]
fn checksum_adds_big_endian_words() {
    assert_eq!(TunnelPacket::calculate_checksum(&[0x12, 0x34]), 0x1234);
    assert_eq!(TunnelPacket::calculate_checksum(&[0x12, 0x34, 0x00, 0x01]), 0x1235);
}

#[test]
fn checksum_folds_the_carry_back() {
    // 0x0001 + 0xf203 + 0xf4f5 + 0xf6f7 = 0x2ddf0, and 0xddf0 + 0x2 = 0xddf2
    let bytes = [0x00, 0x01, 0xf2, 0x03, 0xf4, 0xf5, 0xf6, 0xf7];
    assert_eq!(TunnelPacket::calculate_checksum(&bytes), 0xddf2);
}

#[test]
fn checksum_of_a_carry_alone_is_one() {
    // 0xffff + 0x0001 = 0x10000, which folds to 0x0001
    assert_eq!(TunnelPacket::calculate_checksum(&[0xff, 0xff, 0x00, 0x01]), 0x0001);
}

#[test]
fn checksum_of_all_ones_is_all_ones() {
    // 32 * 0xffff = 0x1fffe0, and 0xffe0 + 0x1f = 0xffff
    assert_eq!(TunnelPacket::calculate_checksum(&[0xffu8; 64]), 0xffff);
}

#[test]
fn checksum_needs_both_folds() {
    // 0xffff + 0xffff + 0x0002 = 0x20000, which folds to 0x0002
    let bytes = [0xff, 0xff, 0xff, 0xff, 0x00, 0x02];
    assert_eq!(TunnelPacket::calculate_checksum(&bytes), 0x0002);
}

#[test]
fn new_lays_out_the_header_big_endian() {
    let pack = TunnelPacket::new(0x1234, 0xabcd, [0u8; 56]);
    let bytes = pack.packet();
    assert_eq!(bytes.len(), 64);
    assert_eq!(&bytes[4..8], &[0x12, 0x34, 0xab, 0xcd]);
    assert_eq!(pack.id(), 0x1234);
    assert_eq!(pack.seq(), 0xabcd);
    assert_eq!(pack.payload_len(), 56);
}

#[test]
fn type_and_code_are_zero() {
    let pack = TunnelPacket::new(0xffff, 0xffff, [0xffu8; 56]);
    assert_eq!(&pack.packet()[0..2], &[0, 0]);
}

#[test]
fn new_stores_the_checksum_of_the_body() {
    let mut payload = [0u8; 56];
    payload[..5].copy_from_slice(b"hello");
    let pack = TunnelPacket::new(7, 0, payload);
    // 0x0007 + 0x6865 + 0x6c6c + 0x6f00 = 0x143d8, and 0x43d8 + 0x1 = 0x43d9
    assert_eq!(pack.checksum(), 0x43d9);
    assert_eq!(&pack.packet()[2..4], &[0x43, 0xd9]);
    let mut body = pack.packet().to_vec();
    body[2] = 0;
    body[3] = 0;
    assert_eq!(TunnelPacket::calculate_checksum(&body), 0x43d9);
}

#[test]
fn new_keeps_the_payload() {
    let mut payload = [0u8; 56];
    for (i, b) in payload.iter_mut().enumerate() {
        *b = (200 + i) as u8;
    }
    let pack = TunnelPacket::new(1, 2, payload);
    assert_eq!(pack.payload(), &payload[..]);
    assert_eq!(pack.data(), &payload[..]);
    assert_eq!(&pack.packet()[8..], &payload[..]);
}

#[test]
fn with_payload_pads_with_zeros() {
    let pack = TunnelPacket::with_payload(9, 4, b"abc").unwrap();
    assert_eq!(pack.id(), 9);
    assert_eq!(pack.seq(), 4);
    assert_eq!(pack.payload_len(), 3);
    assert_eq!(pack.data(), b"abc");
    assert_eq!(pack.payload(), &padded(b"abc")[..]);
    assert_eq!(pack.packet().len(), 64);
}

#[test]
fn with_payload_takes_an_empty_payload() {
    let pack = TunnelPacket::with_payload(9, 4, &[]).unwrap();
    assert_eq!(pack.payload_len(), 0);
    assert_eq!(pack.data(), &[] as &[u8]);
    assert_eq!(pack.payload(), &[0u8; 56][..]);
}

#[test]
fn with_payload_takes_a_full_payload() {
    let bytes = sample(56);
    let pack = TunnelPacket::with_payload(9, 4, &bytes).unwrap();
    assert_eq!(pack.payload_len(), 56);
    assert_eq!(pack.data(), &bytes[..]);
}

#[test]
fn with_payload_refuses_more_than_a_frame_holds() {
    assert!(TunnelPacket::with_payload(9, 4, &sample(57)).is_none());
    assert!(TunnelPacket::with_payload(9, 4, &sample(1024)).is_none());
}

#[test]
fn with_payload_agrees_with_new_on_the_wire() {
    let bytes = sample(20);
    let mut full = [0u8; 56];
    full[..20].copy_from_slice(&bytes);
    let short = TunnelPacket::with_payload(3, 1, &bytes).unwrap();
    let long = TunnelPacket::new(3, 1, full);
    assert_eq!(short.packet(), long.packet());
    assert_eq!(short.checksum(), long.checksum());
}

#[test]
fn encode_hello_is_one_frame() {
    let packs = encode_packs(7, b"hello".to_vec());
    assert_eq!(packs.len(), 1);
    assert_eq!(packs[0].id(), 7);
    assert_eq!(packs[0].seq(), 0);
    let mut expected = b"hello".to_vec();
    expected.extend_from_slice(&[0u8; 51]);
    assert_eq!(packs[0].payload(), &expected[..]);
    assert_eq!(packs[0].data(), b"hello");
}

#[test]
fn encode_120_bytes_is_three_frames() {
    let packs = encode_packs(1, sample(120));
    assert_eq!(packs.len(), 3);
    let seqs: Vec<u16> = packs.iter().map(|p| p.seq()).collect();
    assert_eq!(seqs, vec![0, 1, 2]);
    let lens: Vec<usize> = packs.iter().map(|p| p.payload_len()).collect();
    assert_eq!(lens, vec![56, 56, 8]);
}

#[test]
fn encode_nothing_is_no_frame() {
    assert!(encode_packs(1, Vec::new()).is_empty());
}

#[test]
fn encode_a_multiple_of_the_frame_size_has_no_short_frame() {
    let packs = encode_packs(1, sample(112));
    assert_eq!(packs.len(), 2);
    assert_eq!(packs[0].payload_len(), 56);
    assert_eq!(packs[1].payload_len(), 56);
}

#[test]
fn encode_counts_frames_by_rounding_up() {
    for len in [1usize, 55, 56, 57, 111, 112, 113, 1024] {
        assert_eq!(encode_packs(0, sample(len)).len(), (len + 55) / 56);
    }
}

#[test]
fn encode_tags_every_frame_and_numbers_them_from_zero() {
    let packs = encode_packs(0xbeef, sample(1024));
    assert_eq!(packs.len(), 19);
    for (i, pack) in packs.iter().enumerate() {
        assert_eq!(pack.id(), 0xbeef);
        assert_eq!(pack.seq() as usize, i);
    }
    assert_eq!(packs[18].payload_len(), 1024 - 18 * 56);
}

#[test]
fn encode_then_concatenate_gives_the_bytes_back() {
    for len in [0usize, 1, 56, 57, 120, 1000, 1024] {
        let bytes = sample(len);
        let mut joined = Vec::new();
        for pack in encode_packs(5, bytes.clone()) {
            joined.extend_from_slice(pack.data());
        }
        assert_eq!(joined, bytes);
    }
}

#[test]
fn encode_takes_the_longest_run() {
    let packs = encode_packs(1, vec![1u8; MAX_RUN]);
    assert_eq!(packs.len(), 65536);
    assert_eq!(packs[65535].seq(), 65535);
    assert_eq!(packs[65535].payload_len(), 56);
}

#[test]
fn decode_round_trips_every_payload_length() {
    for len in 0..=56usize {
        let bytes = sample(len);
        let pack = TunnelPacket::with_payload(0x0102, len as u16, &bytes).unwrap();
        let back = TunnelPacket::decode(pack.packet()).unwrap();
        assert_eq!(back.id(), 0x0102);
        assert_eq!(back.seq(), len as u16);
        assert_eq!(&back.payload()[..len], &bytes[..]);
        assert!(back.payload()[len..].iter().all(|b| *b == 0));
        assert_eq!(back.payload_len(), 56);
        assert_eq!(back.packet(), pack.packet());
    }
}

#[test]
fn decode_reads_fields_from_their_offsets() {
    let mut raw = [0u8; 64];
    raw[4] = 0xab;
    raw[5] = 0xcd;
    raw[6] = 0x01;
    raw[7] = 0x02;
    raw[8] = 0x99;
    raw[63] = 0x77;
    let sum = TunnelPacket::calculate_checksum(&raw);
    raw[2] = (sum >> 8) as u8;
    raw[3] = (sum & 0xff) as u8;
    let pack = TunnelPacket::decode(&raw).unwrap();
    assert_eq!(pack.id(), 0xabcd);
    assert_eq!(pack.seq(), 0x0102);
    assert_eq!(pack.payload()[0], 0x99);
    assert_eq!(pack.payload()[55], 0x77);
    assert_eq!(pack.checksum(), sum);
}

#[test]
fn decode_refuses_other_lengths() {
    let pack = TunnelPacket::new(1, 1, [5u8; 56]);
    let raw = pack.packet();
    assert_eq!(TunnelPacket::decode(&raw[..63]).unwrap_err(), DecodeError::WrongLength);
    assert_eq!(TunnelPacket::decode(&[]).unwrap_err(), DecodeError::WrongLength);
    let mut long = raw.to_vec();
    long.push(0);
    assert_eq!(TunnelPacket::decode(&long).unwrap_err(), DecodeError::WrongLength);
    assert_eq!(TunnelPacket::decode(&[0u8; 84]).unwrap_err(), DecodeError::WrongLength);
}

#[test]
fn decode_refuses_a_wrong_checksum() {
    let pack = TunnelPacket::new(1, 1, [5u8; 56]);
    let mut raw = pack.packet().to_vec();
    raw[3] ^= 1;
    assert_eq!(TunnelPacket::decode(&raw).unwrap_err(), DecodeError::BadChecksum);
}

#[test]
fn decode_takes_all_zeros() {
    let pack = TunnelPacket::decode(&[0u8; 64]).unwrap();
    assert_eq!(pack.id(), 0);
    assert_eq!(pack.seq(), 0);
    assert_eq!(pack.checksum(), 0);
}

#[test]
fn any_flipped_bit_outside_the_checksum_is_detected() {
    let pack = TunnelPacket::with_payload(0x1234, 0x0042, &sample(40)).unwrap();
    let raw = pack.packet().to_vec();
    let stored = pack.checksum();
    for at in 0..64usize {
        if at == 2 || at == 3 {
            continue;
        }
        for bit in 0..8 {
            let mut changed = raw.clone();
            changed[at] ^= 1 << bit;
            let mut body = changed.clone();
            body[2] = 0;
            body[3] = 0;
            assert_ne!(TunnelPacket::calculate_checksum(&body), stored);
            assert_eq!(TunnelPacket::decode(&changed).unwrap_err(), DecodeError::BadChecksum);
        }
    }
}

#[test]
fn packets_can_be_copied() {
    let pack = TunnelPacket::new(1, 2, [3u8; 56]);
    let copy = pack;
    let clone = pack.clone();
    assert_eq!(copy.packet(), pack.packet());
    assert_eq!(clone.packet(), pack.packet());
}
