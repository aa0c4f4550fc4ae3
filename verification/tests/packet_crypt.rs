use lineage_server::connection::{key_exchange_packet, ServerPacketReceiver, ServerPacketSender};
use lineage_server::packet::{change_key, key_init, Packet};

#[test]
fn encrypt_decrypt() {
    let mut rng = rand::thread_rng();
    for packet_length in 4..50 {
        for _ in 1..1000 {
            let mut data: Vec<u8> = Vec::new();
            data.resize(packet_length, 0);
            for index in 1..packet_length {
                data[index] = rand::Rng::gen(&mut rng);
            }
            let key: u64 = rand::Rng::gen(&mut rng);
            let mut start_packet = Packet::new();
            start_packet.add_vec(&data);
            start_packet.encrypt(key).decrypt(key);
            assert_eq!(data, start_packet.buf());
        }
    }
}

#[test]
fn test_key_init() {
    let key_init_val = key_init(0x12345678);
    let required: u64 = 0x24700c1a554e71f5;
    assert_eq!(key_init_val, required);
}

#[test]
fn test_known_data_decrypt() {
    let data: Vec<u8> = Vec::from([
        0xb0, 0x9d, 0xe8, 0xde, 0x83, 0xcd, 0xbc, 0x1b, 0xd2, 0x28, 0x25, 0x3f,
    ]);
    let key: u64 = key_init(0x12345678);
    let required: Vec<u8> = Vec::from([
        0x47, 0x33, 0x00, 0xe4, 0x04, 0x00, 0x00, 0x52, 0xed, 0x8a, 0x01, 0x00,
    ]);
    let mut packet = Packet::new();
    packet.add_vec(&data);
    let d = packet.decrypt(key).buf();
    let cd = packet.peek_u32();
    assert_eq!(d, required);
    assert_eq!(cd, 0xe4003347);
    let new_key = change_key(key, cd);
    let required_new_key: u64 = 0x63430cfe184ef01d;
    assert_eq!(new_key, required_new_key);
}

#[test]
fn test_known_data_encrypt() {
    let required: Vec<u8> = Vec::from([
        0xb0, 0x9d, 0xe8, 0xde, 0x83, 0xcd, 0xbc, 0x1b, 0xd2, 0x28, 0x25, 0x3f,
    ]);
    let key: u64 = key_init(0x12345678);
    let data: Vec<u8> = Vec::from([
        0x47, 0x33, 0x00, 0xe4, 0x04, 0x00, 0x00, 0x52, 0xed, 0x8a, 0x01, 0x00,
    ]);
    let mut packet = Packet::new();
    packet.add_vec(&data);
    let d = packet.encrypt(key).buf();
    assert_eq!(d, required);
}

#[test]
fn chained_writes_read_back() {
    let mut p = Packet::new();
    p.add_u8(7).add_u16(0x1234).add_u32(0xdeadbeef).add_string("hi".to_string());
    p.add_i8(-1).add_i16(-2);
    assert_eq!(
        p.buf(),
        vec![7, 0x34, 0x12, 0xef, 0xbe, 0xad, 0xde, b'h', b'i', 0, 0xff, 0xfe, 0xff]
    );
    assert_eq!(p.len(), 13);
    assert_eq!(p.pull_u8(), 7);
    assert_eq!(p.pull_u16(), 0x1234);
    assert_eq!(p.peek_u32(), 0xef123407);
    assert_eq!(p.pull_u32(), 0xdeadbeef);
    assert_eq!(p.pull_string(), "hi");
    assert_eq!(p.remaining(), 3);
}

#[test]
fn framed_packets_open_on_the_other_side() {
    assert_eq!(key_exchange_packet(0x12345678).buf(), vec![65, 0x78, 0x56, 0x34, 0x12]);
    let mut sender = ServerPacketSender::new();
    let mut receiver = ServerPacketReceiver::new(0x12345678);
    sender.set_encryption_key(receiver.get_key());
    for round in 0..3u8 {
        let mut p = Packet::new();
        p.add_u8(round).add_u32(0x01020304).add_string("abc".to_string());
        let sent = p.buf();
        let frame = sender.frame_packet(p);
        let len = u16::from_le_bytes([frame[0], frame[1]]) as usize;
        assert_eq!(len, frame.len());
        let opened = receiver.open_packet(frame[2..].to_vec());
        assert_eq!(opened.buf()[..sent.len()], sent[..]);
    }
}

#[test]
fn encryption_undoes_decryption() {
    let key = key_init(0x12345678);
    for len in 4..40usize {
        let data: Vec<u8> = (0..len).map(|i| (i * 37 + 11) as u8).collect();
        let mut p = Packet::new();
        p.add_vec(&data);
        p.decrypt(key).encrypt(key);
        assert_eq!(p.buf(), data);
    }
}
