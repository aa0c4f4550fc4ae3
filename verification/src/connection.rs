//! The cipher state of the two directions of a game client connection: how an
//! outgoing packet is padded, encrypted and framed, how an incoming packet is
//! decrypted, and how each side advances its key after every packet.

use crate::packet::{u32_le, 
    change_key, change_key_spec, decrypt_bytes, encrypt_bytes, key_init, key_init_spec, key_bytes, le32,
    lemma_chain_xor, lemma_decrypt_encrypt, u16_le, Packet,
};
use vstd::prelude::*;

verus! {

/// The bytes `d` padded with zero bytes to a length of at least four
pub open spec fn pad4(d: Seq<u8>) -> Seq<u8> {
    if d.len() >= 4 {
        d
    } else {
        d + Seq::new((4 - d.len()) as nat, |i: int| 0u8)
    }
}

/// The first four bytes of `d` read least significant first
pub open spec fn first_word(d: Seq<u8>) -> u32 {
    le32(d[0], d[1], d[2], d[3])
}

/// The bytes sent for the packet bytes `d` under the key `key` (none before the
/// client knows its key): the length of the frame, least significant byte first,
/// then the padded packet, encrypted where there is a key
pub open spec fn sealed_frame(key: Option<u64>, d: Seq<u8>) -> Seq<u8> {
    let padded = pad4(d);
    let body = match key {
        Some(k) => encrypt_bytes(padded, k),
        None => padded,
    };
    u16_le((padded.len() + 2) as u16) + body
}

/// The key of the sending side after it sent the packet bytes `d`
pub open spec fn key_after_send(key: Option<u64>, d: Seq<u8>) -> Option<u64> {
    match key {
        Some(k) => Some(change_key_spec(k, first_word(pad4(d)))),
        None => None,
    }
}

/// The packet bytes the receiving side reads from the frame contents `c` under `key`
pub open spec fn opened_bytes(key: u64, c: Seq<u8>) -> Seq<u8> {
    decrypt_bytes(c, key)
}

/// The key of the receiving side after it read the frame contents `c`
pub open spec fn key_after_receive(key: u64, c: Seq<u8>) -> u64 {
    change_key_spec(key, first_word(decrypt_bytes(c, key)))
}

/// The first packet sent to a client, unencrypted: the byte 65 and the seed of the keys
pub fn key_exchange_packet(key: u32) -> (p: Packet)
    ensures
        p@.data == seq![65u8] + u32_le(key),
        p@.read == 0,
{
    let mut p = Packet::new();
    p.add_u8(65).add_u32(key);
    assert(p@.data =~= seq![65u8] + u32_le(key));
    p
}

/// Sending packets to a game client: the key is set once the client knows it
pub struct ServerPacketSender {
    /// The current key, once the client has been told its key
    encryption_key: Option<u64>,
}

impl View for ServerPacketSender {
    type V = Option<u64>;

    closed spec fn view(&self) -> Option<u64> {
        self.encryption_key
    }
}

impl ServerPacketSender {
    /// A sender that does not encrypt yet
    pub fn new() -> (s: ServerPacketSender)
        ensures
            s@ == None::<u64>,
    {
        ServerPacketSender { encryption_key: None }
    }

    /// Encrypt all following packets, starting with the key `d`
    pub fn set_encryption_key(&mut self, d: u64)
        ensures
            final(self)@ == Some(d),
    {
        self.encryption_key = Some(d);
    }

    /// The bytes to send for a packet, advancing the key where there is one
    pub fn frame_packet(&mut self, data: Packet) -> (frame: Vec<u8>)
        requires
            data@.data.len() <= 65533,
        ensures
            frame@ == sealed_frame(old(self)@, data@.data),
            frame@.len() == (if data@.data.len() >= 4 { data@.data.len() as int } else { 4 }) + 2,
            frame@[0] + 256 * frame@[1] == frame@.len(),
            old(self)@ is None ==> frame@.skip(2) == data@.data + Seq::new(
                (frame@.len() - 2 - data@.data.len()) as nat,
                |i: int| 0u8,
            ),
            final(self)@ == key_after_send(old(self)@, data@.data),
            old(self)@ is None ==> final(self)@ is None,
            old(self)@ matches Some(k) ==> final(self)@ == Some(
                change_key_spec(
                    k,
                    le32(
                        if data@.data.len() > 0 { data@.data[0] } else { 0u8 },
                        if data@.data.len() > 1 { data@.data[1] } else { 0u8 },
                        if data@.data.len() > 2 { data@.data[2] } else { 0u8 },
                        if data@.data.len() > 3 { data@.data[3] } else { 0u8 },
                    ),
                ),
            ),
    {
        let mut data = data;
        let ghost d = data@.data;
        while data.len() < 4
            invariant
                d.len() <= 65533,
                d.len() <= data@.data.len(),
                data@.data.len() <= if d.len() >= 4 { d.len() as int } else { 4 },
                data@.data =~= d + Seq::new((data@.data.len() - d.len()) as nat, |i: int| 0u8),
            decreases 4 - data@.data.len(),
        {
            data.add_u8(0);
            assert(data@.data =~= d + Seq::new((data@.data.len() - d.len()) as nat, |i: int| 0u8));
        }
        assert(data@.data =~= pad4(d));
        let kcv = data.peek_u32();
        match self.encryption_key {
            Some(key) => {
                proof {
                    lemma_chain_xor(data@.data, key_bytes(key), data@.data.len() as int);
                }
                data.encrypt(key);
                self.encryption_key = Some(change_key(key, kcv));
            },
            None => {},
        }
        let mut frame: Vec<u8> = Vec::new();
        let n = data.len() + 2;
        frame.push((n % 256) as u8);
        frame.push((n / 256) as u8);
        let body = data.buf();
        let mut i: usize = 0;
        while i < body.len()
            invariant
                i <= body@.len(),
                frame@ == u16_le(n) + body@.subrange(0, i as int),
            decreases body@.len() - i,
        {
            frame.push(body[i]);
            i = i + 1;
        }
        assert(frame@ =~= sealed_frame(old(self)@, d));
        proof {
            crate::server_packet::lemma_u16_le_value(n as u16);
            if old(self)@ is None {
                assert(frame@.skip(2) =~= d + Seq::new((frame@.len() - 2 - d.len()) as nat, |i: int| 0u8));
            }
        }
        frame
    }
}

/// Receiving packets from a game client
pub struct ServerPacketReceiver {
    /// The current key
    decryption_key: u64,
}

impl View for ServerPacketReceiver {
    type V = u64;

    closed spec fn view(&self) -> u64 {
        self.decryption_key
    }
}

impl ServerPacketReceiver {
    /// A receiver whose key derives from the seed `key` sent to the client
    pub fn new(key: u32) -> (r: ServerPacketReceiver)
        ensures
            r@ == key_init_spec(key),
    {
        ServerPacketReceiver { decryption_key: key_init(key) }
    }

    /// The current key
    pub fn get_key(&self) -> (k: u64)
        ensures
            k == self@,
    {
        self.decryption_key
    }

    /// Read a packet from the contents of a frame, advancing the key
    pub fn open_packet(&mut self, contents: Vec<u8>) -> (p: Packet)
        requires
            contents@.len() >= 4,
        ensures
            p@.data == opened_bytes(old(self)@, contents@),
            p@.data == decrypt_bytes(contents@, old(self)@),
            p@.data.len() == contents@.len(),
            p@.read == 0,
            final(self)@ == key_after_receive(old(self)@, contents@),
            final(self)@ == change_key_spec(
                old(self)@,
                le32(p@.data[0], p@.data[1], p@.data[2], p@.data[3]),
            ),
    {
        let mut packet = Packet::from_bytes(contents);
        packet.decrypt(self.decryption_key);
        let kcv = packet.peek_u32();
        self.decryption_key = change_key(self.decryption_key, kcv);
        packet
    }
}

/// A sender and a receiver that start from the same key stay in step: the
/// receiver reads back exactly the (padded) packet that was sent, and both
/// sides end with the same key
pub proof fn lemma_connection_in_step(key: u64, d: Seq<u8>)
    requires
        d.len() <= 65533,
    ensures
        opened_bytes(key, sealed_frame(Some(key), d).skip(2)) == pad4(d),
        key_after_send(Some(key), d) == Some(
            key_after_receive(key, sealed_frame(Some(key), d).skip(2)),
        ),
{
    let padded = pad4(d);
    assert(padded.len() >= 4);
    let body = encrypt_bytes(padded, key);
    assert(sealed_frame(Some(key), d).skip(2) =~= body);
    lemma_decrypt_encrypt(padded, key);
}

/// Both sides advance their key with the first four bytes of the plain packet (zero bytes
/// where the packet is shorter), read low byte first, never with the encrypted bytes: the
/// sender after sending the packet bytes `d`, and the receiver after reading the frame
/// contents that the sender made of them
pub proof fn lemma_keys_follow_plain_packets(key: u64, d: Seq<u8>)
    requires
        d.len() <= 65533,
    ensures
        ({
            let w = le32(
                if d.len() > 0 { d[0] } else { 0u8 },
                if d.len() > 1 { d[1] } else { 0u8 },
                if d.len() > 2 { d[2] } else { 0u8 },
                if d.len() > 3 { d[3] } else { 0u8 },
            );
            &&& key_after_send(Some(key), d) == Some(change_key_spec(key, w))
            &&& key_after_receive(key, sealed_frame(Some(key), d).skip(2)) == change_key_spec(key, w)
        }),
        forall|c: Seq<u8>|
            c.len() >= 4 ==> #[trigger] key_after_receive(key, c) == change_key_spec(
                key,
                le32(
                    decrypt_bytes(c, key)[0],
                    decrypt_bytes(c, key)[1],
                    decrypt_bytes(c, key)[2],
                    decrypt_bytes(c, key)[3],
                ),
            ),
{
    lemma_connection_in_step(key, d);
    let p = pad4(d);
    assert(p[0] == (if d.len() > 0 { d[0] } else { 0u8 }));
    assert(p[1] == (if d.len() > 1 { d[1] } else { 0u8 }));
    assert(p[2] == (if d.len() > 2 { d[2] } else { 0u8 }));
    assert(p[3] == (if d.len() > 3 { d[3] } else { 0u8 }));
}

} // verus!
