//! The byte-level packet format of the game protocol: building and reading
//! packets, the packet cipher and its key schedule.

use crate::text::push_char;
use vstd::prelude::*;

verus! {

/// The bytes of `v`, least significant first
pub open spec fn u16_le(v: u16) -> Seq<u8> {
    seq![(v % 256) as u8, (v / 256) as u8]
}

/// The bytes of `v`, least significant first
pub open spec fn u32_le(v: u32) -> Seq<u8> {
    seq![
        (v % 256) as u8,
        ((v / 256) % 256) as u8,
        ((v / 65536) % 256) as u8,
        (v / 16777216) as u8,
    ]
}

/// The byte holding the two's complement bits of `v`
pub open spec fn i8_bits(v: i8) -> u8 {
    if v >= 0 { v as u8 } else { (v + 256) as u8 }
}

/// The 16 bit word holding the two's complement bits of `v`
pub open spec fn i16_bits(v: i16) -> u16 {
    if v >= 0 { v as u16 } else { (v + 65536) as u16 }
}

/// The value of two bytes read least significant first
pub open spec fn le16(b0: u8, b1: u8) -> u16 {
    (b0 + 256 * b1) as u16
}

/// The value of four bytes read least significant first
pub open spec fn le32(b0: u8, b1: u8, b2: u8, b3: u8) -> u32 {
    (b0 + 256 * b1 + 65536 * b2 + 16777216 * b3) as u32
}

/// The index of the first zero byte of `d` at or after `p`, or the length of `d` where there is none
pub open spec fn first_zero(d: Seq<u8>, p: int) -> int
    decreases d.len() - p,
{
    if p < 0 || p >= d.len() {
        d.len() as int
    } else if d[p] == 0 {
        p
    } else {
        first_zero(d, p + 1)
    }
}

/// The first zero byte at or after `p` lies between `p` and the end of `d`
pub proof fn lemma_first_zero_bounds(d: Seq<u8>, p: int)
    requires
        0 <= p <= d.len(),
    ensures
        p <= first_zero(d, p) <= d.len(),
        first_zero(d, p) < d.len() ==> d[first_zero(d, p)] == 0,
        forall|i: int| p <= i < first_zero(d, p) ==> d[i] != 0,
    decreases d.len() - p,
{
    if p < d.len() && d[p] != 0 {
        lemma_first_zero_bounds(d, p + 1);
    }
}

/// The bytes of a string as the protocol carries it: its UTF-8 encoding
/// followed by a terminating zero byte
pub open spec fn cstr(s: Seq<char>) -> Seq<u8> {
    vstd::utf8::encode_utf8(s) + seq![0u8]
}

/// A 16 bit value appended to a packet reads back unchanged
pub proof fn lemma_u16_roundtrip(v: u16)
    ensures
        le16(u16_le(v)[0], u16_le(v)[1]) == v,
{
}

/// A 32 bit value appended to a packet reads back unchanged
pub proof fn lemma_u32_roundtrip(v: u32)
    ensures
        le32(u32_le(v)[0], u32_le(v)[1], u32_le(v)[2], u32_le(v)[3]) == v,
{
}

/// A string of ASCII characters without a zero character, appended to a
/// packet, reads back unchanged and its terminator is consumed
pub proof fn lemma_string_roundtrip(s: Seq<char>)
    requires
        forall|i: int| 0 <= i < s.len() ==> '\u{1}' <= #[trigger] s[i] <= '\u{7f}',
    ensures
        first_zero(cstr(s), 0) == s.len(),
        latin1(cstr(s).subrange(0, s.len() as int)) == s,
{
    vstd::utf8::is_ascii_chars_encode_utf8(s);
    let b = cstr(s);
    assert(b.len() == s.len() + 1);
    assert forall|i: int| 0 <= i < s.len() implies b[i] != 0 && b[i] == s[i] as u8 by {
        assert(b[i] == vstd::utf8::encode_utf8(s)[i]);
    }
    assert(b[s.len() as int] == 0);
    lemma_first_zero_is(b, 0, s.len() as int);
    assert(latin1(b.subrange(0, s.len() as int)) =~= s);
}

/// Where every byte from `p` up to `z` is nonzero and the byte at `z` is zero,
/// the first zero at or after `p` is at `z`
pub proof fn lemma_first_zero_is(d: Seq<u8>, p: int, z: int)
    requires
        0 <= p <= z < d.len(),
        d[z] == 0,
        forall|i: int| p <= i < z ==> d[i] != 0,
    ensures
        first_zero(d, p) == z,
    decreases z - p,
{
    if p < z {
        lemma_first_zero_is(d, p + 1, z);
    }
}

/// The characters whose code points are the given bytes
pub open spec fn latin1(b: Seq<u8>) -> Seq<char> {
    b.map_values(|x: u8| x as char)
}

/// The eight bytes of a cipher key, most significant first
pub open spec fn key_bytes(key: u64) -> Seq<u8> {
    seq![
        (key / 0x100000000000000) as u8,
        ((key / 0x1000000000000) % 256) as u8,
        ((key / 0x10000000000) % 256) as u8,
        ((key / 0x100000000) % 256) as u8,
        ((key / 0x1000000) % 256) as u8,
        ((key / 0x10000) % 256) as u8,
        ((key / 0x100) % 256) as u8,
        (key % 256) as u8,
    ]
}

/// The first `n` bytes of the chained stage of encryption: each byte is mixed
/// with a key byte and with the previous encrypted byte
pub open spec fn chain_xor(d: Seq<u8>, kv: Seq<u8>, n: int) -> Seq<u8>
    decreases n,
{
    if n <= 0 {
        Seq::empty()
    } else if n == 1 {
        seq![d[0] ^ kv[0]]
    } else {
        let prev = chain_xor(d, kv, n - 1);
        prev.push(d[n - 1] ^ kv[(n - 1) % 8] ^ prev[n - 2])
    }
}

/// The encryption of the packet bytes `d` (at least four) under `key`
pub open spec fn encrypt_bytes(d: Seq<u8>, key: u64) -> Seq<u8> {
    let kv = key_bytes(key);
    let e = chain_xor(d, kv, d.len() as int);
    let e3 = e[3] ^ kv[2];
    let e2 = e[2] ^ kv[3] ^ e3;
    let e1 = e[1] ^ kv[4] ^ e2;
    let e0 = e[0] ^ kv[5] ^ e1;
    e.update(3, e3).update(2, e2).update(1, e1).update(0, e0)
}

/// The decryption of the packet bytes `c` (at least four) under `key`
pub open spec fn decrypt_bytes(c: Seq<u8>, key: u64) -> Seq<u8> {
    let kv = key_bytes(key);
    let m3 = c[3] ^ kv[2];
    let m2 = c[2] ^ c[3] ^ kv[3];
    let m1 = c[1] ^ c[2] ^ kv[4];
    let k = c[0] ^ c[1] ^ kv[5];
    let m = c.update(3, m3).update(2, m2).update(1, m1);
    Seq::new(
        c.len(),
        |i: int|
            if i == 0 {
                k ^ kv[0]
            } else if i == 1 {
                m[1] ^ kv[1] ^ k
            } else {
                m[i] ^ kv[i % 8] ^ m[i - 1]
            },
    )
}

/// The shape of the chained stage of encryption
pub proof fn lemma_chain_xor(d: Seq<u8>, kv: Seq<u8>, n: int)
    requires
        0 <= n <= d.len(),
    ensures
        chain_xor(d, kv, n).len() == n,
        n >= 1 ==> chain_xor(d, kv, n)[0] == d[0] ^ kv[0],
        forall|i: int|
            1 <= i < n ==> #[trigger] chain_xor(d, kv, n)[i] == d[i] ^ kv[i % 8] ^ chain_xor(
                d,
                kv,
                n,
            )[i - 1],
    decreases n,
{
    if n > 1 {
        lemma_chain_xor(d, kv, n - 1);
        let prev = chain_xor(d, kv, n - 1);
        assert forall|i: int| 1 <= i < n implies #[trigger] chain_xor(d, kv, n)[i] == d[i] ^ kv[i
            % 8] ^ chain_xor(d, kv, n)[i - 1] by {
            if i < n - 1 {
                assert(chain_xor(d, kv, n)[i] == prev[i]);
                assert(chain_xor(d, kv, n)[i - 1] == prev[i - 1]);
            }
        }
    }
}

/// Decryption undoes encryption under the same key
pub proof fn lemma_decrypt_encrypt(d: Seq<u8>, key: u64)
    requires
        d.len() >= 4,
    ensures
        decrypt_bytes(encrypt_bytes(d, key), key) == d,
{
    let kv = key_bytes(key);
    let e = chain_xor(d, kv, d.len() as int);
    lemma_chain_xor(d, kv, d.len() as int);
    let c = encrypt_bytes(d, key);
    let out = decrypt_bytes(c, key);
    let (e0, e1, e2, e3) = (e[0], e[1], e[2], e[3]);
    let (k0, k1, k2, k3, k4, k5) = (kv[0], kv[1], kv[2], kv[3], kv[4], kv[5]);
    let c3 = e3 ^ k2;
    let c2 = e2 ^ k3 ^ c3;
    let c1 = e1 ^ k4 ^ c2;
    let c0 = e0 ^ k5 ^ c1;
    assert(c3 ^ k2 == e3) by (bit_vector)
        requires
            c3 == e3 ^ k2,
    ;
    assert(c2 ^ c3 ^ k3 == e2) by (bit_vector)
        requires
            c2 == e2 ^ k3 ^ c3,
    ;
    assert(c1 ^ c2 ^ k4 == e1) by (bit_vector)
        requires
            c1 == e1 ^ k4 ^ c2,
    ;
    assert(c0 ^ c1 ^ k5 == e0) by (bit_vector)
        requires
            c0 == e0 ^ k5 ^ c1,
    ;
    assert forall|i: int| 0 <= i < d.len() implies out[i] == d[i] by {
        if i == 0 {
            let d0 = d[0];
            assert((d0 ^ k0) ^ k0 == d0) by (bit_vector);
        } else {
            let di = d[i];
            let ki = kv[i % 8];
            let ep = e[i - 1];
            assert(e[i] == di ^ ki ^ ep);
            assert((di ^ ki ^ ep) ^ ki ^ ep == di) by (bit_vector);
        }
    }
    assert(out =~= d);
}

/// The chained stage of encryption of bytes `d` built from a chain `e` (each byte of `d` is
/// `e`'s byte mixed with the key byte and `e`'s previous byte) gives `e` back
proof fn lemma_chain_recovers(d: Seq<u8>, kv: Seq<u8>, n: int, e: Seq<u8>, j: int)
    requires
        0 <= j < n <= d.len(),
        n <= e.len(),
        kv.len() == 8,
        d[0] == e[0] ^ kv[0],
        forall|i: int| 1 <= i < n ==> #[trigger] d[i] == e[i] ^ kv[i % 8] ^ e[i - 1],
    ensures
        chain_xor(d, kv, n)[j] == e[j],
    decreases j,
{
    lemma_chain_xor(d, kv, n);
    let c = chain_xor(d, kv, n);
    if j == 0 {
        let (e0, k0) = (e[0], kv[0]);
        assert((e0 ^ k0) ^ k0 == e0) by (bit_vector);
    } else {
        lemma_chain_recovers(d, kv, n, e, j - 1);
        let (ej, kj, ep) = (e[j], kv[j % 8], e[j - 1]);
        assert(d[j] == ej ^ kj ^ ep);
        assert(c[j] == d[j] ^ kj ^ c[j - 1]);
        assert((ej ^ kj ^ ep) ^ kj ^ ep == ej) by (bit_vector);
    }
}

/// Encryption undoes decryption under the same key
pub proof fn lemma_encrypt_decrypt(c: Seq<u8>, key: u64)
    requires
        c.len() >= 4,
    ensures
        encrypt_bytes(decrypt_bytes(c, key), key) == c,
{
    let kv = key_bytes(key);
    let n = c.len() as int;
    let d = decrypt_bytes(c, key);
    let (c0, c1, c2, c3) = (c[0], c[1], c[2], c[3]);
    let (k2, k3, k4, k5) = (kv[2], kv[3], kv[4], kv[5]);
    let m3 = c3 ^ k2;
    let m2 = c2 ^ c3 ^ k3;
    let m1 = c1 ^ c2 ^ k4;
    let k = c0 ^ c1 ^ k5;
    let ee = c.update(3, m3).update(2, m2).update(1, m1).update(0, k);
    assert(d.len() == n);
    assert forall|i: int| 1 <= i < n implies #[trigger] d[i] == ee[i] ^ kv[i % 8] ^ ee[i - 1] by {
    }
    assert forall|j: int| 0 <= j < n implies chain_xor(d, kv, n)[j] == ee[j] by {
        lemma_chain_recovers(d, kv, n, ee, j);
    }
    lemma_chain_xor(d, kv, n);
    let e = chain_xor(d, kv, n);
    let out = encrypt_bytes(d, key);
    assert(e[3] == m3 && e[2] == m2 && e[1] == m1 && e[0] == k);
    assert(m3 ^ k2 == c3) by (bit_vector)
        requires
            m3 == c3 ^ k2,
    ;
    assert(m2 ^ k3 ^ c3 == c2) by (bit_vector)
        requires
            m2 == c2 ^ c3 ^ k3,
    ;
    assert(m1 ^ k4 ^ c2 == c1) by (bit_vector)
        requires
            m1 == c1 ^ c2 ^ k4,
    ;
    assert(k ^ k5 ^ c1 == c0) by (bit_vector)
        requires
            k == c0 ^ c1 ^ k5,
    ;
    assert forall|i: int| 0 <= i < n implies out[i] == c[i] by {
        if i >= 4 {
            assert(e[i] == ee[i]);
        }
    }
    assert(out =~= c);
}

/// The eight bytes of a cipher key, most significant first
fn key_vec(key: u64) -> (kv: Vec<u8>)
    ensures
        kv@ == key_bytes(key),
{
    let mut kv: Vec<u8> = Vec::new();
    kv.push((key / 0x100000000000000) as u8);
    kv.push(((key / 0x1000000000000) % 256) as u8);
    kv.push(((key / 0x10000000000) % 256) as u8);
    kv.push(((key / 0x100000000) % 256) as u8);
    kv.push(((key / 0x1000000) % 256) as u8);
    kv.push(((key / 0x10000) % 256) as u8);
    kv.push(((key / 0x100) % 256) as u8);
    kv.push((key % 256) as u8);
    assert(kv@ =~= key_bytes(key));
    kv
}

/// The 32 bit value with the byte order of `x` reversed
pub open spec fn swap32(x: u32) -> u32 {
    ((x & 0xff) << 24) | ((x & 0xff00) << 8) | ((x >> 8) & 0xff00) | (x >> 24)
}

/// The initial cipher key derived from the 32 bit seed sent to the client: the
/// seed is whitened and rotated, and the key's bytes, least significant first,
/// are the bytes of the two derived words, each most significant first
pub open spec fn key_init_spec(k: u32) -> u64 {
    let rotr = k ^ 0x9c30d539u32;
    let big0 = (rotr >> 13u32) | (rotr << 19u32);
    let big1 = big0 ^ 0x930fd7e2u32 ^ 0x7c72e993u32;
    (swap32(big1) as u64) | ((swap32(big0) as u64) << 32u64)
}

/// The key that follows `k` once a packet whose first four bytes read `v`
/// (least significant first) has passed
pub open spec fn change_key_spec(k: u64, v: u32) -> u64 {
    let d = swap32(v);
    let little = swap32((k & 0xffffffffu64) as u32);
    let little2 = ((little as int + 0x287effc3) % 0x100000000) as u32;
    let little3 = swap32(little2);
    ((k ^ ((d as u64) << 32u64)) & 0xffffffff00000000u64) | (little3 as u64)
}

/// Reverse the byte order of a 32 bit value
fn swap_bytes32(x: u32) -> (r: u32)
    ensures
        r == swap32(x),
{
    ((x & 0xff) << 24) | ((x & 0xff00) << 8) | ((x >> 8) & 0xff00) | (x >> 24)
}

/// Derive the initial cipher key from the 32 bit seed sent to the client
pub fn key_init(k: u32) -> (r: u64)
    ensures
        r == key_init_spec(k),
{
    let rotr: u32 = k ^ 0x9c30d539;
    let big0: u32 = (rotr >> 13) | (rotr << 19);
    let big1: u32 = big0 ^ 0x930fd7e2 ^ 0x7c72e993;
    (swap_bytes32(big1) as u64) | ((swap_bytes32(big0) as u64) << 32)
}

/// Advance the cipher key after a packet whose first four bytes read `v`
pub fn change_key(k: u64, v: u32) -> (r: u64)
    ensures
        r == change_key_spec(k, v),
{
    let d: u32 = swap_bytes32(v);
    let little: u32 = swap_bytes32((k & 0xffffffff) as u32);
    let sum: u64 = little as u64 + 0x287effc3;
    assert((sum & 0xffffffff) == sum % 0x100000000) by (bit_vector);
    let little2: u32 = (sum & 0xffffffff) as u32;
    let little3: u32 = swap_bytes32(little2);
    ((k ^ ((d as u64) << 32)) & 0xffffffff00000000) | (little3 as u64)
}

/// The abstract contents of a packet: its bytes and the position of the next read
pub struct PacketView {
    /// All bytes of the packet
    pub data: Seq<u8>,
    /// The index of the next byte to read
    pub read: int,
}

/// A packet of the game protocol: a growable byte buffer with a read cursor
pub struct Packet {
    /// The bytes of the packet
    data: Vec<u8>,
    /// The index of the next byte to read
    read: usize,
}

impl View for Packet {
    type V = PacketView;

    closed spec fn view(&self) -> PacketView {
        PacketView { data: self.data@, read: self.read as int }
    }
}

/// The read position of a packet is never negative
pub broadcast proof fn lemma_read_nonneg(p: &Packet)
    ensures
        0 <= (#[trigger] p@).read,
{
}

impl Packet {
    /// Construct an empty packet
    pub fn new() -> (p: Packet)
        ensures
            p@.data == Seq::<u8>::empty(),
            p@.read == 0,
    {
        Packet { data: Vec::new(), read: 0 }
    }

    /// Construct a packet holding the given bytes, ready to be read from the start
    pub fn from_bytes(d: Vec<u8>) -> (p: Packet)
        ensures
            p@.data == d@,
            p@.read == 0,
    {
        Packet { data: d, read: 0 }
    }

    /// The number of bytes in the packet
    pub fn len(&self) -> (r: u16)
        requires
            self@.data.len() <= u16::MAX,
        ensures
            r == self@.data.len(),
    {
        self.data.len() as u16
    }

    /// A copy of all bytes of the packet
    pub fn buf(&self) -> (r: Vec<u8>)
        ensures
            r@ == self@.data,
    {
        self.data.clone()
    }

    /// Append a copy of the given bytes
    pub fn add_vec(&mut self, d: &Vec<u8>) -> (r: &mut Packet)
        ensures
            r@.data == old(self)@.data + d@,
            r@.read == old(self)@.read,
            *final(self) == *final(r),
    {
        let mut i: usize = 0;
        while i < d.len()
            invariant
                i <= d@.len(),
                self@.data == old(self)@.data + d@.subrange(0, i as int),
                self@.read == old(self)@.read,
            decreases d@.len() - i,
        {
            self.data.push(d[i]);
            i = i + 1;
        }
        assert(d@.subrange(0, d@.len() as int) == d@);
        self
    }

    /// Append a byte
    pub fn add_u8(&mut self, d: u8) -> (r: &mut Packet)
        ensures
            r@.data == old(self)@.data.push(d),
            r@.read == old(self)@.read,
            *final(self) == *final(r),
    {
        self.data.push(d);
        self
    }

    /// Append the two's complement bits of a signed byte
    pub fn add_i8(&mut self, d: i8) -> (r: &mut Packet)
        ensures
            r@.data == old(self)@.data.push(i8_bits(d)),
            r@.read == old(self)@.read,
            *final(self) == *final(r),
    {
        let b: u8 = if d >= 0 { d as u8 } else { (d as i16 + 256) as u8 };
        self.data.push(b);
        self
    }

    /// Append a 16 bit value, least significant byte first
    pub fn add_u16(&mut self, d: u16) -> (r: &mut Packet)
        ensures
            r@.data == old(self)@.data + u16_le(d),
            r@.read == old(self)@.read,
            *final(self) == *final(r),
    {
        self.data.push((d % 256) as u8);
        self.data.push((d / 256) as u8);
        assert(self@.data == old(self)@.data + u16_le(d));
        self
    }

    /// Append the two's complement bits of a signed 16 bit value, least significant byte first
    pub fn add_i16(&mut self, d: i16) -> (r: &mut Packet)
        ensures
            r@.data == old(self)@.data + u16_le(i16_bits(d)),
            r@.read == old(self)@.read,
            *final(self) == *final(r),
    {
        let w: u16 = if d >= 0 { d as u16 } else { (d as i32 + 65536) as u16 };
        self.add_u16(w);
        self
    }

    /// Append a 32 bit value, least significant byte first
    pub fn add_u32(&mut self, d: u32) -> (r: &mut Packet)
        ensures
            r@.data == old(self)@.data + u32_le(d),
            r@.read == old(self)@.read,
            *final(self) == *final(r),
    {
        self.data.push((d % 256) as u8);
        self.data.push(((d / 256) % 256) as u8);
        self.data.push(((d / 65536) % 256) as u8);
        self.data.push((d / 16777216) as u8);
        assert(self@.data == old(self)@.data + u32_le(d));
        self
    }

    /// Append the UTF-8 bytes of a string followed by a terminating zero byte
    pub fn add_string(&mut self, d: String) -> (r: &mut Packet)
        ensures
            r@.data == old(self)@.data + cstr(d@),
            r@.read == old(self)@.read,
            *final(self) == *final(r),
    {
        let b = d.as_str().as_bytes();
        let mut i: usize = 0;
        while i < b.len()
            invariant
                i <= b@.len(),
                b@ == vstd::utf8::encode_utf8(d@),
                self@.data == old(self)@.data + b@.subrange(0, i as int),
                self@.read == old(self)@.read,
            decreases b@.len() - i,
        {
            self.data.push(b[i]);
            i = i + 1;
        }
        assert(b@.subrange(0, b@.len() as int) == b@);
        self.data.push(0);
        assert(self@.data =~= old(self)@.data + cstr(d@));
        self
    }

    /// Read one byte
    pub fn pull_u8(&mut self) -> (v: u8)
        requires
            old(self)@.read + 1 <= old(self)@.data.len(),
        ensures
            v == old(self)@.data[old(self)@.read],
            final(self)@.data == old(self)@.data,
            final(self)@.read == old(self)@.read + 1,
    {
        let _n = self.data.len();
        let val: u8 = self.data[self.read];
        self.read = self.read + 1;
        val
    }

    /// Read a 16 bit value stored least significant byte first
    pub fn pull_u16(&mut self) -> (v: u16)
        requires
            old(self)@.read + 2 <= old(self)@.data.len(),
        ensures
            v == le16(old(self)@.data[old(self)@.read], old(self)@.data[old(self)@.read + 1]),
            final(self)@.data == old(self)@.data,
            final(self)@.read == old(self)@.read + 2,
    {
        let _n = self.data.len();
        let b0 = self.data[self.read];
        let b1 = self.data[self.read + 1];
        self.read = self.read + 2;
        b0 as u16 + 256 * (b1 as u16)
    }

    /// Read a 32 bit value stored least significant byte first
    pub fn pull_u32(&mut self) -> (v: u32)
        requires
            old(self)@.read + 4 <= old(self)@.data.len(),
        ensures
            v == le32(
                old(self)@.data[old(self)@.read],
                old(self)@.data[old(self)@.read + 1],
                old(self)@.data[old(self)@.read + 2],
                old(self)@.data[old(self)@.read + 3],
            ),
            final(self)@.data == old(self)@.data,
            final(self)@.read == old(self)@.read + 4,
    {
        let _n = self.data.len();
        let r = self.read;
        let b0 = self.data[r];
        let b1 = self.data[r + 1];
        let b2 = self.data[r + 2];
        let b3 = self.data[r + 3];
        self.read = r + 4;
        b0 as u32 + 256 * (b1 as u32) + 65536 * (b2 as u32) + 16777216 * (b3 as u32)
    }

    /// Read a string terminated by a zero byte, each byte taken as one character
    pub fn pull_string(&mut self) -> (v: String)
        requires
            0 <= old(self)@.read,
            first_zero(old(self)@.data, old(self)@.read) < old(self)@.data.len(),
        ensures
            v@ == latin1(old(self)@.data.subrange(old(self)@.read, first_zero(old(self)@.data, old(self)@.read))),
            final(self)@.data == old(self)@.data,
            final(self)@.read == first_zero(old(self)@.data, old(self)@.read) + 1,
    {
        let ghost z = first_zero(self@.data, self@.read);
        let ghost start = self@.read;
        let mut v = String::new();
        let _n = self.data.len();
        proof {
            lemma_first_zero_bounds(self@.data, self@.read);
        }
        loop
            invariant
                _n == self@.data.len(),
                self@.data == old(self)@.data,
                start == old(self)@.read,
                z == first_zero(old(self)@.data, old(self)@.read),
                start <= self@.read <= z,
                z < self@.data.len(),
                first_zero(self@.data, self@.read) == z,
                v@ == latin1(self@.data.subrange(start, self@.read)),
            decreases z - self@.read,
        {
            let ghost cur = self@.read;
            proof {
                lemma_first_zero_bounds(self@.data, cur);
            }
            let digit = self.data[self.read];
            self.read = self.read + 1;
            if digit == 0 {
                assert(cur == z);
                return v;
            }
            assert(first_zero(self@.data, cur) == first_zero(self@.data, cur + 1));
            push_char(&mut v, digit as char);
            assert(latin1(self@.data.subrange(start, self@.read)) =~= latin1(
                self@.data.subrange(start, self@.read - 1),
            ).push(digit as char));
        }
    }

    /// Encrypt the packet bytes in place with the given key
    pub fn encrypt(&mut self, key: u64) -> (r: &mut Packet)
        requires
            old(self)@.data.len() >= 4,
        ensures
            r@.data == encrypt_bytes(old(self)@.data, key),
            r@.data.len() == old(self)@.data.len(),
            r@.read == old(self)@.read,
            *final(self) == *final(r),
    {
        let kv = key_vec(key);
        let ghost d = self@.data;
        let n = self.data.len();
        proof {
            lemma_chain_xor(d, kv@, n as int);
        }
        let first = self.data[0] ^ kv[0];
        self.data.set(0, first);
        let mut i: usize = 1;
        while i < n
            invariant
                1 <= i <= n,
                n == d.len(),
                n >= 4,
                kv@ == key_bytes(key),
                self@.read == old(self)@.read,
                self@.data.len() == n,
                forall|j: int| 0 <= j < i ==> self@.data[j] == chain_xor(d, kv@, n as int)[j],
                forall|j: int| i <= j < n ==> self@.data[j] == d[j],
                chain_xor(d, kv@, n as int).len() == n,
                chain_xor(d, kv@, n as int)[0] == d[0] ^ kv@[0],
                forall|j: int|
                    1 <= j < n ==> #[trigger] chain_xor(d, kv@, n as int)[j] == d[j] ^ kv@[j % 8]
                        ^ chain_xor(d, kv@, n as int)[j - 1],
            decreases n - i,
        {
            let v = self.data[i] ^ kv[i % 8] ^ self.data[i - 1];
            self.data.set(i, v);
            i = i + 1;
        }
        assert(self@.data =~= chain_xor(d, kv@, n as int));
        let b3 = self.data[3] ^ kv[2];
        self.data.set(3, b3);
        let b2 = self.data[2] ^ kv[3] ^ self.data[3];
        self.data.set(2, b2);
        let b1 = self.data[1] ^ kv[4] ^ self.data[2];
        self.data.set(1, b1);
        let b0 = self.data[0] ^ kv[5] ^ self.data[1];
        self.data.set(0, b0);
        assert(self@.data =~= encrypt_bytes(d, key));
        self
    }

    /// Decrypt the packet bytes in place with the given key
    pub fn decrypt(&mut self, key: u64) -> (r: &mut Packet)
        requires
            old(self)@.data.len() >= 4,
        ensures
            r@.data == decrypt_bytes(old(self)@.data, key),
            r@.data.len() == old(self)@.data.len(),
            r@.read == old(self)@.read,
            *final(self) == *final(r),
    {
        let kv = key_vec(key);
        let ghost c = self@.data;
        let n = self.data.len();
        let b3: u8 = self.data[3];
        let n3 = self.data[3] ^ kv[2];
        self.data.set(3, n3);
        let b2: u8 = self.data[2];
        let n2 = self.data[2] ^ b3 ^ kv[3];
        self.data.set(2, n2);
        let b1: u8 = self.data[1];
        let n1 = self.data[1] ^ b2 ^ kv[4];
        self.data.set(1, n1);
        let mut k: u8 = self.data[0] ^ b1 ^ kv[5];
        self.data.set(0, k ^ kv[0]);
        let ghost m = c.update(3, n3).update(2, n2).update(1, n1);
        let mut i: usize = 1;
        while i < n
            invariant
                1 <= i <= n,
                n == c.len(),
                n >= 4,
                kv@ == key_bytes(key),
                m.len() == n,
                m == c.update(3, c[3] ^ kv@[2]).update(2, c[2] ^ c[3] ^ kv@[3]).update(
                    1,
                    c[1] ^ c[2] ^ kv@[4],
                ),
                self@.read == old(self)@.read,
                self@.data.len() == n,
                i == 1 ==> k == c[0] ^ c[1] ^ kv@[5],
                i > 1 ==> k == m[i - 1],
                forall|j: int| 0 <= j < i ==> self@.data[j] == decrypt_bytes(c, key)[j],
                forall|j: int| i <= j < n ==> self@.data[j] == m[j],
            decreases n - i,
        {
            let t: u8 = self.data[i];
            let v = self.data[i] ^ kv[i % 8] ^ k;
            self.data.set(i, v);
            k = t;
            i = i + 1;
        }
        assert(self@.data =~= decrypt_bytes(c, key));
        self
    }

    /// The number of bytes left to read
    pub fn remaining(&self) -> (r: usize)
        ensures
            r == if self@.read <= self@.data.len() { self@.data.len() - self@.read } else { 0 },
    {
        if self.read <= self.data.len() {
            self.data.len() - self.read
        } else {
            0
        }
    }

    /// Is there a zero byte at or after the read position, ending a string?
    pub fn has_string(&self) -> (b: bool)
        ensures
            b == (first_zero(self@.data, self@.read) < self@.data.len()),
    {
        let n = self.data.len();
        if self.read >= n {
            return false;
        }
        let mut i = self.read;
        while i < n
            invariant
                self@.read <= i <= n,
                n == self@.data.len(),
                first_zero(self@.data, self@.read) == first_zero(self@.data, i as int),
            decreases n - i,
        {
            if self.data[i] == 0 {
                return true;
            }
            i = i + 1;
        }
        false
    }

    /// The first four bytes of the packet read least significant byte first
    pub fn peek_u32(&self) -> (v: u32)
        requires
            self@.data.len() >= 4,
        ensures
            v == le32(self@.data[0], self@.data[1], self@.data[2], self@.data[3]),
    {
        self.data[0] as u32 + 256 * (self.data[1] as u32) + 65536 * (self.data[2] as u32)
            + 16777216 * (self.data[3] as u32)
    }
}

} // verus!
