//! Messages that carry a request identifier and a pointer between threads of a process.

use vstd::prelude::*;

verus! {

/// The size of a pointer in a message.
pub const POINTER_SIZE: usize = 8;

/// The size of a message: an identifier and a pointer.
pub const MESSAGE_SIZE: usize = 16;

/// The identifier that no request has.
pub const ZERO_ID: u64 = 0;

/// The bytes of `v`, the most significant first.
pub open spec fn be_bytes(v: u64) -> Seq<u8> {
    seq![
        (v / 0x100_0000_0000_0000) as u8,
        (v / 0x1_0000_0000_0000 % 0x100) as u8,
        (v / 0x100_0000_0000 % 0x100) as u8,
        (v / 0x1_0000_0000 % 0x100) as u8,
        (v / 0x100_0000 % 0x100) as u8,
        (v / 0x1_0000 % 0x100) as u8,
        (v / 0x100 % 0x100) as u8,
        (v % 0x100) as u8,
    ]
}

/// The number with these bytes, the most significant first.
pub open spec fn be_value(s: Seq<u8>) -> int
    decreases s.len(),
{
    if s.len() == 0 {
        0
    } else {
        be_value(s.drop_last()) * 0x100 + s.last()
    }
}

/// The bytes of an identifier, the most significant first.
pub fn id_to_buffer(id: u64) -> (buf: [u8; 8])
    ensures
        buf@ == be_bytes(id),
{
    let buf: [u8; 8] = [
        (id / 0x100_0000_0000_0000) as u8,
        (id / 0x1_0000_0000_0000 % 0x100) as u8,
        (id / 0x100_0000_0000 % 0x100) as u8,
        (id / 0x1_0000_0000 % 0x100) as u8,
        (id / 0x100_0000 % 0x100) as u8,
        (id / 0x1_0000 % 0x100) as u8,
        (id / 0x100 % 0x100) as u8,
        (id % 0x100) as u8,
    ];
    assert(buf@ =~= be_bytes(id));
    buf
}

/// The value of eight bytes, written out.
pub proof fn lemma_be_value(s: Seq<u8>)
    requires
        s.len() == 8,
    ensures
        be_value(s) == ((((((s[0] * 0x100 + s[1]) * 0x100 + s[2]) * 0x100 + s[3]) * 0x100 + s[4])
            * 0x100 + s[5]) * 0x100 + s[6]) * 0x100 + s[7],
{
    let s7 = s.drop_last();
    let s6 = s7.drop_last();
    let s5 = s6.drop_last();
    let s4 = s5.drop_last();
    let s3 = s4.drop_last();
    let s2 = s3.drop_last();
    let s1 = s2.drop_last();
    assert(s1.drop_last() =~= Seq::<u8>::empty());
    assert(be_value(s1.drop_last()) == 0);
    assert(be_value(s1) == s[0]);
    assert(be_value(s2) == s[0] * 0x100 + s[1]);
    assert(be_value(s3) == (s[0] * 0x100 + s[1]) * 0x100 + s[2]);
    assert(be_value(s4) == be_value(s3) * 0x100 + s[3]);
    assert(be_value(s5) == be_value(s4) * 0x100 + s[4]);
    assert(be_value(s6) == be_value(s5) * 0x100 + s[5]);
    assert(be_value(s7) == be_value(s6) * 0x100 + s[6]);
}

/// The identifier with these bytes, the most significant first.
pub fn id_from_buffer(buf: [u8; 8]) -> (id: u64)
    ensures
        id == be_value(buf@),
{
    proof {
        lemma_be_value(buf@);
    }
    let high: u64 = ((buf[0] as u64 * 0x100 + buf[1] as u64) * 0x100 + buf[2] as u64) * 0x100
        + buf[3] as u64;
    let low: u64 = ((buf[4] as u64 * 0x100 + buf[5] as u64) * 0x100 + buf[6] as u64) * 0x100
        + buf[7] as u64;
    high * 0x1_0000_0000 + low
}

/// A number put together again from its bytes.
proof fn lemma_bytes_of(v: int)
    requires
        0 <= v <= u64::MAX,
    ensures
        v == ((((((v / 0x100_0000_0000_0000 * 0x100 + v / 0x1_0000_0000_0000 % 0x100) * 0x100 + v
            / 0x100_0000_0000 % 0x100) * 0x100 + v / 0x1_0000_0000 % 0x100) * 0x100 + v
            / 0x100_0000 % 0x100) * 0x100 + v / 0x1_0000 % 0x100) * 0x100 + v / 0x100 % 0x100)
            * 0x100 + v % 0x100,
        0 <= v / 0x100_0000_0000_0000 < 0x100,
{
    assert(v == v / 0x100 * 0x100 + v % 0x100);
    assert(v / 0x100 == v / 0x1_0000 * 0x100 + v / 0x100 % 0x100);
    assert(v / 0x1_0000 == v / 0x100_0000 * 0x100 + v / 0x1_0000 % 0x100);
    assert(v / 0x100_0000 == v / 0x1_0000_0000 * 0x100 + v / 0x100_0000 % 0x100);
    assert(v / 0x1_0000_0000 == v / 0x100_0000_0000 * 0x100 + v / 0x1_0000_0000 % 0x100);
    assert(v / 0x100_0000_0000 == v / 0x1_0000_0000_0000 * 0x100 + v / 0x100_0000_0000 % 0x100);
    assert(v / 0x1_0000_0000_0000 == v / 0x100_0000_0000_0000 * 0x100 + v / 0x1_0000_0000_0000
        % 0x100);
}

/// An identifier comes back from its bytes.
pub proof fn law_id_round_trip(id: u64)
    ensures
        be_value(be_bytes(id)) == id,
{
    lemma_be_value(be_bytes(id));
    lemma_bytes_of(id as int);
}

/// Eight bytes come back from the identifier that they are.
pub proof fn law_bytes_round_trip(b: Seq<u8>)
    requires
        b.len() == 8,
    ensures
        0 <= be_value(b) <= u64::MAX,
        be_bytes(be_value(b) as u64) == b,
{
    lemma_be_value(b);
    let v = be_value(b);
    let v7 = ((((((b[0] * 0x100 + b[1]) * 0x100 + b[2]) * 0x100 + b[3]) * 0x100 + b[4]) * 0x100
        + b[5]) * 0x100 + b[6]);
    let v6 = (((((b[0] * 0x100 + b[1]) * 0x100 + b[2]) * 0x100 + b[3]) * 0x100 + b[4]) * 0x100
        + b[5]);
    let v5 = ((((b[0] * 0x100 + b[1]) * 0x100 + b[2]) * 0x100 + b[3]) * 0x100 + b[4]);
    let v4 = (((b[0] * 0x100 + b[1]) * 0x100 + b[2]) * 0x100 + b[3]);
    let v3 = ((b[0] * 0x100 + b[1]) * 0x100 + b[2]);
    let v2 = (b[0] * 0x100 + b[1]);
    assert(v / 0x100 == v7 && v % 0x100 == b[7]);
    assert(v / 0x1_0000 == v6 && v7 % 0x100 == b[6]);
    assert(v / 0x100_0000 == v5 && v6 % 0x100 == b[5]);
    assert(v / 0x1_0000_0000 == v4 && v5 % 0x100 == b[4]);
    assert(v / 0x100_0000_0000 == v3 && v4 % 0x100 == b[3]);
    assert(v / 0x1_0000_0000_0000 == v2 && v3 % 0x100 == b[2]);
    assert(v / 0x100_0000_0000_0000 == b[0] && v2 % 0x100 == b[1]);
    assert(be_bytes(v as u64) =~= b);
}

/// The bytes of a message about `pointer` under `id`: the identifier with the most
/// significant byte first, the address with the least significant one first, as it lies
/// in memory.
pub open spec fn message_bytes(id: u64, pointer: u64) -> Seq<u8> {
    be_bytes(id) + be_bytes(pointer).reverse()
}

/// A message: the first eight bytes are the request identifier, the other eight the
/// address of what it points to, which belongs to the message until it is taken out.
pub struct IdPointerMsg {
    data: Option<[u8; 16]>,
}

impl IdPointerMsg {
    /// The bytes of the message, while it owns what it points to.
    pub closed spec fn bytes(&self) -> Option<Seq<u8>> {
        match self.data {
            Some(data) => Some(data@),
            None => None,
        }
    }

    /// A message with these bytes.
    pub fn new(data: [u8; 16]) -> (m: IdPointerMsg)
        ensures
            m.bytes() == Some(data@),
    {
        IdPointerMsg { data: Some(data) }
    }

    /// A message that owns what lies at the address `pointer`.
    pub fn from_id_box(id: u64, pointer: u64) -> (m: IdPointerMsg)
        ensures
            m.bytes() == Some(message_bytes(id, pointer)),
    {
        let a = id_to_buffer(id);
        let b = id_to_buffer(pointer);
        let data: [u8; 16] = [
            a[0],
            a[1],
            a[2],
            a[3],
            a[4],
            a[5],
            a[6],
            a[7],
            b[7],
            b[6],
            b[5],
            b[4],
            b[3],
            b[2],
            b[1],
            b[0],
        ];
        assert(data@ =~= message_bytes(id, pointer));
        IdPointerMsg::new(data)
    }

    /// The bytes to send, while the message owns what it points to.
    pub fn as_ref(&self) -> (data: Option<&[u8; 16]>)
        ensures
            data is Some == self.bytes() is Some,
            data matches Some(d) ==> d@ == self.bytes()->0,
    {
        match &self.data {
            Some(data) => Some(data),
            None => None,
        }
    }

    /// Takes the identifier and the address out. What lies there no longer belongs to the
    /// message, so that it is owned once.
    pub fn take(&mut self) -> (r: Option<(u64, u64)>)
        ensures
            final(self).bytes() is None,
            r is Some == old(self).bytes() is Some,
            r matches Some((id, pointer)) ==> {
                let bytes = old(self).bytes()->0;
                id == be_value(bytes.subrange(0, 8)) && pointer == be_value(bytes.subrange(8, 16).reverse())
            },
    {
        match self.data.take() {
            Some(d) => {
                let a: [u8; 8] = [d[0], d[1], d[2], d[3], d[4], d[5], d[6], d[7]];
                let b: [u8; 8] = [d[15], d[14], d[13], d[12], d[11], d[10], d[9], d[8]];
                assert(a@ =~= d@.subrange(0, 8));
                assert(b@ =~= d@.subrange(8, 16).reverse());
                Some((id_from_buffer(a), id_from_buffer(b)))
            },
            None => None,
        }
    }

    /// Turns a message that owns what it points to into the identifier and the address.
    pub fn into_id_box(self) -> (r: (u64, u64))
        requires
            self.bytes() is Some,
        ensures
            r.0 == be_value(self.bytes()->0.subrange(0, 8)),
            r.1 == be_value(self.bytes()->0.subrange(8, 16).reverse()),
    {
        let mut this = self;
        match this.take() {
            Some(r) => r,
            None => (0, 0),
        }
    }
}

/// What went into a message comes out of it.
pub proof fn law_message_round_trip(id: u64, pointer: u64)
    ensures
        be_value(message_bytes(id, pointer).subrange(0, 8)) == id,
        be_value(message_bytes(id, pointer).subrange(8, 16).reverse()) == pointer,
{
    law_id_round_trip(id);
    law_id_round_trip(pointer);
    assert(message_bytes(id, pointer).subrange(0, 8) =~= be_bytes(id));
    assert(message_bytes(id, pointer).subrange(8, 16).reverse() =~= be_bytes(pointer));
}

} // verus!
