//! The address structure of the family: its named fields, and its layout in
//! memory as the system calls read and write it.

use vstd::prelude::*;
use vstd::string::*;
use crate::errno::{cvt, OsError};
use crate::sys::AddrReply;

verus! {

/// The size in bytes of the address structure.
pub const SOCKADDR_VM_SIZE: usize = 16;

/// The order in which the bytes of an integer lie in memory.
#[derive(Clone, Copy, Debug, PartialEq, Eq, Structural)]
pub enum ByteOrder {
    /// Least significant byte first.
    Little,
    /// Most significant byte first.
    Big,
}

/// The four bytes of `x`, least significant first.
pub open spec fn le_bytes(x: u32) -> Seq<u8> {
    seq![
        (x as int % 256) as u8,
        (x as int / 256 % 256) as u8,
        (x as int / 65536 % 256) as u8,
        (x as int / 16777216) as u8,
    ]
}

/// The four bytes of `x` as they lie in memory under `order`.
pub open spec fn u32_bytes(x: u32, order: ByteOrder) -> Seq<u8> {
    match order {
        ByteOrder::Little => le_bytes(x),
        ByteOrder::Big => le_bytes(x).reverse(),
    }
}

/// The integer whose bytes, least significant first, are `b0` to `b3`.
pub open spec fn le_value(b0: u8, b1: u8, b2: u8, b3: u8) -> int {
    b0 as int + 256 * (b1 as int) + 65536 * (b2 as int) + 16777216 * (b3 as int)
}

/// The integer that four bytes of memory hold under `order`.
pub open spec fn u32_value(b: Seq<u8>, order: ByteOrder) -> int
    recommends
        b.len() == 4,
{
    match order {
        ByteOrder::Little => le_value(b[0], b[1], b[2], b[3]),
        ByteOrder::Big => le_value(b[3], b[2], b[1], b[0]),
    }
}

/// The address structure, field by field.
#[derive(Clone, Copy, Debug, PartialEq, Eq)]
pub struct SockaddrVm {
    /// The tag of the address family.
    pub family: u8,
    pub reserved1: u8,
    pub port: u32,
    /// The context identifier: which host or guest is meant.
    pub cid: u32,
    pub zero: [u8; 4],
}

fn encode_u32(x: u32, order: ByteOrder) -> (b: [u8; 4])
    ensures
        b@ == u32_bytes(x, order),
{
    let b0: u8 = (x & 0xff) as u8;
    let b1: u8 = ((x >> 8) & 0xff) as u8;
    let b2: u8 = ((x >> 16) & 0xff) as u8;
    let b3: u8 = ((x >> 24) & 0xff) as u8;
    assert(x & 0xff == x % 256) by (bit_vector);
    assert((x >> 8) & 0xff == x / 256 % 256) by (bit_vector);
    assert((x >> 16) & 0xff == x / 65536 % 256) by (bit_vector);
    assert((x >> 24) & 0xff == x / 16777216) by (bit_vector);
    let b = match order {
        ByteOrder::Little => [b0, b1, b2, b3],
        ByteOrder::Big => [b3, b2, b1, b0],
    };
    assert(b@ =~= u32_bytes(x, order));
    b
}

fn decode_u32(b0: u8, b1: u8, b2: u8, b3: u8, order: ByteOrder) -> (x: u32)
    ensures
        x == u32_value(seq![b0, b1, b2, b3], order),
{
    match order {
        ByteOrder::Little => {
            b0 as u32 + 256 * (b1 as u32) + 65536 * (b2 as u32) + 16777216 * (b3 as u32)
        },
        ByteOrder::Big => {
            b3 as u32 + 256 * (b2 as u32) + 65536 * (b1 as u32) + 16777216 * (b0 as u32)
        },
    }
}

/// The tag that stands for an address family in the structure's first byte:
/// the family's value cut down to eight bits.
pub open spec fn family_tag(af: i32) -> u8 {
    (af as int % 256) as u8
}

impl SockaddrVm {
    /// The structure as it lies in memory: the tag, the reserved byte, two
    /// bytes that align the port, the port, the context identifier, and the
    /// four closing bytes.
    pub open spec fn layout(self, order: ByteOrder) -> Seq<u8> {
        seq![self.family, self.reserved1, 0u8, 0u8] + u32_bytes(self.port, order) + u32_bytes(
            self.cid,
            order,
        ) + self.zero@
    }

    /// Whether the fields are what `bytes` hold. The two aligning bytes are
    /// not looked at.
    pub open spec fn is_read_from(self, bytes: Seq<u8>, order: ByteOrder) -> bool
        recommends
            bytes.len() == SOCKADDR_VM_SIZE,
    {
        &&& self.family == bytes[0]
        &&& self.reserved1 == bytes[1]
        &&& self.port == u32_value(bytes.subrange(4, 8), order)
        &&& self.cid == u32_value(bytes.subrange(8, 12), order)
        &&& self.zero@ == bytes.subrange(12, 16)
    }

    /// The address of `port` at `cid` for a socket of the family `af`.
    pub open spec fn target(af: i32, port: u32, cid: u32) -> SockaddrVm {
        SockaddrVm {
            family: family_tag(af),
            reserved1: 0,
            port,
            cid,
            zero: [0u8, 0u8, 0u8, 0u8],
        }
    }

    /// The structure with every byte zero.
    pub open spec fn all_zero() -> SockaddrVm {
        SockaddrVm { family: 0, reserved1: 0, port: 0, cid: 0, zero: [0u8, 0u8, 0u8, 0u8] }
    }

    /// The structure that a call is handed to write an address into.
    pub fn zeroed() -> (a: SockaddrVm)
        ensures
            a == SockaddrVm::all_zero(),
    {
        SockaddrVm { family: 0, reserved1: 0, port: 0, cid: 0, zero: [0u8, 0u8, 0u8, 0u8] }
    }

    /// Builds the address that a socket of the family `af` connects or binds
    /// to.
    pub fn new(af: i32, port: u32, cid: u32) -> (a: SockaddrVm)
        ensures
            a == SockaddrVm::target(af, port, cid),
    {
        let low: i32 = af & 0xff;
        assert(0 <= low < 256 && low == af % 256) by (bit_vector)
            requires
                low == af & 0xff,
        ;
        SockaddrVm {
            family: low as u8,
            reserved1: 0,
            port,
            cid,
            zero: [0u8, 0u8, 0u8, 0u8],
        }
    }

    /// Lays the structure out as the system calls read it.
    pub fn to_bytes(&self, order: ByteOrder) -> (bytes: [u8; 16])
        ensures
            bytes@ == self.layout(order),
    {
        let p = encode_u32(self.port, order);
        let c = encode_u32(self.cid, order);
        let bytes = [
            self.family,
            self.reserved1,
            0u8,
            0u8,
            p[0],
            p[1],
            p[2],
            p[3],
            c[0],
            c[1],
            c[2],
            c[3],
            self.zero[0],
            self.zero[1],
            self.zero[2],
            self.zero[3],
        ];
        assert(bytes@ =~= self.layout(order));
        bytes
    }

    /// Reads the fields out of the structure as a system call left it.
    pub fn from_bytes(bytes: &[u8; 16], order: ByteOrder) -> (a: SockaddrVm)
        ensures
            a.is_read_from(bytes@, order),
    {
        let port = decode_u32(bytes[4], bytes[5], bytes[6], bytes[7], order);
        let cid = decode_u32(bytes[8], bytes[9], bytes[10], bytes[11], order);
        let zero = [bytes[12], bytes[13], bytes[14], bytes[15]];
        assert(bytes@.subrange(4, 8) =~= seq![bytes[4], bytes[5], bytes[6], bytes[7]]);
        assert(bytes@.subrange(8, 12) =~= seq![bytes[8], bytes[9], bytes[10], bytes[11]]);
        assert(zero@ =~= bytes@.subrange(12, 16));
        SockaddrVm { family: bytes[0], reserved1: bytes[1], port, cid, zero }
    }

    /// What is laid out is read back unchanged.
    pub proof fn lemma_layout_is_read_back(self, order: ByteOrder)
        ensures
            self.layout(order).len() == SOCKADDR_VM_SIZE,
            self.is_read_from(self.layout(order), order),
    {
        let bytes = self.layout(order);
        lemma_u32_value_of_bytes(self.port, order);
        lemma_u32_value_of_bytes(self.cid, order);
        assert(bytes.subrange(4, 8) =~= u32_bytes(self.port, order));
        assert(bytes.subrange(8, 12) =~= u32_bytes(self.cid, order));
        assert(bytes.subrange(12, 16) =~= self.zero@);
    }

    /// Sixteen bytes hold one address only.
    pub proof fn lemma_read_is_unique(self, other: SockaddrVm, bytes: Seq<u8>, order: ByteOrder)
        requires
            self.is_read_from(bytes, order),
            other.is_read_from(bytes, order),
        ensures
            self == other,
    {
        assert(self.zero@ =~= other.zero@);
        assert(self.zero == other.zero);
    }

    /// Reading sixteen bytes whose aligning bytes are zero and laying the
    /// fields out again gives the same bytes.
    pub proof fn lemma_read_is_laid_out_back(self, bytes: Seq<u8>, order: ByteOrder)
        requires
            bytes.len() == SOCKADDR_VM_SIZE,
            bytes[2] == 0,
            bytes[3] == 0,
            self.is_read_from(bytes, order),
        ensures
            self.layout(order) == bytes,
    {
        lemma_u32_bytes_of_value(bytes.subrange(4, 8), order);
        lemma_u32_bytes_of_value(bytes.subrange(8, 12), order);
        assert(self.layout(order) =~= bytes);
    }

    /// The zeroed structure is sixteen zero bytes, whatever the byte order.
    pub proof fn lemma_zeroed_layout(order: ByteOrder)
        ensures
            SockaddrVm::all_zero().layout(order) == Seq::new(16, |i: int| 0u8),
    {
        assert(SockaddrVm::all_zero().layout(order) =~= Seq::new(16, |i: int| 0u8));
    }
}

/// The bytes of an integer hold that integer.
pub proof fn lemma_u32_value_of_bytes(x: u32, order: ByteOrder)
    ensures
        u32_bytes(x, order).len() == 4,
        u32_value(u32_bytes(x, order), order) == x,
{
}

/// Four bytes are the bytes of the integer that they hold.
pub proof fn lemma_u32_bytes_of_value(b: Seq<u8>, order: ByteOrder)
    requires
        b.len() == 4,
    ensures
        0 <= u32_value(b, order) <= u32::MAX,
        u32_bytes(u32_value(b, order) as u32, order) == b,
{
    match order {
        ByteOrder::Little => lemma_le_bytes_of_value(b[0], b[1], b[2], b[3]),
        ByteOrder::Big => lemma_le_bytes_of_value(b[3], b[2], b[1], b[0]),
    }
    assert(u32_bytes(u32_value(b, order) as u32, order) =~= b);
}

proof fn lemma_le_bytes_of_value(b0: u8, b1: u8, b2: u8, b3: u8)
    ensures
        0 <= le_value(b0, b1, b2, b3) <= u32::MAX,
        le_bytes(le_value(b0, b1, b2, b3) as u32) == seq![b0, b1, b2, b3],
{
    let v = le_value(b0, b1, b2, b3);
    let q1 = b1 as int + 256 * (b2 as int) + 65536 * (b3 as int);
    let q2 = b2 as int + 256 * (b3 as int);
    assert(v == 256 * q1 + b0 as int);
    assert(v / 256 == q1 && v % 256 == b0 as int);
    assert(q1 == 256 * q2 + b1 as int);
    assert(q1 / 256 == q2 && q1 % 256 == b1 as int);
    assert(v / 65536 == q2) by {
        assert(v == 65536 * q2 + (256 * (b1 as int) + b0 as int));
    }
    assert(q2 / 256 == b3 as int && q2 % 256 == b2 as int);
    assert(v / 16777216 == b3 as int) by {
        assert(v == 16777216 * (b3 as int) + (65536 * (b2 as int) + 256 * (b1 as int)
            + b0 as int));
    }
    assert(le_bytes(v as u32) =~= seq![b0, b1, b2, b3]);
}

/// The character of one decimal digit.
pub open spec fn digit_char(d: nat) -> char
    recommends
        d < 10,
{
    if d == 0 {
        '0'
    } else if d == 1 {
        '1'
    } else if d == 2 {
        '2'
    } else if d == 3 {
        '3'
    } else if d == 4 {
        '4'
    } else if d == 5 {
        '5'
    } else if d == 6 {
        '6'
    } else if d == 7 {
        '7'
    } else if d == 8 {
        '8'
    } else {
        '9'
    }
}

/// The decimal numeral of `n`, without leading zeros.
pub open spec fn decimal(n: nat) -> Seq<char>
    decreases n,
{
    if n < 10 {
        seq![digit_char(n)]
    } else {
        decimal(n / 10).push(digit_char(n % 10))
    }
}

fn digit_str(d: u32) -> (s: &'static str)
    requires
        d < 10,
    ensures
        s@ == seq![digit_char(d as nat)],
{
    proof {
        reveal_strlit("0");
        reveal_strlit("1");
        reveal_strlit("2");
        reveal_strlit("3");
        reveal_strlit("4");
        reveal_strlit("5");
        reveal_strlit("6");
        reveal_strlit("7");
        reveal_strlit("8");
        reveal_strlit("9");
    }
    let s = if d == 0 {
        "0"
    } else if d == 1 {
        "1"
    } else if d == 2 {
        "2"
    } else if d == 3 {
        "3"
    } else if d == 4 {
        "4"
    } else if d == 5 {
        "5"
    } else if d == 6 {
        "6"
    } else if d == 7 {
        "7"
    } else if d == 8 {
        "8"
    } else {
        "9"
    };
    assert(s@ =~= seq![digit_char(d as nat)]);
    s
}

fn push_decimal(out: &mut String, n: u32)
    ensures
        final(out)@ == old(out)@ + decimal(n as nat),
    decreases n,
{
    if n >= 10 {
        push_decimal(out, n / 10);
    }
    out.append(digit_str(n % 10));
    assert(out@ =~= old(out)@ + decimal(n as nat));
}

/// An address that a socket reported, with the length that was written.
#[derive(Clone, Copy, Debug, PartialEq, Eq)]
pub struct SocketAddr {
    addr: SockaddrVm,
    len: u32,
}

impl SocketAddr {
    #[verifier::type_invariant]
    spec fn fits(self) -> bool {
        self.len <= SOCKADDR_VM_SIZE
    }

    /// The fields of the reported structure.
    pub closed spec fn spec_addr(&self) -> SockaddrVm {
        self.addr
    }

    /// The number of bytes of the structure that were written.
    pub closed spec fn spec_len(&self) -> u32 {
        self.len
    }

    /// What this address reads as: the context identifier, a colon, the port.
    pub open spec fn text(self) -> Seq<char> {
        decimal(self.spec_addr().cid as nat) + seq![':'] + decimal(self.spec_addr().port as nat)
    }

    /// Whether this address is what a successful `reply` reported: the
    /// structure as the call left it; as length the reported one, or the
    /// structure's size where the call reports more than it could write.
    pub open spec fn reports(self, reply: AddrReply) -> bool {
        &&& self.spec_addr() == reply.addr
        &&& self.spec_len() == (if reply.len <= SOCKADDR_VM_SIZE {
            reply.len
        } else {
            SOCKADDR_VM_SIZE as u32
        })
    }

    /// Reads the reply of a call that reports an address. A failed call gives
    /// its error. Otherwise the structure is taken over as the call left it;
    /// the length is the reported one, or the structure's size where the
    /// call reports more than it could write.
    pub fn new(reply: AddrReply) -> (r: Result<SocketAddr, OsError>)
        ensures
            reply.ret < 0 ==> r == Err::<SocketAddr, OsError>(OsError { code: reply.errno }),
            reply.ret >= 0 ==> r is Ok && r->Ok_0.reports(reply),
    {
        match cvt(reply.ret, reply.errno) {
            Err(e) => Err(e),
            Ok(_) => {
                let len: u32 = if reply.len <= 16 {
                    reply.len
                } else {
                    16
                };
                Ok(SocketAddr { addr: reply.addr, len })
            },
        }
    }

    /// The fields of the reported structure.
    #[verifier::when_used_as_spec(spec_addr)]
    pub fn addr(&self) -> (a: SockaddrVm)
        ensures
            a == self.spec_addr(),
    {
        self.addr
    }

    /// The number of bytes of the structure that were written: at most its
    /// size.
    #[verifier::when_used_as_spec(spec_len)]
    pub fn len(&self) -> (n: u32)
        ensures
            n == self.spec_len(),
            n <= SOCKADDR_VM_SIZE,
    {
        proof {
            use_type_invariant(self);
        }
        self.len
    }

    /// The tag of the address family.
    pub fn family(&self) -> (t: u8)
        ensures
            t == self.addr().family,
    {
        self.addr.family
    }

    /// The port.
    pub fn port(&self) -> (p: u32)
        ensures
            p == self.addr().port,
    {
        self.addr.port
    }

    /// The context identifier.
    pub fn cid(&self) -> (c: u32)
        ensures
            c == self.addr().cid,
    {
        self.addr.cid
    }

    /// Writes the address out for display.
    pub fn render(&self) -> (s: String)
        ensures
            s@ == self.text(),
    {
        let mut s = String::new();
        push_decimal(&mut s, self.addr.cid);
        proof {
            reveal_strlit(":");
        }
        s.append(":");
        push_decimal(&mut s, self.addr.port);
        assert(s@ =~= self.text());
        s
    }
}

} // verus!
