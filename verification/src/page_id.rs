//! Page identifiers: a 64-bit number with one reserved value for "no page",
//! and their 8-byte encoding.

use vstd::bytes::{
    lemma_auto_spec_u64_to_from_le_bytes, spec_u64_from_le_bytes, spec_u64_to_le_bytes,
    spec_u64_to_le_bytes_open, spec_u64_to_le_bytes_to_open, u64_from_le_bytes, u64_to_le_bytes,
};
use vstd::prelude::*;
use vstd::std_specs::convert::FromSpec;

verus! {

/// The order in which the bytes of a number are laid out in a buffer.
#[derive(Clone, Copy, Debug, PartialEq, Eq, Structural)]
pub enum ByteOrder {
    /// Least significant byte first.
    Little,
    /// Most significant byte first.
    Big,
}

/// The bytes of `bytes` arranged least significant first, given that they
/// are laid out in `order`. Arranging twice gives the buffer back.
pub open spec fn arranged(bytes: Seq<u8>, order: ByteOrder) -> Seq<u8> {
    match order {
        ByteOrder::Little => bytes,
        ByteOrder::Big => bytes.reverse(),
    }
}

/// The number that eight bytes stand for when the least significant comes
/// first: byte `i` counts `256` to the power `i` times its value.
pub open spec fn le_value(bytes: Seq<u8>) -> int
    recommends
        bytes.len() == 8,
{
    bytes[0] + 0x100 * bytes[1] + 0x1_0000 * bytes[2] + 0x100_0000 * bytes[3] + 0x1_0000_0000
        * bytes[4] + 0x100_0000_0000 * bytes[5] + 0x1_0000_0000_0000 * bytes[6]
        + 0x100_0000_0000_0000 * bytes[7]
}

/// The eight base-256 digits of `value`, the least significant first.
pub open spec fn le_bytes(value: u64) -> Seq<u8> {
    seq![
        (value % 0x100) as u8,
        (value / 0x100 % 0x100) as u8,
        (value / 0x1_0000 % 0x100) as u8,
        (value / 0x100_0000 % 0x100) as u8,
        (value / 0x1_0000_0000 % 0x100) as u8,
        (value / 0x100_0000_0000 % 0x100) as u8,
        (value / 0x1_0000_0000_0000 % 0x100) as u8,
        (value / 0x100_0000_0000_0000 % 0x100) as u8,
    ]
}

/// The number that eight bytes laid out in `order` stand for.
pub open spec fn decoded(bytes: Seq<u8>, order: ByteOrder) -> int
    recommends
        bytes.len() == 8,
{
    le_value(arranged(bytes, order))
}

/// The eight bytes that stand for `value`, laid out in `order`.
pub open spec fn encoded(value: u64, order: ByteOrder) -> Seq<u8> {
    arranged(le_bytes(value), order)
}

/// The digits of a number, least significant first, are the bytes that
/// vstd's little-endian encoding gives.
proof fn lemma_le_bytes_agree(value: u64)
    ensures
        spec_u64_to_le_bytes(value) == le_bytes(value),
{
    spec_u64_to_le_bytes_to_open(value);
    assert(value & 0xff == value % 0x100) by (bit_vector);
    assert((value >> 8) & 0xff == value / 0x100 % 0x100) by (bit_vector);
    assert((value >> 16) & 0xff == value / 0x1_0000 % 0x100) by (bit_vector);
    assert((value >> 24) & 0xff == value / 0x100_0000 % 0x100) by (bit_vector);
    assert((value >> 32) & 0xff == value / 0x1_0000_0000 % 0x100) by (bit_vector);
    assert((value >> 40) & 0xff == value / 0x100_0000_0000 % 0x100) by (bit_vector);
    assert((value >> 48) & 0xff == value / 0x1_0000_0000_0000 % 0x100) by (bit_vector);
    assert((value >> 56) & 0xff == value / 0x100_0000_0000_0000 % 0x100) by (bit_vector);
    assert(spec_u64_to_le_bytes_open(value) =~= le_bytes(value));
}

/// Eight bytes stand for a 64-bit number, and its digits are those bytes.
pub proof fn lemma_le_value_digits(bytes: Seq<u8>)
    requires
        bytes.len() == 8,
    ensures
        0 <= le_value(bytes) <= u64::MAX,
        le_bytes(le_value(bytes) as u64) == bytes,
{
    let value = le_value(bytes) as u64;
    let b0 = bytes[0] as u64;
    let b1 = bytes[1] as u64;
    let b2 = bytes[2] as u64;
    let b3 = bytes[3] as u64;
    let b4 = bytes[4] as u64;
    let b5 = bytes[5] as u64;
    let b6 = bytes[6] as u64;
    let b7 = bytes[7] as u64;
    assert(value == b0 + 0x100 * b1 + 0x1_0000 * b2 + 0x100_0000 * b3 + 0x1_0000_0000 * b4
        + 0x100_0000_0000 * b5 + 0x1_0000_0000_0000 * b6 + 0x100_0000_0000_0000 * b7);
    assert(value % 0x100 == b0 && value / 0x100 % 0x100 == b1 && value / 0x1_0000 % 0x100 == b2
        && value / 0x100_0000 % 0x100 == b3 && value / 0x1_0000_0000 % 0x100 == b4 && value
        / 0x100_0000_0000 % 0x100 == b5 && value / 0x1_0000_0000_0000 % 0x100 == b6 && value
        / 0x100_0000_0000_0000 % 0x100 == b7) by (bit_vector)
        requires
            b0 < 0x100 && b1 < 0x100 && b2 < 0x100 && b3 < 0x100 && b4 < 0x100 && b5 < 0x100 && b6
                < 0x100 && b7 < 0x100,
            value == b0 + 0x100 * b1 + 0x1_0000 * b2 + 0x100_0000 * b3 + 0x1_0000_0000 * b4
                + 0x100_0000_0000 * b5 + 0x1_0000_0000_0000 * b6 + 0x100_0000_0000_0000 * b7,
    ;
    assert(le_bytes(value) =~= bytes);
}

/// The value of eight bytes, least significant first, is the number that
/// vstd's little-endian decoding gives.
proof fn lemma_le_value_agrees(bytes: Seq<u8>)
    requires
        bytes.len() == 8,
    ensures
        spec_u64_from_le_bytes(bytes) == le_value(bytes),
{
    lemma_le_value_digits(bytes);
    let value = le_value(bytes) as u64;
    lemma_le_bytes_agree(value);
    lemma_auto_spec_u64_to_from_le_bytes();
    assert(spec_u64_from_le_bytes(spec_u64_to_le_bytes(value)) == value);
}

/// Decoding eight bytes and encoding the number again, in the same byte
/// order, gives the eight bytes back.
pub proof fn lemma_decode_then_encode(bytes: Seq<u8>, order: ByteOrder)
    requires
        bytes.len() == 8,
    ensures
        0 <= decoded(bytes, order) <= u64::MAX,
        encoded(decoded(bytes, order) as u64, order) == bytes,
{
    let le = arranged(bytes, order);
    lemma_le_value_digits(le);
    assert(arranged(le, order) =~= bytes);
}

/// Encoding a number and decoding the bytes again, in the same byte order,
/// gives the number back; an encoding has eight bytes.
pub proof fn lemma_encode_then_decode(value: u64, order: ByteOrder)
    ensures
        encoded(value, order).len() == 8,
        decoded(encoded(value, order), order) == value,
{
    let le = le_bytes(value);
    lemma_le_bytes_agree(value);
    lemma_le_value_agrees(le);
    lemma_auto_spec_u64_to_from_le_bytes();
    assert(arranged(arranged(le, order), order) =~= le);
}

/// `u16::to_ne_bytes`: the two bytes of `value` as this machine lays them
/// out in memory, which is either least significant byte first or most
/// significant byte first.
#[verifier::external_body]
fn u16_to_ne_bytes(value: u16) -> (r: Vec<u8>)
    ensures
        r@.len() == 2,
        (r@[0] == value % 256 && r@[1] == value / 256) || (r@[0] == value / 256 && r@[1] == value
            % 256),
{
    value.to_ne_bytes().to_vec()
}

/// The bytes of `bytes` in the opposite order.
fn reversed(bytes: &[u8]) -> (r: Vec<u8>)
    ensures
        r@ == bytes@.reverse(),
{
    let mut out: Vec<u8> = Vec::new();
    let mut left: usize = bytes.len();
    while left > 0
        invariant
            left <= bytes@.len(),
            out@.len() == bytes@.len() - left,
            forall|j: int| 0 <= j < out@.len() ==> out@[j] == bytes@[bytes@.len() - 1 - j],
        decreases left,
    {
        left = left - 1;
        out.push(bytes[left]);
    }
    assert(out@ =~= bytes@.reverse());
    out
}

/// The byte order in which `layout` holds the number 1 in two bytes:
/// little where the 1 comes first, big where it comes last, and none where
/// `layout` is not the number 1 in two bytes at all.
pub open spec fn spec_order_of_one(layout: Seq<u8>) -> Option<ByteOrder> {
    if layout == seq![1u8, 0u8] {
        Some(ByteOrder::Little)
    } else if layout == seq![0u8, 1u8] {
        Some(ByteOrder::Big)
    } else {
        None
    }
}

impl ByteOrder {
    /// The byte order in which `layout` holds the number 1 in two bytes, if
    /// it holds it in either.
    pub fn order_of_one(layout: &[u8]) -> (r: Option<ByteOrder>)
        ensures
            r == spec_order_of_one(layout@),
    {
        if layout.len() != 2 {
            return None;
        }
        let first: u8 = layout[0];
        let second: u8 = layout[1];
        if first == 1 && second == 0 {
            assert(layout@ =~= seq![1u8, 0u8]);
            Some(ByteOrder::Little)
        } else if first == 0 && second == 1 {
            assert(layout@ =~= seq![0u8, 1u8]);
            Some(ByteOrder::Big)
        } else {
            None
        }
    }

    /// The byte order of the machine that runs this code, found by looking
    /// at how it lays out the number 1 in two bytes. Either order may come
    /// back: which one depends on the machine alone.
    pub fn native() -> ByteOrder {
        let probe = u16_to_ne_bytes(1);
        assert(probe@ =~= seq![1u8, 0u8] || probe@ =~= seq![0u8, 1u8]);
        ByteOrder::order_of_one(probe.as_slice()).unwrap()
    }
}

/// Identifies one page of the heap file by its position.
#[derive(Clone, Copy, Debug, PartialEq, Eq, Structural)]
pub struct PageId(pub u64);

impl PageId {
    /// The raw number of the reserved identifier that names no page: the
    /// largest 64-bit value.
    pub const INVALID_PAGE_ID: u64 = u64::MAX;

    /// The reserved identifier that names no page.
    pub open spec fn spec_invalid() -> PageId {
        PageId(u64::MAX)
    }

    /// The reserved identifier that names no page.
    #[verifier::when_used_as_spec(spec_invalid)]
    pub fn invalid() -> (r: PageId)
        ensures
            r == PageId::spec_invalid(),
            r.0 == PageId::INVALID_PAGE_ID,
    {
        PageId(Self::INVALID_PAGE_ID)
    }

    /// What `valid` returns: nothing for the reserved identifier, the
    /// identifier itself otherwise.
    pub open spec fn spec_valid(self) -> Option<PageId> {
        if self.0 == u64::MAX {
            None
        } else {
            Some(self)
        }
    }

    /// The identifier, unless it is the reserved one.
    pub fn valid(self) -> (r: Option<PageId>)
        ensures
            r == self.spec_valid(),
            self == PageId::invalid() ==> r.is_none(),
            self != PageId::invalid() ==> r == Some(self),
    {
        if self.0 == Self::INVALID_PAGE_ID {
            None
        } else {
            Some(self)
        }
    }

    /// Reads an identifier from exactly eight bytes laid out in `order`.
    pub fn from_bytes(bytes: &[u8], order: ByteOrder) -> (r: PageId)
        requires
            bytes@.len() == 8,
        ensures
            r.0 == decoded(bytes@, order),
            encoded(r.0, order) == bytes@,
    {
        proof {
            lemma_le_value_agrees(arranged(bytes@, order));
            lemma_decode_then_encode(bytes@, order);
        }
        match order {
            ByteOrder::Little => PageId(u64_from_le_bytes(bytes)),
            ByteOrder::Big => {
                let le = reversed(bytes);
                PageId(u64_from_le_bytes(le.as_slice()))
            },
        }
    }

    /// The eight bytes of the identifier, laid out in `order`.
    pub fn to_bytes(self, order: ByteOrder) -> (r: Vec<u8>)
        ensures
            r@ == encoded(self.0, order),
            r@.len() == 8,
            decoded(r@, order) == self.0,
    {
        proof {
            lemma_encode_then_decode(self.0, order);
            lemma_le_bytes_agree(self.0);
        }
        let le = u64_to_le_bytes(self.0);
        match order {
            ByteOrder::Little => le,
            ByteOrder::Big => reversed(le.as_slice()),
        }
    }

    /// Reads an identifier from exactly eight bytes in the byte order of
    /// the machine that runs this code.
    pub fn from_ne_bytes(bytes: &[u8]) -> (r: PageId)
        requires
            bytes@.len() == 8,
        ensures
            r.0 == decoded(bytes@, ByteOrder::Little) || r.0 == decoded(bytes@, ByteOrder::Big),
    {
        PageId::from_bytes(bytes, ByteOrder::native())
    }

    /// The eight bytes of the identifier in the byte order of the machine
    /// that runs this code.
    pub fn to_ne_bytes(self) -> (r: Vec<u8>)
        ensures
            r@ == encoded(self.0, ByteOrder::Little) || r@ == encoded(self.0, ByteOrder::Big),
            r@.len() == 8,
    {
        self.to_bytes(ByteOrder::native())
    }

    /// The raw number.
    pub fn to_u64(self) -> (r: u64)
        ensures
            r == self.0,
    {
        self.0
    }
}

impl Default for PageId {
    /// A page identifier that was never assigned names no page; it is not
    /// page 0.
    fn default() -> (r: Self)
        ensures
            r == PageId::invalid(),
    {
        PageId::invalid()
    }
}

impl From<Option<PageId>> for PageId {
    /// The identifier held, or the reserved one for `None`.
    fn from(page_id: Option<PageId>) -> (r: Self) {
        page_id.unwrap_or_default()
    }
}

/// The reserved identifier and `None` stand for each other. An identifier
/// that goes through `valid` and back through `from` is unchanged, and so
/// is an optional identifier that goes the other way, unless it holds the
/// reserved identifier, which comes back as `None`.
pub proof fn lemma_option_round_trip(page_id: PageId, held: Option<PageId>)
    ensures
        PageId::from_spec(None) == PageId::invalid(),
        PageId::invalid().spec_valid() == None::<PageId>,
        page_id != PageId::invalid() ==> page_id.spec_valid() == Some(page_id),
        PageId::from_spec(page_id.spec_valid()) == page_id,
        held != Some(PageId::invalid()) ==> PageId::from_spec(held).spec_valid() == held,
        PageId::from_spec(Some(PageId::invalid())).spec_valid() == None::<PageId>,
{
}

impl vstd::std_specs::convert::FromSpecImpl<Option<PageId>> for PageId {
    open spec fn obeys_from_spec() -> bool {
        true
    }

    open spec fn from_spec(page_id: Option<PageId>) -> Self {
        match page_id {
            Some(id) => id,
            None => PageId::invalid(),
        }
    }
}

} // verus!
