use vstd::prelude::*;
use vstd::bytes::{
    lemma_auto_spec_u128_to_from_le_bytes, spec_u128_from_le_bytes, spec_u128_to_le_bytes,
    u128_from_le_bytes, u128_to_le_bytes,
};
use vstd::slice::slice_subrange;

use crate::error::Error;

verus! {

/// The largest payload that a two-byte length prefix can describe.
pub const MAX_PAYLOAD: usize = 65535;

/// The kinds of value that can stand on the wire, each with a fixed one-byte tag.
#[derive(Debug, PartialEq, Eq, Clone, Copy, Structural)]
pub enum FieldType {
    Str,
    U128,
    Byte,
    Bool,
    Action,
    ActionKind,
    Entity,
    Session,
}

impl FieldType {
    pub open spec fn spec_tag(self) -> u8 {
        match self {
            FieldType::Str => 1,
            FieldType::U128 => 2,
            FieldType::Byte => 3,
            FieldType::Bool => 4,
            FieldType::Action => 5,
            FieldType::ActionKind => 6,
            FieldType::Entity => 7,
            FieldType::Session => 8,
        }
    }

    pub open spec fn spec_from_tag(tag: u8) -> Option<FieldType> {
        if tag == 1 {
            Some(FieldType::Str)
        } else if tag == 2 {
            Some(FieldType::U128)
        } else if tag == 3 {
            Some(FieldType::Byte)
        } else if tag == 4 {
            Some(FieldType::Bool)
        } else if tag == 5 {
            Some(FieldType::Action)
        } else if tag == 6 {
            Some(FieldType::ActionKind)
        } else if tag == 7 {
            Some(FieldType::Entity)
        } else if tag == 8 {
            Some(FieldType::Session)
        } else {
            None
        }
    }

    /// The tag byte of this kind.
    pub fn tag(self) -> (r: u8)
        ensures
            r == self.spec_tag(),
    {
        match self {
            FieldType::Str => 1,
            FieldType::U128 => 2,
            FieldType::Byte => 3,
            FieldType::Bool => 4,
            FieldType::Action => 5,
            FieldType::ActionKind => 6,
            FieldType::Entity => 7,
            FieldType::Session => 8,
        }
    }

    /// The kind whose tag is `tag`, if there is one.
    pub fn from_tag(tag: u8) -> (r: Option<FieldType>)
        ensures
            r == Self::spec_from_tag(tag),
            r matches Some(k) ==> k.spec_tag() == tag,
    {
        match tag {
            1 => Some(FieldType::Str),
            2 => Some(FieldType::U128),
            3 => Some(FieldType::Byte),
            4 => Some(FieldType::Bool),
            5 => Some(FieldType::Action),
            6 => Some(FieldType::ActionKind),
            7 => Some(FieldType::Entity),
            8 => Some(FieldType::Session),
            _ => None,
        }
    }
}

/// Every kind is found again from its tag.
pub proof fn lemma_tag_from_tag(k: FieldType)
    ensures
        FieldType::spec_from_tag(k.spec_tag()) == Some(k),
{
}

/// The two-byte big-endian length prefix of a payload of `n` bytes.
pub open spec fn len_prefix(n: nat) -> Seq<u8> {
    seq![(n / 256) as u8, (n % 256) as u8]
}

/// The number that a big-endian length prefix `hi, lo` stands for.
pub open spec fn len_value(hi: u8, lo: u8) -> nat {
    hi as nat * 256 + lo as nat
}

/// The wire record of one value: its tag, the length of its payload, the payload.
pub open spec fn record(tag: u8, payload: Seq<u8>) -> Seq<u8> {
    seq![tag] + len_prefix(payload.len()) + payload
}

/// The sixteen big-endian bytes of `x`.
pub open spec fn u128_be(x: u128) -> Seq<u8> {
    spec_u128_to_le_bytes(x).reverse()
}

/// The number whose sixteen big-endian bytes are `s`.
pub open spec fn u128_of_be(s: Seq<u8>) -> u128 {
    spec_u128_from_le_bytes(s.reverse())
}

/// Big-endian bytes of a number read back as the number.
pub proof fn lemma_u128_be(x: u128)
    ensures
        u128_be(x).len() == 16,
        u128_of_be(u128_be(x)) == x,
{
    lemma_auto_spec_u128_to_from_le_bytes();
    let s = spec_u128_to_le_bytes(x);
    assert(s.reverse().reverse() =~= s);
}

/// Appends the length prefix of a payload of `len` bytes.
fn write_len(buf: &mut Vec<u8>, len: usize)
    requires
        len <= MAX_PAYLOAD,
    ensures
        final(buf)@ == old(buf)@ + len_prefix(len as nat),
{
    buf.push((len / 256) as u8);
    buf.push((len % 256) as u8);
    assert(final(buf)@ =~= old(buf)@ + len_prefix(len as nat));
}

/// Appends `bytes` to `buf`.
pub(crate) fn push_all(buf: &mut Vec<u8>, bytes: &[u8])
    ensures
        final(buf)@ == old(buf)@ + bytes@,
{
    let ghost start = buf@;
    let mut i: usize = 0;
    while i < bytes.len()
        invariant
            i <= bytes@.len(),
            buf@ == start + bytes@.subrange(0, i as int),
        decreases bytes@.len() - i,
    {
        buf.push(bytes[i]);
        i = i + 1;
        assert(buf@ =~= start + bytes@.subrange(0, i as int));
    }
    assert(bytes@.subrange(0, i as int) =~= bytes@);
}

/// Appends the record of a value with the given tag and payload, or reports that the payload
/// is too long for its length prefix (leaving `buf` as it was).
pub(crate) fn write_record(buf: &mut Vec<u8>, tag: u8, payload: &[u8]) -> (r: Result<(), Error>)
    ensures
        r is Ok <==> payload@.len() <= MAX_PAYLOAD,
        r is Ok ==> final(buf)@ == old(buf)@ + record(tag, payload@),
        r is Err ==> r == Err::<(), Error>(Error::LengthOverflow) && final(buf)@ == old(buf)@,
{
    if payload.len() > MAX_PAYLOAD {
        return Err(Error::LengthOverflow);
    }
    buf.push(tag);
    write_len(buf, payload.len());
    push_all(buf, payload);
    assert(final(buf)@ =~= old(buf)@ + record(tag, payload@));
    Ok(())
}

/// The sixteen big-endian bytes of `x`.
pub(crate) fn u128_to_be(x: u128) -> (r: Vec<u8>)
    ensures
        r@ == u128_be(x),
{
    let le = u128_to_le_bytes(x);
    let mut r: Vec<u8> = Vec::new();
    let mut i: usize = 16;
    while i > 0
        invariant
            i <= 16,
            le@.len() == 16,
            le@ == spec_u128_to_le_bytes(x),
            r@.len() == 16 - i,
            forall|j: int| 0 <= j < 16 - i ==> r@[j] == le@[15 - j],
        decreases i,
    {
        i = i - 1;
        r.push(le[i]);
    }
    assert(r@ =~= u128_be(x));
    r
}

/// The number whose sixteen big-endian bytes are `bytes`.
pub(crate) fn u128_from_be(bytes: &[u8]) -> (r: u128)
    requires
        bytes@.len() == 16,
    ensures
        r == u128_of_be(bytes@),
{
    let mut le: Vec<u8> = Vec::new();
    let mut i: usize = 16;
    while i > 0
        invariant
            i <= 16,
            bytes@.len() == 16,
            le@.len() == 16 - i,
            forall|j: int| 0 <= j < 16 - i ==> le@[j] == bytes@[15 - j],
        decreases i,
    {
        i = i - 1;
        le.push(bytes[i]);
    }
    assert(le@ =~= bytes@.reverse());
    u128_from_le_bytes(le.as_slice())
}

/// The bytes of `bytes` from `start` to its end.
pub(crate) fn tail(bytes: &[u8], start: usize) -> (r: &[u8])
    requires
        start <= bytes@.len(),
    ensures
        r@ == bytes@.subrange(start as int, bytes@.len() as int),
{
    slice_subrange(bytes, start, bytes.len())
}

} // verus!
