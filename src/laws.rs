use vstd::prelude::*;
use vstd::utf8::{encode_utf8, encode_utf8_decode_utf8, encode_utf8_valid_utf8};

use crate::codec::FieldView;
use crate::error::Error;
use crate::reader::{
    spec_action_fields, spec_entity_fields, spec_next_record, spec_read_action,
    spec_read_action_kind, spec_read_bool, spec_read_byte, spec_read_entity, spec_read_field,
    spec_read_session, spec_read_str, spec_session_fields,
};
use crate::records::{ActionKind, ActionView, EntityView, SessionView};
use crate::wire::{lemma_u128_be, len_value, record, FieldType, MAX_PAYLOAD};

verus! {

/// A record of kind `k` followed by `rest` reads back as its payload and `rest` when `k` is
/// asked for, and fails with `InvalidFieldType` when any other kind is asked for.
proof fn lemma_next_record(k: FieldType, p: Seq<u8>, rest: Seq<u8>)
    requires
        p.len() <= MAX_PAYLOAD,
    ensures
        spec_next_record(record(k.spec_tag(), p) + rest, k) == Ok::<(Seq<u8>, Seq<u8>), Error>(
            (p, rest),
        ),
{
    lemma_record_header(k, p, rest);
}

/// The header of a record of kind `k`: its tag is known, its length prefix gives the payload's
/// length, and the payload and what follows can be cut out again.
proof fn lemma_record_header(k: FieldType, p: Seq<u8>, rest: Seq<u8>)
    requires
        p.len() <= MAX_PAYLOAD,
    ensures
        ({
            let bytes = record(k.spec_tag(), p) + rest;
            &&& bytes.len() >= 3 + p.len()
            &&& bytes[0] == k.spec_tag()
            &&& FieldType::spec_from_tag(bytes[0]) == Some(k)
            &&& len_value(bytes[1], bytes[2]) == p.len()
            &&& bytes.subrange(3, 3 + p.len() as int) == p
            &&& bytes.subrange(3 + p.len() as int, bytes.len() as int) == rest
        }),
{
    let bytes = record(k.spec_tag(), p) + rest;
    let n = p.len();
    assert(bytes[0] == k.spec_tag());
    assert(bytes[1] == (n / 256) as u8);
    assert(bytes[2] == (n % 256) as u8);
    assert(len_value(bytes[1], bytes[2]) == n);
    crate::wire::lemma_tag_from_tag(k);
    assert(bytes.subrange(3, 3 + n as int) =~= p);
    assert(bytes.subrange(3 + n as int, bytes.len() as int) =~= rest);
}

proof fn lemma_discriminant(k: ActionKind)
    ensures
        ActionKind::spec_from_discriminant(k.spec_discriminant()) == Some(k),
{
}

proof fn lemma_concat3(a: Seq<u8>, b: Seq<u8>, c: Seq<u8>)
    ensures
        a + b + c == a + (b + c),
{
    assert(a + b + c =~= a + (b + c));
}

/// A scalar value written as a field reads back as itself.
proof fn lemma_scalar_round_trip(f: FieldView, rest: Seq<u8>)
    requires
        f.encodable(),
        !(f is Action || f is Entity || f is Session),
    ensures
        spec_read_field(f.bytes() + rest, f.kind()) == Ok::<(FieldView, Seq<u8>), Error>(
            (f, rest),
        ),
{
    lemma_next_record(f.kind(), f.payload(), rest);
    match f {
        FieldView::Str(s) => {
            encode_utf8_valid_utf8(s);
            encode_utf8_decode_utf8(s);
        },
        FieldView::U128(x) => {
            lemma_u128_be(x);
        },
        FieldView::ActionKind(k) => {
            lemma_discriminant(k);
        },
        _ => {},
    }
}

proof fn lemma_read_entity(e: EntityView, rest: Seq<u8>)
    requires
        FieldView::Entity(e).encodable(),
    ensures
        spec_read_entity(FieldView::Entity(e).bytes() + rest) == Ok::<(EntityView, Seq<u8>), Error>(
            (e, rest),
        ),
{
    let p = e.payload();
    lemma_next_record(FieldType::Entity, p, rest);
    assert(FieldView::Entity(e).bytes() == record(FieldType::Entity.spec_tag(), p));
    lemma_entity_fields(e, Seq::empty());
    assert(p + Seq::<u8>::empty() =~= p);
    assert(spec_entity_fields(p) == Ok::<(EntityView, Seq<u8>), Error>((e, Seq::empty())));
}

/// An entity's fields read back from its payload, followed by any bytes, give the entity.
pub proof fn lemma_entity_fields(e: EntityView, rest: Seq<u8>)
    requires
        e.encodable(),
    ensures
        spec_entity_fields(e.payload() + rest) == Ok::<(EntityView, Seq<u8>), Error>((e, rest)),
{
    let s = FieldView::Str(e.name).bytes();
    let b = FieldView::Byte(e.field_b).bytes();
    let c = FieldView::Bool(e.field_c).bytes();
    lemma_scalar_round_trip(FieldView::Str(e.name), b + c + rest);
    lemma_scalar_round_trip(FieldView::Byte(e.field_b), c + rest);
    lemma_scalar_round_trip(FieldView::Bool(e.field_c), rest);
    assert(e.payload() + rest =~= s + (b + (c + rest)));
    assert(b + c + rest =~= b + (c + rest));
}

/// An action's fields read back from its payload, followed by any bytes, give the action.
pub proof fn lemma_action_fields(a: ActionView, rest: Seq<u8>)
    requires
        a.encodable(),
    ensures
        spec_action_fields(a.payload() + rest) == Ok::<(ActionView, Seq<u8>), Error>((a, rest)),
{
    let k = FieldView::ActionKind(a.kind).bytes();
    let t = FieldView::Str(a.target).bytes();
    lemma_scalar_round_trip(FieldView::ActionKind(a.kind), t + rest);
    assert(spec_read_action_kind(k + (t + rest)) == Ok::<(ActionKind, Seq<u8>), Error>(
        (a.kind, t + rest),
    ));
    lemma_scalar_round_trip(FieldView::Str(a.target), rest);
    assert(spec_read_str(t + rest) == Ok::<(Seq<char>, Seq<u8>), Error>((a.target, rest)));
    lemma_concat3(k, t, rest);
    assert(a.payload() == k + t);
}

/// A session's fields read back from its payload, followed by any bytes, give the session.
pub proof fn lemma_session_fields(s: SessionView, rest: Seq<u8>)
    requires
        s.encodable(),
    ensures
        spec_session_fields(s.payload() + rest) == Ok::<(SessionView, Seq<u8>), Error>((s, rest)),
{
    lemma_read_entity(s.entity, rest);
}

proof fn lemma_read_action(a: ActionView, rest: Seq<u8>)
    requires
        FieldView::Action(a).encodable(),
    ensures
        spec_read_action(FieldView::Action(a).bytes() + rest) == Ok::<(ActionView, Seq<u8>), Error>(
            (a, rest),
        ),
{
    let p = a.payload();
    lemma_next_record(FieldType::Action, p, rest);
    assert(FieldView::Action(a).bytes() == record(FieldType::Action.spec_tag(), p));
    lemma_action_fields(a, Seq::empty());
    assert(p + Seq::<u8>::empty() =~= p);
    assert(spec_action_fields(p) == Ok::<(ActionView, Seq<u8>), Error>((a, Seq::empty())));
}

proof fn lemma_read_session(s: SessionView, rest: Seq<u8>)
    requires
        FieldView::Session(s).encodable(),
    ensures
        spec_read_session(FieldView::Session(s).bytes() + rest) == Ok::<
            (SessionView, Seq<u8>),
            Error,
        >((s, rest)),
{
    let p = s.payload();
    lemma_next_record(FieldType::Session, p, rest);
    assert(FieldView::Session(s).bytes() == record(FieldType::Session.spec_tag(), p));
    lemma_session_fields(s, Seq::empty());
    assert(p + Seq::<u8>::empty() =~= p);
    assert(spec_session_fields(p) == Ok::<(SessionView, Seq<u8>), Error>((s, Seq::empty())));
}

/// Every encodable value, written as a field and followed by any bytes, reads back as itself
/// when its own kind is asked for, and the reader is left at the bytes that follow.
pub proof fn lemma_field_round_trip(f: FieldView, rest: Seq<u8>)
    requires
        f.encodable(),
    ensures
        spec_read_field(f.bytes() + rest, f.kind()) == Ok::<(FieldView, Seq<u8>), Error>(
            (f, rest),
        ),
{
    match f {
        FieldView::Action(a) => {
            lemma_read_action(a, rest);
        },
        FieldView::Entity(e) => {
            lemma_read_entity(e, rest);
        },
        FieldView::Session(s) => {
            lemma_read_session(s, rest);
        },
        _ => {
            lemma_scalar_round_trip(f, rest);
        },
    }
}

/// Decoding an encoded entity gives the entity back.
pub proof fn lemma_entity_round_trip(e: EntityView)
    requires
        FieldView::Entity(e).encodable(),
    ensures
        spec_read_entity(FieldView::Entity(e).bytes()) == Ok::<(EntityView, Seq<u8>), Error>(
            (e, Seq::empty()),
        ),
{
    lemma_field_round_trip(FieldView::Entity(e), Seq::empty());
    assert(FieldView::Entity(e).bytes() + Seq::<u8>::empty() =~= FieldView::Entity(e).bytes());
}

/// Decoding an encoded action gives the action back.
pub proof fn lemma_action_round_trip(a: ActionView)
    requires
        FieldView::Action(a).encodable(),
    ensures
        spec_read_action(FieldView::Action(a).bytes()) == Ok::<(ActionView, Seq<u8>), Error>(
            (a, Seq::empty()),
        ),
{
    lemma_field_round_trip(FieldView::Action(a), Seq::empty());
    assert(FieldView::Action(a).bytes() + Seq::<u8>::empty() =~= FieldView::Action(a).bytes());
}

/// Decoding an encoded action kind gives the kind back.
pub proof fn lemma_action_kind_round_trip(k: ActionKind)
    ensures
        spec_read_action_kind(FieldView::ActionKind(k).bytes()) == Ok::<
            (ActionKind, Seq<u8>),
            Error,
        >((k, Seq::empty())),
{
    lemma_field_round_trip(FieldView::ActionKind(k), Seq::empty());
    assert(FieldView::ActionKind(k).bytes() + Seq::<u8>::empty() =~= FieldView::ActionKind(
        k,
    ).bytes());
}

/// Decoding an encoded session gives the session back.
pub proof fn lemma_session_round_trip(s: SessionView)
    requires
        FieldView::Session(s).encodable(),
    ensures
        spec_read_session(FieldView::Session(s).bytes()) == Ok::<(SessionView, Seq<u8>), Error>(
            (s, Seq::empty()),
        ),
{
    lemma_field_round_trip(FieldView::Session(s), Seq::empty());
    assert(FieldView::Session(s).bytes() + Seq::<u8>::empty() =~= FieldView::Session(s).bytes());
}

/// Asking for kind `k` where a whole record of a known, different kind stands fails with
/// `InvalidFieldType`, for every pair of kinds.
pub proof fn lemma_tag_mismatch(bytes: Seq<u8>, expected: FieldType)
    requires
        bytes.len() >= 3,
        FieldType::spec_from_tag(bytes[0]) is Some,
        bytes[0] != expected.spec_tag(),
        bytes.len() >= 3 + len_value(bytes[1], bytes[2]),
    ensures
        spec_read_field(bytes, expected) == Err::<(FieldView, Seq<u8>), Error>(
            Error::InvalidFieldType,
        ),
{
}

/// An encoded field of one kind, read as another kind, fails with `InvalidFieldType`.
proof fn lemma_field_mismatch(f: FieldView, k: FieldType, rest: Seq<u8>)
    requires
        f.encodable(),
        f.kind() != k,
    ensures
        spec_next_record(f.bytes() + rest, k) == Err::<(Seq<u8>, Seq<u8>), Error>(
            Error::InvalidFieldType,
        ),
        spec_read_field(f.bytes() + rest, k) == Err::<(FieldView, Seq<u8>), Error>(
            Error::InvalidFieldType,
        ),
{
    lemma_record_header(f.kind(), f.payload(), rest);
    lemma_tag_mismatch(f.bytes() + rest, k);
}

/// Three well-formed fields that are not a text, a byte and a boolean in that order are never
/// read as an entity's fields: the first one out of place fails with `InvalidFieldType`.
pub proof fn lemma_entity_fields_out_of_order(
    a: FieldView,
    b: FieldView,
    c: FieldView,
    rest: Seq<u8>,
)
    requires
        a.encodable(),
        b.encodable(),
        c.encodable(),
        !(a.kind() == FieldType::Str && b.kind() == FieldType::Byte && c.kind()
            == FieldType::Bool),
    ensures
        spec_entity_fields(a.bytes() + b.bytes() + c.bytes() + rest) == Err::<
            (EntityView, Seq<u8>),
            Error,
        >(Error::InvalidFieldType),
{
    let (x, y, z) = (a.bytes(), b.bytes(), c.bytes());
    let all = x + y + z + rest;
    assert(all =~= x + (y + (z + rest)));
    if a.kind() != FieldType::Str {
        lemma_field_mismatch(a, FieldType::Str, y + (z + rest));
        assert(spec_read_str(all) is Err);
    } else {
        let name = a->Str_0;
        lemma_scalar_round_trip(a, y + (z + rest));
        assert(spec_read_str(all) == Ok::<(Seq<char>, Seq<u8>), Error>((name, y + (z + rest))));
        if b.kind() != FieldType::Byte {
            lemma_field_mismatch(b, FieldType::Byte, z + rest);
            assert(spec_read_byte(y + (z + rest)) is Err);
        } else {
            let fb = b->Byte_0;
            lemma_scalar_round_trip(b, z + rest);
            assert(spec_read_byte(y + (z + rest)) == Ok::<(u8, Seq<u8>), Error>((fb, z + rest)));
            lemma_field_mismatch(c, FieldType::Bool, rest);
            assert(spec_read_bool(z + rest) is Err);
        }
    }
}

/// Two well-formed fields that are not an action kind and a text in that order are never read
/// as an action's fields: the first one out of place fails with `InvalidFieldType`.
pub proof fn lemma_action_fields_out_of_order(a: FieldView, b: FieldView, rest: Seq<u8>)
    requires
        a.encodable(),
        b.encodable(),
        !(a.kind() == FieldType::ActionKind && b.kind() == FieldType::Str),
    ensures
        spec_action_fields(a.bytes() + b.bytes() + rest) == Err::<(ActionView, Seq<u8>), Error>(
            Error::InvalidFieldType,
        ),
{
    let (x, y) = (a.bytes(), b.bytes());
    assert(x + y + rest =~= x + (y + rest));
    if a.kind() != FieldType::ActionKind {
        lemma_field_mismatch(a, FieldType::ActionKind, y + rest);
    } else {
        lemma_scalar_round_trip(a, y + rest);
        lemma_field_mismatch(b, FieldType::Str, rest);
    }
}

/// Every proper prefix of an encoded field fails to read, with the error of the part that is
/// cut: the tag, the length prefix, or the payload.
pub proof fn lemma_truncated_field(f: FieldView, n: int)
    requires
        f.encodable(),
        0 <= n < f.bytes().len(),
    ensures
        spec_read_field(f.bytes().take(n), f.kind()) == Err::<(FieldView, Seq<u8>), Error>(
            if n == 0 {
                Error::MissingFieldType
            } else if n < 3 {
                Error::MissingFieldLen
            } else {
                Error::TruncatedPayload
            },
        ),
{
    let full = f.bytes();
    lemma_record_header(f.kind(), f.payload(), Seq::empty());
    assert(full + Seq::<u8>::empty() =~= full);
    let cut = full.take(n);
    if n > 0 {
        assert(cut[0] == full[0]);
    }
    if n >= 3 {
        assert(cut[1] == full[1] && cut[2] == full[2]);
    }
}

/// A text whose UTF-8 form fits a length prefix round-trips as a field; a longer one cannot be
/// encoded.
pub proof fn lemma_text_length_boundary(s: Seq<char>)
    ensures
        encode_utf8(s).len() <= MAX_PAYLOAD ==> spec_read_str(FieldView::Str(s).bytes()) == Ok::<
            (Seq<char>, Seq<u8>),
            Error,
        >((s, Seq::empty())),
        encode_utf8(s).len() > MAX_PAYLOAD ==> !FieldView::Str(s).encodable(),
{
    if encode_utf8(s).len() <= MAX_PAYLOAD {
        lemma_scalar_round_trip(FieldView::Str(s), Seq::empty());
        assert(FieldView::Str(s).bytes() + Seq::<u8>::empty() =~= FieldView::Str(s).bytes());
    }
}

/// An action kind record whose discriminant byte is outside the known set fails with
/// `InvalidFieldType`; no kind is made up for it.
pub proof fn lemma_unknown_discriminant(p: Seq<u8>, rest: Seq<u8>)
    requires
        1 <= p.len() <= MAX_PAYLOAD,
        ActionKind::spec_from_discriminant(p[0]) is None,
    ensures
        spec_read_action_kind(record(FieldType::ActionKind.spec_tag(), p) + rest) == Err::<
            (ActionKind, Seq<u8>),
            Error,
        >(Error::InvalidFieldType),
{
    lemma_next_record(FieldType::ActionKind, p, rest);
}

} // verus!
