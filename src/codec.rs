use vstd::prelude::*;
use vstd::utf8::encode_utf8;

use crate::error::Error;
use crate::records::{
    bool_byte, Action, ActionKind, ActionView, Entity, EntityView, Session, SessionView,
};
use crate::wire::{record, u128_be, u128_to_be, write_record, FieldType, MAX_PAYLOAD};

verus! {

/// A composite record that turns itself into its payload: the records of its fields, in order.
pub trait Serialize {
    /// The payload this value encodes to.
    spec fn spec_payload(&self) -> Seq<u8>;

    /// Whether every field's payload fits its length prefix.
    spec fn spec_encodable(&self) -> bool;

    /// The payload of this value, or `LengthOverflow` where a field is too long.
    fn serialize(&self) -> (r: Result<Vec<u8>, Error>)
        ensures
            r is Ok <==> self.spec_encodable(),
            r matches Ok(b) ==> b@ == self.spec_payload(),
            r matches Err(e) ==> e == Error::LengthOverflow,
    ;
}

/// One value of any kind that the wire carries.
#[derive(Debug, Clone, PartialEq, Eq)]
pub enum Field {
    Str(String),
    Byte(u8),
    Bool(bool),
    U128(u128),
    Action(Action),
    ActionKind(ActionKind),
    Entity(Entity),
    Session(Session),
}

/// What a [`Field`] holds, as plain values.
pub enum FieldView {
    Str(Seq<char>),
    Byte(u8),
    Bool(bool),
    U128(u128),
    Action(ActionView),
    ActionKind(ActionKind),
    Entity(EntityView),
    Session(SessionView),
}

impl FieldView {
    /// The kind of this value.
    pub open spec fn kind(self) -> FieldType {
        match self {
            FieldView::Str(_) => FieldType::Str,
            FieldView::Byte(_) => FieldType::Byte,
            FieldView::Bool(_) => FieldType::Bool,
            FieldView::U128(_) => FieldType::U128,
            FieldView::Action(_) => FieldType::Action,
            FieldView::ActionKind(_) => FieldType::ActionKind,
            FieldView::Entity(_) => FieldType::Entity,
            FieldView::Session(_) => FieldType::Session,
        }
    }

    /// The payload of this value's record.
    pub open spec fn payload(self) -> Seq<u8> {
        match self {
            FieldView::Str(s) => encode_utf8(s),
            FieldView::Byte(b) => seq![b],
            FieldView::Bool(b) => seq![bool_byte(b)],
            FieldView::U128(x) => u128_be(x),
            FieldView::Action(a) => a.payload(),
            FieldView::ActionKind(k) => seq![k.spec_discriminant()],
            FieldView::Entity(e) => e.payload(),
            FieldView::Session(s) => s.payload(),
        }
    }

    /// Whether this value's record, and every record inside it, has a payload that fits its
    /// length prefix.
    pub open spec fn encodable(self) -> bool {
        &&& self.payload().len() <= MAX_PAYLOAD
        &&& match self {
            FieldView::Action(a) => a.encodable(),
            FieldView::Entity(e) => e.encodable(),
            FieldView::Session(s) => s.encodable(),
            _ => true,
        }
    }

    /// The wire record of this value.
    pub open spec fn bytes(self) -> Seq<u8> {
        record(self.kind().spec_tag(), self.payload())
    }
}

impl View for Field {
    type V = FieldView;

    open spec fn view(&self) -> FieldView {
        match self {
            Field::Str(s) => FieldView::Str(s@),
            Field::Byte(b) => FieldView::Byte(*b),
            Field::Bool(b) => FieldView::Bool(*b),
            Field::U128(x) => FieldView::U128(*x),
            Field::Action(a) => FieldView::Action(a@),
            Field::ActionKind(k) => FieldView::ActionKind(*k),
            Field::Entity(e) => FieldView::Entity(e@),
            Field::Session(s) => FieldView::Session(s@),
        }
    }
}

impl Field {
    /// The text held, or `InvalidFieldType` for a value of another kind.
    pub fn into_str(self) -> (r: Result<String, Error>)
        ensures
            match self@ {
                FieldView::Str(v) => r matches Ok(x) && x@ == v,
                _ => r == Err::<String, Error>(Error::InvalidFieldType),
            },
    {
        match self {
            Field::Str(v) => Ok(v),
            _ => Err(Error::InvalidFieldType),
        }
    }

    /// The byte held, or `InvalidFieldType` for a value of another kind.
    pub fn into_byte(self) -> (r: Result<u8, Error>)
        ensures
            match self@ {
                FieldView::Byte(v) => r == Ok::<u8, Error>(v),
                _ => r == Err::<u8, Error>(Error::InvalidFieldType),
            },
    {
        match self {
            Field::Byte(v) => Ok(v),
            _ => Err(Error::InvalidFieldType),
        }
    }

    /// The boolean held, or `InvalidFieldType` for a value of another kind.
    pub fn into_bool(self) -> (r: Result<bool, Error>)
        ensures
            match self@ {
                FieldView::Bool(v) => r == Ok::<bool, Error>(v),
                _ => r == Err::<bool, Error>(Error::InvalidFieldType),
            },
    {
        match self {
            Field::Bool(v) => Ok(v),
            _ => Err(Error::InvalidFieldType),
        }
    }

    /// The number held, or `InvalidFieldType` for a value of another kind.
    pub fn into_u128(self) -> (r: Result<u128, Error>)
        ensures
            match self@ {
                FieldView::U128(v) => r == Ok::<u128, Error>(v),
                _ => r == Err::<u128, Error>(Error::InvalidFieldType),
            },
    {
        match self {
            Field::U128(v) => Ok(v),
            _ => Err(Error::InvalidFieldType),
        }
    }

    /// The action held, or `InvalidFieldType` for a value of another kind.
    pub fn into_action(self) -> (r: Result<Action, Error>)
        ensures
            match self@ {
                FieldView::Action(v) => r matches Ok(x) && x@ == v,
                _ => r == Err::<Action, Error>(Error::InvalidFieldType),
            },
    {
        match self {
            Field::Action(v) => Ok(v),
            _ => Err(Error::InvalidFieldType),
        }
    }

    /// The action kind held, or `InvalidFieldType` for a value of another kind.
    pub fn into_action_kind(self) -> (r: Result<ActionKind, Error>)
        ensures
            match self@ {
                FieldView::ActionKind(v) => r == Ok::<ActionKind, Error>(v),
                _ => r == Err::<ActionKind, Error>(Error::InvalidFieldType),
            },
    {
        match self {
            Field::ActionKind(v) => Ok(v),
            _ => Err(Error::InvalidFieldType),
        }
    }

    /// The entity held, or `InvalidFieldType` for a value of another kind.
    pub fn into_entity(self) -> (r: Result<Entity, Error>)
        ensures
            match self@ {
                FieldView::Entity(v) => r matches Ok(x) && x@ == v,
                _ => r == Err::<Entity, Error>(Error::InvalidFieldType),
            },
    {
        match self {
            Field::Entity(v) => Ok(v),
            _ => Err(Error::InvalidFieldType),
        }
    }

    /// The session held, or `InvalidFieldType` for a value of another kind.
    pub fn into_session(self) -> (r: Result<Session, Error>)
        ensures
            match self@ {
                FieldView::Session(v) => r matches Ok(x) && x@ == v,
                _ => r == Err::<Session, Error>(Error::InvalidFieldType),
            },
    {
        match self {
            Field::Session(v) => Ok(v),
            _ => Err(Error::InvalidFieldType),
        }
    }
}

/// Appends the record of a text value, or reports `LengthOverflow` (leaving `buf` as it was).
pub fn write_str(buf: &mut Vec<u8>, s: &str) -> (r: Result<(), Error>)
    ensures
        r is Ok <==> encode_utf8(s@).len() <= MAX_PAYLOAD,
        r is Ok ==> final(buf)@ == old(buf)@ + FieldView::Str(s@).bytes(),
        r is Err ==> r == Err::<(), Error>(Error::LengthOverflow) && final(buf)@ == old(buf)@,
{
    write_record(buf, FieldType::Str.tag(), s.as_bytes())
}

/// Appends the record of a byte.
pub fn write_byte(buf: &mut Vec<u8>, b: u8)
    ensures
        final(buf)@ == old(buf)@ + FieldView::Byte(b).bytes(),
{
    let payload: Vec<u8> = vec![b];
    assert(payload@ =~= seq![b]);
    let _ = write_record(buf, FieldType::Byte.tag(), payload.as_slice());
}

/// Appends the record of a boolean: one byte, 1 for true and 0 for false.
pub fn write_bool(buf: &mut Vec<u8>, b: bool)
    ensures
        final(buf)@ == old(buf)@ + FieldView::Bool(b).bytes(),
{
    let byte: u8 = if b {
        1
    } else {
        0
    };
    let payload: Vec<u8> = vec![byte];
    assert(payload@ =~= seq![bool_byte(b)]);
    let _ = write_record(buf, FieldType::Bool.tag(), payload.as_slice());
}

/// Appends the record of a 128-bit number: its sixteen big-endian bytes.
pub fn write_u128(buf: &mut Vec<u8>, x: u128)
    ensures
        final(buf)@ == old(buf)@ + FieldView::U128(x).bytes(),
{
    let payload = u128_to_be(x);
    proof {
        crate::wire::lemma_u128_be(x);
    }
    let _ = write_record(buf, FieldType::U128.tag(), payload.as_slice());
}

/// Appends the record of an action kind: its discriminant byte.
pub fn write_action_kind(buf: &mut Vec<u8>, k: ActionKind)
    ensures
        final(buf)@ == old(buf)@ + FieldView::ActionKind(k).bytes(),
{
    let payload: Vec<u8> = vec![k.discriminant()];
    assert(payload@ =~= seq![k.spec_discriminant()]);
    let _ = write_record(buf, FieldType::ActionKind.tag(), payload.as_slice());
}

/// Appends the record of `field` to `buf`. Fails with `LengthOverflow`, leaving `buf` as it
/// was, exactly when some payload in it does not fit its length prefix.
pub fn serialize(buf: &mut Vec<u8>, field: Field) -> (r: Result<(), Error>)
    ensures
        r is Ok <==> field@.encodable(),
        r is Ok ==> final(buf)@ == old(buf)@ + field@.bytes(),
        r is Err ==> r == Err::<(), Error>(Error::LengthOverflow) && final(buf)@ == old(buf)@,
{
    match field {
        Field::Str(s) => write_str(buf, s.as_str()),
        Field::Byte(b) => {
            write_byte(buf, b);
            Ok(())
        },
        Field::Bool(b) => {
            write_bool(buf, b);
            Ok(())
        },
        Field::U128(x) => {
            proof {
                crate::wire::lemma_u128_be(x);
            }
            write_u128(buf, x);
            Ok(())
        },
        Field::ActionKind(k) => {
            write_action_kind(buf, k);
            Ok(())
        },
        Field::Action(a) => {
            let bytes = a.serialize()?;
            write_record(buf, FieldType::Action.tag(), bytes.as_slice())
        },
        Field::Entity(e) => {
            let bytes = e.serialize()?;
            write_record(buf, FieldType::Entity.tag(), bytes.as_slice())
        },
        Field::Session(s) => {
            let bytes = s.serialize()?;
            write_record(buf, FieldType::Session.tag(), bytes.as_slice())
        },
    }
}

} // verus!
