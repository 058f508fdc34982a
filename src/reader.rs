use vstd::prelude::*;
use vstd::slice::slice_subrange;
use vstd::utf8::{decode_utf8, encode_utf8, encode_utf8_decode_utf8, valid_utf8};

use crate::codec::{Field, FieldView};
use crate::error::Error;
use crate::records::{
    Action, ActionKind, ActionView, Entity, EntityView, Session, SessionView,
};
use crate::wire::{len_value, tail, u128_from_be, u128_of_be, FieldType};

verus! {

/// The first record of `bytes` read as a value of kind `expected`: its payload and the bytes
/// after it. The tag is read first, then the length prefix, then the payload is cut out; only
/// then is the tag held against `expected`.
pub open spec fn spec_next_record(bytes: Seq<u8>, expected: FieldType) -> Result<
    (Seq<u8>, Seq<u8>),
    Error,
> {
    if bytes.len() == 0 {
        Err(Error::MissingFieldType)
    } else if FieldType::spec_from_tag(bytes[0]) is None {
        Err(Error::InvalidFieldType)
    } else if bytes.len() < 3 {
        Err(Error::MissingFieldLen)
    } else if bytes.len() < 3 + len_value(bytes[1], bytes[2]) {
        Err(Error::TruncatedPayload)
    } else if bytes[0] != expected.spec_tag() {
        Err(Error::InvalidFieldType)
    } else {
        let end = 3 + len_value(bytes[1], bytes[2]) as int;
        Ok((bytes.subrange(3, end), bytes.subrange(end, bytes.len() as int)))
    }
}

/// Reading a text field: its payload must be well-formed UTF-8.
pub open spec fn spec_read_str(bytes: Seq<u8>) -> Result<(Seq<char>, Seq<u8>), Error> {
    match spec_next_record(bytes, FieldType::Str) {
        Err(e) => Err(e),
        Ok((p, rest)) => if valid_utf8(p) {
            Ok((decode_utf8(p), rest))
        } else {
            Err(Error::EncodingError)
        },
    }
}

/// Reading a byte field: the first byte of its payload.
pub open spec fn spec_read_byte(bytes: Seq<u8>) -> Result<(u8, Seq<u8>), Error> {
    match spec_next_record(bytes, FieldType::Byte) {
        Err(e) => Err(e),
        Ok((p, rest)) => if p.len() == 0 {
            Err(Error::TruncatedPayload)
        } else {
            Ok((p[0], rest))
        },
    }
}

/// Reading a boolean field: true exactly when the first byte of its payload is 1.
pub open spec fn spec_read_bool(bytes: Seq<u8>) -> Result<(bool, Seq<u8>), Error> {
    match spec_next_record(bytes, FieldType::Bool) {
        Err(e) => Err(e),
        Ok((p, rest)) => if p.len() == 0 {
            Err(Error::TruncatedPayload)
        } else {
            Ok((p[0] == 1, rest))
        },
    }
}

/// Reading a 128-bit number: its payload must be exactly sixteen big-endian bytes.
pub open spec fn spec_read_u128(bytes: Seq<u8>) -> Result<(u128, Seq<u8>), Error> {
    match spec_next_record(bytes, FieldType::U128) {
        Err(e) => Err(e),
        Ok((p, rest)) => if p.len() != 16 {
            Err(Error::TruncatedPayload)
        } else {
            Ok((u128_of_be(p), rest))
        },
    }
}

/// Reading an action kind: the first payload byte must be one of the known discriminants.
pub open spec fn spec_read_action_kind(bytes: Seq<u8>) -> Result<(ActionKind, Seq<u8>), Error> {
    match spec_next_record(bytes, FieldType::ActionKind) {
        Err(e) => Err(e),
        Ok((p, rest)) => if p.len() == 0 {
            Err(Error::TruncatedPayload)
        } else {
            match ActionKind::spec_from_discriminant(p[0]) {
                Some(k) => Ok((k, rest)),
                None => Err(Error::InvalidFieldType),
            }
        },
    }
}

/// The fields of an entity, read in order from the front of `bytes`.
pub open spec fn spec_entity_fields(bytes: Seq<u8>) -> Result<(EntityView, Seq<u8>), Error> {
    match spec_read_str(bytes) {
        Err(e) => Err(e),
        Ok((name, r1)) => match spec_read_byte(r1) {
            Err(e) => Err(e),
            Ok((b, r2)) => match spec_read_bool(r2) {
                Err(e) => Err(e),
                Ok((c, r3)) => Ok((EntityView { name, field_b: b, field_c: c }, r3)),
            },
        },
    }
}

/// The fields of an action, read in order from the front of `bytes`.
pub open spec fn spec_action_fields(bytes: Seq<u8>) -> Result<(ActionView, Seq<u8>), Error> {
    match spec_read_action_kind(bytes) {
        Err(e) => Err(e),
        Ok((kind, r1)) => match spec_read_str(r1) {
            Err(e) => Err(e),
            Ok((target, r2)) => Ok((ActionView { kind, target }, r2)),
        },
    }
}

/// Reading an entity field: its payload holds the entity's fields.
pub open spec fn spec_read_entity(bytes: Seq<u8>) -> Result<(EntityView, Seq<u8>), Error> {
    match spec_next_record(bytes, FieldType::Entity) {
        Err(e) => Err(e),
        Ok((p, rest)) => match spec_entity_fields(p) {
            Err(e) => Err(e),
            Ok((v, _)) => Ok((v, rest)),
        },
    }
}

/// The fields of a session, read in order from the front of `bytes`.
pub open spec fn spec_session_fields(bytes: Seq<u8>) -> Result<(SessionView, Seq<u8>), Error> {
    match spec_read_entity(bytes) {
        Err(e) => Err(e),
        Ok((entity, r1)) => Ok((SessionView { entity }, r1)),
    }
}

/// Reading an action field: its payload holds the action's fields.
pub open spec fn spec_read_action(bytes: Seq<u8>) -> Result<(ActionView, Seq<u8>), Error> {
    match spec_next_record(bytes, FieldType::Action) {
        Err(e) => Err(e),
        Ok((p, rest)) => match spec_action_fields(p) {
            Err(e) => Err(e),
            Ok((v, _)) => Ok((v, rest)),
        },
    }
}

/// Reading a session field: its payload holds the session's fields.
pub open spec fn spec_read_session(bytes: Seq<u8>) -> Result<(SessionView, Seq<u8>), Error> {
    match spec_next_record(bytes, FieldType::Session) {
        Err(e) => Err(e),
        Ok((p, rest)) => match spec_session_fields(p) {
            Err(e) => Err(e),
            Ok((v, _)) => Ok((v, rest)),
        },
    }
}

/// Reading the next field as a value of kind `expected`.
pub open spec fn spec_read_field(bytes: Seq<u8>, expected: FieldType) -> Result<
    (FieldView, Seq<u8>),
    Error,
> {
    match expected {
        FieldType::Str => match spec_read_str(bytes) {
            Ok((v, rest)) => Ok((FieldView::Str(v), rest)),
            Err(e) => Err(e),
        },
        FieldType::U128 => match spec_read_u128(bytes) {
            Ok((v, rest)) => Ok((FieldView::U128(v), rest)),
            Err(e) => Err(e),
        },
        FieldType::Byte => match spec_read_byte(bytes) {
            Ok((v, rest)) => Ok((FieldView::Byte(v), rest)),
            Err(e) => Err(e),
        },
        FieldType::Bool => match spec_read_bool(bytes) {
            Ok((v, rest)) => Ok((FieldView::Bool(v), rest)),
            Err(e) => Err(e),
        },
        FieldType::Action => match spec_read_action(bytes) {
            Ok((v, rest)) => Ok((FieldView::Action(v), rest)),
            Err(e) => Err(e),
        },
        FieldType::ActionKind => match spec_read_action_kind(bytes) {
            Ok((v, rest)) => Ok((FieldView::ActionKind(v), rest)),
            Err(e) => Err(e),
        },
        FieldType::Entity => match spec_read_entity(bytes) {
            Ok((v, rest)) => Ok((FieldView::Entity(v), rest)),
            Err(e) => Err(e),
        },
        FieldType::Session => match spec_read_session(bytes) {
            Ok((v, rest)) => Ok((FieldView::Session(v), rest)),
            Err(e) => Err(e),
        },
    }
}

/// Relies on std::str::from_utf8: it accepts exactly the well-formed UTF-8 slices, and the text
/// it hands back is made of the same bytes.
#[verifier::external_body]
fn str_from_utf8(bytes: &[u8]) -> (r: Option<&str>)
    ensures
        r is Some <==> valid_utf8(bytes@),
        r matches Some(s) ==> encode_utf8(s@) == bytes@,
{
    std::str::from_utf8(bytes).ok()
}

/// The text whose UTF-8 bytes are `payload`.
fn text_of(payload: &[u8]) -> (r: Result<String, Error>)
    ensures
        valid_utf8(payload@) ==> (r matches Ok(s) && s@ == decode_utf8(payload@)),
        !valid_utf8(payload@) ==> r == Err::<String, Error>(Error::EncodingError),
{
    match str_from_utf8(payload) {
        Some(s) => {
            proof {
                encode_utf8_decode_utf8(s@);
            }
            Ok(s.to_owned())
        },
        None => Err(Error::EncodingError),
    }
}

/// A cursor over a byte buffer that hands out its fields strictly in order, checking each one
/// against the kind asked for.
#[derive(Clone, Copy)]
pub struct FieldReader<'a> {
    buffer: &'a [u8],
}

impl<'a> View for FieldReader<'a> {
    type V = Seq<u8>;

    /// The bytes not read yet.
    closed spec fn view(&self) -> Seq<u8> {
        self.buffer@
    }
}

impl<'a> FieldReader<'a> {
    /// A reader at the start of `buffer`.
    pub fn new(buffer: &'a [u8]) -> (r: FieldReader<'a>)
        ensures
            r@ == buffer@,
    {
        FieldReader { buffer }
    }

    /// Reads a tag byte; the reader moves only when the tag is known.
    fn field_type(&mut self) -> (r: Result<FieldType, Error>)
        ensures
            old(self)@.len() == 0 ==> r == Err::<FieldType, Error>(Error::MissingFieldType),
            old(self)@.len() > 0 ==> r == (match FieldType::spec_from_tag(old(self)@[0]) {
                Some(k) => Ok(k),
                None => Err(Error::InvalidFieldType),
            }),
            r is Ok ==> final(self)@ == old(self)@.subrange(1, old(self)@.len() as int),
            r is Err ==> final(self)@ == old(self)@,
    {
        if self.buffer.len() == 0 {
            return Err(Error::MissingFieldType);
        }
        let byte = self.buffer[0];
        match FieldType::from_tag(byte) {
            Some(k) => {
                self.buffer = tail(self.buffer, 1);
                Ok(k)
            },
            None => Err(Error::InvalidFieldType),
        }
    }

    /// Reads a two-byte big-endian length prefix; the reader moves only on success.
    fn len(&mut self) -> (r: Result<usize, Error>)
        ensures
            old(self)@.len() < 2 ==> r == Err::<usize, Error>(Error::MissingFieldLen),
            old(self)@.len() >= 2 ==> r == Ok::<usize, Error>(
                len_value(old(self)@[0], old(self)@[1]) as usize,
            ),
            r is Ok ==> final(self)@ == old(self)@.subrange(2, old(self)@.len() as int),
            r is Err ==> final(self)@ == old(self)@,
    {
        if self.buffer.len() < 2 {
            return Err(Error::MissingFieldLen);
        }
        let hi = self.buffer[0] as usize;
        let lo = self.buffer[1] as usize;
        self.buffer = tail(self.buffer, 2);
        Ok(hi * 256 + lo)
    }

    /// Cuts out the payload of the next record, which must be of kind `expected`.
    fn next_record(&mut self, expected: FieldType) -> (r: Result<&'a [u8], Error>)
        ensures
            match spec_next_record(old(self)@, expected) {
                Ok((p, rest)) => r matches Ok(s) && s@ == p && final(self)@ == rest,
                Err(e) => r == Err::<&'a [u8], Error>(e) && final(self)@ == old(self)@,
            },
    {
        let mut cur = *self;
        let kind = cur.field_type()?;
        let len = cur.len()?;
        if cur.buffer.len() < len {
            return Err(Error::TruncatedPayload);
        }
        if kind != expected {
            return Err(Error::InvalidFieldType);
        }
        let payload = slice_subrange(cur.buffer, 0, len);
        cur.buffer = tail(cur.buffer, len);
        assert(cur.buffer@ =~= old(self)@.subrange(3 + len, old(self)@.len() as int));
        assert(payload@ =~= old(self)@.subrange(3, 3 + len));
        *self = cur;
        Ok(payload)
    }

    /// The number whose big-endian bytes are `input`.
    fn read_be_u128(input: &[u8]) -> (r: u128)
        requires
            input@.len() == 16,
        ensures
            r == u128_of_be(input@),
    {
        u128_from_be(input)
    }

    /// Reads the next field as text.
    pub fn read_str(&mut self) -> (r: Result<String, Error>)
        ensures
            match spec_read_str(old(self)@) {
                Ok((v, rest)) => r matches Ok(s) && s@ == v && final(self)@ == rest,
                Err(e) => r == Err::<String, Error>(e) && final(self)@ == old(self)@,
            },
    {
        let mut cur = *self;
        let payload = cur.next_record(FieldType::Str)?;
        let s = text_of(payload)?;
        *self = cur;
        Ok(s)
    }

    /// Reads the next field as a byte.
    pub fn read_byte(&mut self) -> (r: Result<u8, Error>)
        ensures
            match spec_read_byte(old(self)@) {
                Ok((v, rest)) => r == Ok::<u8, Error>(v) && final(self)@ == rest,
                Err(e) => r == Err::<u8, Error>(e) && final(self)@ == old(self)@,
            },
    {
        let mut cur = *self;
        let payload = cur.next_record(FieldType::Byte)?;
        if payload.len() == 0 {
            return Err(Error::TruncatedPayload);
        }
        *self = cur;
        Ok(payload[0])
    }

    /// Reads the next field as a boolean.
    pub fn read_bool(&mut self) -> (r: Result<bool, Error>)
        ensures
            match spec_read_bool(old(self)@) {
                Ok((v, rest)) => r == Ok::<bool, Error>(v) && final(self)@ == rest,
                Err(e) => r == Err::<bool, Error>(e) && final(self)@ == old(self)@,
            },
    {
        let mut cur = *self;
        let payload = cur.next_record(FieldType::Bool)?;
        if payload.len() == 0 {
            return Err(Error::TruncatedPayload);
        }
        *self = cur;
        Ok(payload[0] == 1)
    }

    /// Reads the next field as a 128-bit number.
    pub fn read_u128(&mut self) -> (r: Result<u128, Error>)
        ensures
            match spec_read_u128(old(self)@) {
                Ok((v, rest)) => r == Ok::<u128, Error>(v) && final(self)@ == rest,
                Err(e) => r == Err::<u128, Error>(e) && final(self)@ == old(self)@,
            },
    {
        let mut cur = *self;
        let payload = cur.next_record(FieldType::U128)?;
        if payload.len() != 16 {
            return Err(Error::TruncatedPayload);
        }
        *self = cur;
        Ok(Self::read_be_u128(payload))
    }

    /// Reads the next field as an action kind.
    pub fn read_action_kind(&mut self) -> (r: Result<ActionKind, Error>)
        ensures
            match spec_read_action_kind(old(self)@) {
                Ok((v, rest)) => r == Ok::<ActionKind, Error>(v) && final(self)@ == rest,
                Err(e) => r == Err::<ActionKind, Error>(e) && final(self)@ == old(self)@,
            },
    {
        let mut cur = *self;
        let payload = cur.next_record(FieldType::ActionKind)?;
        if payload.len() == 0 {
            return Err(Error::TruncatedPayload);
        }
        match ActionKind::from_discriminant(payload[0]) {
            Some(k) => {
                *self = cur;
                Ok(k)
            },
            None => Err(Error::InvalidFieldType),
        }
    }

    /// Reads the next field as an action.
    pub fn read_action(&mut self) -> (r: Result<Action, Error>)
        ensures
            match spec_read_action(old(self)@) {
                Ok((v, rest)) => r matches Ok(x) && x@ == v && final(self)@ == rest,
                Err(e) => r == Err::<Action, Error>(e) && final(self)@ == old(self)@,
            },
    {
        let mut cur = *self;
        let payload = cur.next_record(FieldType::Action)?;
        let mut inner = FieldReader::new(payload);
        let a = Action::deserialize(&mut inner)?;
        *self = cur;
        Ok(a)
    }

    /// Reads the next field as an entity.
    pub fn read_entity(&mut self) -> (r: Result<Entity, Error>)
        ensures
            match spec_read_entity(old(self)@) {
                Ok((v, rest)) => r matches Ok(x) && x@ == v && final(self)@ == rest,
                Err(e) => r == Err::<Entity, Error>(e) && final(self)@ == old(self)@,
            },
    {
        let mut cur = *self;
        let payload = cur.next_record(FieldType::Entity)?;
        let mut inner = FieldReader::new(payload);
        let e = Entity::deserialize(&mut inner)?;
        *self = cur;
        Ok(e)
    }

    /// Reads the next field as a session.
    pub fn read_session(&mut self) -> (r: Result<Session, Error>)
        ensures
            match spec_read_session(old(self)@) {
                Ok((v, rest)) => r matches Ok(x) && x@ == v && final(self)@ == rest,
                Err(e) => r == Err::<Session, Error>(e) && final(self)@ == old(self)@,
            },
    {
        let mut cur = *self;
        let payload = cur.next_record(FieldType::Session)?;
        let mut inner = FieldReader::new(payload);
        let s = Session::deserialize(&mut inner)?;
        *self = cur;
        Ok(s)
    }

    /// Reads the next field as a value of kind `expected`. The kind asked for is the schema:
    /// a record of any other kind fails with `InvalidFieldType`.
    pub fn read_field(&mut self, expected: FieldType) -> (r: Result<Field, Error>)
        ensures
            match spec_read_field(old(self)@, expected) {
                Ok((v, rest)) => r matches Ok(f) && f@ == v && final(self)@ == rest,
                Err(e) => r == Err::<Field, Error>(e) && final(self)@ == old(self)@,
            },
    {
        match expected {
            FieldType::Str => match self.read_str() {
                Ok(v) => Ok(Field::Str(v)),
                Err(e) => Err(e),
            },
            FieldType::U128 => match self.read_u128() {
                Ok(v) => Ok(Field::U128(v)),
                Err(e) => Err(e),
            },
            FieldType::Byte => match self.read_byte() {
                Ok(v) => Ok(Field::Byte(v)),
                Err(e) => Err(e),
            },
            FieldType::Bool => match self.read_bool() {
                Ok(v) => Ok(Field::Bool(v)),
                Err(e) => Err(e),
            },
            FieldType::Action => match self.read_action() {
                Ok(v) => Ok(Field::Action(v)),
                Err(e) => Err(e),
            },
            FieldType::ActionKind => match self.read_action_kind() {
                Ok(v) => Ok(Field::ActionKind(v)),
                Err(e) => Err(e),
            },
            FieldType::Entity => match self.read_entity() {
                Ok(v) => Ok(Field::Entity(v)),
                Err(e) => Err(e),
            },
            FieldType::Session => match self.read_session() {
                Ok(v) => Ok(Field::Session(v)),
                Err(e) => Err(e),
            },
        }
    }
}

/// A composite record that reads its fields, in its fixed order, from a reader.
pub trait Deserialize: Sized + View {
    /// What reading this record's fields from the front of `bytes` gives: the record and the
    /// bytes after its fields, or the first field's error.
    spec fn spec_deserialize(bytes: Seq<u8>) -> Result<(Self::V, Seq<u8>), Error>;

    /// Reads this record's fields from `reader`; on an error the reader does not move.
    fn deserialize(reader: &mut FieldReader<'_>) -> (r: Result<Self, Error>)
        ensures
            match Self::spec_deserialize(old(reader)@) {
                Ok((v, rest)) => r matches Ok(x) && x@ == v && final(reader)@ == rest,
                Err(e) => r == Err::<Self, Error>(e) && final(reader)@ == old(reader)@,
            },
    ;
}

impl Deserialize for Entity {
    open spec fn spec_deserialize(bytes: Seq<u8>) -> Result<(EntityView, Seq<u8>), Error> {
        spec_entity_fields(bytes)
    }

    fn deserialize(reader: &mut FieldReader<'_>) -> (r: Result<Entity, Error>) {
        let mut cur = *reader;
        let name = cur.read_str()?;
        let field_b = cur.read_byte()?;
        let field_c = cur.read_bool()?;
        *reader = cur;
        Ok(Entity { name, field_b, field_c })
    }
}

impl Deserialize for Action {
    open spec fn spec_deserialize(bytes: Seq<u8>) -> Result<(ActionView, Seq<u8>), Error> {
        spec_action_fields(bytes)
    }

    fn deserialize(reader: &mut FieldReader<'_>) -> (r: Result<Action, Error>) {
        let mut cur = *reader;
        let kind = cur.read_action_kind()?;
        let target = cur.read_str()?;
        *reader = cur;
        Ok(Action { kind, target })
    }
}

impl Deserialize for Session {
    open spec fn spec_deserialize(bytes: Seq<u8>) -> Result<(SessionView, Seq<u8>), Error> {
        spec_session_fields(bytes)
    }

    fn deserialize(reader: &mut FieldReader<'_>) -> (r: Result<Session, Error>) {
        let mut cur = *reader;
        let entity = cur.read_entity()?;
        *reader = cur;
        Ok(Session { entity })
    }
}

} // verus!
