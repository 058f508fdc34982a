use vstd::prelude::*;
use vstd::utf8::encode_utf8;

use crate::codec::{write_action_kind, write_bool, write_byte, write_str, FieldView, Serialize};
use crate::reader::{
    spec_read_action, spec_read_action_kind, spec_read_entity, spec_read_session, FieldReader,
};
use crate::error::Error;
use crate::wire::{record, write_record, FieldType, MAX_PAYLOAD};

verus! {

/// The byte that stands for a boolean on the wire.
pub open spec fn bool_byte(b: bool) -> u8 {
    if b {
        1
    } else {
        0
    }
}

/// The closed set of things an action can do, each with a stable one-byte discriminant.
#[derive(Debug, PartialEq, Eq, Clone, Copy, Structural)]
pub enum ActionKind {
    Attack,
    Defend,
    Heal,
    Flee,
}

impl ActionKind {
    pub open spec fn spec_discriminant(self) -> u8 {
        match self {
            ActionKind::Attack => 0,
            ActionKind::Defend => 1,
            ActionKind::Heal => 2,
            ActionKind::Flee => 3,
        }
    }

    pub open spec fn spec_from_discriminant(b: u8) -> Option<ActionKind> {
        if b == 0 {
            Some(ActionKind::Attack)
        } else if b == 1 {
            Some(ActionKind::Defend)
        } else if b == 2 {
            Some(ActionKind::Heal)
        } else if b == 3 {
            Some(ActionKind::Flee)
        } else {
            None
        }
    }

    /// The discriminant byte of this kind.
    pub fn discriminant(self) -> (r: u8)
        ensures
            r == self.spec_discriminant(),
    {
        match self {
            ActionKind::Attack => 0,
            ActionKind::Defend => 1,
            ActionKind::Heal => 2,
            ActionKind::Flee => 3,
        }
    }

    /// The kind whose discriminant is `b`; `None` for a byte outside the set.
    pub fn from_discriminant(b: u8) -> (r: Option<ActionKind>)
        ensures
            r == Self::spec_from_discriminant(b),
    {
        match b {
            0 => Some(ActionKind::Attack),
            1 => Some(ActionKind::Defend),
            2 => Some(ActionKind::Heal),
            3 => Some(ActionKind::Flee),
            _ => None,
        }
    }

    /// The record of this kind as a field.
    pub fn encode(self) -> (r: Vec<u8>)
        ensures
            r@ == FieldView::ActionKind(self).bytes(),
    {
        let mut buf: Vec<u8> = Vec::new();
        write_action_kind(&mut buf, self);
        buf
    }

    /// Reads an action kind from the record at the front of `bytes`.
    pub fn decode(bytes: &[u8]) -> (r: Result<ActionKind, Error>)
        ensures
            match spec_read_action_kind(bytes@) {
                Ok((v, _)) => r == Ok::<ActionKind, Error>(v),
                Err(e) => r == Err::<ActionKind, Error>(e),
            },
    {
        let mut reader = FieldReader::new(bytes);
        reader.read_action_kind()
    }
}

/// What an [`Entity`] holds, as plain values.
pub struct EntityView {
    pub name: Seq<char>,
    pub field_b: u8,
    pub field_c: bool,
}

impl EntityView {
    /// The fields' records in their fixed order: name, byte, boolean.
    pub open spec fn payload(self) -> Seq<u8> {
        record(FieldType::Str.spec_tag(), encode_utf8(self.name)) + record(
            FieldType::Byte.spec_tag(),
            seq![self.field_b],
        ) + record(FieldType::Bool.spec_tag(), seq![bool_byte(self.field_c)])
    }

    /// Every field's payload fits its length prefix.
    pub open spec fn encodable(self) -> bool {
        encode_utf8(self.name).len() <= MAX_PAYLOAD
    }
}

/// A named thing, with two scalar fields kept for later use.
#[derive(Debug, Clone, PartialEq, Eq)]
pub struct Entity {
    pub name: String,
    pub field_b: u8,
    pub field_c: bool,
}

impl View for Entity {
    type V = EntityView;

    open spec fn view(&self) -> EntityView {
        EntityView { name: self.name@, field_b: self.field_b, field_c: self.field_c }
    }
}

impl Entity {
    /// An entity with the given name and both scalar fields at zero.
    pub fn new(name: String) -> (r: Entity)
        ensures
            r@ == (EntityView { name: name@, field_b: 0, field_c: false }),
    {
        Entity { name, field_b: 0, field_c: false }
    }

    /// The record of this entity as a field: tag, length, payload. Fails with
    /// `LengthOverflow` exactly when some payload in it does not fit its length prefix.
    pub fn encode(&self) -> (r: Result<Vec<u8>, Error>)
        ensures
            r is Ok <==> FieldView::Entity(self@).encodable(),
            r matches Ok(b) ==> b@ == FieldView::Entity(self@).bytes(),
            r matches Err(e) ==> e == Error::LengthOverflow,
    {
        let payload = self.serialize()?;
        let mut buf: Vec<u8> = Vec::new();
        write_record(&mut buf, FieldType::Entity.tag(), payload.as_slice())?;
        Ok(buf)
    }

    /// Reads an entity from the record at the front of `bytes`.
    pub fn decode(bytes: &[u8]) -> (r: Result<Entity, Error>)
        ensures
            match spec_read_entity(bytes@) {
                Ok((v, _)) => r matches Ok(x) && x@ == v,
                Err(e) => r == Err::<Entity, Error>(e),
            },
    {
        let mut reader = FieldReader::new(bytes);
        reader.read_entity()
    }
}

impl Serialize for Entity {
    open spec fn spec_payload(&self) -> Seq<u8> {
        self@.payload()
    }

    open spec fn spec_encodable(&self) -> bool {
        self@.encodable()
    }

    fn serialize(&self) -> (r: Result<Vec<u8>, Error>) {
        let mut bytes: Vec<u8> = Vec::new();
        write_str(&mut bytes, self.name.as_str())?;
        write_byte(&mut bytes, self.field_b);
        write_bool(&mut bytes, self.field_c);
        assert(bytes@ =~= self@.payload());
        Ok(bytes)
    }
}

/// What an [`Action`] holds, as plain values.
pub struct ActionView {
    pub kind: ActionKind,
    pub target: Seq<char>,
}

impl ActionView {
    /// The fields' records in their fixed order: kind, target.
    pub open spec fn payload(self) -> Seq<u8> {
        record(FieldType::ActionKind.spec_tag(), seq![self.kind.spec_discriminant()]) + record(
            FieldType::Str.spec_tag(),
            encode_utf8(self.target),
        )
    }

    /// Every field's payload fits its length prefix.
    pub open spec fn encodable(self) -> bool {
        encode_utf8(self.target).len() <= MAX_PAYLOAD
    }
}

/// One action: what is done, and to what.
#[derive(Debug, Clone, PartialEq, Eq)]
pub struct Action {
    pub kind: ActionKind,
    pub target: String,
}

impl View for Action {
    type V = ActionView;

    open spec fn view(&self) -> ActionView {
        ActionView { kind: self.kind, target: self.target@ }
    }
}

impl Action {
    pub fn new(kind: ActionKind, target: String) -> (r: Action)
        ensures
            r@ == (ActionView { kind, target: target@ }),
    {
        Action { kind, target }
    }

    /// The record of this action as a field: tag, length, payload. Fails with
    /// `LengthOverflow` exactly when some payload in it does not fit its length prefix.
    pub fn encode(&self) -> (r: Result<Vec<u8>, Error>)
        ensures
            r is Ok <==> FieldView::Action(self@).encodable(),
            r matches Ok(b) ==> b@ == FieldView::Action(self@).bytes(),
            r matches Err(e) ==> e == Error::LengthOverflow,
    {
        let payload = self.serialize()?;
        let mut buf: Vec<u8> = Vec::new();
        write_record(&mut buf, FieldType::Action.tag(), payload.as_slice())?;
        Ok(buf)
    }

    /// Reads an action from the record at the front of `bytes`.
    pub fn decode(bytes: &[u8]) -> (r: Result<Action, Error>)
        ensures
            match spec_read_action(bytes@) {
                Ok((v, _)) => r matches Ok(x) && x@ == v,
                Err(e) => r == Err::<Action, Error>(e),
            },
    {
        let mut reader = FieldReader::new(bytes);
        reader.read_action()
    }
}

impl Serialize for Action {
    open spec fn spec_payload(&self) -> Seq<u8> {
        self@.payload()
    }

    open spec fn spec_encodable(&self) -> bool {
        self@.encodable()
    }

    fn serialize(&self) -> (r: Result<Vec<u8>, Error>) {
        let mut bytes: Vec<u8> = Vec::new();
        write_action_kind(&mut bytes, self.kind);
        write_str(&mut bytes, self.target.as_str())?;
        assert(bytes@ =~= self@.payload());
        Ok(bytes)
    }
}

/// What a [`Session`] holds, as plain values.
pub struct SessionView {
    pub entity: EntityView,
}

impl SessionView {
    /// The one field's record: the entity.
    pub open spec fn payload(self) -> Seq<u8> {
        record(FieldType::Entity.spec_tag(), self.entity.payload())
    }

    /// The entity is encodable and its payload fits its length prefix.
    pub open spec fn encodable(self) -> bool {
        self.entity.encodable() && self.entity.payload().len() <= MAX_PAYLOAD
    }
}

/// A session: the entity it is about.
#[derive(Debug, Clone, PartialEq, Eq)]
pub struct Session {
    pub entity: Entity,
}

impl View for Session {
    type V = SessionView;

    open spec fn view(&self) -> SessionView {
        SessionView { entity: self.entity@ }
    }
}

impl Session {
    pub fn new(entity: Entity) -> (r: Session)
        ensures
            r@ == (SessionView { entity: entity@ }),
    {
        Session { entity }
    }

    /// The record of this session as a field: tag, length, payload. Fails with
    /// `LengthOverflow` exactly when some payload in it does not fit its length prefix.
    pub fn encode(&self) -> (r: Result<Vec<u8>, Error>)
        ensures
            r is Ok <==> FieldView::Session(self@).encodable(),
            r matches Ok(b) ==> b@ == FieldView::Session(self@).bytes(),
            r matches Err(e) ==> e == Error::LengthOverflow,
    {
        let payload = self.serialize()?;
        let mut buf: Vec<u8> = Vec::new();
        write_record(&mut buf, FieldType::Session.tag(), payload.as_slice())?;
        Ok(buf)
    }

    /// Reads a session from the record at the front of `bytes`.
    pub fn decode(bytes: &[u8]) -> (r: Result<Session, Error>)
        ensures
            match spec_read_session(bytes@) {
                Ok((v, _)) => r matches Ok(x) && x@ == v,
                Err(e) => r == Err::<Session, Error>(e),
            },
    {
        let mut reader = FieldReader::new(bytes);
        reader.read_session()
    }
}

impl Serialize for Session {
    open spec fn spec_payload(&self) -> Seq<u8> {
        self@.payload()
    }

    open spec fn spec_encodable(&self) -> bool {
        self@.encodable()
    }

    fn serialize(&self) -> (r: Result<Vec<u8>, Error>) {
        let inner = self.entity.serialize()?;
        let mut bytes: Vec<u8> = Vec::new();
        write_record(&mut bytes, FieldType::Entity.tag(), inner.as_slice())?;
        assert(bytes@ =~= self@.payload());
        Ok(bytes)
    }
}

} // verus!
