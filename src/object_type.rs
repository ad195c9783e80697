//! The registry of object kinds and their one-byte wire tags.

use vstd::prelude::*;
use crate::types::ParseError;

verus! {

/// The kind of an object, as carried in the type byte of its record.
#[derive(Debug, Clone, Copy, PartialEq, Eq, Structural)]
pub enum ObjectType {
    WorkingSet,
    DataMask,
    AlarmMask,
    Container,
    SoftKeyMask,
    Key,
    Button,
    InputBoolean,
    InputString,
    InputNumber,
    InputList,
    OutputString,
    OutputNumber,
    OutputLine,
    OutputRectangle,
    OutputEllipse,
    OutputPolygon,
    OutputMeter,
    OutputLinearBarGraph,
    OutputArchedBarGraph,
    PictureGraphic,
    NumberVariable,
    StringVariable,
    FontAttributes,
    LineAttributes,
    FillAttributes,
    InputAttributes,
    ObjectPointer,
    Macro,
    AuxiliaryFunctionType1,
    AuxiliaryInputType1,
    AuxiliaryFunctionType2,
    AuxiliaryInputType2,
    AuxiliaryControlDesignatorType2,
    WindowMask,
    KeyGroup,
    GraphicsContext,
    OutputList,
    ExtendedInputAttributes,
    ColourMap,
    ObjectLabelReferenceList,
    ExternalObjectDefinition,
    ExternalReferenceName,
    ExternalObjectPointer,
    Animation,
    ColourPalette,
    GraphicData,
    WorkingSetSpecialControls,
    ScalesGraphic,
}

/// The largest type byte that names a kind.
pub const MAX_OBJECT_TYPE: u8 = 48;

impl ObjectType {
    /// The wire tag of the kind: its position in the declaration order.
    pub open spec fn tag(self) -> u8 {
        match self {
            ObjectType::WorkingSet => 0,
            ObjectType::DataMask => 1,
            ObjectType::AlarmMask => 2,
            ObjectType::Container => 3,
            ObjectType::SoftKeyMask => 4,
            ObjectType::Key => 5,
            ObjectType::Button => 6,
            ObjectType::InputBoolean => 7,
            ObjectType::InputString => 8,
            ObjectType::InputNumber => 9,
            ObjectType::InputList => 10,
            ObjectType::OutputString => 11,
            ObjectType::OutputNumber => 12,
            ObjectType::OutputLine => 13,
            ObjectType::OutputRectangle => 14,
            ObjectType::OutputEllipse => 15,
            ObjectType::OutputPolygon => 16,
            ObjectType::OutputMeter => 17,
            ObjectType::OutputLinearBarGraph => 18,
            ObjectType::OutputArchedBarGraph => 19,
            ObjectType::PictureGraphic => 20,
            ObjectType::NumberVariable => 21,
            ObjectType::StringVariable => 22,
            ObjectType::FontAttributes => 23,
            ObjectType::LineAttributes => 24,
            ObjectType::FillAttributes => 25,
            ObjectType::InputAttributes => 26,
            ObjectType::ObjectPointer => 27,
            ObjectType::Macro => 28,
            ObjectType::AuxiliaryFunctionType1 => 29,
            ObjectType::AuxiliaryInputType1 => 30,
            ObjectType::AuxiliaryFunctionType2 => 31,
            ObjectType::AuxiliaryInputType2 => 32,
            ObjectType::AuxiliaryControlDesignatorType2 => 33,
            ObjectType::WindowMask => 34,
            ObjectType::KeyGroup => 35,
            ObjectType::GraphicsContext => 36,
            ObjectType::OutputList => 37,
            ObjectType::ExtendedInputAttributes => 38,
            ObjectType::ColourMap => 39,
            ObjectType::ObjectLabelReferenceList => 40,
            ObjectType::ExternalObjectDefinition => 41,
            ObjectType::ExternalReferenceName => 42,
            ObjectType::ExternalObjectPointer => 43,
            ObjectType::Animation => 44,
            ObjectType::ColourPalette => 45,
            ObjectType::GraphicData => 46,
            ObjectType::WorkingSetSpecialControls => 47,
            ObjectType::ScalesGraphic => 48,
        }
    }

    /// The kind that a type byte names, if any.
    pub open spec fn from_tag(v: u8) -> Result<ObjectType, ParseError> {
        match v {
            0 => Ok(ObjectType::WorkingSet),
            1 => Ok(ObjectType::DataMask),
            2 => Ok(ObjectType::AlarmMask),
            3 => Ok(ObjectType::Container),
            4 => Ok(ObjectType::SoftKeyMask),
            5 => Ok(ObjectType::Key),
            6 => Ok(ObjectType::Button),
            7 => Ok(ObjectType::InputBoolean),
            8 => Ok(ObjectType::InputString),
            9 => Ok(ObjectType::InputNumber),
            10 => Ok(ObjectType::InputList),
            11 => Ok(ObjectType::OutputString),
            12 => Ok(ObjectType::OutputNumber),
            13 => Ok(ObjectType::OutputLine),
            14 => Ok(ObjectType::OutputRectangle),
            15 => Ok(ObjectType::OutputEllipse),
            16 => Ok(ObjectType::OutputPolygon),
            17 => Ok(ObjectType::OutputMeter),
            18 => Ok(ObjectType::OutputLinearBarGraph),
            19 => Ok(ObjectType::OutputArchedBarGraph),
            20 => Ok(ObjectType::PictureGraphic),
            21 => Ok(ObjectType::NumberVariable),
            22 => Ok(ObjectType::StringVariable),
            23 => Ok(ObjectType::FontAttributes),
            24 => Ok(ObjectType::LineAttributes),
            25 => Ok(ObjectType::FillAttributes),
            26 => Ok(ObjectType::InputAttributes),
            27 => Ok(ObjectType::ObjectPointer),
            28 => Ok(ObjectType::Macro),
            29 => Ok(ObjectType::AuxiliaryFunctionType1),
            30 => Ok(ObjectType::AuxiliaryInputType1),
            31 => Ok(ObjectType::AuxiliaryFunctionType2),
            32 => Ok(ObjectType::AuxiliaryInputType2),
            33 => Ok(ObjectType::AuxiliaryControlDesignatorType2),
            34 => Ok(ObjectType::WindowMask),
            35 => Ok(ObjectType::KeyGroup),
            36 => Ok(ObjectType::GraphicsContext),
            37 => Ok(ObjectType::OutputList),
            38 => Ok(ObjectType::ExtendedInputAttributes),
            39 => Ok(ObjectType::ColourMap),
            40 => Ok(ObjectType::ObjectLabelReferenceList),
            41 => Ok(ObjectType::ExternalObjectDefinition),
            42 => Ok(ObjectType::ExternalReferenceName),
            43 => Ok(ObjectType::ExternalObjectPointer),
            44 => Ok(ObjectType::Animation),
            45 => Ok(ObjectType::ColourPalette),
            46 => Ok(ObjectType::GraphicData),
            47 => Ok(ObjectType::WorkingSetSpecialControls),
            48 => Ok(ObjectType::ScalesGraphic),
            _ => Err(ParseError::UnknownObjectType),
        }
    }

    pub proof fn lemma_tag_injective(a: ObjectType, b: ObjectType)
        requires
            a.tag() == b.tag(),
        ensures
            a == b,
    {
        assert(ObjectType::from_tag(a.tag()) == Ok::<ObjectType, ParseError>(a));
        assert(ObjectType::from_tag(b.tag()) == Ok::<ObjectType, ParseError>(b));
    }

    pub proof fn lemma_tag_in_range(self)
        ensures
            self.tag() <= MAX_OBJECT_TYPE,
    {
    }
}

impl TryFrom<u8> for ObjectType {
    type Error = ParseError;

    /// Succeeds exactly for the tags `0..=48`.
    fn try_from(val: u8) -> (r: Result<ObjectType, ParseError>)
        ensures
            r.is_ok() <==> val <= MAX_OBJECT_TYPE,
            match r {
                Ok(t) => t.tag() == val,
                Err(e) => e == ParseError::UnknownObjectType,
            },
    {
        match val {
            0 => Ok(ObjectType::WorkingSet),
            1 => Ok(ObjectType::DataMask),
            2 => Ok(ObjectType::AlarmMask),
            3 => Ok(ObjectType::Container),
            4 => Ok(ObjectType::SoftKeyMask),
            5 => Ok(ObjectType::Key),
            6 => Ok(ObjectType::Button),
            7 => Ok(ObjectType::InputBoolean),
            8 => Ok(ObjectType::InputString),
            9 => Ok(ObjectType::InputNumber),
            10 => Ok(ObjectType::InputList),
            11 => Ok(ObjectType::OutputString),
            12 => Ok(ObjectType::OutputNumber),
            13 => Ok(ObjectType::OutputLine),
            14 => Ok(ObjectType::OutputRectangle),
            15 => Ok(ObjectType::OutputEllipse),
            16 => Ok(ObjectType::OutputPolygon),
            17 => Ok(ObjectType::OutputMeter),
            18 => Ok(ObjectType::OutputLinearBarGraph),
            19 => Ok(ObjectType::OutputArchedBarGraph),
            20 => Ok(ObjectType::PictureGraphic),
            21 => Ok(ObjectType::NumberVariable),
            22 => Ok(ObjectType::StringVariable),
            23 => Ok(ObjectType::FontAttributes),
            24 => Ok(ObjectType::LineAttributes),
            25 => Ok(ObjectType::FillAttributes),
            26 => Ok(ObjectType::InputAttributes),
            27 => Ok(ObjectType::ObjectPointer),
            28 => Ok(ObjectType::Macro),
            29 => Ok(ObjectType::AuxiliaryFunctionType1),
            30 => Ok(ObjectType::AuxiliaryInputType1),
            31 => Ok(ObjectType::AuxiliaryFunctionType2),
            32 => Ok(ObjectType::AuxiliaryInputType2),
            33 => Ok(ObjectType::AuxiliaryControlDesignatorType2),
            34 => Ok(ObjectType::WindowMask),
            35 => Ok(ObjectType::KeyGroup),
            36 => Ok(ObjectType::GraphicsContext),
            37 => Ok(ObjectType::OutputList),
            38 => Ok(ObjectType::ExtendedInputAttributes),
            39 => Ok(ObjectType::ColourMap),
            40 => Ok(ObjectType::ObjectLabelReferenceList),
            41 => Ok(ObjectType::ExternalObjectDefinition),
            42 => Ok(ObjectType::ExternalReferenceName),
            43 => Ok(ObjectType::ExternalObjectPointer),
            44 => Ok(ObjectType::Animation),
            45 => Ok(ObjectType::ColourPalette),
            46 => Ok(ObjectType::GraphicData),
            47 => Ok(ObjectType::WorkingSetSpecialControls),
            48 => Ok(ObjectType::ScalesGraphic),
            _ => Err(ParseError::UnknownObjectType),
        }
    }
}

impl vstd::std_specs::convert::TryFromSpecImpl<u8> for ObjectType {
    open spec fn obeys_try_from_spec() -> bool {
        true
    }

    open spec fn try_from_spec(v: u8) -> Result<ObjectType, ParseError> {
        ObjectType::from_tag(v)
    }
}

impl From<ObjectType> for u8 {
    fn from(val: ObjectType) -> (r: u8)
        ensures
            r == val.tag(),
    {
        match val {
            ObjectType::WorkingSet => 0,
            ObjectType::DataMask => 1,
            ObjectType::AlarmMask => 2,
            ObjectType::Container => 3,
            ObjectType::SoftKeyMask => 4,
            ObjectType::Key => 5,
            ObjectType::Button => 6,
            ObjectType::InputBoolean => 7,
            ObjectType::InputString => 8,
            ObjectType::InputNumber => 9,
            ObjectType::InputList => 10,
            ObjectType::OutputString => 11,
            ObjectType::OutputNumber => 12,
            ObjectType::OutputLine => 13,
            ObjectType::OutputRectangle => 14,
            ObjectType::OutputEllipse => 15,
            ObjectType::OutputPolygon => 16,
            ObjectType::OutputMeter => 17,
            ObjectType::OutputLinearBarGraph => 18,
            ObjectType::OutputArchedBarGraph => 19,
            ObjectType::PictureGraphic => 20,
            ObjectType::NumberVariable => 21,
            ObjectType::StringVariable => 22,
            ObjectType::FontAttributes => 23,
            ObjectType::LineAttributes => 24,
            ObjectType::FillAttributes => 25,
            ObjectType::InputAttributes => 26,
            ObjectType::ObjectPointer => 27,
            ObjectType::Macro => 28,
            ObjectType::AuxiliaryFunctionType1 => 29,
            ObjectType::AuxiliaryInputType1 => 30,
            ObjectType::AuxiliaryFunctionType2 => 31,
            ObjectType::AuxiliaryInputType2 => 32,
            ObjectType::AuxiliaryControlDesignatorType2 => 33,
            ObjectType::WindowMask => 34,
            ObjectType::KeyGroup => 35,
            ObjectType::GraphicsContext => 36,
            ObjectType::OutputList => 37,
            ObjectType::ExtendedInputAttributes => 38,
            ObjectType::ColourMap => 39,
            ObjectType::ObjectLabelReferenceList => 40,
            ObjectType::ExternalObjectDefinition => 41,
            ObjectType::ExternalReferenceName => 42,
            ObjectType::ExternalObjectPointer => 43,
            ObjectType::Animation => 44,
            ObjectType::ColourPalette => 45,
            ObjectType::GraphicData => 46,
            ObjectType::WorkingSetSpecialControls => 47,
            ObjectType::ScalesGraphic => 48,
        }
    }
}

impl vstd::std_specs::convert::FromSpecImpl<ObjectType> for u8 {
    open spec fn obeys_from_spec() -> bool {
        true
    }

    open spec fn from_spec(v: ObjectType) -> u8 {
        v.tag()
    }
}

} // verus!
