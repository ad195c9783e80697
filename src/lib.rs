//! Codec for ISO 11783-6 (ISOBUS Virtual Terminal) object pools: the typed
//! object model, a byte-exact reader and writer, and the pool container with
//! id lookup and reference validation.
//!
//! Wire format of one object record: the object id (two bytes,
//! little-endian), the type byte (see [`ObjectType`]), then the object's
//! fields in the order its struct declares them. Integers are little-endian
//! of their declared width; a flag is one byte, 0 or 1; a scale or zoom
//! factor is the four-byte pattern of an IEEE-754 single. A list field is
//! a count followed by that many elements: the count is one byte unless the
//! field's documentation says otherwise. Text fields hold their bytes as
//! they stand on the wire.
//!
//! Every function of the library is verified: the reader returns exactly the
//! object whose record starts the input, or an error when none does, and the
//! writer emits exactly that record.

pub mod device_class;
pub mod industry_group;
pub mod laws;
pub mod object_type;
pub mod objects;
pub mod pool;
pub mod reader;
pub mod refs;
pub mod types;
pub mod wire;
pub mod writer;

pub use device_class::DeviceClass;
pub use industry_group::IndustryGroup;
pub use object_type::ObjectType;
pub use objects::{
    Object, WorkingSet, DataMask, AlarmMask, Container, SoftKeyMask, Key, Button, InputBoolean,
    InputString, InputNumber, InputList, OutputString, OutputNumber, OutputLine,
    OutputRectangle, OutputEllipse, OutputPolygon, OutputMeter, OutputLinearBarGraph,
    OutputArchedBarGraph, PictureGraphic, NumberVariable, StringVariable, FontAttributes,
    LineAttributes, FillAttributes, InputAttributes, ObjectPointer, Macro,
    AuxiliaryFunctionType1, AuxiliaryInputType1, AuxiliaryFunctionType2, AuxiliaryInputType2,
    AuxiliaryControlDesignatorType2, WindowMask, KeyGroup, GraphicsContext, OutputList,
    ExtendedInputAttributes, ColourMap, ObjectLabelReferenceList, ExternalObjectDefinition,
    ExternalReferenceName, ExternalObjectPointer, Animation, ColourPalette, GraphicData,
    WorkingSetSpecialControls, ScalesGraphic,
};
pub use pool::{ObjectPool, PoolError};
pub use reader::decode_object;
pub use writer::encode_object;
pub use types::{Colour, EncodeError, LanguageCode, MacroRef, Name, ObjectId, ObjectLabel, ObjectRef, ParseError, Point};
