//! Encoding of object records.

use vstd::prelude::*;
use crate::objects::Object;
use crate::types::EncodeError;
use crate::wire::Wire;

verus! {

/// Appends the record of `o`: its id, its type byte, then its fields.
pub fn write_object(o: &Object, out: &mut Vec<u8>)
    requires
        o.wf(),
    ensures
        forall|k: Seq<u8>| old(out)@ + #[trigger] o.encode_into(k) == final(out)@ + k,
{
    o.id().write(out);
    let tag: u8 = o.object_type().into();
    tag.write(out);
    match o {
        Object::WorkingSet(x) => x.write_body(out),
        Object::DataMask(x) => x.write_body(out),
        Object::AlarmMask(x) => x.write_body(out),
        Object::Container(x) => x.write_body(out),
        Object::SoftKeyMask(x) => x.write_body(out),
        Object::Key(x) => x.write_body(out),
        Object::Button(x) => x.write_body(out),
        Object::InputBoolean(x) => x.write_body(out),
        Object::InputString(x) => x.write_body(out),
        Object::InputNumber(x) => x.write_body(out),
        Object::InputList(x) => x.write_body(out),
        Object::OutputString(x) => x.write_body(out),
        Object::OutputNumber(x) => x.write_body(out),
        Object::OutputLine(x) => x.write_body(out),
        Object::OutputRectangle(x) => x.write_body(out),
        Object::OutputEllipse(x) => x.write_body(out),
        Object::OutputPolygon(x) => x.write_body(out),
        Object::OutputMeter(x) => x.write_body(out),
        Object::OutputLinearBarGraph(x) => x.write_body(out),
        Object::OutputArchedBarGraph(x) => x.write_body(out),
        Object::PictureGraphic(x) => x.write_body(out),
        Object::NumberVariable(x) => x.write_body(out),
        Object::StringVariable(x) => x.write_body(out),
        Object::FontAttributes(x) => x.write_body(out),
        Object::LineAttributes(x) => x.write_body(out),
        Object::FillAttributes(x) => x.write_body(out),
        Object::InputAttributes(x) => x.write_body(out),
        Object::ObjectPointer(x) => x.write_body(out),
        Object::Macro(x) => x.write_body(out),
        Object::AuxiliaryFunctionType1(x) => x.write_body(out),
        Object::AuxiliaryInputType1(x) => x.write_body(out),
        Object::AuxiliaryFunctionType2(x) => x.write_body(out),
        Object::AuxiliaryInputType2(x) => x.write_body(out),
        Object::AuxiliaryControlDesignatorType2(x) => x.write_body(out),
        Object::WindowMask(x) => x.write_body(out),
        Object::KeyGroup(x) => x.write_body(out),
        Object::GraphicsContext(x) => x.write_body(out),
        Object::OutputList(x) => x.write_body(out),
        Object::ExtendedInputAttributes(x) => x.write_body(out),
        Object::ColourMap(x) => x.write_body(out),
        Object::ObjectLabelReferenceList(x) => x.write_body(out),
        Object::ExternalObjectDefinition(x) => x.write_body(out),
        Object::ExternalReferenceName(x) => x.write_body(out),
        Object::ExternalObjectPointer(x) => x.write_body(out),
        Object::Animation(x) => x.write_body(out),
        Object::ColourPalette(x) => x.write_body(out),
        Object::GraphicData(x) => x.write_body(out),
        Object::WorkingSetSpecialControls(x) => x.write_body(out),
        Object::ScalesGraphic(x) => x.write_body(out),
    }
}

/// Encodes one object record. Fails, instead of truncating a count, when a
/// counted section holds more elements than its count field can state.
pub fn encode_object(o: &Object) -> (r: Result<Vec<u8>, EncodeError>)
    ensures
        match r {
            Ok(bytes) => o.wf() && bytes@ == o.encoding(),
            Err(e) => !o.wf() && e == EncodeError::SectionTooLong,
        },
{
    if !o.is_encodable() {
        return Err(EncodeError::SectionTooLong);
    }
    let mut out: Vec<u8> = Vec::new();
    write_object(o, &mut out);
    proof {
        let e = Seq::<u8>::empty();
        assert(Seq::<u8>::empty() + o.encode_into(e) == out@ + e);
        assert(Seq::<u8>::empty() + o.encode_into(e) =~= o.encoding());
        assert(out@ + e =~= out@);
    }
    Ok(out)
}

} // verus!
