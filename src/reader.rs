//! Decoding of object records.

use vstd::prelude::*;
use crate::object_type::{ObjectType, MAX_OBJECT_TYPE};
use crate::objects::{
    Object, WorkingSet, DataMask, AlarmMask, Container, SoftKeyMask, Key, Button, InputBoolean,
    InputString, InputNumber, InputList, OutputString, OutputNumber, OutputLine,
    OutputRectangle, OutputEllipse, OutputPolygon, OutputMeter, OutputLinearBarGraph,
    OutputArchedBarGraph, PictureGraphic, NumberVariable, StringVariable, FontAttributes,
    LineAttributes, FillAttributes, InputAttributes, ObjectPointer, Macro,
    AuxiliaryFunctionType1, AuxiliaryInputType1, AuxiliaryFunctionType2, AuxiliaryInputType2,
    AuxiliaryControlDesignatorType2, WindowMask, KeyGroup, GraphicsContext, OutputList,
    ExtendedInputAttributes, ColourMap, ObjectLabelReferenceList, ExternalObjectDefinition,
    ExternalReferenceName, ExternalObjectPointer, Animation, ColourPalette, GraphicData,
    WorkingSetSpecialControls, ScalesGraphic,
};
use crate::types::{ObjectId, ParseError};
use crate::wire::{Cursor, Wire};

verus! {

/// Decodes the object record that starts at `offset`, returning the object
/// and the offset just past its record.
pub fn decode_object(data: &[u8], offset: usize) -> (r: Result<(Object, usize), ParseError>)
    requires
        offset <= data@.len(),
    ensures
        match r {
            Ok((o, end)) => offset < end <= data@.len() && o.wf() && data@.subrange(
                offset as int,
                end as int,
            ) == o.encoding(),
            Err(e) => (e == ParseError::UnknownObjectType <==> (data@.len() >= offset + 3 && data@[offset
                + 2] > MAX_OBJECT_TYPE)) && forall|o: Object|
                o.wf() ==> !(#[trigger] o.encoding()).is_prefix_of(data@.subrange(offset as int, data@.len() as int)),
        },
{
    let mut cur = Cursor::new(data, offset);
    let ghost start = cur.rest();
    match read_object(&mut cur) {
        Ok(o) => {
            proof {
                let rest = cur.rest();
                o.lemma_encoding_append(rest);
                assert(data@.subrange(offset as int, cur.pos as int) =~= start.subrange(0, start.len() - rest.len()));
                assert(o.encoding() =~= (o.encoding() + rest).subrange(0, start.len() - rest.len()));
                assert(cur.pos > offset);
            }
            Ok((o, cur.pos))
        },
        Err(e) => {
            proof {
                assert forall|o: Object| o.wf() implies !(#[trigger] o.encoding()).is_prefix_of(start) by {
                    if o.encoding().is_prefix_of(start) {
                        let k = start.subrange(o.encoding().len() as int, start.len() as int);
                        o.lemma_encoding_append(k);
                        assert(o.encoding() + k =~= start);
                    }
                }
                if e == ParseError::UnknownObjectType {
                    assert(start[2] == data@[offset + 2]);
                }
                if data@.len() >= offset + 3 {
                    assert(start[2] == data@[offset + 2]);
                }
            }
            Err(e)
        },
    }
}

/// Reads one object record at the cursor. On success the consumed bytes
/// are exactly the record of the returned object; on failure no
/// well-formed object's record starts at the cursor.
pub fn read_object(cur: &mut Cursor) -> (r: Result<Object, ParseError>)
    requires
        old(cur).wf(),
    ensures
        final(cur).wf(),
        final(cur).data == old(cur).data,
        match r {
            Ok(o) => o.wf() && old(cur).rest() == o.encode_into(final(cur).rest()),
            Err(e) => (e == ParseError::UnknownObjectType <==> (old(cur).rest().len() >= 3
                && old(cur).rest()[2] > MAX_OBJECT_TYPE)) && forall|o: Object, k: Seq<u8>|
                o.wf() ==> #[trigger] o.encode_into(k) != old(cur).rest(),
        },
{
    let ghost start = cur.rest();
    let lo = match cur.take_byte() {
        Some(b) => b,
        None => return Err(ParseError::DataEmpty),
    };
    let hi = match cur.take_byte() {
        Some(b) => b,
        None => return Err(ParseError::DataEmpty),
    };
    let tag = match cur.take_byte() {
        Some(b) => b,
        None => return Err(ParseError::DataEmpty),
    };
    let ghost after = cur.rest();
    let id = ObjectId((lo as u16) | ((hi as u16) << 8u16));
    proof {
        let v = id.0;
        assert(v as u8 == lo && (v >> 8u16) as u8 == hi) by (bit_vector)
            requires
                v == (lo as u16) | ((hi as u16) << 8u16),
        ;
        assert(start == id.put(tag.put(after)));
    }
    let t = match ObjectType::try_from(tag) {
        Ok(t) => t,
        Err(e) => {
            proof {
                assert forall|o: Object, k: Seq<u8>| o.wf() implies #[trigger] o.encode_into(k) != start by {
                    if o.encode_into(k) == start {
                        ObjectId::lemma_put_injective(o.id_spec(), id, o.kind().tag().put(o.put_body(k)), tag.put(after));
                        u8::lemma_put_injective(o.kind().tag(), tag, o.put_body(k), after);
                        o.kind().lemma_tag_in_range();
                    }
                }
            }
            return Err(e);
        },
    };
    proof {
        t.lemma_tag_in_range();
    }
    match read_body_as(cur, id, t) {
        Ok(o) => Ok(o),
        Err(e) => {
            proof {
                assert forall|o: Object, k: Seq<u8>| o.wf() implies #[trigger] o.encode_into(k) != start by {
                    if o.encode_into(k) == start {
                        ObjectId::lemma_put_injective(o.id_spec(), id, o.kind().tag().put(o.put_body(k)), tag.put(after));
                        u8::lemma_put_injective(o.kind().tag(), tag, o.put_body(k), after);
                        ObjectType::lemma_tag_injective(o.kind(), t);
                    }
                }
            }
            Err(e)
        },
    }
}

/// Reads the fields of an object of kind `t` whose header has been read.
fn read_body_as(cur: &mut Cursor, id: ObjectId, t: ObjectType) -> (r: Result<Object, ParseError>)
    requires
        old(cur).wf(),
    ensures
        final(cur).wf(),
        final(cur).data == old(cur).data,
        match r {
            Ok(o) => o.wf() && o.id_spec() == id && o.kind() == t && old(cur).rest() == o.put_body(final(cur).rest()),
            Err(e) => e == ParseError::DataEmpty && forall|o: Object, k: Seq<u8>|
                o.wf() && o.kind() == t ==> #[trigger] o.put_body(k) != old(cur).rest(),
        },
{
    match t {
        ObjectType::WorkingSet => read_as_working_set(cur, id),
        ObjectType::DataMask => read_as_data_mask(cur, id),
        ObjectType::AlarmMask => read_as_alarm_mask(cur, id),
        ObjectType::Container => read_as_container(cur, id),
        ObjectType::SoftKeyMask => read_as_soft_key_mask(cur, id),
        ObjectType::Key => read_as_key(cur, id),
        ObjectType::Button => read_as_button(cur, id),
        ObjectType::InputBoolean => read_as_input_boolean(cur, id),
        ObjectType::InputString => read_as_input_string(cur, id),
        ObjectType::InputNumber => read_as_input_number(cur, id),
        ObjectType::InputList => read_as_input_list(cur, id),
        ObjectType::OutputString => read_as_output_string(cur, id),
        ObjectType::OutputNumber => read_as_output_number(cur, id),
        ObjectType::OutputLine => read_as_output_line(cur, id),
        ObjectType::OutputRectangle => read_as_output_rectangle(cur, id),
        ObjectType::OutputEllipse => read_as_output_ellipse(cur, id),
        ObjectType::OutputPolygon => read_as_output_polygon(cur, id),
        ObjectType::OutputMeter => read_as_output_meter(cur, id),
        ObjectType::OutputLinearBarGraph => read_as_output_linear_bar_graph(cur, id),
        ObjectType::OutputArchedBarGraph => read_as_output_arched_bar_graph(cur, id),
        ObjectType::PictureGraphic => read_as_picture_graphic(cur, id),
        ObjectType::NumberVariable => read_as_number_variable(cur, id),
        ObjectType::StringVariable => read_as_string_variable(cur, id),
        ObjectType::FontAttributes => read_as_font_attributes(cur, id),
        ObjectType::LineAttributes => read_as_line_attributes(cur, id),
        ObjectType::FillAttributes => read_as_fill_attributes(cur, id),
        ObjectType::InputAttributes => read_as_input_attributes(cur, id),
        ObjectType::ObjectPointer => read_as_object_pointer(cur, id),
        ObjectType::Macro => read_as_macro(cur, id),
        ObjectType::AuxiliaryFunctionType1 => read_as_auxiliary_function_type1(cur, id),
        ObjectType::AuxiliaryInputType1 => read_as_auxiliary_input_type1(cur, id),
        ObjectType::AuxiliaryFunctionType2 => read_as_auxiliary_function_type2(cur, id),
        ObjectType::AuxiliaryInputType2 => read_as_auxiliary_input_type2(cur, id),
        ObjectType::AuxiliaryControlDesignatorType2 => read_as_auxiliary_control_designator_type2(cur, id),
        ObjectType::WindowMask => read_as_window_mask(cur, id),
        ObjectType::KeyGroup => read_as_key_group(cur, id),
        ObjectType::GraphicsContext => read_as_graphics_context(cur, id),
        ObjectType::OutputList => read_as_output_list(cur, id),
        ObjectType::ExtendedInputAttributes => read_as_extended_input_attributes(cur, id),
        ObjectType::ColourMap => read_as_colour_map(cur, id),
        ObjectType::ObjectLabelReferenceList => read_as_object_label_reference_list(cur, id),
        ObjectType::ExternalObjectDefinition => read_as_external_object_definition(cur, id),
        ObjectType::ExternalReferenceName => read_as_external_reference_name(cur, id),
        ObjectType::ExternalObjectPointer => read_as_external_object_pointer(cur, id),
        ObjectType::Animation => read_as_animation(cur, id),
        ObjectType::ColourPalette => read_as_colour_palette(cur, id),
        ObjectType::GraphicData => read_as_graphic_data(cur, id),
        ObjectType::WorkingSetSpecialControls => read_as_working_set_special_controls(cur, id),
        ObjectType::ScalesGraphic => read_as_scales_graphic(cur, id),
    }
}

fn read_as_working_set(cur: &mut Cursor, id: ObjectId) -> (r: Result<Object, ParseError>)
    requires
        old(cur).wf(),
    ensures
        final(cur).wf(),
        final(cur).data == old(cur).data,
        match r {
            Ok(o) => o.wf() && o.id_spec() == id && o.kind() == ObjectType::WorkingSet && old(cur).rest() == o.put_body(final(cur).rest()),
            Err(e) => e == ParseError::DataEmpty && forall|o: Object, k: Seq<u8>|
                o.wf() && o.kind() == ObjectType::WorkingSet ==> #[trigger] o.put_body(k) != old(cur).rest(),
        },
{
    match WorkingSet::read_body(cur, id) {
        Ok(x) => Ok(Object::WorkingSet(x)),
        Err(e) => {
            proof {
                assert forall|o: Object, k: Seq<u8>|
                    o.wf() && o.kind() == ObjectType::WorkingSet implies #[trigger] o.put_body(k) != old(cur).rest() by {
                    if let Object::WorkingSet(x) = o {
                        assert(o.put_body(k) == x.put_body(k));
                    }
                }
            }
            Err(e)
        },
    }
}

fn read_as_data_mask(cur: &mut Cursor, id: ObjectId) -> (r: Result<Object, ParseError>)
    requires
        old(cur).wf(),
    ensures
        final(cur).wf(),
        final(cur).data == old(cur).data,
        match r {
            Ok(o) => o.wf() && o.id_spec() == id && o.kind() == ObjectType::DataMask && old(cur).rest() == o.put_body(final(cur).rest()),
            Err(e) => e == ParseError::DataEmpty && forall|o: Object, k: Seq<u8>|
                o.wf() && o.kind() == ObjectType::DataMask ==> #[trigger] o.put_body(k) != old(cur).rest(),
        },
{
    match DataMask::read_body(cur, id) {
        Ok(x) => Ok(Object::DataMask(x)),
        Err(e) => {
            proof {
                assert forall|o: Object, k: Seq<u8>|
                    o.wf() && o.kind() == ObjectType::DataMask implies #[trigger] o.put_body(k) != old(cur).rest() by {
                    if let Object::DataMask(x) = o {
                        assert(o.put_body(k) == x.put_body(k));
                    }
                }
            }
            Err(e)
        },
    }
}

fn read_as_alarm_mask(cur: &mut Cursor, id: ObjectId) -> (r: Result<Object, ParseError>)
    requires
        old(cur).wf(),
    ensures
        final(cur).wf(),
        final(cur).data == old(cur).data,
        match r {
            Ok(o) => o.wf() && o.id_spec() == id && o.kind() == ObjectType::AlarmMask && old(cur).rest() == o.put_body(final(cur).rest()),
            Err(e) => e == ParseError::DataEmpty && forall|o: Object, k: Seq<u8>|
                o.wf() && o.kind() == ObjectType::AlarmMask ==> #[trigger] o.put_body(k) != old(cur).rest(),
        },
{
    match AlarmMask::read_body(cur, id) {
        Ok(x) => Ok(Object::AlarmMask(x)),
        Err(e) => {
            proof {
                assert forall|o: Object, k: Seq<u8>|
                    o.wf() && o.kind() == ObjectType::AlarmMask implies #[trigger] o.put_body(k) != old(cur).rest() by {
                    if let Object::AlarmMask(x) = o {
                        assert(o.put_body(k) == x.put_body(k));
                    }
                }
            }
            Err(e)
        },
    }
}

fn read_as_container(cur: &mut Cursor, id: ObjectId) -> (r: Result<Object, ParseError>)
    requires
        old(cur).wf(),
    ensures
        final(cur).wf(),
        final(cur).data == old(cur).data,
        match r {
            Ok(o) => o.wf() && o.id_spec() == id && o.kind() == ObjectType::Container && old(cur).rest() == o.put_body(final(cur).rest()),
            Err(e) => e == ParseError::DataEmpty && forall|o: Object, k: Seq<u8>|
                o.wf() && o.kind() == ObjectType::Container ==> #[trigger] o.put_body(k) != old(cur).rest(),
        },
{
    match Container::read_body(cur, id) {
        Ok(x) => Ok(Object::Container(x)),
        Err(e) => {
            proof {
                assert forall|o: Object, k: Seq<u8>|
                    o.wf() && o.kind() == ObjectType::Container implies #[trigger] o.put_body(k) != old(cur).rest() by {
                    if let Object::Container(x) = o {
                        assert(o.put_body(k) == x.put_body(k));
                    }
                }
            }
            Err(e)
        },
    }
}

fn read_as_soft_key_mask(cur: &mut Cursor, id: ObjectId) -> (r: Result<Object, ParseError>)
    requires
        old(cur).wf(),
    ensures
        final(cur).wf(),
        final(cur).data == old(cur).data,
        match r {
            Ok(o) => o.wf() && o.id_spec() == id && o.kind() == ObjectType::SoftKeyMask && old(cur).rest() == o.put_body(final(cur).rest()),
            Err(e) => e == ParseError::DataEmpty && forall|o: Object, k: Seq<u8>|
                o.wf() && o.kind() == ObjectType::SoftKeyMask ==> #[trigger] o.put_body(k) != old(cur).rest(),
        },
{
    match SoftKeyMask::read_body(cur, id) {
        Ok(x) => Ok(Object::SoftKeyMask(x)),
        Err(e) => {
            proof {
                assert forall|o: Object, k: Seq<u8>|
                    o.wf() && o.kind() == ObjectType::SoftKeyMask implies #[trigger] o.put_body(k) != old(cur).rest() by {
                    if let Object::SoftKeyMask(x) = o {
                        assert(o.put_body(k) == x.put_body(k));
                    }
                }
            }
            Err(e)
        },
    }
}

fn read_as_key(cur: &mut Cursor, id: ObjectId) -> (r: Result<Object, ParseError>)
    requires
        old(cur).wf(),
    ensures
        final(cur).wf(),
        final(cur).data == old(cur).data,
        match r {
            Ok(o) => o.wf() && o.id_spec() == id && o.kind() == ObjectType::Key && old(cur).rest() == o.put_body(final(cur).rest()),
            Err(e) => e == ParseError::DataEmpty && forall|o: Object, k: Seq<u8>|
                o.wf() && o.kind() == ObjectType::Key ==> #[trigger] o.put_body(k) != old(cur).rest(),
        },
{
    match Key::read_body(cur, id) {
        Ok(x) => Ok(Object::Key(x)),
        Err(e) => {
            proof {
                assert forall|o: Object, k: Seq<u8>|
                    o.wf() && o.kind() == ObjectType::Key implies #[trigger] o.put_body(k) != old(cur).rest() by {
                    if let Object::Key(x) = o {
                        assert(o.put_body(k) == x.put_body(k));
                    }
                }
            }
            Err(e)
        },
    }
}

fn read_as_button(cur: &mut Cursor, id: ObjectId) -> (r: Result<Object, ParseError>)
    requires
        old(cur).wf(),
    ensures
        final(cur).wf(),
        final(cur).data == old(cur).data,
        match r {
            Ok(o) => o.wf() && o.id_spec() == id && o.kind() == ObjectType::Button && old(cur).rest() == o.put_body(final(cur).rest()),
            Err(e) => e == ParseError::DataEmpty && forall|o: Object, k: Seq<u8>|
                o.wf() && o.kind() == ObjectType::Button ==> #[trigger] o.put_body(k) != old(cur).rest(),
        },
{
    match Button::read_body(cur, id) {
        Ok(x) => Ok(Object::Button(x)),
        Err(e) => {
            proof {
                assert forall|o: Object, k: Seq<u8>|
                    o.wf() && o.kind() == ObjectType::Button implies #[trigger] o.put_body(k) != old(cur).rest() by {
                    if let Object::Button(x) = o {
                        assert(o.put_body(k) == x.put_body(k));
                    }
                }
            }
            Err(e)
        },
    }
}

fn read_as_input_boolean(cur: &mut Cursor, id: ObjectId) -> (r: Result<Object, ParseError>)
    requires
        old(cur).wf(),
    ensures
        final(cur).wf(),
        final(cur).data == old(cur).data,
        match r {
            Ok(o) => o.wf() && o.id_spec() == id && o.kind() == ObjectType::InputBoolean && old(cur).rest() == o.put_body(final(cur).rest()),
            Err(e) => e == ParseError::DataEmpty && forall|o: Object, k: Seq<u8>|
                o.wf() && o.kind() == ObjectType::InputBoolean ==> #[trigger] o.put_body(k) != old(cur).rest(),
        },
{
    match InputBoolean::read_body(cur, id) {
        Ok(x) => Ok(Object::InputBoolean(x)),
        Err(e) => {
            proof {
                assert forall|o: Object, k: Seq<u8>|
                    o.wf() && o.kind() == ObjectType::InputBoolean implies #[trigger] o.put_body(k) != old(cur).rest() by {
                    if let Object::InputBoolean(x) = o {
                        assert(o.put_body(k) == x.put_body(k));
                    }
                }
            }
            Err(e)
        },
    }
}

fn read_as_input_string(cur: &mut Cursor, id: ObjectId) -> (r: Result<Object, ParseError>)
    requires
        old(cur).wf(),
    ensures
        final(cur).wf(),
        final(cur).data == old(cur).data,
        match r {
            Ok(o) => o.wf() && o.id_spec() == id && o.kind() == ObjectType::InputString && old(cur).rest() == o.put_body(final(cur).rest()),
            Err(e) => e == ParseError::DataEmpty && forall|o: Object, k: Seq<u8>|
                o.wf() && o.kind() == ObjectType::InputString ==> #[trigger] o.put_body(k) != old(cur).rest(),
        },
{
    match InputString::read_body(cur, id) {
        Ok(x) => Ok(Object::InputString(x)),
        Err(e) => {
            proof {
                assert forall|o: Object, k: Seq<u8>|
                    o.wf() && o.kind() == ObjectType::InputString implies #[trigger] o.put_body(k) != old(cur).rest() by {
                    if let Object::InputString(x) = o {
                        assert(o.put_body(k) == x.put_body(k));
                    }
                }
            }
            Err(e)
        },
    }
}

fn read_as_input_number(cur: &mut Cursor, id: ObjectId) -> (r: Result<Object, ParseError>)
    requires
        old(cur).wf(),
    ensures
        final(cur).wf(),
        final(cur).data == old(cur).data,
        match r {
            Ok(o) => o.wf() && o.id_spec() == id && o.kind() == ObjectType::InputNumber && old(cur).rest() == o.put_body(final(cur).rest()),
            Err(e) => e == ParseError::DataEmpty && forall|o: Object, k: Seq<u8>|
                o.wf() && o.kind() == ObjectType::InputNumber ==> #[trigger] o.put_body(k) != old(cur).rest(),
        },
{
    match InputNumber::read_body(cur, id) {
        Ok(x) => Ok(Object::InputNumber(x)),
        Err(e) => {
            proof {
                assert forall|o: Object, k: Seq<u8>|
                    o.wf() && o.kind() == ObjectType::InputNumber implies #[trigger] o.put_body(k) != old(cur).rest() by {
                    if let Object::InputNumber(x) = o {
                        assert(o.put_body(k) == x.put_body(k));
                    }
                }
            }
            Err(e)
        },
    }
}

fn read_as_input_list(cur: &mut Cursor, id: ObjectId) -> (r: Result<Object, ParseError>)
    requires
        old(cur).wf(),
    ensures
        final(cur).wf(),
        final(cur).data == old(cur).data,
        match r {
            Ok(o) => o.wf() && o.id_spec() == id && o.kind() == ObjectType::InputList && old(cur).rest() == o.put_body(final(cur).rest()),
            Err(e) => e == ParseError::DataEmpty && forall|o: Object, k: Seq<u8>|
                o.wf() && o.kind() == ObjectType::InputList ==> #[trigger] o.put_body(k) != old(cur).rest(),
        },
{
    match InputList::read_body(cur, id) {
        Ok(x) => Ok(Object::InputList(x)),
        Err(e) => {
            proof {
                assert forall|o: Object, k: Seq<u8>|
                    o.wf() && o.kind() == ObjectType::InputList implies #[trigger] o.put_body(k) != old(cur).rest() by {
                    if let Object::InputList(x) = o {
                        assert(o.put_body(k) == x.put_body(k));
                    }
                }
            }
            Err(e)
        },
    }
}

fn read_as_output_string(cur: &mut Cursor, id: ObjectId) -> (r: Result<Object, ParseError>)
    requires
        old(cur).wf(),
    ensures
        final(cur).wf(),
        final(cur).data == old(cur).data,
        match r {
            Ok(o) => o.wf() && o.id_spec() == id && o.kind() == ObjectType::OutputString && old(cur).rest() == o.put_body(final(cur).rest()),
            Err(e) => e == ParseError::DataEmpty && forall|o: Object, k: Seq<u8>|
                o.wf() && o.kind() == ObjectType::OutputString ==> #[trigger] o.put_body(k) != old(cur).rest(),
        },
{
    match OutputString::read_body(cur, id) {
        Ok(x) => Ok(Object::OutputString(x)),
        Err(e) => {
            proof {
                assert forall|o: Object, k: Seq<u8>|
                    o.wf() && o.kind() == ObjectType::OutputString implies #[trigger] o.put_body(k) != old(cur).rest() by {
                    if let Object::OutputString(x) = o {
                        assert(o.put_body(k) == x.put_body(k));
                    }
                }
            }
            Err(e)
        },
    }
}

fn read_as_output_number(cur: &mut Cursor, id: ObjectId) -> (r: Result<Object, ParseError>)
    requires
        old(cur).wf(),
    ensures
        final(cur).wf(),
        final(cur).data == old(cur).data,
        match r {
            Ok(o) => o.wf() && o.id_spec() == id && o.kind() == ObjectType::OutputNumber && old(cur).rest() == o.put_body(final(cur).rest()),
            Err(e) => e == ParseError::DataEmpty && forall|o: Object, k: Seq<u8>|
                o.wf() && o.kind() == ObjectType::OutputNumber ==> #[trigger] o.put_body(k) != old(cur).rest(),
        },
{
    match OutputNumber::read_body(cur, id) {
        Ok(x) => Ok(Object::OutputNumber(x)),
        Err(e) => {
            proof {
                assert forall|o: Object, k: Seq<u8>|
                    o.wf() && o.kind() == ObjectType::OutputNumber implies #[trigger] o.put_body(k) != old(cur).rest() by {
                    if let Object::OutputNumber(x) = o {
                        assert(o.put_body(k) == x.put_body(k));
                    }
                }
            }
            Err(e)
        },
    }
}

fn read_as_output_line(cur: &mut Cursor, id: ObjectId) -> (r: Result<Object, ParseError>)
    requires
        old(cur).wf(),
    ensures
        final(cur).wf(),
        final(cur).data == old(cur).data,
        match r {
            Ok(o) => o.wf() && o.id_spec() == id && o.kind() == ObjectType::OutputLine && old(cur).rest() == o.put_body(final(cur).rest()),
            Err(e) => e == ParseError::DataEmpty && forall|o: Object, k: Seq<u8>|
                o.wf() && o.kind() == ObjectType::OutputLine ==> #[trigger] o.put_body(k) != old(cur).rest(),
        },
{
    match OutputLine::read_body(cur, id) {
        Ok(x) => Ok(Object::OutputLine(x)),
        Err(e) => {
            proof {
                assert forall|o: Object, k: Seq<u8>|
                    o.wf() && o.kind() == ObjectType::OutputLine implies #[trigger] o.put_body(k) != old(cur).rest() by {
                    if let Object::OutputLine(x) = o {
                        assert(o.put_body(k) == x.put_body(k));
                    }
                }
            }
            Err(e)
        },
    }
}

fn read_as_output_rectangle(cur: &mut Cursor, id: ObjectId) -> (r: Result<Object, ParseError>)
    requires
        old(cur).wf(),
    ensures
        final(cur).wf(),
        final(cur).data == old(cur).data,
        match r {
            Ok(o) => o.wf() && o.id_spec() == id && o.kind() == ObjectType::OutputRectangle && old(cur).rest() == o.put_body(final(cur).rest()),
            Err(e) => e == ParseError::DataEmpty && forall|o: Object, k: Seq<u8>|
                o.wf() && o.kind() == ObjectType::OutputRectangle ==> #[trigger] o.put_body(k) != old(cur).rest(),
        },
{
    match OutputRectangle::read_body(cur, id) {
        Ok(x) => Ok(Object::OutputRectangle(x)),
        Err(e) => {
            proof {
                assert forall|o: Object, k: Seq<u8>|
                    o.wf() && o.kind() == ObjectType::OutputRectangle implies #[trigger] o.put_body(k) != old(cur).rest() by {
                    if let Object::OutputRectangle(x) = o {
                        assert(o.put_body(k) == x.put_body(k));
                    }
                }
            }
            Err(e)
        },
    }
}

fn read_as_output_ellipse(cur: &mut Cursor, id: ObjectId) -> (r: Result<Object, ParseError>)
    requires
        old(cur).wf(),
    ensures
        final(cur).wf(),
        final(cur).data == old(cur).data,
        match r {
            Ok(o) => o.wf() && o.id_spec() == id && o.kind() == ObjectType::OutputEllipse && old(cur).rest() == o.put_body(final(cur).rest()),
            Err(e) => e == ParseError::DataEmpty && forall|o: Object, k: Seq<u8>|
                o.wf() && o.kind() == ObjectType::OutputEllipse ==> #[trigger] o.put_body(k) != old(cur).rest(),
        },
{
    match OutputEllipse::read_body(cur, id) {
        Ok(x) => Ok(Object::OutputEllipse(x)),
        Err(e) => {
            proof {
                assert forall|o: Object, k: Seq<u8>|
                    o.wf() && o.kind() == ObjectType::OutputEllipse implies #[trigger] o.put_body(k) != old(cur).rest() by {
                    if let Object::OutputEllipse(x) = o {
                        assert(o.put_body(k) == x.put_body(k));
                    }
                }
            }
            Err(e)
        },
    }
}

fn read_as_output_polygon(cur: &mut Cursor, id: ObjectId) -> (r: Result<Object, ParseError>)
    requires
        old(cur).wf(),
    ensures
        final(cur).wf(),
        final(cur).data == old(cur).data,
        match r {
            Ok(o) => o.wf() && o.id_spec() == id && o.kind() == ObjectType::OutputPolygon && old(cur).rest() == o.put_body(final(cur).rest()),
            Err(e) => e == ParseError::DataEmpty && forall|o: Object, k: Seq<u8>|
                o.wf() && o.kind() == ObjectType::OutputPolygon ==> #[trigger] o.put_body(k) != old(cur).rest(),
        },
{
    match OutputPolygon::read_body(cur, id) {
        Ok(x) => Ok(Object::OutputPolygon(x)),
        Err(e) => {
            proof {
                assert forall|o: Object, k: Seq<u8>|
                    o.wf() && o.kind() == ObjectType::OutputPolygon implies #[trigger] o.put_body(k) != old(cur).rest() by {
                    if let Object::OutputPolygon(x) = o {
                        assert(o.put_body(k) == x.put_body(k));
                    }
                }
            }
            Err(e)
        },
    }
}

fn read_as_output_meter(cur: &mut Cursor, id: ObjectId) -> (r: Result<Object, ParseError>)
    requires
        old(cur).wf(),
    ensures
        final(cur).wf(),
        final(cur).data == old(cur).data,
        match r {
            Ok(o) => o.wf() && o.id_spec() == id && o.kind() == ObjectType::OutputMeter && old(cur).rest() == o.put_body(final(cur).rest()),
            Err(e) => e == ParseError::DataEmpty && forall|o: Object, k: Seq<u8>|
                o.wf() && o.kind() == ObjectType::OutputMeter ==> #[trigger] o.put_body(k) != old(cur).rest(),
        },
{
    match OutputMeter::read_body(cur, id) {
        Ok(x) => Ok(Object::OutputMeter(x)),
        Err(e) => {
            proof {
                assert forall|o: Object, k: Seq<u8>|
                    o.wf() && o.kind() == ObjectType::OutputMeter implies #[trigger] o.put_body(k) != old(cur).rest() by {
                    if let Object::OutputMeter(x) = o {
                        assert(o.put_body(k) == x.put_body(k));
                    }
                }
            }
            Err(e)
        },
    }
}

fn read_as_output_linear_bar_graph(cur: &mut Cursor, id: ObjectId) -> (r: Result<Object, ParseError>)
    requires
        old(cur).wf(),
    ensures
        final(cur).wf(),
        final(cur).data == old(cur).data,
        match r {
            Ok(o) => o.wf() && o.id_spec() == id && o.kind() == ObjectType::OutputLinearBarGraph && old(cur).rest() == o.put_body(final(cur).rest()),
            Err(e) => e == ParseError::DataEmpty && forall|o: Object, k: Seq<u8>|
                o.wf() && o.kind() == ObjectType::OutputLinearBarGraph ==> #[trigger] o.put_body(k) != old(cur).rest(),
        },
{
    match OutputLinearBarGraph::read_body(cur, id) {
        Ok(x) => Ok(Object::OutputLinearBarGraph(x)),
        Err(e) => {
            proof {
                assert forall|o: Object, k: Seq<u8>|
                    o.wf() && o.kind() == ObjectType::OutputLinearBarGraph implies #[trigger] o.put_body(k) != old(cur).rest() by {
                    if let Object::OutputLinearBarGraph(x) = o {
                        assert(o.put_body(k) == x.put_body(k));
                    }
                }
            }
            Err(e)
        },
    }
}

fn read_as_output_arched_bar_graph(cur: &mut Cursor, id: ObjectId) -> (r: Result<Object, ParseError>)
    requires
        old(cur).wf(),
    ensures
        final(cur).wf(),
        final(cur).data == old(cur).data,
        match r {
            Ok(o) => o.wf() && o.id_spec() == id && o.kind() == ObjectType::OutputArchedBarGraph && old(cur).rest() == o.put_body(final(cur).rest()),
            Err(e) => e == ParseError::DataEmpty && forall|o: Object, k: Seq<u8>|
                o.wf() && o.kind() == ObjectType::OutputArchedBarGraph ==> #[trigger] o.put_body(k) != old(cur).rest(),
        },
{
    match OutputArchedBarGraph::read_body(cur, id) {
        Ok(x) => Ok(Object::OutputArchedBarGraph(x)),
        Err(e) => {
            proof {
                assert forall|o: Object, k: Seq<u8>|
                    o.wf() && o.kind() == ObjectType::OutputArchedBarGraph implies #[trigger] o.put_body(k) != old(cur).rest() by {
                    if let Object::OutputArchedBarGraph(x) = o {
                        assert(o.put_body(k) == x.put_body(k));
                    }
                }
            }
            Err(e)
        },
    }
}

fn read_as_picture_graphic(cur: &mut Cursor, id: ObjectId) -> (r: Result<Object, ParseError>)
    requires
        old(cur).wf(),
    ensures
        final(cur).wf(),
        final(cur).data == old(cur).data,
        match r {
            Ok(o) => o.wf() && o.id_spec() == id && o.kind() == ObjectType::PictureGraphic && old(cur).rest() == o.put_body(final(cur).rest()),
            Err(e) => e == ParseError::DataEmpty && forall|o: Object, k: Seq<u8>|
                o.wf() && o.kind() == ObjectType::PictureGraphic ==> #[trigger] o.put_body(k) != old(cur).rest(),
        },
{
    match PictureGraphic::read_body(cur, id) {
        Ok(x) => Ok(Object::PictureGraphic(x)),
        Err(e) => {
            proof {
                assert forall|o: Object, k: Seq<u8>|
                    o.wf() && o.kind() == ObjectType::PictureGraphic implies #[trigger] o.put_body(k) != old(cur).rest() by {
                    if let Object::PictureGraphic(x) = o {
                        assert(o.put_body(k) == x.put_body(k));
                    }
                }
            }
            Err(e)
        },
    }
}

fn read_as_number_variable(cur: &mut Cursor, id: ObjectId) -> (r: Result<Object, ParseError>)
    requires
        old(cur).wf(),
    ensures
        final(cur).wf(),
        final(cur).data == old(cur).data,
        match r {
            Ok(o) => o.wf() && o.id_spec() == id && o.kind() == ObjectType::NumberVariable && old(cur).rest() == o.put_body(final(cur).rest()),
            Err(e) => e == ParseError::DataEmpty && forall|o: Object, k: Seq<u8>|
                o.wf() && o.kind() == ObjectType::NumberVariable ==> #[trigger] o.put_body(k) != old(cur).rest(),
        },
{
    match NumberVariable::read_body(cur, id) {
        Ok(x) => Ok(Object::NumberVariable(x)),
        Err(e) => {
            proof {
                assert forall|o: Object, k: Seq<u8>|
                    o.wf() && o.kind() == ObjectType::NumberVariable implies #[trigger] o.put_body(k) != old(cur).rest() by {
                    if let Object::NumberVariable(x) = o {
                        assert(o.put_body(k) == x.put_body(k));
                    }
                }
            }
            Err(e)
        },
    }
}

fn read_as_string_variable(cur: &mut Cursor, id: ObjectId) -> (r: Result<Object, ParseError>)
    requires
        old(cur).wf(),
    ensures
        final(cur).wf(),
        final(cur).data == old(cur).data,
        match r {
            Ok(o) => o.wf() && o.id_spec() == id && o.kind() == ObjectType::StringVariable && old(cur).rest() == o.put_body(final(cur).rest()),
            Err(e) => e == ParseError::DataEmpty && forall|o: Object, k: Seq<u8>|
                o.wf() && o.kind() == ObjectType::StringVariable ==> #[trigger] o.put_body(k) != old(cur).rest(),
        },
{
    match StringVariable::read_body(cur, id) {
        Ok(x) => Ok(Object::StringVariable(x)),
        Err(e) => {
            proof {
                assert forall|o: Object, k: Seq<u8>|
                    o.wf() && o.kind() == ObjectType::StringVariable implies #[trigger] o.put_body(k) != old(cur).rest() by {
                    if let Object::StringVariable(x) = o {
                        assert(o.put_body(k) == x.put_body(k));
                    }
                }
            }
            Err(e)
        },
    }
}

fn read_as_font_attributes(cur: &mut Cursor, id: ObjectId) -> (r: Result<Object, ParseError>)
    requires
        old(cur).wf(),
    ensures
        final(cur).wf(),
        final(cur).data == old(cur).data,
        match r {
            Ok(o) => o.wf() && o.id_spec() == id && o.kind() == ObjectType::FontAttributes && old(cur).rest() == o.put_body(final(cur).rest()),
            Err(e) => e == ParseError::DataEmpty && forall|o: Object, k: Seq<u8>|
                o.wf() && o.kind() == ObjectType::FontAttributes ==> #[trigger] o.put_body(k) != old(cur).rest(),
        },
{
    match FontAttributes::read_body(cur, id) {
        Ok(x) => Ok(Object::FontAttributes(x)),
        Err(e) => {
            proof {
                assert forall|o: Object, k: Seq<u8>|
                    o.wf() && o.kind() == ObjectType::FontAttributes implies #[trigger] o.put_body(k) != old(cur).rest() by {
                    if let Object::FontAttributes(x) = o {
                        assert(o.put_body(k) == x.put_body(k));
                    }
                }
            }
            Err(e)
        },
    }
}

fn read_as_line_attributes(cur: &mut Cursor, id: ObjectId) -> (r: Result<Object, ParseError>)
    requires
        old(cur).wf(),
    ensures
        final(cur).wf(),
        final(cur).data == old(cur).data,
        match r {
            Ok(o) => o.wf() && o.id_spec() == id && o.kind() == ObjectType::LineAttributes && old(cur).rest() == o.put_body(final(cur).rest()),
            Err(e) => e == ParseError::DataEmpty && forall|o: Object, k: Seq<u8>|
                o.wf() && o.kind() == ObjectType::LineAttributes ==> #[trigger] o.put_body(k) != old(cur).rest(),
        },
{
    match LineAttributes::read_body(cur, id) {
        Ok(x) => Ok(Object::LineAttributes(x)),
        Err(e) => {
            proof {
                assert forall|o: Object, k: Seq<u8>|
                    o.wf() && o.kind() == ObjectType::LineAttributes implies #[trigger] o.put_body(k) != old(cur).rest() by {
                    if let Object::LineAttributes(x) = o {
                        assert(o.put_body(k) == x.put_body(k));
                    }
                }
            }
            Err(e)
        },
    }
}

fn read_as_fill_attributes(cur: &mut Cursor, id: ObjectId) -> (r: Result<Object, ParseError>)
    requires
        old(cur).wf(),
    ensures
        final(cur).wf(),
        final(cur).data == old(cur).data,
        match r {
            Ok(o) => o.wf() && o.id_spec() == id && o.kind() == ObjectType::FillAttributes && old(cur).rest() == o.put_body(final(cur).rest()),
            Err(e) => e == ParseError::DataEmpty && forall|o: Object, k: Seq<u8>|
                o.wf() && o.kind() == ObjectType::FillAttributes ==> #[trigger] o.put_body(k) != old(cur).rest(),
        },
{
    match FillAttributes::read_body(cur, id) {
        Ok(x) => Ok(Object::FillAttributes(x)),
        Err(e) => {
            proof {
                assert forall|o: Object, k: Seq<u8>|
                    o.wf() && o.kind() == ObjectType::FillAttributes implies #[trigger] o.put_body(k) != old(cur).rest() by {
                    if let Object::FillAttributes(x) = o {
                        assert(o.put_body(k) == x.put_body(k));
                    }
                }
            }
            Err(e)
        },
    }
}

fn read_as_input_attributes(cur: &mut Cursor, id: ObjectId) -> (r: Result<Object, ParseError>)
    requires
        old(cur).wf(),
    ensures
        final(cur).wf(),
        final(cur).data == old(cur).data,
        match r {
            Ok(o) => o.wf() && o.id_spec() == id && o.kind() == ObjectType::InputAttributes && old(cur).rest() == o.put_body(final(cur).rest()),
            Err(e) => e == ParseError::DataEmpty && forall|o: Object, k: Seq<u8>|
                o.wf() && o.kind() == ObjectType::InputAttributes ==> #[trigger] o.put_body(k) != old(cur).rest(),
        },
{
    match InputAttributes::read_body(cur, id) {
        Ok(x) => Ok(Object::InputAttributes(x)),
        Err(e) => {
            proof {
                assert forall|o: Object, k: Seq<u8>|
                    o.wf() && o.kind() == ObjectType::InputAttributes implies #[trigger] o.put_body(k) != old(cur).rest() by {
                    if let Object::InputAttributes(x) = o {
                        assert(o.put_body(k) == x.put_body(k));
                    }
                }
            }
            Err(e)
        },
    }
}

fn read_as_object_pointer(cur: &mut Cursor, id: ObjectId) -> (r: Result<Object, ParseError>)
    requires
        old(cur).wf(),
    ensures
        final(cur).wf(),
        final(cur).data == old(cur).data,
        match r {
            Ok(o) => o.wf() && o.id_spec() == id && o.kind() == ObjectType::ObjectPointer && old(cur).rest() == o.put_body(final(cur).rest()),
            Err(e) => e == ParseError::DataEmpty && forall|o: Object, k: Seq<u8>|
                o.wf() && o.kind() == ObjectType::ObjectPointer ==> #[trigger] o.put_body(k) != old(cur).rest(),
        },
{
    match ObjectPointer::read_body(cur, id) {
        Ok(x) => Ok(Object::ObjectPointer(x)),
        Err(e) => {
            proof {
                assert forall|o: Object, k: Seq<u8>|
                    o.wf() && o.kind() == ObjectType::ObjectPointer implies #[trigger] o.put_body(k) != old(cur).rest() by {
                    if let Object::ObjectPointer(x) = o {
                        assert(o.put_body(k) == x.put_body(k));
                    }
                }
            }
            Err(e)
        },
    }
}

fn read_as_macro(cur: &mut Cursor, id: ObjectId) -> (r: Result<Object, ParseError>)
    requires
        old(cur).wf(),
    ensures
        final(cur).wf(),
        final(cur).data == old(cur).data,
        match r {
            Ok(o) => o.wf() && o.id_spec() == id && o.kind() == ObjectType::Macro && old(cur).rest() == o.put_body(final(cur).rest()),
            Err(e) => e == ParseError::DataEmpty && forall|o: Object, k: Seq<u8>|
                o.wf() && o.kind() == ObjectType::Macro ==> #[trigger] o.put_body(k) != old(cur).rest(),
        },
{
    match Macro::read_body(cur, id) {
        Ok(x) => Ok(Object::Macro(x)),
        Err(e) => {
            proof {
                assert forall|o: Object, k: Seq<u8>|
                    o.wf() && o.kind() == ObjectType::Macro implies #[trigger] o.put_body(k) != old(cur).rest() by {
                    if let Object::Macro(x) = o {
                        assert(o.put_body(k) == x.put_body(k));
                    }
                }
            }
            Err(e)
        },
    }
}

fn read_as_auxiliary_function_type1(cur: &mut Cursor, id: ObjectId) -> (r: Result<Object, ParseError>)
    requires
        old(cur).wf(),
    ensures
        final(cur).wf(),
        final(cur).data == old(cur).data,
        match r {
            Ok(o) => o.wf() && o.id_spec() == id && o.kind() == ObjectType::AuxiliaryFunctionType1 && old(cur).rest() == o.put_body(final(cur).rest()),
            Err(e) => e == ParseError::DataEmpty && forall|o: Object, k: Seq<u8>|
                o.wf() && o.kind() == ObjectType::AuxiliaryFunctionType1 ==> #[trigger] o.put_body(k) != old(cur).rest(),
        },
{
    match AuxiliaryFunctionType1::read_body(cur, id) {
        Ok(x) => Ok(Object::AuxiliaryFunctionType1(x)),
        Err(e) => {
            proof {
                assert forall|o: Object, k: Seq<u8>|
                    o.wf() && o.kind() == ObjectType::AuxiliaryFunctionType1 implies #[trigger] o.put_body(k) != old(cur).rest() by {
                    if let Object::AuxiliaryFunctionType1(x) = o {
                        assert(o.put_body(k) == x.put_body(k));
                    }
                }
            }
            Err(e)
        },
    }
}

fn read_as_auxiliary_input_type1(cur: &mut Cursor, id: ObjectId) -> (r: Result<Object, ParseError>)
    requires
        old(cur).wf(),
    ensures
        final(cur).wf(),
        final(cur).data == old(cur).data,
        match r {
            Ok(o) => o.wf() && o.id_spec() == id && o.kind() == ObjectType::AuxiliaryInputType1 && old(cur).rest() == o.put_body(final(cur).rest()),
            Err(e) => e == ParseError::DataEmpty && forall|o: Object, k: Seq<u8>|
                o.wf() && o.kind() == ObjectType::AuxiliaryInputType1 ==> #[trigger] o.put_body(k) != old(cur).rest(),
        },
{
    match AuxiliaryInputType1::read_body(cur, id) {
        Ok(x) => Ok(Object::AuxiliaryInputType1(x)),
        Err(e) => {
            proof {
                assert forall|o: Object, k: Seq<u8>|
                    o.wf() && o.kind() == ObjectType::AuxiliaryInputType1 implies #[trigger] o.put_body(k) != old(cur).rest() by {
                    if let Object::AuxiliaryInputType1(x) = o {
                        assert(o.put_body(k) == x.put_body(k));
                    }
                }
            }
            Err(e)
        },
    }
}

fn read_as_auxiliary_function_type2(cur: &mut Cursor, id: ObjectId) -> (r: Result<Object, ParseError>)
    requires
        old(cur).wf(),
    ensures
        final(cur).wf(),
        final(cur).data == old(cur).data,
        match r {
            Ok(o) => o.wf() && o.id_spec() == id && o.kind() == ObjectType::AuxiliaryFunctionType2 && old(cur).rest() == o.put_body(final(cur).rest()),
            Err(e) => e == ParseError::DataEmpty && forall|o: Object, k: Seq<u8>|
                o.wf() && o.kind() == ObjectType::AuxiliaryFunctionType2 ==> #[trigger] o.put_body(k) != old(cur).rest(),
        },
{
    match AuxiliaryFunctionType2::read_body(cur, id) {
        Ok(x) => Ok(Object::AuxiliaryFunctionType2(x)),
        Err(e) => {
            proof {
                assert forall|o: Object, k: Seq<u8>|
                    o.wf() && o.kind() == ObjectType::AuxiliaryFunctionType2 implies #[trigger] o.put_body(k) != old(cur).rest() by {
                    if let Object::AuxiliaryFunctionType2(x) = o {
                        assert(o.put_body(k) == x.put_body(k));
                    }
                }
            }
            Err(e)
        },
    }
}

fn read_as_auxiliary_input_type2(cur: &mut Cursor, id: ObjectId) -> (r: Result<Object, ParseError>)
    requires
        old(cur).wf(),
    ensures
        final(cur).wf(),
        final(cur).data == old(cur).data,
        match r {
            Ok(o) => o.wf() && o.id_spec() == id && o.kind() == ObjectType::AuxiliaryInputType2 && old(cur).rest() == o.put_body(final(cur).rest()),
            Err(e) => e == ParseError::DataEmpty && forall|o: Object, k: Seq<u8>|
                o.wf() && o.kind() == ObjectType::AuxiliaryInputType2 ==> #[trigger] o.put_body(k) != old(cur).rest(),
        },
{
    match AuxiliaryInputType2::read_body(cur, id) {
        Ok(x) => Ok(Object::AuxiliaryInputType2(x)),
        Err(e) => {
            proof {
                assert forall|o: Object, k: Seq<u8>|
                    o.wf() && o.kind() == ObjectType::AuxiliaryInputType2 implies #[trigger] o.put_body(k) != old(cur).rest() by {
                    if let Object::AuxiliaryInputType2(x) = o {
                        assert(o.put_body(k) == x.put_body(k));
                    }
                }
            }
            Err(e)
        },
    }
}

fn read_as_auxiliary_control_designator_type2(cur: &mut Cursor, id: ObjectId) -> (r: Result<Object, ParseError>)
    requires
        old(cur).wf(),
    ensures
        final(cur).wf(),
        final(cur).data == old(cur).data,
        match r {
            Ok(o) => o.wf() && o.id_spec() == id && o.kind() == ObjectType::AuxiliaryControlDesignatorType2 && old(cur).rest() == o.put_body(final(cur).rest()),
            Err(e) => e == ParseError::DataEmpty && forall|o: Object, k: Seq<u8>|
                o.wf() && o.kind() == ObjectType::AuxiliaryControlDesignatorType2 ==> #[trigger] o.put_body(k) != old(cur).rest(),
        },
{
    match AuxiliaryControlDesignatorType2::read_body(cur, id) {
        Ok(x) => Ok(Object::AuxiliaryControlDesignatorType2(x)),
        Err(e) => {
            proof {
                assert forall|o: Object, k: Seq<u8>|
                    o.wf() && o.kind() == ObjectType::AuxiliaryControlDesignatorType2 implies #[trigger] o.put_body(k) != old(cur).rest() by {
                    if let Object::AuxiliaryControlDesignatorType2(x) = o {
                        assert(o.put_body(k) == x.put_body(k));
                    }
                }
            }
            Err(e)
        },
    }
}

fn read_as_window_mask(cur: &mut Cursor, id: ObjectId) -> (r: Result<Object, ParseError>)
    requires
        old(cur).wf(),
    ensures
        final(cur).wf(),
        final(cur).data == old(cur).data,
        match r {
            Ok(o) => o.wf() && o.id_spec() == id && o.kind() == ObjectType::WindowMask && old(cur).rest() == o.put_body(final(cur).rest()),
            Err(e) => e == ParseError::DataEmpty && forall|o: Object, k: Seq<u8>|
                o.wf() && o.kind() == ObjectType::WindowMask ==> #[trigger] o.put_body(k) != old(cur).rest(),
        },
{
    match WindowMask::read_body(cur, id) {
        Ok(x) => Ok(Object::WindowMask(x)),
        Err(e) => {
            proof {
                assert forall|o: Object, k: Seq<u8>|
                    o.wf() && o.kind() == ObjectType::WindowMask implies #[trigger] o.put_body(k) != old(cur).rest() by {
                    if let Object::WindowMask(x) = o {
                        assert(o.put_body(k) == x.put_body(k));
                    }
                }
            }
            Err(e)
        },
    }
}

fn read_as_key_group(cur: &mut Cursor, id: ObjectId) -> (r: Result<Object, ParseError>)
    requires
        old(cur).wf(),
    ensures
        final(cur).wf(),
        final(cur).data == old(cur).data,
        match r {
            Ok(o) => o.wf() && o.id_spec() == id && o.kind() == ObjectType::KeyGroup && old(cur).rest() == o.put_body(final(cur).rest()),
            Err(e) => e == ParseError::DataEmpty && forall|o: Object, k: Seq<u8>|
                o.wf() && o.kind() == ObjectType::KeyGroup ==> #[trigger] o.put_body(k) != old(cur).rest(),
        },
{
    match KeyGroup::read_body(cur, id) {
        Ok(x) => Ok(Object::KeyGroup(x)),
        Err(e) => {
            proof {
                assert forall|o: Object, k: Seq<u8>|
                    o.wf() && o.kind() == ObjectType::KeyGroup implies #[trigger] o.put_body(k) != old(cur).rest() by {
                    if let Object::KeyGroup(x) = o {
                        assert(o.put_body(k) == x.put_body(k));
                    }
                }
            }
            Err(e)
        },
    }
}

fn read_as_graphics_context(cur: &mut Cursor, id: ObjectId) -> (r: Result<Object, ParseError>)
    requires
        old(cur).wf(),
    ensures
        final(cur).wf(),
        final(cur).data == old(cur).data,
        match r {
            Ok(o) => o.wf() && o.id_spec() == id && o.kind() == ObjectType::GraphicsContext && old(cur).rest() == o.put_body(final(cur).rest()),
            Err(e) => e == ParseError::DataEmpty && forall|o: Object, k: Seq<u8>|
                o.wf() && o.kind() == ObjectType::GraphicsContext ==> #[trigger] o.put_body(k) != old(cur).rest(),
        },
{
    match GraphicsContext::read_body(cur, id) {
        Ok(x) => Ok(Object::GraphicsContext(x)),
        Err(e) => {
            proof {
                assert forall|o: Object, k: Seq<u8>|
                    o.wf() && o.kind() == ObjectType::GraphicsContext implies #[trigger] o.put_body(k) != old(cur).rest() by {
                    if let Object::GraphicsContext(x) = o {
                        assert(o.put_body(k) == x.put_body(k));
                    }
                }
            }
            Err(e)
        },
    }
}

fn read_as_output_list(cur: &mut Cursor, id: ObjectId) -> (r: Result<Object, ParseError>)
    requires
        old(cur).wf(),
    ensures
        final(cur).wf(),
        final(cur).data == old(cur).data,
        match r {
            Ok(o) => o.wf() && o.id_spec() == id && o.kind() == ObjectType::OutputList && old(cur).rest() == o.put_body(final(cur).rest()),
            Err(e) => e == ParseError::DataEmpty && forall|o: Object, k: Seq<u8>|
                o.wf() && o.kind() == ObjectType::OutputList ==> #[trigger] o.put_body(k) != old(cur).rest(),
        },
{
    match OutputList::read_body(cur, id) {
        Ok(x) => Ok(Object::OutputList(x)),
        Err(e) => {
            proof {
                assert forall|o: Object, k: Seq<u8>|
                    o.wf() && o.kind() == ObjectType::OutputList implies #[trigger] o.put_body(k) != old(cur).rest() by {
                    if let Object::OutputList(x) = o {
                        assert(o.put_body(k) == x.put_body(k));
                    }
                }
            }
            Err(e)
        },
    }
}

fn read_as_extended_input_attributes(cur: &mut Cursor, id: ObjectId) -> (r: Result<Object, ParseError>)
    requires
        old(cur).wf(),
    ensures
        final(cur).wf(),
        final(cur).data == old(cur).data,
        match r {
            Ok(o) => o.wf() && o.id_spec() == id && o.kind() == ObjectType::ExtendedInputAttributes && old(cur).rest() == o.put_body(final(cur).rest()),
            Err(e) => e == ParseError::DataEmpty && forall|o: Object, k: Seq<u8>|
                o.wf() && o.kind() == ObjectType::ExtendedInputAttributes ==> #[trigger] o.put_body(k) != old(cur).rest(),
        },
{
    match ExtendedInputAttributes::read_body(cur, id) {
        Ok(x) => Ok(Object::ExtendedInputAttributes(x)),
        Err(e) => {
            proof {
                assert forall|o: Object, k: Seq<u8>|
                    o.wf() && o.kind() == ObjectType::ExtendedInputAttributes implies #[trigger] o.put_body(k) != old(cur).rest() by {
                    if let Object::ExtendedInputAttributes(x) = o {
                        assert(o.put_body(k) == x.put_body(k));
                    }
                }
            }
            Err(e)
        },
    }
}

fn read_as_colour_map(cur: &mut Cursor, id: ObjectId) -> (r: Result<Object, ParseError>)
    requires
        old(cur).wf(),
    ensures
        final(cur).wf(),
        final(cur).data == old(cur).data,
        match r {
            Ok(o) => o.wf() && o.id_spec() == id && o.kind() == ObjectType::ColourMap && old(cur).rest() == o.put_body(final(cur).rest()),
            Err(e) => e == ParseError::DataEmpty && forall|o: Object, k: Seq<u8>|
                o.wf() && o.kind() == ObjectType::ColourMap ==> #[trigger] o.put_body(k) != old(cur).rest(),
        },
{
    match ColourMap::read_body(cur, id) {
        Ok(x) => Ok(Object::ColourMap(x)),
        Err(e) => {
            proof {
                assert forall|o: Object, k: Seq<u8>|
                    o.wf() && o.kind() == ObjectType::ColourMap implies #[trigger] o.put_body(k) != old(cur).rest() by {
                    if let Object::ColourMap(x) = o {
                        assert(o.put_body(k) == x.put_body(k));
                    }
                }
            }
            Err(e)
        },
    }
}

fn read_as_object_label_reference_list(cur: &mut Cursor, id: ObjectId) -> (r: Result<Object, ParseError>)
    requires
        old(cur).wf(),
    ensures
        final(cur).wf(),
        final(cur).data == old(cur).data,
        match r {
            Ok(o) => o.wf() && o.id_spec() == id && o.kind() == ObjectType::ObjectLabelReferenceList && old(cur).rest() == o.put_body(final(cur).rest()),
            Err(e) => e == ParseError::DataEmpty && forall|o: Object, k: Seq<u8>|
                o.wf() && o.kind() == ObjectType::ObjectLabelReferenceList ==> #[trigger] o.put_body(k) != old(cur).rest(),
        },
{
    match ObjectLabelReferenceList::read_body(cur, id) {
        Ok(x) => Ok(Object::ObjectLabelReferenceList(x)),
        Err(e) => {
            proof {
                assert forall|o: Object, k: Seq<u8>|
                    o.wf() && o.kind() == ObjectType::ObjectLabelReferenceList implies #[trigger] o.put_body(k) != old(cur).rest() by {
                    if let Object::ObjectLabelReferenceList(x) = o {
                        assert(o.put_body(k) == x.put_body(k));
                    }
                }
            }
            Err(e)
        },
    }
}

fn read_as_external_object_definition(cur: &mut Cursor, id: ObjectId) -> (r: Result<Object, ParseError>)
    requires
        old(cur).wf(),
    ensures
        final(cur).wf(),
        final(cur).data == old(cur).data,
        match r {
            Ok(o) => o.wf() && o.id_spec() == id && o.kind() == ObjectType::ExternalObjectDefinition && old(cur).rest() == o.put_body(final(cur).rest()),
            Err(e) => e == ParseError::DataEmpty && forall|o: Object, k: Seq<u8>|
                o.wf() && o.kind() == ObjectType::ExternalObjectDefinition ==> #[trigger] o.put_body(k) != old(cur).rest(),
        },
{
    match ExternalObjectDefinition::read_body(cur, id) {
        Ok(x) => Ok(Object::ExternalObjectDefinition(x)),
        Err(e) => {
            proof {
                assert forall|o: Object, k: Seq<u8>|
                    o.wf() && o.kind() == ObjectType::ExternalObjectDefinition implies #[trigger] o.put_body(k) != old(cur).rest() by {
                    if let Object::ExternalObjectDefinition(x) = o {
                        assert(o.put_body(k) == x.put_body(k));
                    }
                }
            }
            Err(e)
        },
    }
}

fn read_as_external_reference_name(cur: &mut Cursor, id: ObjectId) -> (r: Result<Object, ParseError>)
    requires
        old(cur).wf(),
    ensures
        final(cur).wf(),
        final(cur).data == old(cur).data,
        match r {
            Ok(o) => o.wf() && o.id_spec() == id && o.kind() == ObjectType::ExternalReferenceName && old(cur).rest() == o.put_body(final(cur).rest()),
            Err(e) => e == ParseError::DataEmpty && forall|o: Object, k: Seq<u8>|
                o.wf() && o.kind() == ObjectType::ExternalReferenceName ==> #[trigger] o.put_body(k) != old(cur).rest(),
        },
{
    match ExternalReferenceName::read_body(cur, id) {
        Ok(x) => Ok(Object::ExternalReferenceName(x)),
        Err(e) => {
            proof {
                assert forall|o: Object, k: Seq<u8>|
                    o.wf() && o.kind() == ObjectType::ExternalReferenceName implies #[trigger] o.put_body(k) != old(cur).rest() by {
                    if let Object::ExternalReferenceName(x) = o {
                        assert(o.put_body(k) == x.put_body(k));
                    }
                }
            }
            Err(e)
        },
    }
}

fn read_as_external_object_pointer(cur: &mut Cursor, id: ObjectId) -> (r: Result<Object, ParseError>)
    requires
        old(cur).wf(),
    ensures
        final(cur).wf(),
        final(cur).data == old(cur).data,
        match r {
            Ok(o) => o.wf() && o.id_spec() == id && o.kind() == ObjectType::ExternalObjectPointer && old(cur).rest() == o.put_body(final(cur).rest()),
            Err(e) => e == ParseError::DataEmpty && forall|o: Object, k: Seq<u8>|
                o.wf() && o.kind() == ObjectType::ExternalObjectPointer ==> #[trigger] o.put_body(k) != old(cur).rest(),
        },
{
    match ExternalObjectPointer::read_body(cur, id) {
        Ok(x) => Ok(Object::ExternalObjectPointer(x)),
        Err(e) => {
            proof {
                assert forall|o: Object, k: Seq<u8>|
                    o.wf() && o.kind() == ObjectType::ExternalObjectPointer implies #[trigger] o.put_body(k) != old(cur).rest() by {
                    if let Object::ExternalObjectPointer(x) = o {
                        assert(o.put_body(k) == x.put_body(k));
                    }
                }
            }
            Err(e)
        },
    }
}

fn read_as_animation(cur: &mut Cursor, id: ObjectId) -> (r: Result<Object, ParseError>)
    requires
        old(cur).wf(),
    ensures
        final(cur).wf(),
        final(cur).data == old(cur).data,
        match r {
            Ok(o) => o.wf() && o.id_spec() == id && o.kind() == ObjectType::Animation && old(cur).rest() == o.put_body(final(cur).rest()),
            Err(e) => e == ParseError::DataEmpty && forall|o: Object, k: Seq<u8>|
                o.wf() && o.kind() == ObjectType::Animation ==> #[trigger] o.put_body(k) != old(cur).rest(),
        },
{
    match Animation::read_body(cur, id) {
        Ok(x) => Ok(Object::Animation(x)),
        Err(e) => {
            proof {
                assert forall|o: Object, k: Seq<u8>|
                    o.wf() && o.kind() == ObjectType::Animation implies #[trigger] o.put_body(k) != old(cur).rest() by {
                    if let Object::Animation(x) = o {
                        assert(o.put_body(k) == x.put_body(k));
                    }
                }
            }
            Err(e)
        },
    }
}

fn read_as_colour_palette(cur: &mut Cursor, id: ObjectId) -> (r: Result<Object, ParseError>)
    requires
        old(cur).wf(),
    ensures
        final(cur).wf(),
        final(cur).data == old(cur).data,
        match r {
            Ok(o) => o.wf() && o.id_spec() == id && o.kind() == ObjectType::ColourPalette && old(cur).rest() == o.put_body(final(cur).rest()),
            Err(e) => e == ParseError::DataEmpty && forall|o: Object, k: Seq<u8>|
                o.wf() && o.kind() == ObjectType::ColourPalette ==> #[trigger] o.put_body(k) != old(cur).rest(),
        },
{
    match ColourPalette::read_body(cur, id) {
        Ok(x) => Ok(Object::ColourPalette(x)),
        Err(e) => {
            proof {
                assert forall|o: Object, k: Seq<u8>|
                    o.wf() && o.kind() == ObjectType::ColourPalette implies #[trigger] o.put_body(k) != old(cur).rest() by {
                    if let Object::ColourPalette(x) = o {
                        assert(o.put_body(k) == x.put_body(k));
                    }
                }
            }
            Err(e)
        },
    }
}

fn read_as_graphic_data(cur: &mut Cursor, id: ObjectId) -> (r: Result<Object, ParseError>)
    requires
        old(cur).wf(),
    ensures
        final(cur).wf(),
        final(cur).data == old(cur).data,
        match r {
            Ok(o) => o.wf() && o.id_spec() == id && o.kind() == ObjectType::GraphicData && old(cur).rest() == o.put_body(final(cur).rest()),
            Err(e) => e == ParseError::DataEmpty && forall|o: Object, k: Seq<u8>|
                o.wf() && o.kind() == ObjectType::GraphicData ==> #[trigger] o.put_body(k) != old(cur).rest(),
        },
{
    match GraphicData::read_body(cur, id) {
        Ok(x) => Ok(Object::GraphicData(x)),
        Err(e) => {
            proof {
                assert forall|o: Object, k: Seq<u8>|
                    o.wf() && o.kind() == ObjectType::GraphicData implies #[trigger] o.put_body(k) != old(cur).rest() by {
                    if let Object::GraphicData(x) = o {
                        assert(o.put_body(k) == x.put_body(k));
                    }
                }
            }
            Err(e)
        },
    }
}

fn read_as_working_set_special_controls(cur: &mut Cursor, id: ObjectId) -> (r: Result<Object, ParseError>)
    requires
        old(cur).wf(),
    ensures
        final(cur).wf(),
        final(cur).data == old(cur).data,
        match r {
            Ok(o) => o.wf() && o.id_spec() == id && o.kind() == ObjectType::WorkingSetSpecialControls && old(cur).rest() == o.put_body(final(cur).rest()),
            Err(e) => e == ParseError::DataEmpty && forall|o: Object, k: Seq<u8>|
                o.wf() && o.kind() == ObjectType::WorkingSetSpecialControls ==> #[trigger] o.put_body(k) != old(cur).rest(),
        },
{
    match WorkingSetSpecialControls::read_body(cur, id) {
        Ok(x) => Ok(Object::WorkingSetSpecialControls(x)),
        Err(e) => {
            proof {
                assert forall|o: Object, k: Seq<u8>|
                    o.wf() && o.kind() == ObjectType::WorkingSetSpecialControls implies #[trigger] o.put_body(k) != old(cur).rest() by {
                    if let Object::WorkingSetSpecialControls(x) = o {
                        assert(o.put_body(k) == x.put_body(k));
                    }
                }
            }
            Err(e)
        },
    }
}

fn read_as_scales_graphic(cur: &mut Cursor, id: ObjectId) -> (r: Result<Object, ParseError>)
    requires
        old(cur).wf(),
    ensures
        final(cur).wf(),
        final(cur).data == old(cur).data,
        match r {
            Ok(o) => o.wf() && o.id_spec() == id && o.kind() == ObjectType::ScalesGraphic && old(cur).rest() == o.put_body(final(cur).rest()),
            Err(e) => e == ParseError::DataEmpty && forall|o: Object, k: Seq<u8>|
                o.wf() && o.kind() == ObjectType::ScalesGraphic ==> #[trigger] o.put_body(k) != old(cur).rest(),
        },
{
    match ScalesGraphic::read_body(cur, id) {
        Ok(x) => Ok(Object::ScalesGraphic(x)),
        Err(e) => {
            proof {
                assert forall|o: Object, k: Seq<u8>|
                    o.wf() && o.kind() == ObjectType::ScalesGraphic implies #[trigger] o.put_body(k) != old(cur).rest() by {
                    if let Object::ScalesGraphic(x) = o {
                        assert(o.put_body(k) == x.put_body(k));
                    }
                }
            }
            Err(e)
        },
    }
}

} // verus!
