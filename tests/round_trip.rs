use ag_iso_stack::{
    decode_object, encode_object, Colour, LanguageCode, MacroRef, Name, Object, ObjectId,
    ObjectLabel, ObjectRef, ObjectType, Point, WorkingSet, DataMask, AlarmMask, Container,
    SoftKeyMask, Key, Button, InputBoolean, InputString, InputNumber, InputList, OutputString,
    OutputNumber, OutputLine, OutputRectangle, OutputEllipse, OutputPolygon, OutputMeter,
    OutputLinearBarGraph, OutputArchedBarGraph, PictureGraphic, NumberVariable, StringVariable,
    FontAttributes, LineAttributes, FillAttributes, InputAttributes, ObjectPointer, Macro,
    AuxiliaryFunctionType1, AuxiliaryInputType1, AuxiliaryFunctionType2, AuxiliaryInputType2,
    AuxiliaryControlDesignatorType2, WindowMask, KeyGroup, GraphicsContext, OutputList,
    ExtendedInputAttributes, ColourMap, ObjectLabelReferenceList, ExternalObjectDefinition,
    ExternalReferenceName, ExternalObjectPointer, Animation, ColourPalette, GraphicData,
    WorkingSetSpecialControls, ScalesGraphic,
};

fn check_round_trip(o: Object, tag: u8) {
    let bytes = encode_object(&o).unwrap();
    assert_eq!(bytes[2], tag);
    assert_eq!(u16::from(o.id()), u16::from_le_bytes([bytes[0], bytes[1]]));
    let (decoded, end) = decode_object(&bytes, 0).unwrap();
    assert_eq!(end, bytes.len());
    assert_eq!(decoded, o);
    assert_eq!(encode_object(&decoded).unwrap(), bytes);
    // The record decodes the same way when more bytes follow it.
    let mut longer = bytes.clone();
    longer.extend_from_slice(&[0xAB, 0xCD]);
    let (again, end2) = decode_object(&longer, 0).unwrap();
    assert_eq!(end2, bytes.len());
    assert_eq!(again, o);
    // No proper prefix decodes.
    for j in 0..bytes.len() {
        assert_eq!(decode_object(&bytes[..j], 0).unwrap_err(), ag_iso_stack::ParseError::DataEmpty);
    }
}

#[test]
fn round_trip_working_set() {
    let o = Object::WorkingSet(WorkingSet { id: ObjectId(1000), background_colour: 37, selectable: false, active_mask: ObjectId(771), object_refs: vec![ObjectRef { id: ObjectId(1315), offset: Point { x: -5, y: 15 } }, ObjectRef { id: ObjectId(1578), offset: Point { x: -6, y: 18 } }, ObjectRef { id: ObjectId(1841), offset: Point { x: -7, y: 21 } }], macro_refs: vec![MacroRef { macro_id: 9, event_id: 63 }, MacroRef { macro_id: 10, event_id: 70 }, MacroRef { macro_id: 11, event_id: 77 }], language_codes: vec![LanguageCode(b'd', b'e'), LanguageCode(b'e', b'n'), LanguageCode(b'd', b'e')] });
    assert_eq!(o.object_type(), ObjectType::WorkingSet);
    check_round_trip(o, 0);
}

#[test]
fn round_trip_data_mask() {
    let o = Object::DataMask(DataMask { id: ObjectId(1001), background_colour: 153, soft_key_mask: ObjectId(26214), object_refs: vec![ObjectRef { id: ObjectId(27352), offset: Point { x: -104, y: 312 } }, ObjectRef { id: ObjectId(27615), offset: Point { x: -105, y: 315 } }, ObjectRef { id: ObjectId(27878), offset: Point { x: -106, y: 318 } }], macro_refs: vec![MacroRef { macro_id: 108, event_id: 244 }, MacroRef { macro_id: 109, event_id: 251 }, MacroRef { macro_id: 110, event_id: 2 }] });
    assert_eq!(o.object_type(), ObjectType::DataMask);
    check_round_trip(o, 1);
}

#[test]
fn round_trip_alarm_mask() {
    let o = Object::AlarmMask(AlarmMask { id: ObjectId(1002), background_colour: 13, soft_key_mask: ObjectId(51914), priority: 87, acoustic_signal: 124, object_refs: vec![ObjectRef { id: ObjectId(54178), offset: Point { x: -206, y: 618 } }, ObjectRef { id: ObjectId(54441), offset: Point { x: -207, y: 621 } }, ObjectRef { id: ObjectId(54704), offset: Point { x: -208, y: 624 } }], macro_refs: vec![MacroRef { macro_id: 210, event_id: 190 }, MacroRef { macro_id: 211, event_id: 197 }, MacroRef { macro_id: 212, event_id: 204 }] });
    assert_eq!(o.object_type(), ObjectType::AlarmMask);
    check_round_trip(o, 2);
}

#[test]
fn round_trip_container() {
    let o = Object::Container(Container { id: ObjectId(1003), width: 54151, height: 58250, hidden: true, object_refs: vec![ObjectRef { id: ObjectId(14680), offset: Point { x: -305, y: 915 } }, ObjectRef { id: ObjectId(14943), offset: Point { x: -306, y: 918 } }, ObjectRef { id: ObjectId(15206), offset: Point { x: -307, y: 921 } }], macro_refs: vec![MacroRef { macro_id: 53, event_id: 115 }, MacroRef { macro_id: 54, event_id: 122 }, MacroRef { macro_id: 55, event_id: 129 }] });
    assert_eq!(o.object_type(), ObjectType::Container);
    check_round_trip(o, 3);
}

#[test]
fn round_trip_soft_key_mask() {
    let o = Object::SoftKeyMask(SoftKeyMask { id: ObjectId(1004), background_colour: 245, objects: vec![ObjectId(40454), ObjectId(40717), ObjectId(40980)], macro_refs: vec![MacroRef { macro_id: 151, event_id: 33 }, MacroRef { macro_id: 152, event_id: 40 }, MacroRef { macro_id: 153, event_id: 47 }] });
    assert_eq!(o.object_type(), ObjectType::SoftKeyMask);
    check_round_trip(o, 4);
}

#[test]
fn round_trip_key() {
    let o = Object::Key(Key { id: ObjectId(1005), background_colour: 105, key_code: 142, object_refs: vec![ObjectRef { id: ObjectId(1482), offset: Point { x: -504, y: 1512 } }, ObjectRef { id: ObjectId(1745), offset: Point { x: -505, y: 1515 } }, ObjectRef { id: ObjectId(2008), offset: Point { x: -506, y: 1518 } }], macro_refs: vec![MacroRef { macro_id: 252, event_id: 228 }, MacroRef { macro_id: 253, event_id: 235 }, MacroRef { macro_id: 254, event_id: 242 }] });
    assert_eq!(o.object_type(), ObjectType::Key);
    check_round_trip(o, 5);
}

#[test]
fn round_trip_button() {
    let o = Object::Button(Button { id: ObjectId(1006), width: 38667, height: 42766, background_colour: 39, border_colour: 76, key_code: 113, options: 150, object_refs: vec![ObjectRef { id: ObjectId(28834), offset: Point { x: -608, y: 1824 } }, ObjectRef { id: ObjectId(29097), offset: Point { x: -609, y: 1827 } }, ObjectRef { id: ObjectId(29360), offset: Point { x: -610, y: 1830 } }], macro_refs: vec![MacroRef { macro_id: 100, event_id: 188 }, MacroRef { macro_id: 101, event_id: 195 }, MacroRef { macro_id: 102, event_id: 202 }] });
    assert_eq!(o.object_type(), ObjectType::Button);
    check_round_trip(o, 6);
}

#[test]
fn round_trip_input_boolean() {
    let o = Object::InputBoolean(InputBoolean { id: ObjectId(1007), background_colour: 81, width: 59450, foreground_colour: ObjectId(49601), variable_reference: ObjectId(49858), value: true, enabled: false, macro_refs: vec![MacroRef { macro_id: 196, event_id: 92 }, MacroRef { macro_id: 197, event_id: 99 }, MacroRef { macro_id: 198, event_id: 106 }] });
    assert_eq!(o.object_type(), ObjectType::InputBoolean);
    check_round_trip(o, 7);
}

#[test]
fn round_trip_input_string() {
    let o = Object::InputString(InputString { id: ObjectId(1008), width: 6499, height: 10598, background_colour: 15, font_attributes: ObjectId(10023), input_attributes: ObjectId(10280), options: 126, variable_reference: ObjectId(10794), justification: 200, value: vec![194, 223, 252], enabled: true, macro_refs: vec![MacroRef { macro_id: 47, event_id: 73 }, MacroRef { macro_id: 48, event_id: 80 }, MacroRef { macro_id: 49, event_id: 87 }] });
    assert_eq!(o.object_type(), ObjectType::InputString);
    check_round_trip(o, 8);
}

#[test]
fn round_trip_input_number() {
    let o = Object::InputNumber(InputNumber { id: ObjectId(1009), width: 23183, height: 27282, background_colour: 131, font_attributes: ObjectId(35723), options: 205, variable_reference: ObjectId(36237), value: 2391549467, min_value: 751017932, max_value: 3405453693, offset: -7206291, scale: 124390623, nr_of_decimals: 208, format: true, justification: 26, options2: 63, macro_refs: vec![MacroRef { macro_id: 149, event_id: 19 }, MacroRef { macro_id: 150, event_id: 26 }, MacroRef { macro_id: 151, event_id: 33 }] });
    assert_eq!(o.object_type(), ObjectType::InputNumber);
    check_round_trip(o, 9);
}

#[test]
fn round_trip_input_list() {
    let o = Object::InputList(InputList { id: ObjectId(1010), width: 39867, height: 43966, variable_reference: ObjectId(61166), value: 28, options: 65, list_items: vec![ObjectId(2701), ObjectId(2964), ObjectId(3227)], macro_refs: vec![MacroRef { macro_id: 243, event_id: 165 }, MacroRef { macro_id: 244, event_id: 172 }, MacroRef { macro_id: 245, event_id: 179 }] });
    assert_eq!(o.object_type(), ObjectType::InputList);
    check_round_trip(o, 10);
}

#[test]
fn round_trip_output_string() {
    let o = Object::OutputString(OutputString { id: ObjectId(1011), width: 56551, height: 60650, background_colour: 107, font_attributes: ObjectId(21588), options: 181, variable_reference: ObjectId(22102), justification: 255, value: vec![161, 190, 219], macro_refs: vec![MacroRef { macro_id: 89, event_id: 111 }, MacroRef { macro_id: 90, event_id: 118 }, MacroRef { macro_id: 91, event_id: 125 }] });
    assert_eq!(o.object_type(), ObjectType::OutputString);
    check_round_trip(o, 11);
}

#[test]
fn round_trip_output_number() {
    let o = Object::OutputNumber(OutputNumber { id: ObjectId(1012), width: 7699, height: 11798, background_colour: 223, font_attributes: ObjectId(47288), options: 41, variable_reference: ObjectId(47802), value: 4153328007, offset: -9566153, scale: 872264937, nr_of_decimals: 226, format: true, justification: 44, macro_refs: vec![MacroRef { macro_id: 190, event_id: 50 }, MacroRef { macro_id: 191, event_id: 57 }, MacroRef { macro_id: 192, event_id: 64 }] });
    assert_eq!(o.object_type(), ObjectType::OutputNumber);
    check_round_trip(o, 12);
}

#[test]
fn round_trip_output_line() {
    let o = Object::OutputLine(OutputLine { id: ObjectId(1013), line_attributes: ObjectId(6682), width: 28482, height: 32581, line_direction: 120, macro_refs: vec![MacroRef { macro_id: 26, event_id: 182 }, MacroRef { macro_id: 27, event_id: 189 }, MacroRef { macro_id: 28, event_id: 196 }] });
    assert_eq!(o.object_type(), ObjectType::OutputLine);
    check_round_trip(o, 13);
}

#[test]
fn round_trip_output_rectangle() {
    let o = Object::OutputRectangle(OutputRectangle { id: ObjectId(1014), line_attributes: ObjectId(32382), width: 45166, height: 49265, line_suppression: 236, fill_attributes: ObjectId(33410), macro_refs: vec![MacroRef { macro_id: 127, event_id: 121 }, MacroRef { macro_id: 128, event_id: 128 }, MacroRef { macro_id: 129, event_id: 135 }] });
    assert_eq!(o.object_type(), ObjectType::OutputRectangle);
    check_round_trip(o, 14);
}

#[test]
fn round_trip_output_ellipse() {
    let o = Object::OutputEllipse(OutputEllipse { id: ObjectId(1015), line_attributes: ObjectId(58082), width: 61850, height: 413, ellipse_type: 96, start_angle: 133, end_angle: 170, fill_attributes: ObjectId(59624), macro_refs: vec![MacroRef { macro_id: 229, event_id: 67 }, MacroRef { macro_id: 230, event_id: 74 }, MacroRef { macro_id: 231, event_id: 81 }] });
    assert_eq!(o.object_type(), ObjectType::OutputEllipse);
    check_round_trip(o, 15);
}

#[test]
fn round_trip_output_polygon() {
    let o = Object::OutputPolygon(OutputPolygon { id: ObjectId(1016), width: 8899, height: 12998, line_attributes: ObjectId(18761), fill_attributes: ObjectId(19018), polygon_type: 249, points: vec![Point { x: 17677, y: 20891 }, Point { x: 17688, y: 20904 }, Point { x: 17699, y: 20917 }], macro_refs: vec![MacroRef { macro_id: 75, event_id: 13 }, MacroRef { macro_id: 76, event_id: 20 }, MacroRef { macro_id: 77, event_id: 27 }] });
    assert_eq!(o.object_type(), ObjectType::OutputPolygon);
    check_round_trip(o, 16);
}

#[test]
fn round_trip_output_meter() {
    let o = Object::OutputMeter(OutputMeter { id: ObjectId(1017), width: 25583, needle_colour: 254, border_colour: 35, arc_and_tick_colour: 72, options: 109, nr_of_ticks: 146, start_angle: 183, end_angle: 220, min_value: 58375, max_value: 62474, variable_reference: ObjectId(46517), value: 5136, macro_refs: vec![MacroRef { macro_id: 178, event_id: 222 }, MacroRef { macro_id: 179, event_id: 229 }, MacroRef { macro_id: 180, event_id: 236 }] });
    assert_eq!(o.object_type(), ObjectType::OutputMeter);
    check_round_trip(o, 17);
}

#[test]
fn round_trip_output_linear_bar_graph() {
    let o = Object::OutputLinearBarGraph(OutputLinearBarGraph { id: ObjectId(1018), width: 42267, height: 46366, colour: 151, target_line_colour: 188, options: 225, nr_of_ticks: 6, min_value: 1325, max_value: 5424, variable_reference: ObjectId(6168), value: 13622, target_value_variable_reference: ObjectId(6682), target_value: 21820, macro_refs: vec![MacroRef { macro_id: 22, event_id: 154 }, MacroRef { macro_id: 23, event_id: 161 }, MacroRef { macro_id: 24, event_id: 168 }] });
    assert_eq!(o.object_type(), ObjectType::OutputLinearBarGraph);
    check_round_trip(o, 18);
}

#[test]
fn round_trip_output_arched_bar_graph() {
    let o = Object::OutputArchedBarGraph(OutputArchedBarGraph { id: ObjectId(1019), width: 58951, height: 63050, colour: 11, target_line_colour: 48, options: 85, start_angle: 122, end_angle: 159, bar_graph_width: 22108, min_value: 26207, max_value: 30306, variable_reference: ObjectId(32382), value: 38504, target_value_variable_reference: ObjectId(32896), target_value: 46702, macro_refs: vec![MacroRef { macro_id: 124, event_id: 100 }, MacroRef { macro_id: 125, event_id: 107 }, MacroRef { macro_id: 126, event_id: 114 }] });
    assert_eq!(o.object_type(), ObjectType::OutputArchedBarGraph);
    check_round_trip(o, 19);
}

#[test]
fn round_trip_picture_graphic() {
    let o = Object::PictureGraphic(PictureGraphic { id: ObjectId(1020), width: 10099, actual_width: 14198, actual_height: 18297, format: 164, options: 201, transparency_colour: 238, data: vec![120, 149, 178], macro_refs: vec![MacroRef { macro_id: 220, event_id: 4 }, MacroRef { macro_id: 221, event_id: 11 }, MacroRef { macro_id: 222, event_id: 18 }] });
    assert_eq!(o.object_type(), ObjectType::PictureGraphic);
    check_round_trip(o, 20);
}

#[test]
fn round_trip_number_variable() {
    let o = Object::NumberVariable(NumberVariable { id: ObjectId(1021), value: 2101983653 });
    assert_eq!(o.object_type(), ObjectType::NumberVariable);
    check_round_trip(o, 21);
}

#[test]
fn round_trip_string_variable() {
    let o = Object::StringVariable(StringVariable { id: ObjectId(1022), value: vec![114, 143, 172] });
    assert_eq!(o.object_type(), ObjectType::StringVariable);
    check_round_trip(o, 22);
}

#[test]
fn round_trip_font_attributes() {
    let o = Object::FontAttributes(FontAttributes { id: ObjectId(1023), font_colour: 145, font_size: 182, font_type: 219, font_style: 0, macro_refs: vec![MacroRef { macro_id: 2, event_id: 14 }, MacroRef { macro_id: 3, event_id: 21 }, MacroRef { macro_id: 4, event_id: 28 }] });
    assert_eq!(o.object_type(), ObjectType::FontAttributes);
    check_round_trip(o, 23);
}

#[test]
fn round_trip_line_attributes() {
    let o = Object::LineAttributes(LineAttributes { id: ObjectId(1024), line_colour: 5, line_width: 42, line_art: 19497, macro_refs: vec![MacroRef { macro_id: 101, event_id: 195 }, MacroRef { macro_id: 102, event_id: 202 }, MacroRef { macro_id: 103, event_id: 209 }] });
    assert_eq!(o.object_type(), ObjectType::LineAttributes);
    check_round_trip(o, 24);
}

#[test]
fn round_trip_fill_attributes() {
    let o = Object::FillAttributes(FillAttributes { id: ObjectId(1025), fill_type: 121, fill_colour: 158, fill_pattern: ObjectId(53456), macro_refs: vec![MacroRef { macro_id: 201, event_id: 127 }, MacroRef { macro_id: 202, event_id: 134 }, MacroRef { macro_id: 203, event_id: 141 }] });
    assert_eq!(o.object_type(), ObjectType::FillAttributes);
    check_round_trip(o, 25);
}

#[test]
fn round_trip_input_attributes() {
    let o = Object::InputAttributes(InputAttributes { id: ObjectId(1026), validation_type: 237, validation_string: vec![223, 252, 25], macro_refs: vec![MacroRef { macro_id: 47, event_id: 73 }, MacroRef { macro_id: 48, event_id: 80 }, MacroRef { macro_id: 49, event_id: 87 }] });
    assert_eq!(o.object_type(), ObjectType::InputAttributes);
    check_round_trip(o, 26);
}

#[test]
fn round_trip_object_pointer() {
    let o = Object::ObjectPointer(ObjectPointer { id: ObjectId(1027), value: ObjectId(38807) });
    assert_eq!(o.object_type(), ObjectType::ObjectPointer);
    check_round_trip(o, 27);
}

#[test]
fn round_trip_macro() {
    let o = Object::Macro(Macro { id: ObjectId(1028), commands: vec![106, 135, 164] });
    assert_eq!(o.object_type(), ObjectType::Macro);
    check_round_trip(o, 28);
}

#[test]
fn round_trip_auxiliary_function_type1() {
    let o = Object::AuxiliaryFunctionType1(AuxiliaryFunctionType1 { id: ObjectId(1029), background_colour: 73, function_type: 110, object_refs: vec![ObjectRef { id: ObjectId(42867), offset: Point { x: -2904, y: 8712 } }, ObjectRef { id: ObjectId(43130), offset: Point { x: -2905, y: 8715 } }, ObjectRef { id: ObjectId(43393), offset: Point { x: -2906, y: 8718 } }] });
    assert_eq!(o.object_type(), ObjectType::AuxiliaryFunctionType1);
    check_round_trip(o, 29);
}

#[test]
fn round_trip_auxiliary_input_type1() {
    let o = Object::AuxiliaryInputType1(AuxiliaryInputType1 { id: ObjectId(1030), background_colour: 189, function_type: 226, input_id: 7, object_refs: vec![ObjectRef { id: ObjectId(3895), offset: Point { x: -3005, y: 9015 } }, ObjectRef { id: ObjectId(4158), offset: Point { x: -3006, y: 9018 } }, ObjectRef { id: ObjectId(4421), offset: Point { x: -3007, y: 9021 } }] });
    assert_eq!(o.object_type(), ObjectType::AuxiliaryInputType1);
    check_round_trip(o, 30);
}

#[test]
fn round_trip_auxiliary_function_type2() {
    let o = Object::AuxiliaryFunctionType2(AuxiliaryFunctionType2 { id: ObjectId(1031), background_colour: 49, function_attributes: 86, object_refs: vec![ObjectRef { id: ObjectId(29932), offset: Point { x: -3104, y: 9312 } }, ObjectRef { id: ObjectId(30195), offset: Point { x: -3105, y: 9315 } }, ObjectRef { id: ObjectId(30458), offset: Point { x: -3106, y: 9318 } }] });
    assert_eq!(o.object_type(), ObjectType::AuxiliaryFunctionType2);
    check_round_trip(o, 31);
}

#[test]
fn round_trip_auxiliary_input_type2() {
    let o = Object::AuxiliaryInputType2(AuxiliaryInputType2 { id: ObjectId(1032), background_colour: 165, function_attributes: 202, object_refs: vec![ObjectRef { id: ObjectId(56232), offset: Point { x: -3204, y: 9612 } }, ObjectRef { id: ObjectId(56495), offset: Point { x: -3205, y: 9615 } }, ObjectRef { id: ObjectId(56758), offset: Point { x: -3206, y: 9618 } }] });
    assert_eq!(o.object_type(), ObjectType::AuxiliaryInputType2);
    check_round_trip(o, 32);
}

#[test]
fn round_trip_auxiliary_control_designator_type2() {
    let o = Object::AuxiliaryControlDesignatorType2(AuxiliaryControlDesignatorType2 { id: ObjectId(1033), pointer_type: 25, auxiliary_object_id: ObjectId(62194) });
    assert_eq!(o.object_type(), ObjectType::AuxiliaryControlDesignatorType2);
    check_round_trip(o, 33);
}

#[test]
fn round_trip_window_mask() {
    let o = Object::WindowMask(WindowMask { id: ObjectId(1034), width: 141, height: 178, window_type: 215, background_colour: 252, options: 33, name: ObjectId(23387), window_title: ObjectId(23644), window_icon: ObjectId(23901), objects: vec![ObjectId(44875), ObjectId(45138), ObjectId(45401)], object_refs: vec![ObjectRef { id: ObjectId(45927), offset: Point { x: -3414, y: 10242 } }, ObjectRef { id: ObjectId(46190), offset: Point { x: -3415, y: 10245 } }, ObjectRef { id: ObjectId(46453), offset: Point { x: -3416, y: 10248 } }], macro_refs: vec![MacroRef { macro_id: 90, event_id: 118 }, MacroRef { macro_id: 91, event_id: 125 }, MacroRef { macro_id: 92, event_id: 132 }] });
    assert_eq!(o.object_type(), ObjectType::WindowMask);
    check_round_trip(o, 34);
}

#[test]
fn round_trip_key_group() {
    let o = Object::KeyGroup(KeyGroup { id: ObjectId(1035), options: 1, name: ObjectId(48059), key_group_icon: ObjectId(48316), objects: vec![ObjectId(4325), ObjectId(4588), ObjectId(4851)], macro_refs: vec![MacroRef { macro_id: 181, event_id: 243 }, MacroRef { macro_id: 182, event_id: 250 }, MacroRef { macro_id: 183, event_id: 1 }] });
    assert_eq!(o.object_type(), ObjectType::KeyGroup);
    check_round_trip(o, 35);
}

#[test]
fn round_trip_graphics_context() {
    let o = Object::GraphicsContext(GraphicsContext { id: ObjectId(1036), viewport_width: 14899, viewport_height: 18998, viewport_x: -21994, viewport_y: -22125, canvas_width: 31295, canvas_height: 35394, viewport_zoom: 1067687143, graphics_cursor_x: -22649, graphics_cursor_y: -22780, foreground_colour: 194, background_colour: 231, font_attributes_object: ObjectId(10794), line_attributes_object: ObjectId(11051), fill_attributes_object: ObjectId(11308), format: 123, options: 160, transparency_colour: 197 });
    assert_eq!(o.object_type(), ObjectType::GraphicsContext);
    check_round_trip(o, 36);
}

#[test]
fn round_trip_output_list() {
    let o = Object::OutputList(OutputList { id: ObjectId(1037), width: 31583, height: 35682, variable_reference: ObjectId(34181), value: 88, list_items: vec![ObjectId(57188), ObjectId(57451), ObjectId(57714)], macro_refs: vec![MacroRef { macro_id: 126, event_id: 114 }, MacroRef { macro_id: 127, event_id: 121 }, MacroRef { macro_id: 128, event_id: 128 }] });
    assert_eq!(o.object_type(), ObjectType::OutputList);
    check_round_trip(o, 37);
}

#[test]
fn round_trip_extended_input_attributes() {
    let o = Object::ExtendedInputAttributes(ExtendedInputAttributes { id: ObjectId(1038), validation_type: 93, nr_of_code_planes: 130 });
    assert_eq!(o.object_type(), ObjectType::ExtendedInputAttributes);
    check_round_trip(o, 38);
}

#[test]
fn round_trip_colour_map() {
    let o = Object::ColourMap(ColourMap { id: ObjectId(1039), colour_map: vec![6, 35, 64] });
    assert_eq!(o.object_type(), ObjectType::ColourMap);
    check_round_trip(o, 39);
}

#[test]
fn round_trip_object_label_reference_list() {
    let o = Object::ObjectLabelReferenceList(ObjectLabelReferenceList { id: ObjectId(1040), object_labels: vec![ObjectLabel { id: ObjectId(4002), string_variable_reference: ObjectId(4003), font_type: 162, graphic_representation: ObjectId(4004) }, ObjectLabel { id: ObjectId(4003), string_variable_reference: ObjectId(4004), font_type: 163, graphic_representation: ObjectId(4005) }, ObjectLabel { id: ObjectId(4004), string_variable_reference: ObjectId(4005), font_type: 164, graphic_representation: ObjectId(4006) }] });
    assert_eq!(o.object_type(), ObjectType::ObjectLabelReferenceList);
    check_round_trip(o, 40);
}

#[test]
fn round_trip_external_object_definition() {
    let o = Object::ExternalObjectDefinition(ExternalObjectDefinition { id: ObjectId(1041), options: 185, name: Name(0x2ce8724da380387e), objects: vec![ObjectId(30792), ObjectId(31055), ObjectId(31318)] });
    assert_eq!(o.object_type(), ObjectType::ExternalObjectDefinition);
    check_round_trip(o, 41);
}

#[test]
fn round_trip_external_reference_name() {
    let o = Object::ExternalReferenceName(ExternalReferenceName { id: ObjectId(1042), options: 45, name: Name(0xfa93fec35c98b0b2) });
    assert_eq!(o.object_type(), ObjectType::ExternalReferenceName);
    check_round_trip(o, 42);
}

#[test]
fn round_trip_external_object_pointer() {
    let o = Object::ExternalObjectPointer(ExternalObjectPointer { id: ObjectId(1043), default_object_id: ObjectId(56797), external_reference_name_id: ObjectId(57054), external_object_id: ObjectId(57311) });
    assert_eq!(o.object_type(), ObjectType::ExternalObjectPointer);
    check_round_trip(o, 43);
}

#[test]
fn round_trip_animation() {
    let o = Object::Animation(Animation { id: ObjectId(1044), width: 17299, height: 21398, refresh_interval: 25497, value: 132, enabled: true, first_child_index: 206, last_child_index: 243, default_child_index: 24, options: 61, object_refs: vec![ObjectRef { id: ObjectId(45998), offset: Point { x: -4411, y: 13233 } }, ObjectRef { id: ObjectId(46261), offset: Point { x: -4412, y: 13236 } }, ObjectRef { id: ObjectId(46524), offset: Point { x: -4413, y: 13239 } }], macro_refs: vec![MacroRef { macro_id: 63, event_id: 185 }, MacroRef { macro_id: 64, event_id: 192 }, MacroRef { macro_id: 65, event_id: 199 }] });
    assert_eq!(o.object_type(), ObjectType::Animation);
    check_round_trip(o, 44);
}

#[test]
fn round_trip_colour_palette() {
    let o = Object::ColourPalette(ColourPalette { id: ObjectId(1045), options: 33983, colours: vec![Colour { r: 151, g: 197, b: 243, a: 255 }, Colour { r: 152, g: 200, b: 248, a: 255 }, Colour { r: 153, g: 203, b: 253, a: 255 }] });
    assert_eq!(o.object_type(), ObjectType::ColourPalette);
    check_round_trip(o, 45);
}

#[test]
fn round_trip_graphic_data() {
    let o = Object::GraphicData(GraphicData { id: ObjectId(1046), format: 253, data: vec![111, 140, 169] });
    assert_eq!(o.object_type(), ObjectType::GraphicData);
    check_round_trip(o, 46);
}

#[test]
fn round_trip_working_set_special_controls() {
    let o = Object::WorkingSetSpecialControls(WorkingSetSpecialControls { id: ObjectId(1047), id_of_colour_map: ObjectId(28527), id_of_colour_palette: ObjectId(28784), language_pairs: vec![(LanguageCode(b'd', b'e'), LanguageCode(b'D', b'E')), (LanguageCode(b'd', b'e'), LanguageCode(b'D', b'E')), (LanguageCode(b'd', b'e'), LanguageCode(b'D', b'E'))] });
    assert_eq!(o.object_type(), ObjectType::WorkingSetSpecialControls);
    check_round_trip(o, 47);
}

#[test]
fn round_trip_scales_graphic() {
    let o = Object::ScalesGraphic(ScalesGraphic { id: ObjectId(1048), width: 18499, height: 22598, scale_type: 47, options: 84, value: 34895, macro_refs: vec![MacroRef { macro_id: 199, event_id: 113 }, MacroRef { macro_id: 200, event_id: 120 }, MacroRef { macro_id: 201, event_id: 127 }] });
    assert_eq!(o.object_type(), ObjectType::ScalesGraphic);
    check_round_trip(o, 48);
}

