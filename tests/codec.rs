use ag_iso_stack::{
    decode_object, encode_object, DataMask, EncodeError, MacroRef, NumberVariable, Object, ObjectId,
    ObjectRef, ObjectType, ParseError, Point, SoftKeyMask, StringVariable, Container, InputString,
};

#[test]
fn scenario_number_variable() {
    // id 0x0010, type 21 (NumberVariable), value 42 as a little-endian u32.
    let bytes = [0x10u8, 0x00, 21, 0x2A, 0x00, 0x00, 0x00];
    let (o, end) = decode_object(&bytes, 0).unwrap();
    assert_eq!(end, 7);
    assert_eq!(o, Object::NumberVariable(NumberVariable { id: ObjectId::from(0x0010u16), value: 42 }));
    assert_eq!(o.id(), ObjectId::from(0x0010u16));
    assert_eq!(o.object_type(), ObjectType::NumberVariable);
    assert_eq!(encode_object(&o).unwrap(), bytes.to_vec());
}

#[test]
fn scenario_unknown_object_type() {
    let bytes = [0x01u8, 0x00, 49, 0x00, 0x00];
    assert_eq!(decode_object(&bytes, 0).unwrap_err(), ParseError::UnknownObjectType);
    let bytes = [0x01u8, 0x00, 0xFF];
    assert_eq!(decode_object(&bytes, 0).unwrap_err(), ParseError::UnknownObjectType);
}

#[test]
fn truncated_id_is_data_empty() {
    assert_eq!(decode_object(&[0x10u8], 0).unwrap_err(), ParseError::DataEmpty);
    assert_eq!(decode_object(&[], 0).unwrap_err(), ParseError::DataEmpty);
    assert_eq!(decode_object(&[0x10u8, 0x00], 0).unwrap_err(), ParseError::DataEmpty);
    // NumberVariable with only three of its four value bytes.
    assert_eq!(decode_object(&[0x10u8, 0x00, 21, 0x2A, 0x00, 0x00], 0).unwrap_err(), ParseError::DataEmpty);
}

#[test]
fn decoding_starts_at_offset() {
    let bytes = [0xEEu8, 0xEE, 0x10, 0x00, 21, 0x2A, 0x00, 0x00, 0x00, 0x77];
    let (o, end) = decode_object(&bytes, 2).unwrap();
    assert_eq!(end, 9);
    assert_eq!(o, Object::NumberVariable(NumberVariable { id: ObjectId::from(0x0010u16), value: 42 }));
}

#[test]
fn data_mask_layout() {
    let o = Object::DataMask(DataMask {
        id: ObjectId::from(0x1234u16),
        background_colour: 7,
        soft_key_mask: ObjectId::from(0xABCDu16),
        object_refs: vec![ObjectRef { id: ObjectId::from(0x0102u16), offset: Point { x: -1, y: 2 } }],
        macro_refs: vec![MacroRef { macro_id: 9, event_id: 3 }],
    });
    let expected = vec![
        0x34, 0x12, 1, // header
        7, // background colour
        0xCD, 0xAB, // soft key mask
        1, 0x02, 0x01, 0xFF, 0xFF, 0x02, 0x00, // one object ref
        1, 9, 3, // one macro ref
    ];
    assert_eq!(encode_object(&o).unwrap(), expected);
    let (back, end) = decode_object(&expected, 0).unwrap();
    assert_eq!(end, expected.len());
    assert_eq!(back, o);
}

#[test]
fn string_variable_layout() {
    let o = Object::StringVariable(StringVariable { id: ObjectId::from(3u16), value: b"Hi".to_vec() });
    assert_eq!(encode_object(&o).unwrap(), vec![3, 0, 22, 2, 0, b'H', b'i']);
}

#[test]
fn flag_byte_other_than_zero_or_one_is_rejected() {
    // Container: width, height, hidden flag = 2.
    let bytes = [0x05u8, 0x00, 3, 0x10, 0x00, 0x20, 0x00, 2, 0, 0];
    assert_eq!(decode_object(&bytes, 0).unwrap_err(), ParseError::DataEmpty);
    let ok = [0x05u8, 0x00, 3, 0x10, 0x00, 0x20, 0x00, 1, 0, 0];
    let (o, _) = decode_object(&ok, 0).unwrap();
    assert_eq!(
        o,
        Object::Container(Container { id: ObjectId::from(5u16), width: 0x10, height: 0x20, hidden: true, object_refs: vec![], macro_refs: vec![] })
    );
}

#[test]
fn truncated_section_is_data_empty() {
    // SoftKeyMask announcing two object ids but holding one.
    let bytes = [0x05u8, 0x00, 4, 0x01, 2, 0x10, 0x00];
    assert_eq!(decode_object(&bytes, 0).unwrap_err(), ParseError::DataEmpty);
}

#[test]
fn oversized_section_is_rejected() {
    let o = Object::SoftKeyMask(SoftKeyMask {
        id: ObjectId::from(1u16),
        background_colour: 0,
        objects: vec![ObjectId::from(2u16); 256],
        macro_refs: vec![],
    });
    assert!(!o.is_encodable());
    assert_eq!(encode_object(&o).unwrap_err(), EncodeError::SectionTooLong);
    let fits = Object::SoftKeyMask(SoftKeyMask {
        id: ObjectId::from(1u16),
        background_colour: 0,
        objects: vec![ObjectId::from(2u16); 255],
        macro_refs: vec![],
    });
    assert!(fits.is_encodable());
    let bytes = encode_object(&fits).unwrap();
    assert_eq!(bytes.len(), 3 + 1 + 1 + 255 * 2 + 1);
    assert_eq!(decode_object(&bytes, 0).unwrap().0, fits);
}

#[test]
fn references_of_an_object() {
    let o = Object::DataMask(DataMask {
        id: ObjectId::from(1u16),
        background_colour: 0,
        soft_key_mask: ObjectId::from(2u16),
        object_refs: vec![ObjectRef { id: ObjectId::from(3u16), offset: Point { x: 0, y: 0 } }],
        macro_refs: vec![MacroRef { macro_id: 4, event_id: 0 }],
    });
    let mut refs = Vec::new();
    o.collect_references(&mut refs);
    assert_eq!(refs, vec![ObjectId::from(2u16), ObjectId::from(3u16), ObjectId::from(4u16)]);
}

#[test]
fn input_string_layout() {
    let o = Object::InputString(InputString {
        id: ObjectId::from(0x0201u16),
        width: 0x0010,
        height: 0x0020,
        background_colour: 1,
        font_attributes: ObjectId::from(0x0304u16),
        input_attributes: ObjectId::null(),
        options: 2,
        variable_reference: ObjectId::null(),
        justification: 3,
        value: b"ab".to_vec(),
        enabled: true,
        macro_refs: vec![],
    });
    let expected = vec![
        0x01, 0x02, 8, // header
        0x10, 0x00, 0x20, 0x00, // width, height
        1, // background colour
        0x04, 0x03, // font attributes
        0xFF, 0xFF, // input attributes
        2, // options
        0xFF, 0xFF, // variable reference
        3, // justification
        2, b'a', b'b', // length, then the value
        1, // enabled
        0, // no macro refs
    ];
    assert_eq!(encode_object(&o).unwrap(), expected);
    let (back, end) = decode_object(&expected, 0).unwrap();
    assert_eq!(end, expected.len());
    assert_eq!(back, o);
}
