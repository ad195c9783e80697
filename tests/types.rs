use ag_iso_stack::{Colour, DeviceClass, IndustryGroup, ObjectId, ObjectType, ParseError, Point};

#[test]
fn null_sentinel() {
    assert_eq!(ObjectId::from(0xFFFFu16), ObjectId::null());
    assert_eq!(ObjectId::default(), ObjectId::null());
    assert!(ObjectId::null().is_null());
    assert!(!ObjectId::from(0x0005u16).is_null());
    assert_eq!(u16::from(ObjectId::null()), 0xFFFF);
}

#[test]
fn object_id_byte_forms() {
    let id = ObjectId::from([0x34u8, 0x12u8]);
    assert_eq!(u16::from(id), 0x1234);
    let bytes: [u8; 2] = id.into();
    assert_eq!(bytes, [0x34, 0x12]);
    let from_slice = ObjectId::from(&[0x78u8, 0x56, 0x99][..]);
    assert_eq!(u16::from(from_slice), 0x5678);
    assert_eq!(ObjectId::from(&[0x78u8][..]), ObjectId::null());
    assert_eq!(ObjectId::from(&[][..]), ObjectId::null());
}

#[test]
fn tag_totality() {
    let mut accepted = 0;
    for v in 0..=255u8 {
        match ObjectType::try_from(v) {
            Ok(t) => {
                assert!(v <= 48);
                assert_eq!(u8::from(t), v);
                accepted += 1;
            }
            Err(e) => {
                assert!(v > 48);
                assert_eq!(e, ParseError::UnknownObjectType);
            }
        }
    }
    assert_eq!(accepted, 49);
    assert_eq!(ObjectType::try_from(0u8).unwrap(), ObjectType::WorkingSet);
    assert_eq!(ObjectType::try_from(21u8).unwrap(), ObjectType::NumberVariable);
    assert_eq!(ObjectType::try_from(48u8).unwrap(), ObjectType::ScalesGraphic);
    assert_eq!(ObjectType::try_from(49u8).unwrap_err(), ParseError::UnknownObjectType);
}

fn rgba(c: Colour) -> [u8; 4] {
    c.as_rgba()
}

#[test]
fn default_palette() {
    assert_eq!(rgba(Colour::palette(0)), [0x00, 0x00, 0x00, 0xFF]);
    assert_eq!(rgba(Colour::palette(1)), [0xFF, 0xFF, 0xFF, 0xFF]);
    assert_eq!(rgba(Colour::palette(7)), [0xCC, 0xCC, 0xCC, 0xFF]);
    assert_eq!(rgba(Colour::palette(15)), [0x00, 0x00, 0x99, 0xFF]);
    assert_eq!(rgba(Colour::palette(16)), [0x00, 0x00, 0x00, 0xFF]);
    assert_eq!(rgba(Colour::palette(17)), [0x00, 0x00, 0x33, 0xFF]);
    assert_eq!(rgba(Colour::palette(22)), [0x00, 0x33, 0x00, 0xFF]);
    assert_eq!(rgba(Colour::palette(52)), [0x33, 0x00, 0x00, 0xFF]);
    assert_eq!(rgba(Colour::palette(230)), [0xFF, 0xFF, 0xCC, 0xFF]);
    assert_eq!(rgba(Colour::palette(231)), [0xFF, 0xFF, 0xFF, 0xFF]);
    for i in 232..=255u8 {
        assert_eq!(rgba(Colour::palette(i)), [0x00, 0x00, 0x00, 0xFF]);
    }
    assert_eq!(Colour::default(), Colour::palette(8));
    assert_eq!(Colour::default().as_rgb(), [0x99, 0x99, 0x99]);
}

#[test]
fn colour_from_u32_is_little_endian_rgba() {
    let c = Colour::from(0x4433_2211u32);
    assert_eq!(c.as_rgb(), [0x11, 0x22, 0x33]);
    assert_eq!(c.as_rgba(), [0x11, 0x22, 0x33, 0x44]);
}

#[test]
fn point_plus_offset() {
    let p = Point { x: 10u16, y: 20u16 } + Point { x: -3i16, y: 5i16 };
    assert_eq!(p, Point { x: 7, y: 25 });
}

#[test]
fn industry_group_values() {
    assert_eq!(IndustryGroup::from(2u8), IndustryGroup::AgriculturalAndForestryEquipment);
    assert_eq!(u8::from(IndustryGroup::AgriculturalAndForestryEquipment), 2);
    assert_eq!(IndustryGroup::from(7u8), IndustryGroup::ReservedForSAE2);
    assert_eq!(IndustryGroup::from(9u8), IndustryGroup::OnHighwayEquipment);
    assert_eq!(IndustryGroup::default(), IndustryGroup::Global);
}

#[test]
fn device_class_values() {
    let ag = IndustryGroup::AgriculturalAndForestryEquipment;
    assert_eq!(DeviceClass::from((5, ag)), DeviceClass::Fertilizers);
    assert_eq!(u8::from(DeviceClass::Fertilizers), 5);
    assert_eq!(IndustryGroup::from(DeviceClass::Fertilizers), ag);
    assert_eq!(DeviceClass::from((1, ag)), DeviceClass::Tractor(ag));
    assert_eq!(IndustryGroup::from(DeviceClass::Tractor(ag)), ag);
    assert_eq!(
        DeviceClass::from((0, IndustryGroup::IndustrialProcessControl)),
        DeviceClass::IndustrialProcessControlStationary
    );
    assert_eq!(DeviceClass::from((0, IndustryGroup::MarineEquipment)), DeviceClass::NonSpecificSystem(IndustryGroup::MarineEquipment));
    assert_eq!(DeviceClass::from((18, ag)), DeviceClass::NotAvailable);
    assert_eq!(u8::from(DeviceClass::NotAvailable), 127);
    assert_eq!(DeviceClass::from((100, IndustryGroup::MarineEquipment)), DeviceClass::DeckCargoAndFishingEquipmentSystems);
    assert_eq!(IndustryGroup::from(DeviceClass::Crusher), IndustryGroup::ConstructionEquipment);
    assert_eq!(DeviceClass::default(), DeviceClass::NotAvailable);
}
