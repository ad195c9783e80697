//! Industry groups of an ISO NAME.

use vstd::prelude::*;

verus! {

/// An industry group: a three-bit field of a NAME.
#[derive(Copy, Clone, Eq, PartialEq, Ord, PartialOrd, Hash, Debug, Default, Structural)]
pub enum IndustryGroup {
    #[default]
    Global,
    OnHighwayEquipment,
    AgriculturalAndForestryEquipment,
    ConstructionEquipment,
    MarineEquipment,
    IndustrialProcessControl,
    ReservedForSAE1,
    ReservedForSAE2,
}

impl IndustryGroup {
    /// The three-bit field value of the group.
    pub open spec fn value(self) -> u8 {
        match self {
            IndustryGroup::Global => 0,
            IndustryGroup::OnHighwayEquipment => 1,
            IndustryGroup::AgriculturalAndForestryEquipment => 2,
            IndustryGroup::ConstructionEquipment => 3,
            IndustryGroup::MarineEquipment => 4,
            IndustryGroup::IndustrialProcessControl => 5,
            IndustryGroup::ReservedForSAE1 => 6,
            IndustryGroup::ReservedForSAE2 => 7,
        }
    }
}

impl IndustryGroup {
    /// The group named by the low three bits of `v`.
    pub open spec fn from_value(v: u8) -> IndustryGroup {
        match v & 7 {
            0 => IndustryGroup::Global,
            1 => IndustryGroup::OnHighwayEquipment,
            2 => IndustryGroup::AgriculturalAndForestryEquipment,
            3 => IndustryGroup::ConstructionEquipment,
            4 => IndustryGroup::MarineEquipment,
            5 => IndustryGroup::IndustrialProcessControl,
            6 => IndustryGroup::ReservedForSAE1,
            _ => IndustryGroup::ReservedForSAE2,
        }
    }
}

impl From<IndustryGroup> for u8 {
    fn from(value: IndustryGroup) -> (r: u8)
        ensures
            r == value.value(),
    {
        match value {
            IndustryGroup::Global => 0,
            IndustryGroup::OnHighwayEquipment => 1,
            IndustryGroup::AgriculturalAndForestryEquipment => 2,
            IndustryGroup::ConstructionEquipment => 3,
            IndustryGroup::MarineEquipment => 4,
            IndustryGroup::IndustrialProcessControl => 5,
            IndustryGroup::ReservedForSAE1 => 6,
            IndustryGroup::ReservedForSAE2 => 7,
        }
    }
}

impl vstd::std_specs::convert::FromSpecImpl<IndustryGroup> for u8 {
    open spec fn obeys_from_spec() -> bool {
        true
    }

    open spec fn from_spec(v: IndustryGroup) -> u8 {
        v.value()
    }
}

impl From<u8> for IndustryGroup {
    /// Reads the three-bit field: only the low three bits of `value` count.
    fn from(value: u8) -> (r: IndustryGroup)
        ensures
            r == IndustryGroup::from_value(value),
            r.value() == value & 7,
    {
        let v: u8 = value & 7;
        assert(v <= 7) by (bit_vector)
            requires
                v == value & 7,
        ;
        match v {
            0 => IndustryGroup::Global,
            1 => IndustryGroup::OnHighwayEquipment,
            2 => IndustryGroup::AgriculturalAndForestryEquipment,
            3 => IndustryGroup::ConstructionEquipment,
            4 => IndustryGroup::MarineEquipment,
            5 => IndustryGroup::IndustrialProcessControl,
            6 => IndustryGroup::ReservedForSAE1,
            _ => IndustryGroup::ReservedForSAE2,
        }
    }
}

impl vstd::std_specs::convert::FromSpecImpl<u8> for IndustryGroup {
    open spec fn obeys_from_spec() -> bool {
        true
    }

    open spec fn from_spec(v: u8) -> IndustryGroup {
        IndustryGroup::from_value(v)
    }
}

} // verus!
