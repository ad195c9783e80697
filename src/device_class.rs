//! Device classes of an ISO NAME; one class value means different classes
//! in different industry groups.

use vstd::prelude::*;
use crate::industry_group::IndustryGroup;

verus! {

/// A device class. Some classes belong to several industry groups.
#[derive(Copy, Clone, Eq, PartialEq, Ord, PartialOrd, Hash, Debug, Default, Structural)]
pub enum DeviceClass {
    #[default]
    NotAvailable,
    NonSpecificSystem(IndustryGroup),
    Tractor(IndustryGroup),
    Trailer,
    Tillage,
    SecondaryTillage,
    PlantersOrSeeders,
    Fertilizers,
    Sprayers,
    Harvesters,
    RootHarvesters,
    Forage,
    Irrigation,
    TransportOrTrailer,
    FarmYardOperations,
    PoweredAuxiliaryDevices,
    SpecialCrops,
    EarthWork,
    Skidder,
    SensorSystems,
    TimberHarvesters,
    Forwarders,
    TimberLoaders,
    TimberProcessingMachines,
    Mulchers,
    UtilityVehicles,
    SlurryOrManureApplicators,
    FeedersOrMixers,
    Weeders,
    SkidSteerLoader,
    ArticulatedDumpTruck,
    Backhoe,
    Crawler,
    Excavator,
    Forklift,
    FourWheelDriveLoader,
    Grader,
    MillingMachine,
    RecyclerAndSoilStabilizer,
    BindingAgentSpreader,
    Paver,
    Feeder,
    ScreeningPlant,
    Stacker,
    Roller,
    Crusher,
    SystemTools,
    SafetySystems,
    Gateway,
    PowerManagementAndLightingSystems,
    Steeringsystems,
    NavigationSystems,
    CommunicationsSystems,
    InstrumentationOrGeneralSystems,
    EnvironmentalSystems,
    DeckCargoAndFishingEquipmentSystems,
    IndustrialProcessControlStationary,
}

impl DeviceClass {
    /// The class value carried in a NAME.
    pub open spec fn value(self) -> u8 {
        match self {
            DeviceClass::NotAvailable => 127,
            DeviceClass::NonSpecificSystem(_) => 0,
            DeviceClass::Tractor(_) => 1,
            DeviceClass::Trailer => 2,
            DeviceClass::Tillage => 2,
            DeviceClass::SecondaryTillage => 3,
            DeviceClass::PlantersOrSeeders => 4,
            DeviceClass::Fertilizers => 5,
            DeviceClass::Sprayers => 6,
            DeviceClass::Harvesters => 7,
            DeviceClass::RootHarvesters => 8,
            DeviceClass::Forage => 9,
            DeviceClass::Irrigation => 10,
            DeviceClass::TransportOrTrailer => 11,
            DeviceClass::FarmYardOperations => 12,
            DeviceClass::PoweredAuxiliaryDevices => 13,
            DeviceClass::SpecialCrops => 14,
            DeviceClass::EarthWork => 15,
            DeviceClass::Skidder => 16,
            DeviceClass::SensorSystems => 17,
            DeviceClass::TimberHarvesters => 19,
            DeviceClass::Forwarders => 20,
            DeviceClass::TimberLoaders => 21,
            DeviceClass::TimberProcessingMachines => 22,
            DeviceClass::Mulchers => 23,
            DeviceClass::UtilityVehicles => 24,
            DeviceClass::SlurryOrManureApplicators => 25,
            DeviceClass::FeedersOrMixers => 26,
            DeviceClass::Weeders => 27,
            DeviceClass::SkidSteerLoader => 1,
            DeviceClass::ArticulatedDumpTruck => 2,
            DeviceClass::Backhoe => 3,
            DeviceClass::Crawler => 4,
            DeviceClass::Excavator => 5,
            DeviceClass::Forklift => 6,
            DeviceClass::FourWheelDriveLoader => 7,
            DeviceClass::Grader => 8,
            DeviceClass::MillingMachine => 9,
            DeviceClass::RecyclerAndSoilStabilizer => 10,
            DeviceClass::BindingAgentSpreader => 11,
            DeviceClass::Paver => 12,
            DeviceClass::Feeder => 13,
            DeviceClass::ScreeningPlant => 14,
            DeviceClass::Stacker => 15,
            DeviceClass::Roller => 16,
            DeviceClass::Crusher => 17,
            DeviceClass::SystemTools => 10,
            DeviceClass::SafetySystems => 20,
            DeviceClass::Gateway => 25,
            DeviceClass::PowerManagementAndLightingSystems => 30,
            DeviceClass::Steeringsystems => 40,
            DeviceClass::NavigationSystems => 60,
            DeviceClass::CommunicationsSystems => 70,
            DeviceClass::InstrumentationOrGeneralSystems => 80,
            DeviceClass::EnvironmentalSystems => 90,
            DeviceClass::DeckCargoAndFishingEquipmentSystems => 100,
            DeviceClass::IndustrialProcessControlStationary => 0,
        }
    }

    /// The industry group a class belongs to.
    pub open spec fn industry_group(self) -> IndustryGroup {
        match self {
            DeviceClass::NotAvailable => IndustryGroup::Global,
            DeviceClass::NonSpecificSystem(ig) | DeviceClass::Tractor(ig) => ig,
            DeviceClass::Trailer => IndustryGroup::OnHighwayEquipment,
            DeviceClass::Tillage
            | DeviceClass::SecondaryTillage
            | DeviceClass::PlantersOrSeeders
            | DeviceClass::Fertilizers
            | DeviceClass::Sprayers
            | DeviceClass::Harvesters
            | DeviceClass::RootHarvesters
            | DeviceClass::Forage
            | DeviceClass::Irrigation
            | DeviceClass::TransportOrTrailer
            | DeviceClass::FarmYardOperations
            | DeviceClass::PoweredAuxiliaryDevices
            | DeviceClass::SpecialCrops
            | DeviceClass::EarthWork
            | DeviceClass::Skidder
            | DeviceClass::SensorSystems
            | DeviceClass::TimberHarvesters
            | DeviceClass::Forwarders
            | DeviceClass::TimberLoaders
            | DeviceClass::TimberProcessingMachines
            | DeviceClass::Mulchers
            | DeviceClass::UtilityVehicles
            | DeviceClass::SlurryOrManureApplicators
            | DeviceClass::FeedersOrMixers
            | DeviceClass::Weeders => IndustryGroup::AgriculturalAndForestryEquipment,
            DeviceClass::SkidSteerLoader
            | DeviceClass::ArticulatedDumpTruck
            | DeviceClass::Backhoe
            | DeviceClass::Crawler
            | DeviceClass::Excavator
            | DeviceClass::Forklift
            | DeviceClass::FourWheelDriveLoader
            | DeviceClass::Grader
            | DeviceClass::MillingMachine
            | DeviceClass::RecyclerAndSoilStabilizer
            | DeviceClass::BindingAgentSpreader
            | DeviceClass::Paver
            | DeviceClass::Feeder
            | DeviceClass::ScreeningPlant
            | DeviceClass::Stacker
            | DeviceClass::Roller
            | DeviceClass::Crusher => IndustryGroup::ConstructionEquipment,
            DeviceClass::SystemTools
            | DeviceClass::SafetySystems
            | DeviceClass::Gateway
            | DeviceClass::PowerManagementAndLightingSystems
            | DeviceClass::Steeringsystems
            | DeviceClass::NavigationSystems
            | DeviceClass::CommunicationsSystems
            | DeviceClass::InstrumentationOrGeneralSystems
            | DeviceClass::EnvironmentalSystems
            | DeviceClass::DeckCargoAndFishingEquipmentSystems => IndustryGroup::MarineEquipment,
            DeviceClass::IndustrialProcessControlStationary => IndustryGroup::IndustrialProcessControl,
        }
    }

    /// The class that a class value names within an industry group.
    pub open spec fn from_parts(v: u8, ig: IndustryGroup) -> DeviceClass {
        match (v, ig) {
            (0, IndustryGroup::IndustrialProcessControl) => DeviceClass::IndustrialProcessControlStationary,
            (0, ig) => DeviceClass::NonSpecificSystem(ig),
            (1, IndustryGroup::OnHighwayEquipment) => DeviceClass::Tractor(IndustryGroup::OnHighwayEquipment),
            (2, IndustryGroup::OnHighwayEquipment) => DeviceClass::Trailer,
            (1, IndustryGroup::AgriculturalAndForestryEquipment) => DeviceClass::Tractor(IndustryGroup::AgriculturalAndForestryEquipment),
            (2, IndustryGroup::AgriculturalAndForestryEquipment) => DeviceClass::Tillage,
            (3, IndustryGroup::AgriculturalAndForestryEquipment) => DeviceClass::SecondaryTillage,
            (4, IndustryGroup::AgriculturalAndForestryEquipment) => DeviceClass::PlantersOrSeeders,
            (5, IndustryGroup::AgriculturalAndForestryEquipment) => DeviceClass::Fertilizers,
            (6, IndustryGroup::AgriculturalAndForestryEquipment) => DeviceClass::Sprayers,
            (7, IndustryGroup::AgriculturalAndForestryEquipment) => DeviceClass::Harvesters,
            (8, IndustryGroup::AgriculturalAndForestryEquipment) => DeviceClass::RootHarvesters,
            (9, IndustryGroup::AgriculturalAndForestryEquipment) => DeviceClass::Forage,
            (10, IndustryGroup::AgriculturalAndForestryEquipment) => DeviceClass::Irrigation,
            (11, IndustryGroup::AgriculturalAndForestryEquipment) => DeviceClass::TransportOrTrailer,
            (12, IndustryGroup::AgriculturalAndForestryEquipment) => DeviceClass::FarmYardOperations,
            (13, IndustryGroup::AgriculturalAndForestryEquipment) => DeviceClass::PoweredAuxiliaryDevices,
            (14, IndustryGroup::AgriculturalAndForestryEquipment) => DeviceClass::SpecialCrops,
            (15, IndustryGroup::AgriculturalAndForestryEquipment) => DeviceClass::EarthWork,
            (16, IndustryGroup::AgriculturalAndForestryEquipment) => DeviceClass::Skidder,
            (17, IndustryGroup::AgriculturalAndForestryEquipment) => DeviceClass::SensorSystems,
            (19, IndustryGroup::AgriculturalAndForestryEquipment) => DeviceClass::TimberHarvesters,
            (20, IndustryGroup::AgriculturalAndForestryEquipment) => DeviceClass::Forwarders,
            (21, IndustryGroup::AgriculturalAndForestryEquipment) => DeviceClass::TimberLoaders,
            (22, IndustryGroup::AgriculturalAndForestryEquipment) => DeviceClass::TimberProcessingMachines,
            (23, IndustryGroup::AgriculturalAndForestryEquipment) => DeviceClass::Mulchers,
            (24, IndustryGroup::AgriculturalAndForestryEquipment) => DeviceClass::UtilityVehicles,
            (25, IndustryGroup::AgriculturalAndForestryEquipment) => DeviceClass::SlurryOrManureApplicators,
            (26, IndustryGroup::AgriculturalAndForestryEquipment) => DeviceClass::FeedersOrMixers,
            (27, IndustryGroup::AgriculturalAndForestryEquipment) => DeviceClass::Weeders,
            (1, IndustryGroup::ConstructionEquipment) => DeviceClass::SkidSteerLoader,
            (2, IndustryGroup::ConstructionEquipment) => DeviceClass::ArticulatedDumpTruck,
            (3, IndustryGroup::ConstructionEquipment) => DeviceClass::Backhoe,
            (4, IndustryGroup::ConstructionEquipment) => DeviceClass::Crawler,
            (5, IndustryGroup::ConstructionEquipment) => DeviceClass::Excavator,
            (6, IndustryGroup::ConstructionEquipment) => DeviceClass::Forklift,
            (7, IndustryGroup::ConstructionEquipment) => DeviceClass::FourWheelDriveLoader,
            (8, IndustryGroup::ConstructionEquipment) => DeviceClass::Grader,
            (9, IndustryGroup::ConstructionEquipment) => DeviceClass::MillingMachine,
            (10, IndustryGroup::ConstructionEquipment) => DeviceClass::RecyclerAndSoilStabilizer,
            (11, IndustryGroup::ConstructionEquipment) => DeviceClass::BindingAgentSpreader,
            (12, IndustryGroup::ConstructionEquipment) => DeviceClass::Paver,
            (13, IndustryGroup::ConstructionEquipment) => DeviceClass::Feeder,
            (14, IndustryGroup::ConstructionEquipment) => DeviceClass::ScreeningPlant,
            (15, IndustryGroup::ConstructionEquipment) => DeviceClass::Stacker,
            (16, IndustryGroup::ConstructionEquipment) => DeviceClass::Roller,
            (17, IndustryGroup::ConstructionEquipment) => DeviceClass::Crusher,
            (10, IndustryGroup::MarineEquipment) => DeviceClass::SystemTools,
            (20, IndustryGroup::MarineEquipment) => DeviceClass::SafetySystems,
            (25, IndustryGroup::MarineEquipment) => DeviceClass::Gateway,
            (30, IndustryGroup::MarineEquipment) => DeviceClass::PowerManagementAndLightingSystems,
            (40, IndustryGroup::MarineEquipment) => DeviceClass::Steeringsystems,
            (60, IndustryGroup::MarineEquipment) => DeviceClass::NavigationSystems,
            (70, IndustryGroup::MarineEquipment) => DeviceClass::CommunicationsSystems,
            (80, IndustryGroup::MarineEquipment) => DeviceClass::InstrumentationOrGeneralSystems,
            (90, IndustryGroup::MarineEquipment) => DeviceClass::EnvironmentalSystems,
            (100, IndustryGroup::MarineEquipment) => DeviceClass::DeckCargoAndFishingEquipmentSystems,
            _ => DeviceClass::NotAvailable,
        }
    }
}

impl From<DeviceClass> for u8 {
    fn from(value: DeviceClass) -> (r: u8)
        ensures
            r == value.value(),
    {
        match value {
            DeviceClass::NotAvailable => 127,
            DeviceClass::NonSpecificSystem(_) => 0,
            DeviceClass::Tractor(_) => 1,
            DeviceClass::Trailer => 2,
            DeviceClass::Tillage => 2,
            DeviceClass::SecondaryTillage => 3,
            DeviceClass::PlantersOrSeeders => 4,
            DeviceClass::Fertilizers => 5,
            DeviceClass::Sprayers => 6,
            DeviceClass::Harvesters => 7,
            DeviceClass::RootHarvesters => 8,
            DeviceClass::Forage => 9,
            DeviceClass::Irrigation => 10,
            DeviceClass::TransportOrTrailer => 11,
            DeviceClass::FarmYardOperations => 12,
            DeviceClass::PoweredAuxiliaryDevices => 13,
            DeviceClass::SpecialCrops => 14,
            DeviceClass::EarthWork => 15,
            DeviceClass::Skidder => 16,
            DeviceClass::SensorSystems => 17,
            DeviceClass::TimberHarvesters => 19,
            DeviceClass::Forwarders => 20,
            DeviceClass::TimberLoaders => 21,
            DeviceClass::TimberProcessingMachines => 22,
            DeviceClass::Mulchers => 23,
            DeviceClass::UtilityVehicles => 24,
            DeviceClass::SlurryOrManureApplicators => 25,
            DeviceClass::FeedersOrMixers => 26,
            DeviceClass::Weeders => 27,
            DeviceClass::SkidSteerLoader => 1,
            DeviceClass::ArticulatedDumpTruck => 2,
            DeviceClass::Backhoe => 3,
            DeviceClass::Crawler => 4,
            DeviceClass::Excavator => 5,
            DeviceClass::Forklift => 6,
            DeviceClass::FourWheelDriveLoader => 7,
            DeviceClass::Grader => 8,
            DeviceClass::MillingMachine => 9,
            DeviceClass::RecyclerAndSoilStabilizer => 10,
            DeviceClass::BindingAgentSpreader => 11,
            DeviceClass::Paver => 12,
            DeviceClass::Feeder => 13,
            DeviceClass::ScreeningPlant => 14,
            DeviceClass::Stacker => 15,
            DeviceClass::Roller => 16,
            DeviceClass::Crusher => 17,
            DeviceClass::SystemTools => 10,
            DeviceClass::SafetySystems => 20,
            DeviceClass::Gateway => 25,
            DeviceClass::PowerManagementAndLightingSystems => 30,
            DeviceClass::Steeringsystems => 40,
            DeviceClass::NavigationSystems => 60,
            DeviceClass::CommunicationsSystems => 70,
            DeviceClass::InstrumentationOrGeneralSystems => 80,
            DeviceClass::EnvironmentalSystems => 90,
            DeviceClass::DeckCargoAndFishingEquipmentSystems => 100,
            DeviceClass::IndustrialProcessControlStationary => 0,
        }
    }
}

impl vstd::std_specs::convert::FromSpecImpl<DeviceClass> for u8 {
    open spec fn obeys_from_spec() -> bool {
        true
    }

    open spec fn from_spec(v: DeviceClass) -> u8 {
        v.value()
    }
}

impl From<(u8, IndustryGroup)> for DeviceClass {
    /// A class value that names no class in the group gives `NotAvailable`.
    fn from(value: (u8, IndustryGroup)) -> (r: DeviceClass)
        ensures
            r == DeviceClass::from_parts(value.0, value.1),
    {
        match value {
            (0, IndustryGroup::IndustrialProcessControl) => DeviceClass::IndustrialProcessControlStationary,
            (0, ig) => DeviceClass::NonSpecificSystem(ig),
            (1, IndustryGroup::OnHighwayEquipment) => DeviceClass::Tractor(IndustryGroup::OnHighwayEquipment),
            (2, IndustryGroup::OnHighwayEquipment) => DeviceClass::Trailer,
            (1, IndustryGroup::AgriculturalAndForestryEquipment) => DeviceClass::Tractor(IndustryGroup::AgriculturalAndForestryEquipment),
            (2, IndustryGroup::AgriculturalAndForestryEquipment) => DeviceClass::Tillage,
            (3, IndustryGroup::AgriculturalAndForestryEquipment) => DeviceClass::SecondaryTillage,
            (4, IndustryGroup::AgriculturalAndForestryEquipment) => DeviceClass::PlantersOrSeeders,
            (5, IndustryGroup::AgriculturalAndForestryEquipment) => DeviceClass::Fertilizers,
            (6, IndustryGroup::AgriculturalAndForestryEquipment) => DeviceClass::Sprayers,
            (7, IndustryGroup::AgriculturalAndForestryEquipment) => DeviceClass::Harvesters,
            (8, IndustryGroup::AgriculturalAndForestryEquipment) => DeviceClass::RootHarvesters,
            (9, IndustryGroup::AgriculturalAndForestryEquipment) => DeviceClass::Forage,
            (10, IndustryGroup::AgriculturalAndForestryEquipment) => DeviceClass::Irrigation,
            (11, IndustryGroup::AgriculturalAndForestryEquipment) => DeviceClass::TransportOrTrailer,
            (12, IndustryGroup::AgriculturalAndForestryEquipment) => DeviceClass::FarmYardOperations,
            (13, IndustryGroup::AgriculturalAndForestryEquipment) => DeviceClass::PoweredAuxiliaryDevices,
            (14, IndustryGroup::AgriculturalAndForestryEquipment) => DeviceClass::SpecialCrops,
            (15, IndustryGroup::AgriculturalAndForestryEquipment) => DeviceClass::EarthWork,
            (16, IndustryGroup::AgriculturalAndForestryEquipment) => DeviceClass::Skidder,
            (17, IndustryGroup::AgriculturalAndForestryEquipment) => DeviceClass::SensorSystems,
            (19, IndustryGroup::AgriculturalAndForestryEquipment) => DeviceClass::TimberHarvesters,
            (20, IndustryGroup::AgriculturalAndForestryEquipment) => DeviceClass::Forwarders,
            (21, IndustryGroup::AgriculturalAndForestryEquipment) => DeviceClass::TimberLoaders,
            (22, IndustryGroup::AgriculturalAndForestryEquipment) => DeviceClass::TimberProcessingMachines,
            (23, IndustryGroup::AgriculturalAndForestryEquipment) => DeviceClass::Mulchers,
            (24, IndustryGroup::AgriculturalAndForestryEquipment) => DeviceClass::UtilityVehicles,
            (25, IndustryGroup::AgriculturalAndForestryEquipment) => DeviceClass::SlurryOrManureApplicators,
            (26, IndustryGroup::AgriculturalAndForestryEquipment) => DeviceClass::FeedersOrMixers,
            (27, IndustryGroup::AgriculturalAndForestryEquipment) => DeviceClass::Weeders,
            (1, IndustryGroup::ConstructionEquipment) => DeviceClass::SkidSteerLoader,
            (2, IndustryGroup::ConstructionEquipment) => DeviceClass::ArticulatedDumpTruck,
            (3, IndustryGroup::ConstructionEquipment) => DeviceClass::Backhoe,
            (4, IndustryGroup::ConstructionEquipment) => DeviceClass::Crawler,
            (5, IndustryGroup::ConstructionEquipment) => DeviceClass::Excavator,
            (6, IndustryGroup::ConstructionEquipment) => DeviceClass::Forklift,
            (7, IndustryGroup::ConstructionEquipment) => DeviceClass::FourWheelDriveLoader,
            (8, IndustryGroup::ConstructionEquipment) => DeviceClass::Grader,
            (9, IndustryGroup::ConstructionEquipment) => DeviceClass::MillingMachine,
            (10, IndustryGroup::ConstructionEquipment) => DeviceClass::RecyclerAndSoilStabilizer,
            (11, IndustryGroup::ConstructionEquipment) => DeviceClass::BindingAgentSpreader,
            (12, IndustryGroup::ConstructionEquipment) => DeviceClass::Paver,
            (13, IndustryGroup::ConstructionEquipment) => DeviceClass::Feeder,
            (14, IndustryGroup::ConstructionEquipment) => DeviceClass::ScreeningPlant,
            (15, IndustryGroup::ConstructionEquipment) => DeviceClass::Stacker,
            (16, IndustryGroup::ConstructionEquipment) => DeviceClass::Roller,
            (17, IndustryGroup::ConstructionEquipment) => DeviceClass::Crusher,
            (10, IndustryGroup::MarineEquipment) => DeviceClass::SystemTools,
            (20, IndustryGroup::MarineEquipment) => DeviceClass::SafetySystems,
            (25, IndustryGroup::MarineEquipment) => DeviceClass::Gateway,
            (30, IndustryGroup::MarineEquipment) => DeviceClass::PowerManagementAndLightingSystems,
            (40, IndustryGroup::MarineEquipment) => DeviceClass::Steeringsystems,
            (60, IndustryGroup::MarineEquipment) => DeviceClass::NavigationSystems,
            (70, IndustryGroup::MarineEquipment) => DeviceClass::CommunicationsSystems,
            (80, IndustryGroup::MarineEquipment) => DeviceClass::InstrumentationOrGeneralSystems,
            (90, IndustryGroup::MarineEquipment) => DeviceClass::EnvironmentalSystems,
            (100, IndustryGroup::MarineEquipment) => DeviceClass::DeckCargoAndFishingEquipmentSystems,
            _ => DeviceClass::NotAvailable,
        }
    }
}

impl vstd::std_specs::convert::FromSpecImpl<(u8, IndustryGroup)> for DeviceClass {
    open spec fn obeys_from_spec() -> bool {
        true
    }

    open spec fn from_spec(v: (u8, IndustryGroup)) -> DeviceClass {
        DeviceClass::from_parts(v.0, v.1)
    }
}

impl From<DeviceClass> for IndustryGroup {
    fn from(value: DeviceClass) -> (r: IndustryGroup)
        ensures
            r == value.industry_group(),
    {
        match value {
            DeviceClass::NotAvailable => IndustryGroup::Global,
            DeviceClass::NonSpecificSystem(ig) | DeviceClass::Tractor(ig) => ig,
            DeviceClass::Trailer => IndustryGroup::OnHighwayEquipment,
            DeviceClass::Tillage
            | DeviceClass::SecondaryTillage
            | DeviceClass::PlantersOrSeeders
            | DeviceClass::Fertilizers
            | DeviceClass::Sprayers
            | DeviceClass::Harvesters
            | DeviceClass::RootHarvesters
            | DeviceClass::Forage
            | DeviceClass::Irrigation
            | DeviceClass::TransportOrTrailer
            | DeviceClass::FarmYardOperations
            | DeviceClass::PoweredAuxiliaryDevices
            | DeviceClass::SpecialCrops
            | DeviceClass::EarthWork
            | DeviceClass::Skidder
            | DeviceClass::SensorSystems
            | DeviceClass::TimberHarvesters
            | DeviceClass::Forwarders
            | DeviceClass::TimberLoaders
            | DeviceClass::TimberProcessingMachines
            | DeviceClass::Mulchers
            | DeviceClass::UtilityVehicles
            | DeviceClass::SlurryOrManureApplicators
            | DeviceClass::FeedersOrMixers
            | DeviceClass::Weeders => IndustryGroup::AgriculturalAndForestryEquipment,
            DeviceClass::SkidSteerLoader
            | DeviceClass::ArticulatedDumpTruck
            | DeviceClass::Backhoe
            | DeviceClass::Crawler
            | DeviceClass::Excavator
            | DeviceClass::Forklift
            | DeviceClass::FourWheelDriveLoader
            | DeviceClass::Grader
            | DeviceClass::MillingMachine
            | DeviceClass::RecyclerAndSoilStabilizer
            | DeviceClass::BindingAgentSpreader
            | DeviceClass::Paver
            | DeviceClass::Feeder
            | DeviceClass::ScreeningPlant
            | DeviceClass::Stacker
            | DeviceClass::Roller
            | DeviceClass::Crusher => IndustryGroup::ConstructionEquipment,
            DeviceClass::SystemTools
            | DeviceClass::SafetySystems
            | DeviceClass::Gateway
            | DeviceClass::PowerManagementAndLightingSystems
            | DeviceClass::Steeringsystems
            | DeviceClass::NavigationSystems
            | DeviceClass::CommunicationsSystems
            | DeviceClass::InstrumentationOrGeneralSystems
            | DeviceClass::EnvironmentalSystems
            | DeviceClass::DeckCargoAndFishingEquipmentSystems => IndustryGroup::MarineEquipment,
            DeviceClass::IndustrialProcessControlStationary => IndustryGroup::IndustrialProcessControl,
        }
    }
}

impl vstd::std_specs::convert::FromSpecImpl<DeviceClass> for IndustryGroup {
    open spec fn obeys_from_spec() -> bool {
        true
    }

    open spec fn from_spec(v: DeviceClass) -> IndustryGroup {
        v.industry_group()
    }
}

} // verus!
