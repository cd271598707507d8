//! The basic cluster (0x0000): what the device is, who made it, what
//! powers it and where it stands.
use vstd::prelude::*;

use crate::bytes::ParseError;
use crate::zcl::cluster::{AttributeAccess, AttributeView, ClusterType, ZclAttribute, ZclCluster};
use crate::zcl::frame::{SpecificZclCommand, ZclFrameCommand};
use crate::zcl::types::{ZclData, ZclDataView};

verus! {

/// What powers the device.
#[derive(Clone, Copy, Debug, PartialEq, Eq, Structural)]
pub enum PowerSources {
    Unknown,
    MainsSinglePhase,
    MainsThreePhase,
    Battery,
    DCSource,
    EmergencyMainsConstantlyPowered,
    EmergencyMainsAndTransferSwitch,
}

impl PowerSources {
    /// The enumeration value on the air.
    pub open spec fn spec_to_u8(self) -> u8 {
        match self {
            PowerSources::Unknown => 0,
            PowerSources::MainsSinglePhase => 1,
            PowerSources::MainsThreePhase => 2,
            PowerSources::Battery => 3,
            PowerSources::DCSource => 4,
            PowerSources::EmergencyMainsConstantlyPowered => 5,
            PowerSources::EmergencyMainsAndTransferSwitch => 6,
        }
    }

    /// The value a byte names, if it names one.
    pub open spec fn spec_try_from_u8(v: u8) -> Option<PowerSources> {
        if v == 0 {
            Some(PowerSources::Unknown)
        } else if v == 1 {
            Some(PowerSources::MainsSinglePhase)
        } else if v == 2 {
            Some(PowerSources::MainsThreePhase)
        } else if v == 3 {
            Some(PowerSources::Battery)
        } else if v == 4 {
            Some(PowerSources::DCSource)
        } else if v == 5 {
            Some(PowerSources::EmergencyMainsConstantlyPowered)
        } else if v == 6 {
            Some(PowerSources::EmergencyMainsAndTransferSwitch)
        } else {
            None
        }
    }

    pub fn to_u8(&self) -> (r: u8)
        ensures
            r == self.spec_to_u8(),
    {
        match self {
            PowerSources::Unknown => 0,
            PowerSources::MainsSinglePhase => 1,
            PowerSources::MainsThreePhase => 2,
            PowerSources::Battery => 3,
            PowerSources::DCSource => 4,
            PowerSources::EmergencyMainsConstantlyPowered => 5,
            PowerSources::EmergencyMainsAndTransferSwitch => 6,
        }
    }

    /// Reads a byte; one that names no value is refused.
    pub fn try_from_u8(v: u8) -> (r: Result<PowerSources, ()>)
        ensures
            r matches Ok(e) ==> PowerSources::spec_try_from_u8(v) == Some(e),
            r is Err <==> PowerSources::spec_try_from_u8(v) is None,
    {
        match v {
            0 => Ok(PowerSources::Unknown),
            1 => Ok(PowerSources::MainsSinglePhase),
            2 => Ok(PowerSources::MainsThreePhase),
            3 => Ok(PowerSources::Battery),
            4 => Ok(PowerSources::DCSource),
            5 => Ok(PowerSources::EmergencyMainsConstantlyPowered),
            6 => Ok(PowerSources::EmergencyMainsAndTransferSwitch),
            _ => Err(()),
        }
    }
}

/// Where the device stands.
#[derive(Clone, Copy, Debug, PartialEq, Eq, Structural)]
pub enum PhysicalEnvironments {
    UnspecifiedEnvironment,
    Atrium,
    Bar,
    Courtyard,
    Bathroom,
    Bedroom,
    BilliardRoom,
    UtilityRoom,
    Cellar,
    StorageCloset,
    Theater,
    Office,
    Deck,
    Den,
    DiningRoom,
    ElectricalRoom,
    Elevator,
    Entry,
    FamilyRoom,
    MainFloor,
    Upstairs,
    Downstairs,
    BasementLowerLevel,
    Gallery,
    GameRoom,
    Garage,
    Gym,
    Hallway,
    House,
    Kitchen,
    LaundryRoom,
    Library,
    MasterBedroom,
    MudRoom,
    Nursery,
    Pantry,
    Office2,
    Outside,
    Pool,
    Porch,
    SewingRoom,
    SittingRoom,
    Stairway,
    Yard,
    Attic,
    HotTub,
    LivingRoom,
    Sauna,
    Workshop,
    GuestBedroom,
    GuestBath,
    PowderRoom,
    BackYard,
    FrontYard,
    Patio,
    Driveway,
    SunRoom,
    LivingRoom2,
    Spa,
    Whirlpool,
    Shed,
    EquipmentStorage,
    CraftRoom,
    Fountain,
    Pond,
    ReceptionRoom,
    BreakfastRoom,
    Nook,
    Garden,
    Balcony,
    PanicRoom,
    Terrace,
    Roof,
    Toilet,
    ToiletMain,
    OutsideToilet,
    ShowerRoom,
    Study,
    FrontGarden,
    BackGarden,
    Kettle,
    Television,
    Stove,
    Microwave,
    Toaster,
    Vacuum,
    Appliance,
    FrontDoor,
    BackDoor,
    FridgeDoor,
    MedicationCabinetDoor,
    WardrobeDoor,
    FrontCupboardDoor,
    OtherDoor,
    WaitingRoom,
    TriageRoom,
    DoctorsOffice,
    PatientsPrivateRoom,
    ConsultationRoom,
    NurseStation,
    Ward,
    Corridor,
    OperatingTheatre,
    DentalSurgeryRoom,
    MedicalImagingRoom,
    DecontaminationRoom,
    UnknownEnvironment,
}

impl PhysicalEnvironments {
    /// The enumeration value on the air.
    pub open spec fn spec_to_u8(self) -> u8 {
        match self {
            PhysicalEnvironments::UnspecifiedEnvironment => 0x00,
            PhysicalEnvironments::Atrium => 0x01,
            PhysicalEnvironments::Bar => 0x02,
            PhysicalEnvironments::Courtyard => 0x03,
            PhysicalEnvironments::Bathroom => 0x04,
            PhysicalEnvironments::Bedroom => 0x05,
            PhysicalEnvironments::BilliardRoom => 0x06,
            PhysicalEnvironments::UtilityRoom => 0x07,
            PhysicalEnvironments::Cellar => 0x08,
            PhysicalEnvironments::StorageCloset => 0x09,
            PhysicalEnvironments::Theater => 0x0a,
            PhysicalEnvironments::Office => 0x0b,
            PhysicalEnvironments::Deck => 0x0c,
            PhysicalEnvironments::Den => 0x0d,
            PhysicalEnvironments::DiningRoom => 0x0e,
            PhysicalEnvironments::ElectricalRoom => 0x0f,
            PhysicalEnvironments::Elevator => 0x10,
            PhysicalEnvironments::Entry => 0x11,
            PhysicalEnvironments::FamilyRoom => 0x12,
            PhysicalEnvironments::MainFloor => 0x13,
            PhysicalEnvironments::Upstairs => 0x14,
            PhysicalEnvironments::Downstairs => 0x15,
            PhysicalEnvironments::BasementLowerLevel => 0x16,
            PhysicalEnvironments::Gallery => 0x17,
            PhysicalEnvironments::GameRoom => 0x18,
            PhysicalEnvironments::Garage => 0x19,
            PhysicalEnvironments::Gym => 0x1a,
            PhysicalEnvironments::Hallway => 0x1b,
            PhysicalEnvironments::House => 0x1c,
            PhysicalEnvironments::Kitchen => 0x1d,
            PhysicalEnvironments::LaundryRoom => 0x1e,
            PhysicalEnvironments::Library => 0x1f,
            PhysicalEnvironments::MasterBedroom => 0x20,
            PhysicalEnvironments::MudRoom => 0x21,
            PhysicalEnvironments::Nursery => 0x22,
            PhysicalEnvironments::Pantry => 0x23,
            PhysicalEnvironments::Office2 => 0x24,
            PhysicalEnvironments::Outside => 0x25,
            PhysicalEnvironments::Pool => 0x26,
            PhysicalEnvironments::Porch => 0x27,
            PhysicalEnvironments::SewingRoom => 0x28,
            PhysicalEnvironments::SittingRoom => 0x29,
            PhysicalEnvironments::Stairway => 0x2a,
            PhysicalEnvironments::Yard => 0x2b,
            PhysicalEnvironments::Attic => 0x2c,
            PhysicalEnvironments::HotTub => 0x2d,
            PhysicalEnvironments::LivingRoom => 0x2e,
            PhysicalEnvironments::Sauna => 0x2f,
            PhysicalEnvironments::Workshop => 0x30,
            PhysicalEnvironments::GuestBedroom => 0x31,
            PhysicalEnvironments::GuestBath => 0x32,
            PhysicalEnvironments::PowderRoom => 0x33,
            PhysicalEnvironments::BackYard => 0x34,
            PhysicalEnvironments::FrontYard => 0x35,
            PhysicalEnvironments::Patio => 0x36,
            PhysicalEnvironments::Driveway => 0x37,
            PhysicalEnvironments::SunRoom => 0x38,
            PhysicalEnvironments::LivingRoom2 => 0x39,
            PhysicalEnvironments::Spa => 0x3a,
            PhysicalEnvironments::Whirlpool => 0x3b,
            PhysicalEnvironments::Shed => 0x3c,
            PhysicalEnvironments::EquipmentStorage => 0x3d,
            PhysicalEnvironments::CraftRoom => 0x3e,
            PhysicalEnvironments::Fountain => 0x3f,
            PhysicalEnvironments::Pond => 0x40,
            PhysicalEnvironments::ReceptionRoom => 0x41,
            PhysicalEnvironments::BreakfastRoom => 0x42,
            PhysicalEnvironments::Nook => 0x43,
            PhysicalEnvironments::Garden => 0x44,
            PhysicalEnvironments::Balcony => 0x45,
            PhysicalEnvironments::PanicRoom => 0x46,
            PhysicalEnvironments::Terrace => 0x47,
            PhysicalEnvironments::Roof => 0x48,
            PhysicalEnvironments::Toilet => 0x49,
            PhysicalEnvironments::ToiletMain => 0x4a,
            PhysicalEnvironments::OutsideToilet => 0x4b,
            PhysicalEnvironments::ShowerRoom => 0x4c,
            PhysicalEnvironments::Study => 0x4d,
            PhysicalEnvironments::FrontGarden => 0x4e,
            PhysicalEnvironments::BackGarden => 0x4f,
            PhysicalEnvironments::Kettle => 0x50,
            PhysicalEnvironments::Television => 0x51,
            PhysicalEnvironments::Stove => 0x52,
            PhysicalEnvironments::Microwave => 0x53,
            PhysicalEnvironments::Toaster => 0x54,
            PhysicalEnvironments::Vacuum => 0x55,
            PhysicalEnvironments::Appliance => 0x56,
            PhysicalEnvironments::FrontDoor => 0x57,
            PhysicalEnvironments::BackDoor => 0x58,
            PhysicalEnvironments::FridgeDoor => 0x59,
            PhysicalEnvironments::MedicationCabinetDoor => 0x60,
            PhysicalEnvironments::WardrobeDoor => 0x61,
            PhysicalEnvironments::FrontCupboardDoor => 0x62,
            PhysicalEnvironments::OtherDoor => 0x63,
            PhysicalEnvironments::WaitingRoom => 0x64,
            PhysicalEnvironments::TriageRoom => 0x65,
            PhysicalEnvironments::DoctorsOffice => 0x66,
            PhysicalEnvironments::PatientsPrivateRoom => 0x67,
            PhysicalEnvironments::ConsultationRoom => 0x68,
            PhysicalEnvironments::NurseStation => 0x69,
            PhysicalEnvironments::Ward => 0x6a,
            PhysicalEnvironments::Corridor => 0x6b,
            PhysicalEnvironments::OperatingTheatre => 0x6c,
            PhysicalEnvironments::DentalSurgeryRoom => 0x6d,
            PhysicalEnvironments::MedicalImagingRoom => 0x6e,
            PhysicalEnvironments::DecontaminationRoom => 0x6f,
            PhysicalEnvironments::UnknownEnvironment => 0xff,
        }
    }

    /// The value a byte names, if it names one.
    pub open spec fn spec_try_from_u8(v: u8) -> Option<PhysicalEnvironments> {
        if v == 0x00 {
            Some(PhysicalEnvironments::UnspecifiedEnvironment)
        } else if v == 0x01 {
            Some(PhysicalEnvironments::Atrium)
        } else if v == 0x02 {
            Some(PhysicalEnvironments::Bar)
        } else if v == 0x03 {
            Some(PhysicalEnvironments::Courtyard)
        } else if v == 0x04 {
            Some(PhysicalEnvironments::Bathroom)
        } else if v == 0x05 {
            Some(PhysicalEnvironments::Bedroom)
        } else if v == 0x06 {
            Some(PhysicalEnvironments::BilliardRoom)
        } else if v == 0x07 {
            Some(PhysicalEnvironments::UtilityRoom)
        } else if v == 0x08 {
            Some(PhysicalEnvironments::Cellar)
        } else if v == 0x09 {
            Some(PhysicalEnvironments::StorageCloset)
        } else if v == 0x0a {
            Some(PhysicalEnvironments::Theater)
        } else if v == 0x0b {
            Some(PhysicalEnvironments::Office)
        } else if v == 0x0c {
            Some(PhysicalEnvironments::Deck)
        } else if v == 0x0d {
            Some(PhysicalEnvironments::Den)
        } else if v == 0x0e {
            Some(PhysicalEnvironments::DiningRoom)
        } else if v == 0x0f {
            Some(PhysicalEnvironments::ElectricalRoom)
        } else if v == 0x10 {
            Some(PhysicalEnvironments::Elevator)
        } else if v == 0x11 {
            Some(PhysicalEnvironments::Entry)
        } else if v == 0x12 {
            Some(PhysicalEnvironments::FamilyRoom)
        } else if v == 0x13 {
            Some(PhysicalEnvironments::MainFloor)
        } else if v == 0x14 {
            Some(PhysicalEnvironments::Upstairs)
        } else if v == 0x15 {
            Some(PhysicalEnvironments::Downstairs)
        } else if v == 0x16 {
            Some(PhysicalEnvironments::BasementLowerLevel)
        } else if v == 0x17 {
            Some(PhysicalEnvironments::Gallery)
        } else if v == 0x18 {
            Some(PhysicalEnvironments::GameRoom)
        } else if v == 0x19 {
            Some(PhysicalEnvironments::Garage)
        } else if v == 0x1a {
            Some(PhysicalEnvironments::Gym)
        } else if v == 0x1b {
            Some(PhysicalEnvironments::Hallway)
        } else if v == 0x1c {
            Some(PhysicalEnvironments::House)
        } else if v == 0x1d {
            Some(PhysicalEnvironments::Kitchen)
        } else if v == 0x1e {
            Some(PhysicalEnvironments::LaundryRoom)
        } else if v == 0x1f {
            Some(PhysicalEnvironments::Library)
        } else if v == 0x20 {
            Some(PhysicalEnvironments::MasterBedroom)
        } else if v == 0x21 {
            Some(PhysicalEnvironments::MudRoom)
        } else if v == 0x22 {
            Some(PhysicalEnvironments::Nursery)
        } else if v == 0x23 {
            Some(PhysicalEnvironments::Pantry)
        } else if v == 0x24 {
            Some(PhysicalEnvironments::Office2)
        } else if v == 0x25 {
            Some(PhysicalEnvironments::Outside)
        } else if v == 0x26 {
            Some(PhysicalEnvironments::Pool)
        } else if v == 0x27 {
            Some(PhysicalEnvironments::Porch)
        } else if v == 0x28 {
            Some(PhysicalEnvironments::SewingRoom)
        } else if v == 0x29 {
            Some(PhysicalEnvironments::SittingRoom)
        } else if v == 0x2a {
            Some(PhysicalEnvironments::Stairway)
        } else if v == 0x2b {
            Some(PhysicalEnvironments::Yard)
        } else if v == 0x2c {
            Some(PhysicalEnvironments::Attic)
        } else if v == 0x2d {
            Some(PhysicalEnvironments::HotTub)
        } else if v == 0x2e {
            Some(PhysicalEnvironments::LivingRoom)
        } else if v == 0x2f {
            Some(PhysicalEnvironments::Sauna)
        } else if v == 0x30 {
            Some(PhysicalEnvironments::Workshop)
        } else if v == 0x31 {
            Some(PhysicalEnvironments::GuestBedroom)
        } else if v == 0x32 {
            Some(PhysicalEnvironments::GuestBath)
        } else if v == 0x33 {
            Some(PhysicalEnvironments::PowderRoom)
        } else if v == 0x34 {
            Some(PhysicalEnvironments::BackYard)
        } else if v == 0x35 {
            Some(PhysicalEnvironments::FrontYard)
        } else if v == 0x36 {
            Some(PhysicalEnvironments::Patio)
        } else if v == 0x37 {
            Some(PhysicalEnvironments::Driveway)
        } else if v == 0x38 {
            Some(PhysicalEnvironments::SunRoom)
        } else if v == 0x39 {
            Some(PhysicalEnvironments::LivingRoom2)
        } else if v == 0x3a {
            Some(PhysicalEnvironments::Spa)
        } else if v == 0x3b {
            Some(PhysicalEnvironments::Whirlpool)
        } else if v == 0x3c {
            Some(PhysicalEnvironments::Shed)
        } else if v == 0x3d {
            Some(PhysicalEnvironments::EquipmentStorage)
        } else if v == 0x3e {
            Some(PhysicalEnvironments::CraftRoom)
        } else if v == 0x3f {
            Some(PhysicalEnvironments::Fountain)
        } else if v == 0x40 {
            Some(PhysicalEnvironments::Pond)
        } else if v == 0x41 {
            Some(PhysicalEnvironments::ReceptionRoom)
        } else if v == 0x42 {
            Some(PhysicalEnvironments::BreakfastRoom)
        } else if v == 0x43 {
            Some(PhysicalEnvironments::Nook)
        } else if v == 0x44 {
            Some(PhysicalEnvironments::Garden)
        } else if v == 0x45 {
            Some(PhysicalEnvironments::Balcony)
        } else if v == 0x46 {
            Some(PhysicalEnvironments::PanicRoom)
        } else if v == 0x47 {
            Some(PhysicalEnvironments::Terrace)
        } else if v == 0x48 {
            Some(PhysicalEnvironments::Roof)
        } else if v == 0x49 {
            Some(PhysicalEnvironments::Toilet)
        } else if v == 0x4a {
            Some(PhysicalEnvironments::ToiletMain)
        } else if v == 0x4b {
            Some(PhysicalEnvironments::OutsideToilet)
        } else if v == 0x4c {
            Some(PhysicalEnvironments::ShowerRoom)
        } else if v == 0x4d {
            Some(PhysicalEnvironments::Study)
        } else if v == 0x4e {
            Some(PhysicalEnvironments::FrontGarden)
        } else if v == 0x4f {
            Some(PhysicalEnvironments::BackGarden)
        } else if v == 0x50 {
            Some(PhysicalEnvironments::Kettle)
        } else if v == 0x51 {
            Some(PhysicalEnvironments::Television)
        } else if v == 0x52 {
            Some(PhysicalEnvironments::Stove)
        } else if v == 0x53 {
            Some(PhysicalEnvironments::Microwave)
        } else if v == 0x54 {
            Some(PhysicalEnvironments::Toaster)
        } else if v == 0x55 {
            Some(PhysicalEnvironments::Vacuum)
        } else if v == 0x56 {
            Some(PhysicalEnvironments::Appliance)
        } else if v == 0x57 {
            Some(PhysicalEnvironments::FrontDoor)
        } else if v == 0x58 {
            Some(PhysicalEnvironments::BackDoor)
        } else if v == 0x59 {
            Some(PhysicalEnvironments::FridgeDoor)
        } else if v == 0x60 {
            Some(PhysicalEnvironments::MedicationCabinetDoor)
        } else if v == 0x61 {
            Some(PhysicalEnvironments::WardrobeDoor)
        } else if v == 0x62 {
            Some(PhysicalEnvironments::FrontCupboardDoor)
        } else if v == 0x63 {
            Some(PhysicalEnvironments::OtherDoor)
        } else if v == 0x64 {
            Some(PhysicalEnvironments::WaitingRoom)
        } else if v == 0x65 {
            Some(PhysicalEnvironments::TriageRoom)
        } else if v == 0x66 {
            Some(PhysicalEnvironments::DoctorsOffice)
        } else if v == 0x67 {
            Some(PhysicalEnvironments::PatientsPrivateRoom)
        } else if v == 0x68 {
            Some(PhysicalEnvironments::ConsultationRoom)
        } else if v == 0x69 {
            Some(PhysicalEnvironments::NurseStation)
        } else if v == 0x6a {
            Some(PhysicalEnvironments::Ward)
        } else if v == 0x6b {
            Some(PhysicalEnvironments::Corridor)
        } else if v == 0x6c {
            Some(PhysicalEnvironments::OperatingTheatre)
        } else if v == 0x6d {
            Some(PhysicalEnvironments::DentalSurgeryRoom)
        } else if v == 0x6e {
            Some(PhysicalEnvironments::MedicalImagingRoom)
        } else if v == 0x6f {
            Some(PhysicalEnvironments::DecontaminationRoom)
        } else if v == 0xff {
            Some(PhysicalEnvironments::UnknownEnvironment)
        } else {
            None
        }
    }

    pub fn to_u8(&self) -> (r: u8)
        ensures
            r == self.spec_to_u8(),
    {
        match self {
            PhysicalEnvironments::UnspecifiedEnvironment => 0x00,
            PhysicalEnvironments::Atrium => 0x01,
            PhysicalEnvironments::Bar => 0x02,
            PhysicalEnvironments::Courtyard => 0x03,
            PhysicalEnvironments::Bathroom => 0x04,
            PhysicalEnvironments::Bedroom => 0x05,
            PhysicalEnvironments::BilliardRoom => 0x06,
            PhysicalEnvironments::UtilityRoom => 0x07,
            PhysicalEnvironments::Cellar => 0x08,
            PhysicalEnvironments::StorageCloset => 0x09,
            PhysicalEnvironments::Theater => 0x0a,
            PhysicalEnvironments::Office => 0x0b,
            PhysicalEnvironments::Deck => 0x0c,
            PhysicalEnvironments::Den => 0x0d,
            PhysicalEnvironments::DiningRoom => 0x0e,
            PhysicalEnvironments::ElectricalRoom => 0x0f,
            PhysicalEnvironments::Elevator => 0x10,
            PhysicalEnvironments::Entry => 0x11,
            PhysicalEnvironments::FamilyRoom => 0x12,
            PhysicalEnvironments::MainFloor => 0x13,
            PhysicalEnvironments::Upstairs => 0x14,
            PhysicalEnvironments::Downstairs => 0x15,
            PhysicalEnvironments::BasementLowerLevel => 0x16,
            PhysicalEnvironments::Gallery => 0x17,
            PhysicalEnvironments::GameRoom => 0x18,
            PhysicalEnvironments::Garage => 0x19,
            PhysicalEnvironments::Gym => 0x1a,
            PhysicalEnvironments::Hallway => 0x1b,
            PhysicalEnvironments::House => 0x1c,
            PhysicalEnvironments::Kitchen => 0x1d,
            PhysicalEnvironments::LaundryRoom => 0x1e,
            PhysicalEnvironments::Library => 0x1f,
            PhysicalEnvironments::MasterBedroom => 0x20,
            PhysicalEnvironments::MudRoom => 0x21,
            PhysicalEnvironments::Nursery => 0x22,
            PhysicalEnvironments::Pantry => 0x23,
            PhysicalEnvironments::Office2 => 0x24,
            PhysicalEnvironments::Outside => 0x25,
            PhysicalEnvironments::Pool => 0x26,
            PhysicalEnvironments::Porch => 0x27,
            PhysicalEnvironments::SewingRoom => 0x28,
            PhysicalEnvironments::SittingRoom => 0x29,
            PhysicalEnvironments::Stairway => 0x2a,
            PhysicalEnvironments::Yard => 0x2b,
            PhysicalEnvironments::Attic => 0x2c,
            PhysicalEnvironments::HotTub => 0x2d,
            PhysicalEnvironments::LivingRoom => 0x2e,
            PhysicalEnvironments::Sauna => 0x2f,
            PhysicalEnvironments::Workshop => 0x30,
            PhysicalEnvironments::GuestBedroom => 0x31,
            PhysicalEnvironments::GuestBath => 0x32,
            PhysicalEnvironments::PowderRoom => 0x33,
            PhysicalEnvironments::BackYard => 0x34,
            PhysicalEnvironments::FrontYard => 0x35,
            PhysicalEnvironments::Patio => 0x36,
            PhysicalEnvironments::Driveway => 0x37,
            PhysicalEnvironments::SunRoom => 0x38,
            PhysicalEnvironments::LivingRoom2 => 0x39,
            PhysicalEnvironments::Spa => 0x3a,
            PhysicalEnvironments::Whirlpool => 0x3b,
            PhysicalEnvironments::Shed => 0x3c,
            PhysicalEnvironments::EquipmentStorage => 0x3d,
            PhysicalEnvironments::CraftRoom => 0x3e,
            PhysicalEnvironments::Fountain => 0x3f,
            PhysicalEnvironments::Pond => 0x40,
            PhysicalEnvironments::ReceptionRoom => 0x41,
            PhysicalEnvironments::BreakfastRoom => 0x42,
            PhysicalEnvironments::Nook => 0x43,
            PhysicalEnvironments::Garden => 0x44,
            PhysicalEnvironments::Balcony => 0x45,
            PhysicalEnvironments::PanicRoom => 0x46,
            PhysicalEnvironments::Terrace => 0x47,
            PhysicalEnvironments::Roof => 0x48,
            PhysicalEnvironments::Toilet => 0x49,
            PhysicalEnvironments::ToiletMain => 0x4a,
            PhysicalEnvironments::OutsideToilet => 0x4b,
            PhysicalEnvironments::ShowerRoom => 0x4c,
            PhysicalEnvironments::Study => 0x4d,
            PhysicalEnvironments::FrontGarden => 0x4e,
            PhysicalEnvironments::BackGarden => 0x4f,
            PhysicalEnvironments::Kettle => 0x50,
            PhysicalEnvironments::Television => 0x51,
            PhysicalEnvironments::Stove => 0x52,
            PhysicalEnvironments::Microwave => 0x53,
            PhysicalEnvironments::Toaster => 0x54,
            PhysicalEnvironments::Vacuum => 0x55,
            PhysicalEnvironments::Appliance => 0x56,
            PhysicalEnvironments::FrontDoor => 0x57,
            PhysicalEnvironments::BackDoor => 0x58,
            PhysicalEnvironments::FridgeDoor => 0x59,
            PhysicalEnvironments::MedicationCabinetDoor => 0x60,
            PhysicalEnvironments::WardrobeDoor => 0x61,
            PhysicalEnvironments::FrontCupboardDoor => 0x62,
            PhysicalEnvironments::OtherDoor => 0x63,
            PhysicalEnvironments::WaitingRoom => 0x64,
            PhysicalEnvironments::TriageRoom => 0x65,
            PhysicalEnvironments::DoctorsOffice => 0x66,
            PhysicalEnvironments::PatientsPrivateRoom => 0x67,
            PhysicalEnvironments::ConsultationRoom => 0x68,
            PhysicalEnvironments::NurseStation => 0x69,
            PhysicalEnvironments::Ward => 0x6a,
            PhysicalEnvironments::Corridor => 0x6b,
            PhysicalEnvironments::OperatingTheatre => 0x6c,
            PhysicalEnvironments::DentalSurgeryRoom => 0x6d,
            PhysicalEnvironments::MedicalImagingRoom => 0x6e,
            PhysicalEnvironments::DecontaminationRoom => 0x6f,
            PhysicalEnvironments::UnknownEnvironment => 0xff,
        }
    }

    /// Reads a byte; one that names no value is refused.
    pub fn try_from_u8(v: u8) -> (r: Result<PhysicalEnvironments, ()>)
        ensures
            r matches Ok(e) ==> PhysicalEnvironments::spec_try_from_u8(v) == Some(e),
            r is Err <==> PhysicalEnvironments::spec_try_from_u8(v) is None,
    {
        match v {
            0x00 => Ok(PhysicalEnvironments::UnspecifiedEnvironment),
            0x01 => Ok(PhysicalEnvironments::Atrium),
            0x02 => Ok(PhysicalEnvironments::Bar),
            0x03 => Ok(PhysicalEnvironments::Courtyard),
            0x04 => Ok(PhysicalEnvironments::Bathroom),
            0x05 => Ok(PhysicalEnvironments::Bedroom),
            0x06 => Ok(PhysicalEnvironments::BilliardRoom),
            0x07 => Ok(PhysicalEnvironments::UtilityRoom),
            0x08 => Ok(PhysicalEnvironments::Cellar),
            0x09 => Ok(PhysicalEnvironments::StorageCloset),
            0x0a => Ok(PhysicalEnvironments::Theater),
            0x0b => Ok(PhysicalEnvironments::Office),
            0x0c => Ok(PhysicalEnvironments::Deck),
            0x0d => Ok(PhysicalEnvironments::Den),
            0x0e => Ok(PhysicalEnvironments::DiningRoom),
            0x0f => Ok(PhysicalEnvironments::ElectricalRoom),
            0x10 => Ok(PhysicalEnvironments::Elevator),
            0x11 => Ok(PhysicalEnvironments::Entry),
            0x12 => Ok(PhysicalEnvironments::FamilyRoom),
            0x13 => Ok(PhysicalEnvironments::MainFloor),
            0x14 => Ok(PhysicalEnvironments::Upstairs),
            0x15 => Ok(PhysicalEnvironments::Downstairs),
            0x16 => Ok(PhysicalEnvironments::BasementLowerLevel),
            0x17 => Ok(PhysicalEnvironments::Gallery),
            0x18 => Ok(PhysicalEnvironments::GameRoom),
            0x19 => Ok(PhysicalEnvironments::Garage),
            0x1a => Ok(PhysicalEnvironments::Gym),
            0x1b => Ok(PhysicalEnvironments::Hallway),
            0x1c => Ok(PhysicalEnvironments::House),
            0x1d => Ok(PhysicalEnvironments::Kitchen),
            0x1e => Ok(PhysicalEnvironments::LaundryRoom),
            0x1f => Ok(PhysicalEnvironments::Library),
            0x20 => Ok(PhysicalEnvironments::MasterBedroom),
            0x21 => Ok(PhysicalEnvironments::MudRoom),
            0x22 => Ok(PhysicalEnvironments::Nursery),
            0x23 => Ok(PhysicalEnvironments::Pantry),
            0x24 => Ok(PhysicalEnvironments::Office2),
            0x25 => Ok(PhysicalEnvironments::Outside),
            0x26 => Ok(PhysicalEnvironments::Pool),
            0x27 => Ok(PhysicalEnvironments::Porch),
            0x28 => Ok(PhysicalEnvironments::SewingRoom),
            0x29 => Ok(PhysicalEnvironments::SittingRoom),
            0x2a => Ok(PhysicalEnvironments::Stairway),
            0x2b => Ok(PhysicalEnvironments::Yard),
            0x2c => Ok(PhysicalEnvironments::Attic),
            0x2d => Ok(PhysicalEnvironments::HotTub),
            0x2e => Ok(PhysicalEnvironments::LivingRoom),
            0x2f => Ok(PhysicalEnvironments::Sauna),
            0x30 => Ok(PhysicalEnvironments::Workshop),
            0x31 => Ok(PhysicalEnvironments::GuestBedroom),
            0x32 => Ok(PhysicalEnvironments::GuestBath),
            0x33 => Ok(PhysicalEnvironments::PowderRoom),
            0x34 => Ok(PhysicalEnvironments::BackYard),
            0x35 => Ok(PhysicalEnvironments::FrontYard),
            0x36 => Ok(PhysicalEnvironments::Patio),
            0x37 => Ok(PhysicalEnvironments::Driveway),
            0x38 => Ok(PhysicalEnvironments::SunRoom),
            0x39 => Ok(PhysicalEnvironments::LivingRoom2),
            0x3a => Ok(PhysicalEnvironments::Spa),
            0x3b => Ok(PhysicalEnvironments::Whirlpool),
            0x3c => Ok(PhysicalEnvironments::Shed),
            0x3d => Ok(PhysicalEnvironments::EquipmentStorage),
            0x3e => Ok(PhysicalEnvironments::CraftRoom),
            0x3f => Ok(PhysicalEnvironments::Fountain),
            0x40 => Ok(PhysicalEnvironments::Pond),
            0x41 => Ok(PhysicalEnvironments::ReceptionRoom),
            0x42 => Ok(PhysicalEnvironments::BreakfastRoom),
            0x43 => Ok(PhysicalEnvironments::Nook),
            0x44 => Ok(PhysicalEnvironments::Garden),
            0x45 => Ok(PhysicalEnvironments::Balcony),
            0x46 => Ok(PhysicalEnvironments::PanicRoom),
            0x47 => Ok(PhysicalEnvironments::Terrace),
            0x48 => Ok(PhysicalEnvironments::Roof),
            0x49 => Ok(PhysicalEnvironments::Toilet),
            0x4a => Ok(PhysicalEnvironments::ToiletMain),
            0x4b => Ok(PhysicalEnvironments::OutsideToilet),
            0x4c => Ok(PhysicalEnvironments::ShowerRoom),
            0x4d => Ok(PhysicalEnvironments::Study),
            0x4e => Ok(PhysicalEnvironments::FrontGarden),
            0x4f => Ok(PhysicalEnvironments::BackGarden),
            0x50 => Ok(PhysicalEnvironments::Kettle),
            0x51 => Ok(PhysicalEnvironments::Television),
            0x52 => Ok(PhysicalEnvironments::Stove),
            0x53 => Ok(PhysicalEnvironments::Microwave),
            0x54 => Ok(PhysicalEnvironments::Toaster),
            0x55 => Ok(PhysicalEnvironments::Vacuum),
            0x56 => Ok(PhysicalEnvironments::Appliance),
            0x57 => Ok(PhysicalEnvironments::FrontDoor),
            0x58 => Ok(PhysicalEnvironments::BackDoor),
            0x59 => Ok(PhysicalEnvironments::FridgeDoor),
            0x60 => Ok(PhysicalEnvironments::MedicationCabinetDoor),
            0x61 => Ok(PhysicalEnvironments::WardrobeDoor),
            0x62 => Ok(PhysicalEnvironments::FrontCupboardDoor),
            0x63 => Ok(PhysicalEnvironments::OtherDoor),
            0x64 => Ok(PhysicalEnvironments::WaitingRoom),
            0x65 => Ok(PhysicalEnvironments::TriageRoom),
            0x66 => Ok(PhysicalEnvironments::DoctorsOffice),
            0x67 => Ok(PhysicalEnvironments::PatientsPrivateRoom),
            0x68 => Ok(PhysicalEnvironments::ConsultationRoom),
            0x69 => Ok(PhysicalEnvironments::NurseStation),
            0x6a => Ok(PhysicalEnvironments::Ward),
            0x6b => Ok(PhysicalEnvironments::Corridor),
            0x6c => Ok(PhysicalEnvironments::OperatingTheatre),
            0x6d => Ok(PhysicalEnvironments::DentalSurgeryRoom),
            0x6e => Ok(PhysicalEnvironments::MedicalImagingRoom),
            0x6f => Ok(PhysicalEnvironments::DecontaminationRoom),
            0xff => Ok(PhysicalEnvironments::UnknownEnvironment),
            _ => Err(()),
        }
    }
}

impl Default for PowerSources {
    fn default() -> (r: Self)
        ensures
            r == PowerSources::Unknown,
    {
        PowerSources::Unknown
    }
}

impl Default for PhysicalEnvironments {
    fn default() -> (r: Self)
        ensures
            r == PhysicalEnvironments::UnspecifiedEnvironment,
    {
        PhysicalEnvironments::UnspecifiedEnvironment
    }
}

/// Each power source's byte names it again.
pub proof fn lemma_power_source_roundtrip(p: PowerSources)
    ensures
        PowerSources::spec_try_from_u8(p.spec_to_u8()) == Some(p),
{
}

/// Each environment's byte names it again.
pub proof fn lemma_physical_environment_roundtrip(e: PhysicalEnvironments)
    ensures
        PhysicalEnvironments::spec_try_from_u8(e.spec_to_u8()) == Some(e),
{
}

/// Which alarms are enabled: a general hardware fault in bit 0, a general
/// software fault in bit 1.
#[derive(Clone, Copy, Debug, PartialEq, Eq, Structural)]
pub struct AlarmMask {
    pub general_hardware_fault: bool,
    pub general_software_fault: bool,
}

impl AlarmMask {
    pub open spec fn spec_to_u8(self) -> u8 {
        ((if self.general_hardware_fault { 1u8 } else { 0u8 }) + (if self.general_software_fault { 2u8 } else { 0u8 })) as u8
    }

    pub open spec fn spec_from_u8(v: u8) -> AlarmMask {
        AlarmMask { general_hardware_fault: v % 2 == 1, general_software_fault: (v / 2) % 2 == 1 }
    }

    pub fn to_u8(&self) -> (r: u8)
        ensures
            r == self.spec_to_u8(),
    {
        let a: u8 = if self.general_hardware_fault { 1 } else { 0 };
        let b: u8 = if self.general_software_fault { 2 } else { 0 };
        a + b
    }

    /// Reads bits 0 and 1 and ignores the others.
    pub fn from_u8(v: u8) -> (r: AlarmMask)
        ensures
            r == AlarmMask::spec_from_u8(v),
    {
        AlarmMask { general_hardware_fault: v % 2 == 1, general_software_fault: (v / 2) % 2 == 1 }
    }
}

impl Default for AlarmMask {
    fn default() -> (r: Self)
        ensures
            r == (AlarmMask { general_hardware_fault: false, general_software_fault: false }),
    {
        AlarmMask { general_hardware_fault: false, general_software_fault: false }
    }
}

/// Which local settings are disabled: a reset to factory defaults in bit
/// 0, the device's configuration in bit 1.
#[derive(Clone, Copy, Debug, PartialEq, Eq, Structural)]
pub struct DisableLocalConfigMask {
    pub reset_to_factory_defaults_disabled: bool,
    pub device_configuration_disabled: bool,
}

impl DisableLocalConfigMask {
    pub open spec fn spec_to_u8(self) -> u8 {
        ((if self.reset_to_factory_defaults_disabled { 1u8 } else { 0u8 }) + (if self.device_configuration_disabled { 2u8 } else { 0u8 })) as u8
    }

    pub open spec fn spec_from_u8(v: u8) -> DisableLocalConfigMask {
        DisableLocalConfigMask {
            reset_to_factory_defaults_disabled: v % 2 == 1,
            device_configuration_disabled: (v / 2) % 2 == 1,
        }
    }

    pub fn to_u8(&self) -> (r: u8)
        ensures
            r == self.spec_to_u8(),
    {
        let a: u8 = if self.reset_to_factory_defaults_disabled { 1 } else { 0 };
        let b: u8 = if self.device_configuration_disabled { 2 } else { 0 };
        a + b
    }

    /// Reads bits 0 and 1 and ignores the others.
    pub fn from_u8(v: u8) -> (r: DisableLocalConfigMask)
        ensures
            r == DisableLocalConfigMask::spec_from_u8(v),
    {
        DisableLocalConfigMask {
            reset_to_factory_defaults_disabled: v % 2 == 1,
            device_configuration_disabled: (v / 2) % 2 == 1,
        }
    }
}

impl Default for DisableLocalConfigMask {
    fn default() -> (r: Self)
        ensures
            r == (DisableLocalConfigMask { reset_to_factory_defaults_disabled: false, device_configuration_disabled: false }),
    {
        DisableLocalConfigMask { reset_to_factory_defaults_disabled: false, device_configuration_disabled: false }
    }
}

/// Both masks read back from their byte as they were.
pub proof fn lemma_masks_roundtrip(a: AlarmMask, d: DisableLocalConfigMask)
    ensures
        AlarmMask::spec_from_u8(a.spec_to_u8()) == a,
        DisableLocalConfigMask::spec_from_u8(d.spec_to_u8()) == d,
{
}

/// The version of the cluster library the device implements (attribute 0x0000; read only; 2 by default).
pub struct ZclVersion {
    pub value: u8,
}

impl ZclVersion {
    pub fn new(value: u8) -> (r: Self)
        ensures
            r.value == value,
    {
        ZclVersion { value }
    }

    pub open spec fn spec_attribute(&self) -> AttributeView {
        AttributeView {
            identifier: 0x0000,
            access: AttributeAccess { read: true, write: false, report: false, scene: false },
            value: ZclDataView::UInt8(self.value),
            range: None,
            reporting: None,
        }
    }

    /// The attribute as the cluster library holds it.
    pub fn attribute(&self) -> (r: ZclAttribute)
        ensures
            r.spec_view() == self.spec_attribute(),
    {
        ZclAttribute::new(0x0000, AttributeAccess::read_only(), None, ZclData::UInt8(self.value))
    }
}

/// The version of the application (attribute 0x0001; read only).
pub struct ApplicationVersion {
    pub value: u8,
}

impl ApplicationVersion {
    pub fn new(value: u8) -> (r: Self)
        ensures
            r.value == value,
    {
        ApplicationVersion { value }
    }

    pub open spec fn spec_attribute(&self) -> AttributeView {
        AttributeView {
            identifier: 0x0001,
            access: AttributeAccess { read: true, write: false, report: false, scene: false },
            value: ZclDataView::UInt8(self.value),
            range: None,
            reporting: None,
        }
    }

    /// The attribute as the cluster library holds it.
    pub fn attribute(&self) -> (r: ZclAttribute)
        ensures
            r.spec_view() == self.spec_attribute(),
    {
        ZclAttribute::new(0x0001, AttributeAccess::read_only(), None, ZclData::UInt8(self.value))
    }
}

/// The version of the stack (attribute 0x0002; read only).
pub struct StackVersion {
    pub value: u8,
}

impl StackVersion {
    pub fn new(value: u8) -> (r: Self)
        ensures
            r.value == value,
    {
        StackVersion { value }
    }

    pub open spec fn spec_attribute(&self) -> AttributeView {
        AttributeView {
            identifier: 0x0002,
            access: AttributeAccess { read: true, write: false, report: false, scene: false },
            value: ZclDataView::UInt8(self.value),
            range: None,
            reporting: None,
        }
    }

    /// The attribute as the cluster library holds it.
    pub fn attribute(&self) -> (r: ZclAttribute)
        ensures
            r.spec_view() == self.spec_attribute(),
    {
        ZclAttribute::new(0x0002, AttributeAccess::read_only(), None, ZclData::UInt8(self.value))
    }
}

/// The version of the hardware (attribute 0x0003; read only).
pub struct HwVersion {
    pub value: u8,
}

impl HwVersion {
    pub fn new(value: u8) -> (r: Self)
        ensures
            r.value == value,
    {
        HwVersion { value }
    }

    pub open spec fn spec_attribute(&self) -> AttributeView {
        AttributeView {
            identifier: 0x0003,
            access: AttributeAccess { read: true, write: false, report: false, scene: false },
            value: ZclDataView::UInt8(self.value),
            range: None,
            reporting: None,
        }
    }

    /// The attribute as the cluster library holds it.
    pub fn attribute(&self) -> (r: ZclAttribute)
        ensures
            r.spec_view() == self.spec_attribute(),
    {
        ZclAttribute::new(0x0003, AttributeAccess::read_only(), None, ZclData::UInt8(self.value))
    }
}

/// The manufacturer's name (attribute 0x0004; read only).
pub struct ManufacturerName {
    pub value: String,
}

impl ManufacturerName {
    pub fn new(value: String) -> (r: Self)
        ensures
            r.value == value,
    {
        ManufacturerName { value }
    }

    pub open spec fn spec_attribute(&self) -> AttributeView {
        AttributeView {
            identifier: 0x0004,
            access: AttributeAccess { read: true, write: false, report: false, scene: false },
            value: ZclDataView::String(self.value@),
            range: None,
            reporting: None,
        }
    }

    /// The attribute as the cluster library holds it.
    pub fn attribute(&self) -> (r: ZclAttribute)
        ensures
            r.spec_view() == self.spec_attribute(),
    {
        ZclAttribute::new(0x0004, AttributeAccess::read_only(), None, ZclData::String(self.value.clone()))
    }
}

/// The model's name (attribute 0x0005; read only).
pub struct ModelIdentifier {
    pub value: String,
}

impl ModelIdentifier {
    pub fn new(value: String) -> (r: Self)
        ensures
            r.value == value,
    {
        ModelIdentifier { value }
    }

    pub open spec fn spec_attribute(&self) -> AttributeView {
        AttributeView {
            identifier: 0x0005,
            access: AttributeAccess { read: true, write: false, report: false, scene: false },
            value: ZclDataView::String(self.value@),
            range: None,
            reporting: None,
        }
    }

    /// The attribute as the cluster library holds it.
    pub fn attribute(&self) -> (r: ZclAttribute)
        ensures
            r.spec_view() == self.spec_attribute(),
    {
        ZclAttribute::new(0x0005, AttributeAccess::read_only(), None, ZclData::String(self.value.clone()))
    }
}

/// When the device was made (attribute 0x0006; read only).
pub struct DateCode {
    pub value: String,
}

impl DateCode {
    pub fn new(value: String) -> (r: Self)
        ensures
            r.value == value,
    {
        DateCode { value }
    }

    pub open spec fn spec_attribute(&self) -> AttributeView {
        AttributeView {
            identifier: 0x0006,
            access: AttributeAccess { read: true, write: false, report: false, scene: false },
            value: ZclDataView::String(self.value@),
            range: None,
            reporting: None,
        }
    }

    /// The attribute as the cluster library holds it.
    pub fn attribute(&self) -> (r: ZclAttribute)
        ensures
            r.spec_view() == self.spec_attribute(),
    {
        ZclAttribute::new(0x0006, AttributeAccess::read_only(), None, ZclData::String(self.value.clone()))
    }
}

/// What powers the device (attribute 0x0007; read only; an 8-bit enumeration).
pub struct PowerSource {
    pub value: PowerSources,
}

impl PowerSource {
    pub fn new(value: PowerSources) -> (r: Self)
        ensures
            r.value == value,
    {
        PowerSource { value }
    }

    pub open spec fn spec_attribute(&self) -> AttributeView {
        AttributeView {
            identifier: 0x0007,
            access: AttributeAccess { read: true, write: false, report: false, scene: false },
            value: ZclDataView::Enum8(self.value.spec_to_u8()),
            range: None,
            reporting: None,
        }
    }

    /// The attribute as the cluster library holds it.
    pub fn attribute(&self) -> (r: ZclAttribute)
        ensures
            r.spec_view() == self.spec_attribute(),
    {
        ZclAttribute::new(0x0007, AttributeAccess::read_only(), None, ZclData::Enum8(self.value.to_u8()))
    }
}

/// Where the device is (attribute 0x0010; read only).
pub struct LocationDescription {
    pub value: String,
}

impl LocationDescription {
    pub fn new(value: String) -> (r: Self)
        ensures
            r.value == value,
    {
        LocationDescription { value }
    }

    pub open spec fn spec_attribute(&self) -> AttributeView {
        AttributeView {
            identifier: 0x0010,
            access: AttributeAccess { read: true, write: false, report: false, scene: false },
            value: ZclDataView::String(self.value@),
            range: None,
            reporting: None,
        }
    }

    /// The attribute as the cluster library holds it.
    pub fn attribute(&self) -> (r: ZclAttribute)
        ensures
            r.spec_view() == self.spec_attribute(),
    {
        ZclAttribute::new(0x0010, AttributeAccess::read_only(), None, ZclData::String(self.value.clone()))
    }
}

/// What kind of place the device is in (attribute 0x0011; read only; an 8-bit enumeration).
pub struct PhysicalEnvironment {
    pub value: PhysicalEnvironments,
}

impl PhysicalEnvironment {
    pub fn new(value: PhysicalEnvironments) -> (r: Self)
        ensures
            r.value == value,
    {
        PhysicalEnvironment { value }
    }

    pub open spec fn spec_attribute(&self) -> AttributeView {
        AttributeView {
            identifier: 0x0011,
            access: AttributeAccess { read: true, write: false, report: false, scene: false },
            value: ZclDataView::Enum8(self.value.spec_to_u8()),
            range: None,
            reporting: None,
        }
    }

    /// The attribute as the cluster library holds it.
    pub fn attribute(&self) -> (r: ZclAttribute)
        ensures
            r.spec_view() == self.spec_attribute(),
    {
        ZclAttribute::new(0x0011, AttributeAccess::read_only(), None, ZclData::Enum8(self.value.to_u8()))
    }
}

/// Whether the device is enabled (attribute 0x0012; read and write; set by default).
pub struct DeviceEnabled {
    pub value: bool,
}

impl DeviceEnabled {
    pub fn new(value: bool) -> (r: Self)
        ensures
            r.value == value,
    {
        DeviceEnabled { value }
    }

    pub open spec fn spec_attribute(&self) -> AttributeView {
        AttributeView {
            identifier: 0x0012,
            access: AttributeAccess { read: true, write: true, report: false, scene: false },
            value: ZclDataView::Bool(self.value),
            range: None,
            reporting: None,
        }
    }

    /// The attribute as the cluster library holds it.
    pub fn attribute(&self) -> (r: ZclAttribute)
        ensures
            r.spec_view() == self.spec_attribute(),
    {
        ZclAttribute::new(0x0012, AttributeAccess::read_write(), None, ZclData::Bool(self.value))
    }
}

/// Which alarms are enabled (attribute 0x0013; read and write; an 8-bit bitmap).
pub struct Alarm {
    pub value: AlarmMask,
}

impl Alarm {
    pub fn new(value: AlarmMask) -> (r: Self)
        ensures
            r.value == value,
    {
        Alarm { value }
    }

    pub open spec fn spec_attribute(&self) -> AttributeView {
        AttributeView {
            identifier: 0x0013,
            access: AttributeAccess { read: true, write: true, report: false, scene: false },
            value: ZclDataView::Bitmap8(self.value.spec_to_u8()),
            range: None,
            reporting: None,
        }
    }

    /// The attribute as the cluster library holds it.
    pub fn attribute(&self) -> (r: ZclAttribute)
        ensures
            r.spec_view() == self.spec_attribute(),
    {
        ZclAttribute::new(0x0013, AttributeAccess::read_write(), None, ZclData::Bitmap8(self.value.to_u8()))
    }
}

/// Which local settings are disabled (attribute 0x0014; read and write; an 8-bit bitmap).
pub struct DisableLocalConfig {
    pub value: DisableLocalConfigMask,
}

impl DisableLocalConfig {
    pub fn new(value: DisableLocalConfigMask) -> (r: Self)
        ensures
            r.value == value,
    {
        DisableLocalConfig { value }
    }

    pub open spec fn spec_attribute(&self) -> AttributeView {
        AttributeView {
            identifier: 0x0014,
            access: AttributeAccess { read: true, write: true, report: false, scene: false },
            value: ZclDataView::Bitmap8(self.value.spec_to_u8()),
            range: None,
            reporting: None,
        }
    }

    /// The attribute as the cluster library holds it.
    pub fn attribute(&self) -> (r: ZclAttribute)
        ensures
            r.spec_view() == self.spec_attribute(),
    {
        ZclAttribute::new(0x0014, AttributeAccess::read_write(), None, ZclData::Bitmap8(self.value.to_u8()))
    }
}

/// The build of the software (attribute 0x0015; read only).
pub struct SwBuildId {
    pub value: String,
}

impl SwBuildId {
    pub fn new(value: String) -> (r: Self)
        ensures
            r.value == value,
    {
        SwBuildId { value }
    }

    pub open spec fn spec_attribute(&self) -> AttributeView {
        AttributeView {
            identifier: 0x0015,
            access: AttributeAccess { read: true, write: false, report: false, scene: false },
            value: ZclDataView::String(self.value@),
            range: None,
            reporting: None,
        }
    }

    /// The attribute as the cluster library holds it.
    pub fn attribute(&self) -> (r: ZclAttribute)
        ensures
            r.spec_view() == self.spec_attribute(),
    {
        ZclAttribute::new(0x0015, AttributeAccess::read_only(), None, ZclData::String(self.value.clone()))
    }
}

impl Default for ZclVersion {
    fn default() -> (r: Self)
        ensures
            r.value == 0x02,
    {
        ZclVersion { value: 0x02 }
    }
}

impl Default for LocationDescription {
    fn default() -> (r: Self)
        ensures
            r.value@ == Seq::<char>::empty(),
    {
        LocationDescription { value: String::new() }
    }
}

impl Default for PhysicalEnvironment {
    fn default() -> (r: Self)
        ensures
            r.value == PhysicalEnvironments::UnspecifiedEnvironment,
    {
        PhysicalEnvironment { value: PhysicalEnvironments::UnspecifiedEnvironment }
    }
}

impl Default for DeviceEnabled {
    fn default() -> (r: Self)
        ensures
            r.value,
    {
        DeviceEnabled { value: true }
    }
}

impl Default for Alarm {
    fn default() -> (r: Self)
        ensures
            r.value == (AlarmMask { general_hardware_fault: false, general_software_fault: false }),
    {
        Alarm { value: AlarmMask { general_hardware_fault: false, general_software_fault: false } }
    }
}

impl Default for DisableLocalConfig {
    fn default() -> (r: Self)
        ensures
            r.value == (DisableLocalConfigMask { reset_to_factory_defaults_disabled: false, device_configuration_disabled: false }),
    {
        DisableLocalConfig {
            value: DisableLocalConfigMask { reset_to_factory_defaults_disabled: false, device_configuration_disabled: false },
        }
    }
}

/// The basic cluster of a device.
pub struct BasicCluster {
    pub version: ZclVersion,
    pub application_version: ApplicationVersion,
    pub stack_version: StackVersion,
    pub hw_version: HwVersion,
    pub manufacturer_name: ManufacturerName,
    pub model_identifier: ModelIdentifier,
    pub date_code: DateCode,
    pub power_source: PowerSource,
    pub location: LocationDescription,
    pub physical_environment: PhysicalEnvironment,
    pub device_enabled: DeviceEnabled,
    pub alarm: Alarm,
    pub disable_local_config: DisableLocalConfig,
    pub sw_build_id: SwBuildId,
}

/// What a device says of itself in its basic cluster.
pub struct BasicClusterConfig {
    pub application_version: u8,
    pub stack_version: u8,
    pub hw_version: u8,
    pub manufacturer_name: String,
    pub model_identifier: String,
    pub date_code: String,
    pub power_source: PowerSources,
    pub sw_build_id: String,
}

impl Default for BasicClusterConfig {
    fn default() -> (r: Self)
        ensures
            r.application_version == 0,
            r.stack_version == 0,
            r.hw_version == 0,
            r.manufacturer_name@ == Seq::<char>::empty(),
            r.model_identifier@ == Seq::<char>::empty(),
            r.date_code@ == Seq::<char>::empty(),
            r.power_source == PowerSources::Unknown,
            r.sw_build_id@ == Seq::<char>::empty(),
    {
        BasicClusterConfig {
            application_version: 0,
            stack_version: 0,
            hw_version: 0,
            manufacturer_name: String::new(),
            model_identifier: String::new(),
            date_code: String::new(),
            power_source: PowerSources::Unknown,
            sw_build_id: String::new(),
        }
    }
}

impl BasicCluster {
    /// The cluster of a device that `config` describes: library version 2,
    /// no location, an unspecified environment, enabled, with no alarm and
    /// no local setting disabled.
    pub fn with_config(config: BasicClusterConfig) -> (r: Self)
        ensures
            r.version.value == 0x02,
            r.application_version.value == config.application_version,
            r.stack_version.value == config.stack_version,
            r.hw_version.value == config.hw_version,
            r.manufacturer_name.value == config.manufacturer_name,
            r.model_identifier.value == config.model_identifier,
            r.date_code.value == config.date_code,
            r.power_source.value == config.power_source,
            r.location.value@ == Seq::<char>::empty(),
            r.physical_environment.value == PhysicalEnvironments::UnspecifiedEnvironment,
            r.device_enabled.value,
            r.alarm.value == (AlarmMask { general_hardware_fault: false, general_software_fault: false }),
            r.disable_local_config.value == (DisableLocalConfigMask {
                reset_to_factory_defaults_disabled: false,
                device_configuration_disabled: false,
            }),
            r.sw_build_id.value == config.sw_build_id,
    {
        BasicCluster {
            version: ZclVersion::default(),
            application_version: ApplicationVersion::new(config.application_version),
            stack_version: StackVersion::new(config.stack_version),
            hw_version: HwVersion::new(config.hw_version),
            manufacturer_name: ManufacturerName::new(config.manufacturer_name),
            model_identifier: ModelIdentifier::new(config.model_identifier),
            date_code: DateCode::new(config.date_code),
            power_source: PowerSource::new(config.power_source),
            location: LocationDescription::default(),
            physical_environment: PhysicalEnvironment::default(),
            device_enabled: DeviceEnabled::default(),
            alarm: Alarm::default(),
            disable_local_config: DisableLocalConfig::default(),
            sw_build_id: SwBuildId::new(config.sw_build_id),
        }
    }

    pub open spec fn spec_attributes(&self) -> Map<u16, AttributeView> {
        map![
            0x0000u16 => self.version.spec_attribute(),
            0x0001u16 => self.application_version.spec_attribute(),
            0x0002u16 => self.stack_version.spec_attribute(),
            0x0003u16 => self.hw_version.spec_attribute(),
            0x0004u16 => self.manufacturer_name.spec_attribute(),
            0x0005u16 => self.model_identifier.spec_attribute(),
            0x0006u16 => self.date_code.spec_attribute(),
            0x0007u16 => self.power_source.spec_attribute(),
            0x0010u16 => self.location.spec_attribute(),
            0x0011u16 => self.physical_environment.spec_attribute(),
            0x0012u16 => self.device_enabled.spec_attribute(),
            0x0013u16 => self.alarm.spec_attribute(),
            0x0014u16 => self.disable_local_config.spec_attribute(),
            0x0015u16 => self.sw_build_id.spec_attribute(),
        ]
    }

    /// The cluster's attributes as the cluster library holds them.
    pub fn zcl_cluster(&self) -> (r: ZclCluster)
        ensures
            r.identifier == 0x0000,
            r.cluster_type == ClusterType::Client,
            r.spec_attrs() == self.spec_attributes(),
    {
        let mut c = ZclCluster::new(0x0000, ClusterType::Client);
        let _ = c.add_attribute(self.version.attribute());
        let _ = c.add_attribute(self.application_version.attribute());
        let _ = c.add_attribute(self.stack_version.attribute());
        let _ = c.add_attribute(self.hw_version.attribute());
        let _ = c.add_attribute(self.manufacturer_name.attribute());
        let _ = c.add_attribute(self.model_identifier.attribute());
        let _ = c.add_attribute(self.date_code.attribute());
        let _ = c.add_attribute(self.power_source.attribute());
        let _ = c.add_attribute(self.location.attribute());
        let _ = c.add_attribute(self.physical_environment.attribute());
        let _ = c.add_attribute(self.device_enabled.attribute());
        let _ = c.add_attribute(self.alarm.attribute());
        let _ = c.add_attribute(self.disable_local_config.attribute());
        let _ = c.add_attribute(self.sw_build_id.attribute());
        proof {
            assert(c.spec_attrs() =~= self.spec_attributes());
        }
        c
    }
}

/// A command of the cluster: 0x00 reset to factory defaults.
#[derive(Clone, Copy, Debug, PartialEq, Eq, Structural)]
pub enum BasicZclCommand {
    ResetToFactoryDefaults,
}

impl BasicZclCommand {
    pub open spec fn spec_parse(cmd_id: u8) -> Result<(BasicZclCommand, usize), ParseError> {
        if cmd_id == 0x00 {
            Ok((BasicZclCommand::ResetToFactoryDefaults, 0))
        } else {
            Err(ParseError::BadInput)
        }
    }

    /// The command `cmd_id` names; it takes no bytes.
    pub fn try_read(bytes: &[u8], cmd_id: u8) -> (r: Result<(BasicZclCommand, usize), ParseError>)
        ensures
            r == BasicZclCommand::spec_parse(cmd_id),
    {
        if cmd_id == 0x00 {
            Ok((BasicZclCommand::ResetToFactoryDefaults, 0))
        } else {
            Err(ParseError::BadInput)
        }
    }
}

/// Runs a command of the cluster. A reset to factory defaults is not
/// supported here and may not be handed in; any other command is not one
/// of the cluster's, changes nothing and is not answered.
pub fn basic_cmd_handler(_cluster: &mut BasicCluster, cmd: &SpecificZclCommand) -> (r: Option<ZclFrameCommand>)
    requires
        BasicZclCommand::spec_parse(cmd.identifier) is Err,
    ensures
        r is None,
        *final(_cluster) == *old(_cluster),
{
    match BasicZclCommand::try_read(cmd.data.as_slice(), cmd.identifier) {
        Ok(_) => None,
        Err(_) => None,
    }
}

} // verus!
