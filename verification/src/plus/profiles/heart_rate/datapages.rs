use vstd::prelude::*;
use crate::channel::ChannelError;
use crate::plus::common::datapages::{
    high_byte, in_manufacturer_specific_range, le_byte, low_byte, middle_byte, u16_from_le,
    u16_of_le, u24_from_le, u24_of_le,
};

verus! {

/// The device type that heart-rate monitors announce.
pub const DEVICE_TYPE: u8 = 120;

/// The bits of a page's first byte that hold its number; the bit above them
/// is the page-change toggle.
pub const DATA_PAGE_NUMBER_MASK: u8 = 0x7F;

/// What a page writes into a byte it does not use.
pub const RESERVED: u8 = 0xFF;

/// The pages of the heart-rate profile.
#[derive(Clone, Copy, Debug, PartialEq, Eq, Structural)]
pub enum DataPageNumbers {
    DefaultDataPage,
    CumulativeOperatingTime,
    ManufacturerInformation,
    ProductInformation,
    PreviousHeartBeat,
    SwimIntervalSummary,
    Capabilities,
    BatteryStatus,
    DeviceInformation,
    HRFeatureCommand,
}

impl DataPageNumbers {
    /// The number a page goes by on the air.
    pub open spec fn number(self) -> u8 {
        match self {
            DataPageNumbers::DefaultDataPage => 1,
            DataPageNumbers::CumulativeOperatingTime => 2,
            DataPageNumbers::ManufacturerInformation => 3,
            DataPageNumbers::ProductInformation => 4,
            DataPageNumbers::PreviousHeartBeat => 5,
            DataPageNumbers::SwimIntervalSummary => 6,
            DataPageNumbers::Capabilities => 7,
            DataPageNumbers::BatteryStatus => 8,
            DataPageNumbers::DeviceInformation => 9,
            DataPageNumbers::HRFeatureCommand => 32,
        }
    }

    /// The page that goes by `number`, if the profile defines one.
    pub open spec fn of_number(number: u8) -> Option<DataPageNumbers> {
        if number == 1 {
            Some(DataPageNumbers::DefaultDataPage)
        } else if number == 2 {
            Some(DataPageNumbers::CumulativeOperatingTime)
        } else if number == 3 {
            Some(DataPageNumbers::ManufacturerInformation)
        } else if number == 4 {
            Some(DataPageNumbers::ProductInformation)
        } else if number == 5 {
            Some(DataPageNumbers::PreviousHeartBeat)
        } else if number == 6 {
            Some(DataPageNumbers::SwimIntervalSummary)
        } else if number == 7 {
            Some(DataPageNumbers::Capabilities)
        } else if number == 8 {
            Some(DataPageNumbers::BatteryStatus)
        } else if number == 9 {
            Some(DataPageNumbers::DeviceInformation)
        } else if number == 32 {
            Some(DataPageNumbers::HRFeatureCommand)
        } else {
            None
        }
    }

    pub fn to_primitive(&self) -> (number: u8)
        ensures
            number == self.number(),
            number < 128,
            !in_manufacturer_specific_range(number),
    {
        match self {
            DataPageNumbers::DefaultDataPage => 1,
            DataPageNumbers::CumulativeOperatingTime => 2,
            DataPageNumbers::ManufacturerInformation => 3,
            DataPageNumbers::ProductInformation => 4,
            DataPageNumbers::PreviousHeartBeat => 5,
            DataPageNumbers::SwimIntervalSummary => 6,
            DataPageNumbers::Capabilities => 7,
            DataPageNumbers::BatteryStatus => 8,
            DataPageNumbers::DeviceInformation => 9,
            DataPageNumbers::HRFeatureCommand => 32,
        }
    }

    pub fn from_primitive(number: u8) -> (page: Option<DataPageNumbers>)
        ensures
            page == Self::of_number(number),
    {
        match number {
            1 => Some(DataPageNumbers::DefaultDataPage),
            2 => Some(DataPageNumbers::CumulativeOperatingTime),
            3 => Some(DataPageNumbers::ManufacturerInformation),
            4 => Some(DataPageNumbers::ProductInformation),
            5 => Some(DataPageNumbers::PreviousHeartBeat),
            6 => Some(DataPageNumbers::SwimIntervalSummary),
            7 => Some(DataPageNumbers::Capabilities),
            8 => Some(DataPageNumbers::BatteryStatus),
            9 => Some(DataPageNumbers::DeviceInformation),
            32 => Some(DataPageNumbers::HRFeatureCommand),
            _ => None,
        }
    }
}

/// A page's number is found again from the number, and from no other.
pub proof fn lemma_page_numbers_are_distinct(page: DataPageNumbers, number: u8)
    ensures
        DataPageNumbers::of_number(page.number()) == Some(page),
        DataPageNumbers::of_number(number) == Some(page) ==> number == page.number(),
{
}

/// The page number in a page's first byte.
pub open spec fn page_number_of(first: u8) -> u8 {
    (first % 128) as u8
}

/// The page-change toggle in a page's first byte.
pub open spec fn toggle_of(first: u8) -> bool {
    first >= 128
}

/// The first byte of a page with the given number and toggle.
pub open spec fn first_byte(page_number: u8, toggle: bool) -> u8 {
    if toggle {
        (page_number % 128 + 128) as u8
    } else {
        (page_number % 128) as u8
    }
}

pub fn unpack_page_number(first: u8) -> (number: u8)
    ensures
        number == page_number_of(first),
        number < 128,
{
    assert(first & 0x7F == first % 128) by (bit_vector);
    first & DATA_PAGE_NUMBER_MASK
}

pub fn unpack_toggle(first: u8) -> (toggle: bool)
    ensures
        toggle == toggle_of(first),
{
    assert((first & 0x80 != 0) == (first >= 128)) by (bit_vector);
    first & 0x80 != 0
}

fn pack_number_and_toggle(number: u8, toggle: bool) -> (first: u8)
    requires
        number < 128,
    ensures
        first == first_byte(number, toggle),
{
    if toggle {
        number + 128
    } else {
        number
    }
}

fn pack_first_byte(page: DataPageNumbers, toggle: bool) -> (first: u8)
    ensures
        first == first_byte(page.number(), toggle),
{
    pack_number_and_toggle(page.to_primitive(), toggle)
}

/// What every page of the profile ends with: the last beat's time, the
/// running count of beats, and the heart rate the monitor computed.
#[derive(Clone, Copy, Debug, PartialEq, Eq, Structural)]
pub struct CommonData {
    /// In 1/1024 s.
    pub heart_beat_event_time: u16,
    pub heart_beat_count: u8,
    pub computed_heart_rate: u8,
}

impl CommonData {
    pub open spec fn unpacked(data: Seq<u8>) -> Self {
        CommonData {
            heart_beat_event_time: u16_of_le(data[4], data[5]),
            heart_beat_count: data[6],
            computed_heart_rate: data[7],
        }
    }

    pub fn unpack(data: &[u8; 8]) -> (common: Self)
        ensures
            common == Self::unpacked(data@),
    {
        CommonData {
            heart_beat_event_time: u16_from_le(data[4], data[5]),
            heart_beat_count: data[6],
            computed_heart_rate: data[7],
        }
    }
}

/// The page a monitor sends when it has nothing else to say.
#[derive(Clone, Copy, Debug, PartialEq, Eq, Structural)]
pub struct DefaultDataPage {
    pub page_change_toggle: bool,
    pub common: CommonData,
}

impl DefaultDataPage {
    /// Every field fits the bits the page gives it.
    pub open spec fn wf(self) -> bool {
        true
    }

    /// The page that eight bytes hold.
    pub open spec fn unpacked(data: Seq<u8>) -> Self {
        DefaultDataPage {
            page_change_toggle: toggle_of(data[0]),
            common: CommonData::unpacked(data),
        }
    }

    /// The eight bytes that hold the page.
    pub open spec fn packed(self) -> Seq<u8> {
        seq![
            first_byte(DataPageNumbers::DefaultDataPage.number(), self.page_change_toggle),
            RESERVED,
            RESERVED,
            RESERVED,
            le_byte(self.common.heart_beat_event_time as u32, 0),
            le_byte(self.common.heart_beat_event_time as u32, 1),
            self.common.heart_beat_count,
            self.common.computed_heart_rate,
        ]
    }

    pub fn unpack(data: &[u8; 8]) -> (page: Self)
        ensures
            page == Self::unpacked(data@),
            page.wf(),
    {
        DefaultDataPage {
            page_change_toggle: unpack_toggle(data[0]),
            common: CommonData::unpack(data),
        }
    }

    pub fn pack(&self) -> (data: [u8; 8])
        ensures
            data@ == self.packed(),
    {
        let data: [u8; 8] = [
            pack_first_byte(DataPageNumbers::DefaultDataPage, self.page_change_toggle),
            RESERVED,
            RESERVED,
            RESERVED,
            low_byte(self.common.heart_beat_event_time as u32),
            middle_byte(self.common.heart_beat_event_time as u32),
            self.common.heart_beat_count,
            self.common.computed_heart_rate,
        ];
        data
    }
}

/// How long the monitor has run since its battery was changed.
#[derive(Clone, Copy, Debug, PartialEq, Eq, Structural)]
pub struct CumulativeOperatingTime {
    pub page_change_toggle: bool,
    /// In units of two seconds; 24 bits wide.
    pub cumulative_operating_time: u32,
    pub common: CommonData,
}

impl CumulativeOperatingTime {
    /// Every field fits the bits the page gives it.
    pub open spec fn wf(self) -> bool {
        self.cumulative_operating_time < 0x100_0000
    }

    /// The page that eight bytes hold.
    pub open spec fn unpacked(data: Seq<u8>) -> Self {
        CumulativeOperatingTime {
            page_change_toggle: toggle_of(data[0]),
            cumulative_operating_time: u24_of_le(data[1], data[2], data[3]),
            common: CommonData::unpacked(data),
        }
    }

    /// The eight bytes that hold the page.
    pub open spec fn packed(self) -> Seq<u8> {
        seq![
            first_byte(DataPageNumbers::CumulativeOperatingTime.number(), self.page_change_toggle),
            le_byte(self.cumulative_operating_time, 0),
            le_byte(self.cumulative_operating_time, 1),
            le_byte(self.cumulative_operating_time, 2),
            le_byte(self.common.heart_beat_event_time as u32, 0),
            le_byte(self.common.heart_beat_event_time as u32, 1),
            self.common.heart_beat_count,
            self.common.computed_heart_rate,
        ]
    }

    pub fn unpack(data: &[u8; 8]) -> (page: Self)
        ensures
            page == Self::unpacked(data@),
            page.wf(),
    {
        CumulativeOperatingTime {
            page_change_toggle: unpack_toggle(data[0]),
            cumulative_operating_time: u24_from_le(data[1], data[2], data[3]),
            common: CommonData::unpack(data),
        }
    }

    pub fn pack(&self) -> (data: [u8; 8])
        ensures
            data@ == self.packed(),
    {
        let data: [u8; 8] = [
            pack_first_byte(DataPageNumbers::CumulativeOperatingTime, self.page_change_toggle),
            low_byte(self.cumulative_operating_time),
            middle_byte(self.cumulative_operating_time),
            high_byte(self.cumulative_operating_time),
            low_byte(self.common.heart_beat_event_time as u32),
            middle_byte(self.common.heart_beat_event_time as u32),
            self.common.heart_beat_count,
            self.common.computed_heart_rate,
        ];
        data
    }
}

/// Who made the monitor, and the upper half of its serial number.
#[derive(Clone, Copy, Debug, PartialEq, Eq, Structural)]
pub struct ManufacturerInformation {
    pub page_change_toggle: bool,
    pub manufacturer_id_lsb: u8,
    pub serial_number: u16,
    pub common: CommonData,
}

impl ManufacturerInformation {
    /// Every field fits the bits the page gives it.
    pub open spec fn wf(self) -> bool {
        true
    }

    /// The page that eight bytes hold.
    pub open spec fn unpacked(data: Seq<u8>) -> Self {
        ManufacturerInformation {
            page_change_toggle: toggle_of(data[0]),
            manufacturer_id_lsb: data[1],
            serial_number: u16_of_le(data[2], data[3]),
            common: CommonData::unpacked(data),
        }
    }

    /// The eight bytes that hold the page.
    pub open spec fn packed(self) -> Seq<u8> {
        seq![
            first_byte(DataPageNumbers::ManufacturerInformation.number(), self.page_change_toggle),
            self.manufacturer_id_lsb,
            le_byte(self.serial_number as u32, 0),
            le_byte(self.serial_number as u32, 1),
            le_byte(self.common.heart_beat_event_time as u32, 0),
            le_byte(self.common.heart_beat_event_time as u32, 1),
            self.common.heart_beat_count,
            self.common.computed_heart_rate,
        ]
    }

    pub fn unpack(data: &[u8; 8]) -> (page: Self)
        ensures
            page == Self::unpacked(data@),
            page.wf(),
    {
        ManufacturerInformation {
            page_change_toggle: unpack_toggle(data[0]),
            manufacturer_id_lsb: data[1],
            serial_number: u16_from_le(data[2], data[3]),
            common: CommonData::unpack(data),
        }
    }

    pub fn pack(&self) -> (data: [u8; 8])
        ensures
            data@ == self.packed(),
    {
        let data: [u8; 8] = [
            pack_first_byte(DataPageNumbers::ManufacturerInformation, self.page_change_toggle),
            self.manufacturer_id_lsb,
            low_byte(self.serial_number as u32),
            middle_byte(self.serial_number as u32),
            low_byte(self.common.heart_beat_event_time as u32),
            middle_byte(self.common.heart_beat_event_time as u32),
            self.common.heart_beat_count,
            self.common.computed_heart_rate,
        ];
        data
    }
}

/// The versions of the monitor's hardware and software, and its model.
#[derive(Clone, Copy, Debug, PartialEq, Eq, Structural)]
pub struct ProductInformation {
    pub page_change_toggle: bool,
    pub hardware_version: u8,
    pub software_version: u8,
    pub model_number: u8,
    pub common: CommonData,
}

impl ProductInformation {
    /// Every field fits the bits the page gives it.
    pub open spec fn wf(self) -> bool {
        true
    }

    /// The page that eight bytes hold.
    pub open spec fn unpacked(data: Seq<u8>) -> Self {
        ProductInformation {
            page_change_toggle: toggle_of(data[0]),
            hardware_version: data[1],
            software_version: data[2],
            model_number: data[3],
            common: CommonData::unpacked(data),
        }
    }

    /// The eight bytes that hold the page.
    pub open spec fn packed(self) -> Seq<u8> {
        seq![
            first_byte(DataPageNumbers::ProductInformation.number(), self.page_change_toggle),
            self.hardware_version,
            self.software_version,
            self.model_number,
            le_byte(self.common.heart_beat_event_time as u32, 0),
            le_byte(self.common.heart_beat_event_time as u32, 1),
            self.common.heart_beat_count,
            self.common.computed_heart_rate,
        ]
    }

    pub fn unpack(data: &[u8; 8]) -> (page: Self)
        ensures
            page == Self::unpacked(data@),
            page.wf(),
    {
        ProductInformation {
            page_change_toggle: unpack_toggle(data[0]),
            hardware_version: data[1],
            software_version: data[2],
            model_number: data[3],
            common: CommonData::unpack(data),
        }
    }

    pub fn pack(&self) -> (data: [u8; 8])
        ensures
            data@ == self.packed(),
    {
        let data: [u8; 8] = [
            pack_first_byte(DataPageNumbers::ProductInformation, self.page_change_toggle),
            self.hardware_version,
            self.software_version,
            self.model_number,
            low_byte(self.common.heart_beat_event_time as u32),
            middle_byte(self.common.heart_beat_event_time as u32),
            self.common.heart_beat_count,
            self.common.computed_heart_rate,
        ];
        data
    }
}

/// The time of the beat before the last one.
#[derive(Clone, Copy, Debug, PartialEq, Eq, Structural)]
pub struct PreviousHeartBeat {
    pub page_change_toggle: bool,
    pub manufacturer_specific: u8,
    pub previous_heart_beat_event_time: u16,
    pub common: CommonData,
}

impl PreviousHeartBeat {
    /// Every field fits the bits the page gives it.
    pub open spec fn wf(self) -> bool {
        true
    }

    /// The page that eight bytes hold.
    pub open spec fn unpacked(data: Seq<u8>) -> Self {
        PreviousHeartBeat {
            page_change_toggle: toggle_of(data[0]),
            manufacturer_specific: data[1],
            previous_heart_beat_event_time: u16_of_le(data[2], data[3]),
            common: CommonData::unpacked(data),
        }
    }

    /// The eight bytes that hold the page.
    pub open spec fn packed(self) -> Seq<u8> {
        seq![
            first_byte(DataPageNumbers::PreviousHeartBeat.number(), self.page_change_toggle),
            self.manufacturer_specific,
            le_byte(self.previous_heart_beat_event_time as u32, 0),
            le_byte(self.previous_heart_beat_event_time as u32, 1),
            le_byte(self.common.heart_beat_event_time as u32, 0),
            le_byte(self.common.heart_beat_event_time as u32, 1),
            self.common.heart_beat_count,
            self.common.computed_heart_rate,
        ]
    }

    pub fn unpack(data: &[u8; 8]) -> (page: Self)
        ensures
            page == Self::unpacked(data@),
            page.wf(),
    {
        PreviousHeartBeat {
            page_change_toggle: unpack_toggle(data[0]),
            manufacturer_specific: data[1],
            previous_heart_beat_event_time: u16_from_le(data[2], data[3]),
            common: CommonData::unpack(data),
        }
    }

    pub fn pack(&self) -> (data: [u8; 8])
        ensures
            data@ == self.packed(),
    {
        let data: [u8; 8] = [
            pack_first_byte(DataPageNumbers::PreviousHeartBeat, self.page_change_toggle),
            self.manufacturer_specific,
            low_byte(self.previous_heart_beat_event_time as u32),
            middle_byte(self.previous_heart_beat_event_time as u32),
            low_byte(self.common.heart_beat_event_time as u32),
            middle_byte(self.common.heart_beat_event_time as u32),
            self.common.heart_beat_count,
            self.common.computed_heart_rate,
        ];
        data
    }
}

/// Heart rates over the last swim interval and over the session.
#[derive(Clone, Copy, Debug, PartialEq, Eq, Structural)]
pub struct SwimIntervalSummary {
    pub page_change_toggle: bool,
    pub interval_average_heart_rate: u8,
    pub interval_maximum_heart_rate: u8,
    pub session_average_heart_rate: u8,
    pub common: CommonData,
}

impl SwimIntervalSummary {
    /// Every field fits the bits the page gives it.
    pub open spec fn wf(self) -> bool {
        true
    }

    /// The page that eight bytes hold.
    pub open spec fn unpacked(data: Seq<u8>) -> Self {
        SwimIntervalSummary {
            page_change_toggle: toggle_of(data[0]),
            interval_average_heart_rate: data[1],
            interval_maximum_heart_rate: data[2],
            session_average_heart_rate: data[3],
            common: CommonData::unpacked(data),
        }
    }

    /// The eight bytes that hold the page.
    pub open spec fn packed(self) -> Seq<u8> {
        seq![
            first_byte(DataPageNumbers::SwimIntervalSummary.number(), self.page_change_toggle),
            self.interval_average_heart_rate,
            self.interval_maximum_heart_rate,
            self.session_average_heart_rate,
            le_byte(self.common.heart_beat_event_time as u32, 0),
            le_byte(self.common.heart_beat_event_time as u32, 1),
            self.common.heart_beat_count,
            self.common.computed_heart_rate,
        ]
    }

    pub fn unpack(data: &[u8; 8]) -> (page: Self)
        ensures
            page == Self::unpacked(data@),
            page.wf(),
    {
        SwimIntervalSummary {
            page_change_toggle: unpack_toggle(data[0]),
            interval_average_heart_rate: data[1],
            interval_maximum_heart_rate: data[2],
            session_average_heart_rate: data[3],
            common: CommonData::unpack(data),
        }
    }

    pub fn pack(&self) -> (data: [u8; 8])
        ensures
            data@ == self.packed(),
    {
        let data: [u8; 8] = [
            pack_first_byte(DataPageNumbers::SwimIntervalSummary, self.page_change_toggle),
            self.interval_average_heart_rate,
            self.interval_maximum_heart_rate,
            self.session_average_heart_rate,
            low_byte(self.common.heart_beat_event_time as u32),
            middle_byte(self.common.heart_beat_event_time as u32),
            self.common.heart_beat_count,
            self.common.computed_heart_rate,
        ];
        data
    }
}

/// The optional features a monitor supports and has switched on.
#[derive(Clone, Copy, Debug, PartialEq, Eq, Structural)]
pub struct Capabilities {
    pub page_change_toggle: bool,
    pub features_supported: u8,
    pub features_enabled: u8,
    pub common: CommonData,
}

impl Capabilities {
    /// Every field fits the bits the page gives it.
    pub open spec fn wf(self) -> bool {
        true
    }

    /// The page that eight bytes hold.
    pub open spec fn unpacked(data: Seq<u8>) -> Self {
        Capabilities {
            page_change_toggle: toggle_of(data[0]),
            features_supported: data[2],
            features_enabled: data[3],
            common: CommonData::unpacked(data),
        }
    }

    /// The eight bytes that hold the page.
    pub open spec fn packed(self) -> Seq<u8> {
        seq![
            first_byte(DataPageNumbers::Capabilities.number(), self.page_change_toggle),
            RESERVED,
            self.features_supported,
            self.features_enabled,
            le_byte(self.common.heart_beat_event_time as u32, 0),
            le_byte(self.common.heart_beat_event_time as u32, 1),
            self.common.heart_beat_count,
            self.common.computed_heart_rate,
        ]
    }

    pub fn unpack(data: &[u8; 8]) -> (page: Self)
        ensures
            page == Self::unpacked(data@),
            page.wf(),
    {
        Capabilities {
            page_change_toggle: unpack_toggle(data[0]),
            features_supported: data[2],
            features_enabled: data[3],
            common: CommonData::unpack(data),
        }
    }

    pub fn pack(&self) -> (data: [u8; 8])
        ensures
            data@ == self.packed(),
    {
        let data: [u8; 8] = [
            pack_first_byte(DataPageNumbers::Capabilities, self.page_change_toggle),
            RESERVED,
            self.features_supported,
            self.features_enabled,
            low_byte(self.common.heart_beat_event_time as u32),
            middle_byte(self.common.heart_beat_event_time as u32),
            self.common.heart_beat_count,
            self.common.computed_heart_rate,
        ];
        data
    }
}

/// The state of the monitor's battery.
#[derive(Clone, Copy, Debug, PartialEq, Eq, Structural)]
pub struct BatteryStatus {
    pub page_change_toggle: bool,
    pub battery_level: u8,
    pub fractional_battery_voltage: u8,
    pub descriptive_bit_field: u8,
    pub common: CommonData,
}

impl BatteryStatus {
    /// Every field fits the bits the page gives it.
    pub open spec fn wf(self) -> bool {
        true
    }

    /// The page that eight bytes hold.
    pub open spec fn unpacked(data: Seq<u8>) -> Self {
        BatteryStatus {
            page_change_toggle: toggle_of(data[0]),
            battery_level: data[1],
            fractional_battery_voltage: data[2],
            descriptive_bit_field: data[3],
            common: CommonData::unpacked(data),
        }
    }

    /// The eight bytes that hold the page.
    pub open spec fn packed(self) -> Seq<u8> {
        seq![
            first_byte(DataPageNumbers::BatteryStatus.number(), self.page_change_toggle),
            self.battery_level,
            self.fractional_battery_voltage,
            self.descriptive_bit_field,
            le_byte(self.common.heart_beat_event_time as u32, 0),
            le_byte(self.common.heart_beat_event_time as u32, 1),
            self.common.heart_beat_count,
            self.common.computed_heart_rate,
        ]
    }

    pub fn unpack(data: &[u8; 8]) -> (page: Self)
        ensures
            page == Self::unpacked(data@),
            page.wf(),
    {
        BatteryStatus {
            page_change_toggle: unpack_toggle(data[0]),
            battery_level: data[1],
            fractional_battery_voltage: data[2],
            descriptive_bit_field: data[3],
            common: CommonData::unpack(data),
        }
    }

    pub fn pack(&self) -> (data: [u8; 8])
        ensures
            data@ == self.packed(),
    {
        let data: [u8; 8] = [
            pack_first_byte(DataPageNumbers::BatteryStatus, self.page_change_toggle),
            self.battery_level,
            self.fractional_battery_voltage,
            self.descriptive_bit_field,
            low_byte(self.common.heart_beat_event_time as u32),
            middle_byte(self.common.heart_beat_event_time as u32),
            self.common.heart_beat_count,
            self.common.computed_heart_rate,
        ];
        data
    }
}

/// How the monitor measures a heart beat.
#[derive(Clone, Copy, Debug, PartialEq, Eq, Structural)]
pub struct DeviceInformation {
    pub page_change_toggle: bool,
    pub heart_beat_characteristics: u8,
    pub common: CommonData,
}

impl DeviceInformation {
    /// Every field fits the bits the page gives it.
    pub open spec fn wf(self) -> bool {
        true
    }

    /// The page that eight bytes hold.
    pub open spec fn unpacked(data: Seq<u8>) -> Self {
        DeviceInformation {
            page_change_toggle: toggle_of(data[0]),
            heart_beat_characteristics: data[1],
            common: CommonData::unpacked(data),
        }
    }

    /// The eight bytes that hold the page.
    pub open spec fn packed(self) -> Seq<u8> {
        seq![
            first_byte(DataPageNumbers::DeviceInformation.number(), self.page_change_toggle),
            self.heart_beat_characteristics,
            RESERVED,
            RESERVED,
            le_byte(self.common.heart_beat_event_time as u32, 0),
            le_byte(self.common.heart_beat_event_time as u32, 1),
            self.common.heart_beat_count,
            self.common.computed_heart_rate,
        ]
    }

    pub fn unpack(data: &[u8; 8]) -> (page: Self)
        ensures
            page == Self::unpacked(data@),
            page.wf(),
    {
        DeviceInformation {
            page_change_toggle: unpack_toggle(data[0]),
            heart_beat_characteristics: data[1],
            common: CommonData::unpack(data),
        }
    }

    pub fn pack(&self) -> (data: [u8; 8])
        ensures
            data@ == self.packed(),
    {
        let data: [u8; 8] = [
            pack_first_byte(DataPageNumbers::DeviceInformation, self.page_change_toggle),
            self.heart_beat_characteristics,
            RESERVED,
            RESERVED,
            low_byte(self.common.heart_beat_event_time as u32),
            middle_byte(self.common.heart_beat_event_time as u32),
            self.common.heart_beat_count,
            self.common.computed_heart_rate,
        ];
        data
    }
}
/// A page whose number lies in the range left to manufacturers. Its three
/// data bytes mean what the manufacturer says.
#[derive(Clone, Copy, Debug, PartialEq, Eq, Structural)]
pub struct ManufacturerSpecific {
    pub page_change_toggle: bool,
    pub data_page_number: u8,
    pub manufacturer_data_1: u8,
    pub manufacturer_data_2: u8,
    pub manufacturer_data_3: u8,
    pub common: CommonData,
}

impl ManufacturerSpecific {
    /// The page number is one of those left to manufacturers.
    pub open spec fn wf(self) -> bool {
        in_manufacturer_specific_range(self.data_page_number)
    }

    /// The page that eight bytes hold.
    pub open spec fn unpacked(data: Seq<u8>) -> Self {
        ManufacturerSpecific {
            page_change_toggle: toggle_of(data[0]),
            data_page_number: page_number_of(data[0]),
            manufacturer_data_1: data[1],
            manufacturer_data_2: data[2],
            manufacturer_data_3: data[3],
            common: CommonData::unpacked(data),
        }
    }

    /// The eight bytes that hold the page.
    pub open spec fn packed(self) -> Seq<u8> {
        seq![
            first_byte(self.data_page_number, self.page_change_toggle),
            self.manufacturer_data_1,
            self.manufacturer_data_2,
            self.manufacturer_data_3,
            le_byte(self.common.heart_beat_event_time as u32, 0),
            le_byte(self.common.heart_beat_event_time as u32, 1),
            self.common.heart_beat_count,
            self.common.computed_heart_rate,
        ]
    }

    pub fn unpack(data: &[u8; 8]) -> (page: Self)
        ensures
            page == Self::unpacked(data@),
    {
        ManufacturerSpecific {
            page_change_toggle: unpack_toggle(data[0]),
            data_page_number: unpack_page_number(data[0]),
            manufacturer_data_1: data[1],
            manufacturer_data_2: data[2],
            manufacturer_data_3: data[3],
            common: CommonData::unpack(data),
        }
    }

    pub fn pack(&self) -> (data: [u8; 8])
        ensures
            data@ == self.packed(),
    {
        let data: [u8; 8] = [
            pack_number_and_toggle(self.data_page_number % 128, self.page_change_toggle),
            self.manufacturer_data_1,
            self.manufacturer_data_2,
            self.manufacturer_data_3,
            low_byte(self.common.heart_beat_event_time as u32),
            middle_byte(self.common.heart_beat_event_time as u32),
            self.common.heart_beat_count,
            self.common.computed_heart_rate,
        ];
        data
    }
}


/// The page with which a display switches features of a monitor on and off.
/// It travels from display to monitor only.
#[derive(Clone, Copy, Debug, PartialEq, Eq, Structural)]
pub struct HRFeatureCommand {
    /// Which of the features below the monitor is to take over.
    pub apply: u8,
    /// The features to switch on.
    pub features: u8,
}

impl HRFeatureCommand {
    /// The eight bytes that hold the page.
    pub open spec fn packed(self) -> Seq<u8> {
        seq![
            first_byte(DataPageNumbers::HRFeatureCommand.number(), false),
            RESERVED,
            RESERVED,
            RESERVED,
            RESERVED,
            RESERVED,
            self.apply,
            self.features,
        ]
    }

    pub fn pack(&self) -> (data: [u8; 8])
        ensures
            data@ == self.packed(),
    {
        let data: [u8; 8] = [
            pack_first_byte(DataPageNumbers::HRFeatureCommand, false),
            RESERVED,
            RESERVED,
            RESERVED,
            RESERVED,
            RESERVED,
            self.apply,
            self.features,
        ];
        data
    }
}

/// A page that a monitor transmits, decoded.
#[derive(Clone, Copy, Debug, PartialEq, Eq, Structural)]
pub enum MonitorTxDataPage {
    DefaultDataPage(DefaultDataPage),
    CumulativeOperatingTime(CumulativeOperatingTime),
    ManufacturerInformation(ManufacturerInformation),
    ProductInformation(ProductInformation),
    PreviousHeartBeat(PreviousHeartBeat),
    SwimIntervalSummary(SwimIntervalSummary),
    Capabilities(Capabilities),
    BatteryStatus(BatteryStatus),
    DeviceInformation(DeviceInformation),
    ManufacturerSpecific(ManufacturerSpecific),
}

impl MonitorTxDataPage {
    /// Every field fits the bits its page gives it.
    pub open spec fn wf(self) -> bool {
        match self {
            MonitorTxDataPage::DefaultDataPage(page) => page.wf(),
            MonitorTxDataPage::CumulativeOperatingTime(page) => page.wf(),
            MonitorTxDataPage::ManufacturerInformation(page) => page.wf(),
            MonitorTxDataPage::ProductInformation(page) => page.wf(),
            MonitorTxDataPage::PreviousHeartBeat(page) => page.wf(),
            MonitorTxDataPage::SwimIntervalSummary(page) => page.wf(),
            MonitorTxDataPage::Capabilities(page) => page.wf(),
            MonitorTxDataPage::BatteryStatus(page) => page.wf(),
            MonitorTxDataPage::DeviceInformation(page) => page.wf(),
            MonitorTxDataPage::ManufacturerSpecific(page) => page.wf(),
        }
    }

    /// The eight bytes that hold the page.
    pub open spec fn packed(self) -> Seq<u8> {
        match self {
            MonitorTxDataPage::DefaultDataPage(page) => page.packed(),
            MonitorTxDataPage::CumulativeOperatingTime(page) => page.packed(),
            MonitorTxDataPage::ManufacturerInformation(page) => page.packed(),
            MonitorTxDataPage::ProductInformation(page) => page.packed(),
            MonitorTxDataPage::PreviousHeartBeat(page) => page.packed(),
            MonitorTxDataPage::SwimIntervalSummary(page) => page.packed(),
            MonitorTxDataPage::Capabilities(page) => page.packed(),
            MonitorTxDataPage::BatteryStatus(page) => page.packed(),
            MonitorTxDataPage::DeviceInformation(page) => page.packed(),
            MonitorTxDataPage::ManufacturerSpecific(page) => page.packed(),
        }
    }

    pub fn pack(&self) -> (data: [u8; 8])
        ensures
            data@ == self.packed(),
    {
        match self {
            MonitorTxDataPage::DefaultDataPage(page) => page.pack(),
            MonitorTxDataPage::CumulativeOperatingTime(page) => page.pack(),
            MonitorTxDataPage::ManufacturerInformation(page) => page.pack(),
            MonitorTxDataPage::ProductInformation(page) => page.pack(),
            MonitorTxDataPage::PreviousHeartBeat(page) => page.pack(),
            MonitorTxDataPage::SwimIntervalSummary(page) => page.pack(),
            MonitorTxDataPage::Capabilities(page) => page.pack(),
            MonitorTxDataPage::BatteryStatus(page) => page.pack(),
            MonitorTxDataPage::DeviceInformation(page) => page.pack(),
            MonitorTxDataPage::ManufacturerSpecific(page) => page.pack(),
        }
    }
}

/// Why a page, or the message it came in, was not taken in.
#[derive(Clone, Copy, Debug, PartialEq, Eq, Structural)]
pub enum Error {
    /// The page number is none that a monitor transmits.
    UnsupportedDataPage(u8),
    /// The channel's state machine refused the message.
    Channel(ChannelError),
}

/// How often a monitor's channel transmits, as the ratio of 32768 to the
/// channel period.
#[derive(Clone, Copy, Debug, PartialEq, Eq, Structural)]
pub enum Period {
    FourHz,
    TwoHz,
    OneHz,
}

impl Period {
    /// The channel period, in 1/32768 s.
    pub open spec fn ticks(self) -> u16 {
        match self {
            Period::FourHz => 8070,
            Period::TwoHz => 16140,
            Period::OneHz => 32280,
        }
    }

    pub fn channel_period(self) -> (ticks: u16)
        ensures
            ticks == self.ticks(),
    {
        match self {
            Period::FourHz => 8070,
            Period::TwoHz => 16140,
            Period::OneHz => 32280,
        }
    }
}

} // verus!
