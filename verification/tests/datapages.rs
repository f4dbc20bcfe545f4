use ant::channel::duration_to_search_timeout;
use ant::plus::common::datapages::{high_byte, low_byte, middle_byte, u16_from_le, u24_from_le};
use ant::plus::profiles::heart_rate::datapages::{
    BatteryStatus, Capabilities, CommonData, CumulativeOperatingTime, DataPageNumbers,
    DefaultDataPage, DeviceInformation, Error, HRFeatureCommand, ManufacturerInformation,
    ManufacturerSpecific, MonitorTxDataPage, Period, PreviousHeartBeat, ProductInformation,
    SwimIntervalSummary,
};
use ant::plus::profiles::heart_rate::display::parse_dp;

const COMMON: CommonData =
    CommonData { heart_beat_event_time: 0xBEEF, heart_beat_count: 200, computed_heart_rate: 72 };

fn every_kind_of_page() -> Vec<MonitorTxDataPage> {
    vec![
        MonitorTxDataPage::DefaultDataPage(DefaultDataPage { page_change_toggle: true, common: COMMON }),
        MonitorTxDataPage::CumulativeOperatingTime(CumulativeOperatingTime {
            page_change_toggle: false,
            cumulative_operating_time: 0xABCDEF,
            common: COMMON,
        }),
        MonitorTxDataPage::ManufacturerInformation(ManufacturerInformation {
            page_change_toggle: true,
            manufacturer_id_lsb: 15,
            serial_number: 0xA55A,
            common: COMMON,
        }),
        MonitorTxDataPage::ProductInformation(ProductInformation {
            page_change_toggle: false,
            hardware_version: 1,
            software_version: 2,
            model_number: 3,
            common: COMMON,
        }),
        MonitorTxDataPage::PreviousHeartBeat(PreviousHeartBeat {
            page_change_toggle: true,
            manufacturer_specific: 0xFF,
            previous_heart_beat_event_time: 0x0102,
            common: COMMON,
        }),
        MonitorTxDataPage::SwimIntervalSummary(SwimIntervalSummary {
            page_change_toggle: false,
            interval_average_heart_rate: 120,
            interval_maximum_heart_rate: 150,
            session_average_heart_rate: 110,
            common: COMMON,
        }),
        MonitorTxDataPage::Capabilities(Capabilities {
            page_change_toggle: true,
            features_supported: 0xC7,
            features_enabled: 0x41,
            common: COMMON,
        }),
        MonitorTxDataPage::BatteryStatus(BatteryStatus {
            page_change_toggle: false,
            battery_level: 88,
            fractional_battery_voltage: 128,
            descriptive_bit_field: 0x23,
            common: COMMON,
        }),
        MonitorTxDataPage::DeviceInformation(DeviceInformation {
            page_change_toggle: true,
            heart_beat_characteristics: 2,
            common: COMMON,
        }),
        MonitorTxDataPage::ManufacturerSpecific(ManufacturerSpecific {
            page_change_toggle: false,
            data_page_number: 113,
            manufacturer_data_1: 9,
            manufacturer_data_2: 8,
            manufacturer_data_3: 7,
            common: COMMON,
        }),
    ]
}

#[test]
fn every_page_survives_packing_and_decoding() {
    for page in every_kind_of_page() {
        assert_eq!(parse_dp(&page.pack()), Ok(page));
    }
}

#[test]
fn cumulative_operating_time_has_its_bytes_lowest_first() {
    let page = CumulativeOperatingTime {
        page_change_toggle: true,
        cumulative_operating_time: 0x030201,
        common: COMMON,
    };
    assert_eq!(page.pack(), [0x82, 0x01, 0x02, 0x03, 0xEF, 0xBE, 200, 72]);
    assert_eq!(CumulativeOperatingTime::unpack(&[0x82, 0x01, 0x02, 0x03, 0xEF, 0xBE, 200, 72]), page);
}

#[test]
fn unused_bytes_are_packed_as_ones_and_ignored_when_decoding() {
    let page = DefaultDataPage { page_change_toggle: false, common: COMMON };
    assert_eq!(page.pack(), [0x01, 0xFF, 0xFF, 0xFF, 0xEF, 0xBE, 200, 72]);
    assert_eq!(
        parse_dp(&[0x01, 0x12, 0x34, 0x56, 0xEF, 0xBE, 200, 72]),
        Ok(MonitorTxDataPage::DefaultDataPage(page))
    );
}

#[test]
fn default_page_of_zero_bytes_is_all_zero() {
    let zero = CommonData { heart_beat_event_time: 0, heart_beat_count: 0, computed_heart_rate: 0 };
    assert_eq!(
        parse_dp(&[0x01, 0, 0, 0, 0, 0, 0, 0]),
        Ok(MonitorTxDataPage::DefaultDataPage(DefaultDataPage { page_change_toggle: false, common: zero }))
    );
}

#[test]
fn feature_command_is_not_taken_in() {
    assert_eq!(parse_dp(&[32, 0xFF, 0xFF, 0xFF, 0xFF, 0xFF, 1, 1]), Err(Error::UnsupportedDataPage(32)));
    assert_eq!(parse_dp(&[32 | 0x80, 0, 0, 0, 0, 0, 0, 0]), Err(Error::UnsupportedDataPage(32)));
    let command = HRFeatureCommand { apply: 0x80, features: 0x81 };
    assert_eq!(command.pack(), [32, 0xFF, 0xFF, 0xFF, 0xFF, 0xFF, 0x80, 0x81]);
    assert_eq!(parse_dp(&command.pack()), Err(Error::UnsupportedDataPage(32)));
}

#[test]
fn every_manufacturer_specific_number_decodes() {
    for number in 112u8..=127 {
        for toggle in [0u8, 0x80] {
            let decoded = parse_dp(&[number | toggle, 1, 2, 3, 4, 5, 6, 7]);
            assert_eq!(
                decoded,
                Ok(MonitorTxDataPage::ManufacturerSpecific(ManufacturerSpecific {
                    page_change_toggle: toggle != 0,
                    data_page_number: number,
                    manufacturer_data_1: 1,
                    manufacturer_data_2: 2,
                    manufacturer_data_3: 3,
                    common: CommonData {
                        heart_beat_event_time: 0x0504,
                        heart_beat_count: 6,
                        computed_heart_rate: 7,
                    },
                }))
            );
        }
    }
}

#[test]
fn numbers_outside_the_profile_are_refused() {
    for number in [0u8, 10, 31, 33, 111] {
        assert_eq!(parse_dp(&[number, 0, 0, 0, 0, 0, 0, 0]), Err(Error::UnsupportedDataPage(number)));
    }
    // The toggle bit is no part of the number.
    assert_eq!(parse_dp(&[0x80, 0, 0, 0, 0, 0, 0, 0]), Err(Error::UnsupportedDataPage(0)));
}

#[test]
fn page_numbers_convert_both_ways() {
    let all = [
        (DataPageNumbers::DefaultDataPage, 1u8),
        (DataPageNumbers::CumulativeOperatingTime, 2),
        (DataPageNumbers::ManufacturerInformation, 3),
        (DataPageNumbers::ProductInformation, 4),
        (DataPageNumbers::PreviousHeartBeat, 5),
        (DataPageNumbers::SwimIntervalSummary, 6),
        (DataPageNumbers::Capabilities, 7),
        (DataPageNumbers::BatteryStatus, 8),
        (DataPageNumbers::DeviceInformation, 9),
        (DataPageNumbers::HRFeatureCommand, 32),
    ];
    for (page, number) in all {
        assert_eq!(page.to_primitive(), number);
        assert_eq!(DataPageNumbers::from_primitive(number), Some(page));
    }
    assert_eq!(DataPageNumbers::from_primitive(0), None);
    assert_eq!(DataPageNumbers::from_primitive(112), None);
}

#[test]
fn bytes_join_and_split_lowest_first() {
    assert_eq!(u16_from_le(0x34, 0x12), 0x1234);
    assert_eq!(u24_from_le(0x56, 0x34, 0x12), 0x123456);
    assert_eq!(low_byte(0x123456), 0x56);
    assert_eq!(middle_byte(0x123456), 0x34);
    assert_eq!(high_byte(0x123456), 0x12);
    assert_eq!(high_byte(0xFF123456), 0x12);
}

#[test]
fn search_timeout_counts_units_of_two_and_a_half_seconds() {
    assert_eq!(duration_to_search_timeout(0), 0);
    assert_eq!(duration_to_search_timeout(30), 12);
    assert_eq!(duration_to_search_timeout(4), 1);
    assert_eq!(duration_to_search_timeout(637), 254);
    assert_eq!(duration_to_search_timeout(638), 255);
    assert_eq!(duration_to_search_timeout(u64::MAX), 255);
}

#[test]
fn periods_are_the_profile_s_three() {
    assert_eq!(Period::FourHz.channel_period(), 8070);
    assert_eq!(Period::TwoHz.channel_period(), 16140);
    assert_eq!(Period::OneHz.channel_period(), 32280);
}
