use ant::messages::{
    AntMessage, ChannelType, TransmissionChannelType, TransmissionGlobalDataPages,
    TransmissionType, TxMessage, TxMessageChannelConfig, TxMessageData,
};
use ant::plus::profiles::heart_rate::datapages::{
    CommonData, DefaultDataPage, Error, MonitorTxDataPage, Period,
};
use ant::plus::profiles::heart_rate::display::Display;
use packed_struct::types::bits::Bits;
use packed_struct::types::Integer;
use std::cell::RefCell;
use std::rc::Rc;
use thingbuf::mpsc::{channel, Receiver, Sender};

type Pages = Rc<RefCell<Vec<Result<MonitorTxDataPage, Error>>>>;

type TestDisplay = Display<
    Box<dyn Fn(&AntMessage)>,
    Box<dyn Fn(Result<MonitorTxDataPage, Error>)>,
    Box<dyn Fn() -> Option<TxMessageChannelConfig>>,
    Box<dyn Fn() -> Option<TxMessageData>>,
>;

/// A display on hardware channel 2, the sending end of its inbound queue and
/// the receiving end of its outbound queue.
fn display_on_channel_2(
    device: Option<(u16, Integer<u8, Bits<4>>)>,
) -> (TestDisplay, Sender<AntMessage>, Receiver<TxMessage>) {
    let (to_display, rx) = channel::<AntMessage>(16);
    let (tx, from_display) = channel::<TxMessage>(16);
    (Display::new(device, 1, 2, Period::FourHz, tx, rx), to_display, from_display)
}

fn record_pages(display: &mut TestDisplay) -> Pages {
    let pages: Pages = Rc::new(RefCell::new(Vec::new()));
    let sink = pages.clone();
    display.set_rx_datapage_callback(Some(Box::new(move |page| sink.borrow_mut().push(page))));
    pages
}

#[test]
fn default_page_reaches_the_page_callback_once() {
    let (mut display, to_display, _from_display) = display_on_channel_2(None);
    let pages = record_pages(&mut display);
    to_display
        .try_send(AntMessage::BroadcastData { channel_number: 2, data: [0x01, 0, 0, 0, 0, 0, 0, 0] })
        .unwrap();
    display.process();
    let expected = MonitorTxDataPage::DefaultDataPage(DefaultDataPage {
        page_change_toggle: false,
        common: CommonData { heart_beat_event_time: 0, heart_beat_count: 0, computed_heart_rate: 0 },
    });
    assert_eq!(*pages.borrow(), vec![Ok(expected)]);
}

#[test]
fn unknown_page_reaches_the_page_callback_as_an_error() {
    let (mut display, to_display, _from_display) = display_on_channel_2(None);
    let pages = record_pages(&mut display);
    to_display
        .try_send(AntMessage::AcknowledgedData { channel_number: 2, data: [0x32, 1, 2, 3, 4, 5, 6, 7] })
        .unwrap();
    to_display
        .try_send(AntMessage::BroadcastData { channel_number: 2, data: [0x81, 0, 0, 0, 0x34, 0x12, 9, 61] })
        .unwrap();
    display.process();
    let second = MonitorTxDataPage::DefaultDataPage(DefaultDataPage {
        page_change_toggle: true,
        common: CommonData { heart_beat_event_time: 0x1234, heart_beat_count: 9, computed_heart_rate: 61 },
    });
    assert_eq!(*pages.borrow(), vec![Err(Error::UnsupportedDataPage(0x32)), Ok(second)]);
}

#[test]
fn message_for_another_channel_is_reported_after_its_page() {
    let (mut display, to_display, _from_display) = display_on_channel_2(None);
    let pages = record_pages(&mut display);
    to_display
        .try_send(AntMessage::BroadcastData { channel_number: 5, data: [0x01, 0, 0, 0, 0, 0, 0, 0] })
        .unwrap();
    display.process();
    assert_eq!(pages.borrow().len(), 2);
    assert!(matches!(pages.borrow()[0], Ok(MonitorTxDataPage::DefaultDataPage(_))));
    assert_eq!(pages.borrow()[1], Err(Error::Channel(ant::channel::ChannelError::WrongChannel)));
}

#[test]
fn every_inbound_message_reaches_the_message_callback() {
    let (mut display, to_display, _from_display) = display_on_channel_2(None);
    let seen: Rc<RefCell<Vec<AntMessage>>> = Rc::new(RefCell::new(Vec::new()));
    let sink = seen.clone();
    display.set_rx_message_callback(Some(Box::new(move |msg: &AntMessage| sink.borrow_mut().push(*msg))));
    let first = AntMessage::ChannelEvent { channel_number: 2, event_code: 1 };
    let second = AntMessage::SerialNumber { serial_number: 77 };
    to_display.try_send(first).unwrap();
    to_display.try_send(second).unwrap();
    display.process();
    assert_eq!(*seen.borrow(), vec![first, second]);
    display.process();
    assert_eq!(seen.borrow().len(), 2);
}

#[test]
fn opening_emits_the_configuration_one_message_per_poll() {
    let device = Some((0x1234u16, Integer::<u8, Bits<4>>::from(0x3Au8)));
    let (mut display, _to_display, from_display) = display_on_channel_2(device);
    assert_eq!(display.get_device_id(), 0x1234);
    display.process();
    assert!(from_display.try_recv().is_err());
    display.open();
    let mut sent = Vec::new();
    for _ in 0..8 {
        display.process();
        while let Ok(msg) = from_display.try_recv() {
            sent.push(msg);
        }
    }
    let transmission_type = TransmissionType {
        transmission_channel_type: TransmissionChannelType::IndependentChannel,
        global_datapages_used: TransmissionGlobalDataPages::GlobalDataPagesNotUsed,
        device_number_extension: 0x0A,
    };
    assert_eq!(
        sent,
        vec![
            TxMessage::Config(TxMessageChannelConfig::AssignChannel {
                channel_number: 2,
                channel_type: ChannelType::BidirectionalSlave,
                network_number: 1,
            }),
            TxMessage::Config(TxMessageChannelConfig::ChannelId {
                channel_number: 2,
                device_number: 0x1234,
                device_type: 120,
                transmission_type,
            }),
            TxMessage::Config(TxMessageChannelConfig::ChannelRfFrequency { channel_number: 2, frequency: 57 }),
            TxMessage::Config(TxMessageChannelConfig::ChannelPeriod { channel_number: 2, period: 8070 }),
            TxMessage::Config(TxMessageChannelConfig::SearchTimeout { channel_number: 2, timeout: 12 }),
            TxMessage::OpenChannel { channel_number: 2 },
        ]
    );
}

#[test]
fn a_poll_emits_one_message_and_configuration_goes_first() {
    let (mut display, to_display, from_display) = display_on_channel_2(None);
    let asked_for_pages = Rc::new(RefCell::new(0usize));
    let counter = asked_for_pages.clone();
    display.set_tx_datapage_callback(Some(Box::new(move || {
        *counter.borrow_mut() += 1;
        Some(TxMessageData::AcknowledgedData { channel_number: 0, data: [32, 255, 255, 255, 255, 255, 1, 1] })
    })));
    let overrides = Rc::new(RefCell::new(vec![TxMessageChannelConfig::ChannelPeriod {
        channel_number: 0,
        period: 16140,
    }]));
    let source = overrides.clone();
    display.set_tx_message_callback(Some(Box::new(move || source.borrow_mut().pop())));
    display.open();
    // Six polls bring the channel up; the seventh has the override to send.
    for _ in 0..7 {
        display.process();
    }
    let mut sent = Vec::new();
    while let Ok(msg) = from_display.try_recv() {
        sent.push(msg);
    }
    assert_eq!(sent.len(), 7);
    assert_eq!(
        sent[6],
        TxMessage::Config(TxMessageChannelConfig::ChannelPeriod { channel_number: 2, period: 16140 })
    );
    // The link is not ready for a page until the monitor has been heard.
    display.process();
    assert!(from_display.try_recv().is_err());
    assert_eq!(*asked_for_pages.borrow(), 0);
    to_display
        .try_send(AntMessage::BroadcastData { channel_number: 2, data: [0x01, 0, 0, 0, 0, 0, 0, 0] })
        .unwrap();
    display.process();
    assert_eq!(
        from_display.try_recv(),
        Ok(TxMessage::Data(TxMessageData::AcknowledgedData {
            channel_number: 2,
            data: [32, 255, 255, 255, 255, 255, 1, 1],
        }))
    );
    // Sending the page used the readiness up.
    display.process();
    assert!(from_display.try_recv().is_err());
    assert_eq!(*asked_for_pages.borrow(), 1);
}

#[test]
fn pairing_shows_in_the_device_id() {
    let (mut display, to_display, _from_display) = display_on_channel_2(None);
    assert_eq!(display.get_device_id(), 0);
    to_display
        .try_send(AntMessage::ChannelId {
            channel_number: 2,
            device_number: 4711,
            device_type: 120,
            transmission_type: 1,
        })
        .unwrap();
    display.process();
    assert_eq!(display.get_device_id(), 4711);
    display.reset_state();
    assert_eq!(display.get_device_id(), 4711);
}

#[test]
fn closing_an_open_channel_emits_one_close() {
    let (mut display, _to_display, from_display) = display_on_channel_2(None);
    display.open();
    for _ in 0..6 {
        display.process();
    }
    while from_display.try_recv().is_ok() {}
    display.close();
    display.process();
    assert_eq!(from_display.try_recv(), Ok(TxMessage::CloseChannel { channel_number: 2 }));
    display.process();
    assert!(from_display.try_recv().is_err());
}

#[test]
fn plain_extension_makes_the_same_display() {
    let (to_display, rx) = channel::<AntMessage>(4);
    let (tx, from_display) = channel::<TxMessage>(4);
    let mut display: TestDisplay = Display::with_device(Some((7, 0x0F)), 1, 2, Period::OneHz, tx, rx);
    assert_eq!(display.get_device_id(), 7);
    display.open();
    display.process();
    display.process();
    assert!(from_display.try_recv().is_ok());
    assert_eq!(
        from_display.try_recv(),
        Ok(TxMessage::Config(TxMessageChannelConfig::ChannelId {
            channel_number: 2,
            device_number: 7,
            device_type: 120,
            transmission_type: TransmissionType {
                transmission_channel_type: TransmissionChannelType::IndependentChannel,
                global_datapages_used: TransmissionGlobalDataPages::GlobalDataPagesNotUsed,
                device_number_extension: 0x0F,
            },
        }))
    );
    drop(to_display);
}
