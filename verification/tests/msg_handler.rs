use ant::channel::{Channel, ChannelAssignment, ChannelError};
use ant::drivers::{Driver, DriverError};
use ant::messages::{
    AntMessage, ChannelType, TransmissionChannelType, TransmissionGlobalDataPages,
    TransmissionType, TxMessage, TxMessageChannelConfig, TxMessageData,
};
use ant::plus::common::msg_handler::{ChannelConfig, HandlerState, MessageHandler};
use ant::router::{Router, RouterError};

fn config() -> ChannelConfig {
    ChannelConfig {
        device_number: 42,
        device_type: 120,
        channel_type: ChannelType::BidirectionalSlave,
        network_key_index: 1,
        transmission_type: TransmissionType::new(
            TransmissionChannelType::IndependentChannel,
            TransmissionGlobalDataPages::GlobalDataPagesNotUsed,
            5,
        ),
        radio_frequency: 57,
        timeout_duration: 12,
        channel_period: 8070,
    }
}

fn open_handler(channel: u8) -> MessageHandler {
    let mut handler = MessageHandler::new(channel, &config());
    handler.open();
    while handler.send_message().is_some() {}
    handler
}

#[test]
fn new_handler_is_closed_and_silent() {
    let mut handler = MessageHandler::new(3, &config());
    assert_eq!(handler.state, HandlerState::Closed);
    assert_eq!(handler.get_channel(), 3);
    assert_eq!(handler.get_device_id(), 42);
    assert!(!handler.is_tx_ready());
    assert_eq!(handler.send_message(), None);
    assert_eq!(handler.state, HandlerState::Closed);
}

#[test]
fn opening_walks_through_the_configuration() {
    let mut handler = MessageHandler::new(3, &config());
    handler.open();
    let mut sent = Vec::new();
    while let Some(msg) = handler.send_message() {
        sent.push(msg);
    }
    assert_eq!(sent.len(), 6);
    assert_eq!(
        sent[0],
        TxMessage::Config(TxMessageChannelConfig::AssignChannel {
            channel_number: 3,
            channel_type: ChannelType::BidirectionalSlave,
            network_number: 1,
        })
    );
    assert_eq!(sent[5], TxMessage::OpenChannel { channel_number: 3 });
    assert_eq!(handler.state, HandlerState::Open);
    // Opening an open channel changes nothing.
    handler.open();
    assert_eq!(handler.state, HandlerState::Open);
    assert_eq!(handler.send_message(), None);
}

#[test]
fn closing_sends_one_close_and_opening_again_starts_over() {
    let mut handler = open_handler(3);
    handler.close();
    assert_eq!(handler.state, HandlerState::SendClose);
    handler.open();
    assert_eq!(handler.state, HandlerState::SendAssign);
    handler.close();
    assert_eq!(handler.send_message(), Some(TxMessage::CloseChannel { channel_number: 3 }));
    assert_eq!(handler.state, HandlerState::Closed);
    handler.close();
    assert_eq!(handler.state, HandlerState::Closed);
}

#[test]
fn data_from_the_monitor_makes_an_open_link_ready() {
    let data = AntMessage::BroadcastData { channel_number: 3, data: [0; 8] };
    let mut closed = MessageHandler::new(3, &config());
    assert_eq!(closed.receive_message(&data), Ok(()));
    assert!(!closed.is_tx_ready());
    let mut handler = open_handler(3);
    assert_eq!(handler.receive_message(&data), Ok(()));
    assert!(handler.is_tx_ready());
    handler.tx_sent();
    assert!(!handler.is_tx_ready());
    assert_eq!(
        handler.receive_message(&AntMessage::AcknowledgedData { channel_number: 3, data: [0; 8] }),
        Ok(())
    );
    assert!(handler.is_tx_ready());
    assert_eq!(handler.receive_message(&AntMessage::ChannelEvent { channel_number: 3, event_code: 8 }), Ok(()));
    assert!(!handler.is_tx_ready());
    assert_eq!(handler.state, HandlerState::Open);
}

#[test]
fn handler_refuses_what_is_not_for_it() {
    let mut handler = open_handler(3);
    let before = handler;
    let other = AntMessage::ChannelId { channel_number: 4, device_number: 9, device_type: 1, transmission_type: 1 };
    assert_eq!(handler.receive_message(&other), Err(ChannelError::WrongChannel));
    let rejected = AntMessage::ChannelResponse { channel_number: 3, message_id: 0x42, response_code: 0x28 };
    assert_eq!(handler.receive_message(&rejected), Err(ChannelError::CommandRejected(0x28)));
    assert_eq!(handler, before);
    let accepted = AntMessage::ChannelResponse { channel_number: 3, message_id: 0x42, response_code: 0 };
    assert_eq!(handler.receive_message(&accepted), Ok(()));
    assert_eq!(handler, before);
}

#[test]
fn radio_events_close_the_handler() {
    let mut handler = open_handler(3);
    let paired = AntMessage::ChannelId { channel_number: 3, device_number: 77, device_type: 120, transmission_type: 1 };
    assert_eq!(handler.receive_message(&paired), Ok(()));
    assert_eq!(handler.get_device_id(), 77);
    assert_eq!(handler.receive_message(&AntMessage::ChannelEvent { channel_number: 3, event_code: 7 }), Ok(()));
    assert_eq!(handler.state, HandlerState::Closed);
    assert_eq!(handler.get_device_id(), 77);
    let mut handler = open_handler(3);
    assert_eq!(handler.receive_message(&paired), Ok(()));
    assert_eq!(handler.receive_message(&AntMessage::StartUpMessage { reason: 0 }), Ok(()));
    assert_eq!(handler.state, HandlerState::Closed);
    assert_eq!(handler.get_device_id(), 42);
}

#[test]
fn handler_without_a_channel_stays_closed() {
    let mut handler = open_handler(3);
    handler.set_channel(ChannelAssignment::UnAssigned());
    assert_eq!(handler.channel, ChannelAssignment::UnAssigned());
    assert_eq!(handler.state, HandlerState::Closed);
    assert_eq!(handler.get_channel(), 0);
    handler.open();
    assert_eq!(handler.state, HandlerState::Closed);
    let data = AntMessage::BroadcastData { channel_number: 0, data: [0; 8] };
    assert_eq!(handler.receive_message(&data), Err(ChannelError::WrongChannel));
    handler.set_channel(ChannelAssignment::Assigned(9));
    handler.open();
    assert_eq!(handler.state, HandlerState::SendAssign);
    assert_eq!(handler.get_channel(), 9);
}

#[test]
fn outbound_messages_take_the_channel_they_are_given() {
    let mut period = TxMessageChannelConfig::ChannelPeriod { channel_number: 0, period: 100 };
    period.set_channel(6);
    assert_eq!(period, TxMessageChannelConfig::ChannelPeriod { channel_number: 6, period: 100 });
    assert_eq!(TxMessage::from(period), TxMessage::Config(period));
    let mut page = TxMessageData::BroadcastData { channel_number: 0, data: [7; 8] };
    page.set_channel(6);
    assert_eq!(page, TxMessageData::BroadcastData { channel_number: 6, data: [7; 8] });
    assert_eq!(TxMessage::from(page), TxMessage::Data(page));
    assert_eq!(TxMessage::default(), TxMessage::ResetSystem);
    assert_eq!(AntMessage::default(), AntMessage::StartUpMessage { reason: 0 });
}

/// A driver that answers the capabilities request and keeps what it is sent.
struct Recorder {
    answer: Option<AntMessage>,
    sent: Vec<TxMessage>,
}

impl Driver<()> for Recorder {
    fn polls_to(&self, _r: Result<Option<AntMessage>, DriverError<()>>, _after: &Self) -> bool {
        true
    }

    fn sends_to(&self, _msg: TxMessage, _r: Result<(), DriverError<()>>, _after: &Self) -> bool {
        true
    }

    fn get_message(&mut self) -> Result<Option<AntMessage>, DriverError<()>> {
        Ok(self.answer.take())
    }

    fn send_message(&mut self, msg: &TxMessage) -> Result<(), DriverError<()>> {
        if let TxMessage::RequestMessage { .. } = msg {
            self.answer = Some(AntMessage::Capabilities { max_ant_channels: 8, max_networks: 3 });
        }
        self.sent.push(*msg);
        Ok(())
    }
}

#[test]
fn router_moves_a_handler_to_its_slot_and_brings_it_up() {
    let driver = Recorder { answer: None, sent: Vec::new() };
    let mut router: Router<(), Recorder, MessageHandler, fn(&AntMessage)> = Router::new(driver).unwrap();
    let mut handler = MessageHandler::new(0, &config());
    handler.open();
    assert_eq!(router.add_channel_at_index(handler, 5), Ok(()));
    assert_eq!(router.channel(5).unwrap().channel, ChannelAssignment::Assigned(5));
    assert_eq!(router.process(), Ok(()));
    assert_eq!(router.channel(5).unwrap().state, HandlerState::Open);
    let sent = &router.driver().sent;
    assert_eq!(sent.len(), 2 + 6);
    assert_eq!(sent[7], TxMessage::OpenChannel { channel_number: 5 });
    let removed = router.remove_channel(5).unwrap();
    assert_eq!(removed.channel, ChannelAssignment::UnAssigned());
    assert_eq!(removed.state, HandlerState::Closed);
    assert!(matches!(router.remove_channel(5), Err(RouterError::ChannelNotAssociated())));
}
