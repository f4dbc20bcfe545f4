use ant::channel::{Channel, ChannelAssignment, ChannelError};
use ant::drivers::{Driver, DriverError};
use ant::messages::{AntMessage, RequestableMessageId, TxMessage, TxMessageChannelConfig};
use ant::router::{negotiation_step, Negotiation, Router, RouterError, MAX_CHANNELS};
use std::cell::RefCell;
use std::collections::VecDeque;
use std::rc::Rc;

/// What a fake driver and the test that made it both see.
#[derive(Default)]
struct Wire {
    inbound: VecDeque<AntMessage>,
    sent: Vec<TxMessage>,
    polls: usize,
    answer_capabilities: Option<u8>,
    fail_sends: bool,
}

#[derive(Clone)]
struct FakeDriver {
    wire: Rc<RefCell<Wire>>,
}

impl FakeDriver {
    fn new(answer_capabilities: Option<u8>) -> (FakeDriver, Rc<RefCell<Wire>>) {
        let wire = Rc::new(RefCell::new(Wire { answer_capabilities, ..Wire::default() }));
        (FakeDriver { wire: wire.clone() }, wire)
    }
}

impl Driver<()> for FakeDriver {
    fn polls_to(&self, _r: Result<Option<AntMessage>, DriverError<()>>, _after: &Self) -> bool {
        true
    }

    fn sends_to(&self, _msg: TxMessage, _r: Result<(), DriverError<()>>, _after: &Self) -> bool {
        true
    }

    fn get_message(&mut self) -> Result<Option<AntMessage>, DriverError<()>> {
        let mut wire = self.wire.borrow_mut();
        wire.polls += 1;
        Ok(wire.inbound.pop_front())
    }

    fn send_message(&mut self, msg: &TxMessage) -> Result<(), DriverError<()>> {
        let mut wire = self.wire.borrow_mut();
        if wire.fail_sends {
            return Err(DriverError::WriteError(()));
        }
        wire.sent.push(*msg);
        if let TxMessage::RequestMessage { message_id: RequestableMessageId::Capabilities, .. } = msg {
            if let Some(n) = wire.answer_capabilities {
                wire.inbound.push_back(AntMessage::Capabilities { max_ant_channels: n, max_networks: 3 });
            }
        }
        Ok(())
    }
}

#[derive(Default)]
struct Journal {
    received: Vec<AntMessage>,
    outbox: VecDeque<TxMessage>,
    assignment: Option<ChannelAssignment>,
}

struct FakeChannel {
    journal: Rc<RefCell<Journal>>,
}

impl FakeChannel {
    fn new() -> (FakeChannel, Rc<RefCell<Journal>>) {
        let journal = Rc::new(RefCell::new(Journal::default()));
        (FakeChannel { journal: journal.clone() }, journal)
    }
}

impl Channel for FakeChannel {
    fn assignment(&self) -> ChannelAssignment {
        self.journal.borrow().assignment.unwrap_or(ChannelAssignment::UnAssigned())
    }

    fn takes_to(&self, _msg: AntMessage, _after: &Self) -> bool {
        true
    }

    fn hands_to(&self, _out: Option<TxMessage>, _after: &Self) -> bool {
        true
    }

    fn moves_to(&self, _channel: ChannelAssignment, _after: &Self) -> bool {
        true
    }

    fn receive_message(&mut self, msg: &AntMessage) -> Result<(), ChannelError> {
        self.journal.borrow_mut().received.push(*msg);
        Ok(())
    }

    fn send_message(&mut self) -> Option<TxMessage> {
        self.journal.borrow_mut().outbox.pop_front()
    }

    fn set_channel(&mut self, channel: ChannelAssignment) {
        self.journal.borrow_mut().assignment = Some(channel);
    }
}

/// A driver whose radio answers late: the poll that empties the queue after
/// the reset finds nothing, and the 25th poll after it brings the answer.
struct LateDriver {
    polls: usize,
}

impl Driver<()> for LateDriver {
    fn polls_to(&self, _r: Result<Option<AntMessage>, DriverError<()>>, _after: &Self) -> bool {
        true
    }

    fn sends_to(&self, _msg: TxMessage, _r: Result<(), DriverError<()>>, _after: &Self) -> bool {
        true
    }

    fn get_message(&mut self) -> Result<Option<AntMessage>, DriverError<()>> {
        self.polls += 1;
        if self.polls == 1 + 25 {
            Ok(Some(AntMessage::Capabilities { max_ant_channels: 4, max_networks: 1 }))
        } else {
            Ok(None)
        }
    }

    fn send_message(&mut self, _msg: &TxMessage) -> Result<(), DriverError<()>> {
        Ok(())
    }
}

type TestRouter = Router<(), FakeDriver, FakeChannel, fn(&AntMessage)>;

#[test]
fn router_over_eight_channel_radio_takes_eight_channels() {
    let (driver, wire) = FakeDriver::new(Some(8));
    let mut router: TestRouter = Router::new(driver).unwrap();
    assert_eq!(router.max_channels(), 8);
    assert!(matches!(wire.borrow().sent[0], TxMessage::ResetSystem));
    for expected in 0..8usize {
        let (channel, journal) = FakeChannel::new();
        assert_eq!(router.add_channel(channel), Ok(expected));
        assert_eq!(journal.borrow().assignment, Some(ChannelAssignment::Assigned(expected as u8)));
    }
    let (ninth, _) = FakeChannel::new();
    assert_eq!(router.add_channel(ninth), Err(RouterError::OutOfChannels()));
    assert!(MAX_CHANNELS == 15);
}

#[test]
fn router_without_capabilities_gives_up_after_25_polls() {
    let (driver, wire) = FakeDriver::new(None);
    let result: Result<TestRouter, RouterError> = Router::new(driver);
    assert!(matches!(result, Err(RouterError::FailedToGetCapabilities())));
    // One poll finds the radio's queue empty after the reset, then 25 wait
    // for the capabilities.
    assert_eq!(wire.borrow().polls, 1 + 25);
}

/// A router over a radio with `max` channels, and the wire to its driver.
fn router_with(max: u8) -> (TestRouter, Rc<RefCell<Wire>>) {
    let (driver, wire) = FakeDriver::new(Some(max));
    let router: TestRouter = Router::new(driver).unwrap();
    wire.borrow_mut().sent.clear();
    (router, wire)
}

/// Fill the slots `0..count` of `router`, and give the journals of the
/// channels in them.
fn fill(router: &mut TestRouter, count: usize) -> Vec<Rc<RefCell<Journal>>> {
    let mut journals = Vec::new();
    for _ in 0..count {
        let (channel, journal) = FakeChannel::new();
        router.add_channel(channel).unwrap();
        journals.push(journal);
    }
    journals
}

#[test]
fn new_router_resets_then_asks_for_capabilities() {
    let (driver, wire) = FakeDriver::new(Some(8));
    wire.borrow_mut().inbound.push_back(AntMessage::SerialNumber { serial_number: 1 });
    wire.borrow_mut().inbound.push_back(AntMessage::BroadcastData { channel_number: 1, data: [0; 8] });
    let router: TestRouter = Router::new(driver).unwrap();
    assert_eq!(
        wire.borrow().sent,
        vec![
            TxMessage::ResetSystem,
            TxMessage::RequestMessage { channel: 0, message_id: RequestableMessageId::Capabilities },
        ]
    );
    assert_eq!(router.max_channels(), 8);
    assert!(!router.reset_restore());
    for index in 0..MAX_CHANNELS + 2 {
        assert!(router.channel(index).is_none());
    }
}

#[test]
fn new_router_fails_where_the_driver_fails() {
    let (driver, wire) = FakeDriver::new(Some(8));
    wire.borrow_mut().fail_sends = true;
    let result: Result<TestRouter, RouterError> = Router::new(driver);
    assert!(matches!(result, Err(RouterError::DriverError())));
}

#[test]
fn capabilities_on_the_last_poll_are_in_time() {
    let router: Router<(), LateDriver, FakeChannel, fn(&AntMessage)> =
        Router::new(LateDriver { polls: 0 }).unwrap();
    assert_eq!(router.max_channels(), 4);
    let driver = router.release();
    // The poll that brought the answer went on to find the queue empty.
    assert_eq!(driver.polls, 1 + 25 + 1);
}

#[test]
fn negotiation_polls_while_retries_are_left() {
    for attempts in 0..25u8 {
        assert_eq!(negotiation_step(0, attempts), Negotiation::Poll);
    }
    assert_eq!(negotiation_step(0, 25), Negotiation::GiveUp);
    assert_eq!(negotiation_step(0, 255), Negotiation::GiveUp);
    assert_eq!(negotiation_step(8, 0), Negotiation::Done);
    assert_eq!(negotiation_step(8, 25), Negotiation::Done);
}

#[test]
fn full_table_takes_no_more_channels_whatever_the_order() {
    let (mut router, _wire) = router_with(15);
    // Fill from the top down, then from the bottom up.
    for index in (8..15usize).rev() {
        let (channel, _) = FakeChannel::new();
        assert_eq!(router.add_channel_at_index(channel, index), Ok(()));
    }
    for expected in 0..8usize {
        let (channel, _) = FakeChannel::new();
        assert_eq!(router.add_channel(channel), Ok(expected));
    }
    let (channel, journal) = FakeChannel::new();
    assert_eq!(router.add_channel(channel), Err(RouterError::OutOfChannels()));
    assert_eq!(journal.borrow().assignment, None);
}

#[test]
fn add_channel_takes_the_lowest_free_slot() {
    let (mut router, _wire) = router_with(15);
    fill(&mut router, 5);
    assert!(router.remove_channel(2).is_ok());
    assert!(router.remove_channel(0).is_ok());
    let (channel, journal) = FakeChannel::new();
    assert_eq!(router.add_channel(channel), Ok(0));
    assert_eq!(journal.borrow().assignment, Some(ChannelAssignment::Assigned(0)));
    let (channel, journal) = FakeChannel::new();
    assert_eq!(router.add_channel(channel), Ok(2));
    assert_eq!(journal.borrow().assignment, Some(ChannelAssignment::Assigned(2)));
    assert_eq!(router.channel(2).unwrap().assignment(), ChannelAssignment::Assigned(2));
}

#[test]
fn add_channel_at_index_checks_bounds_then_occupancy() {
    let (mut router, _wire) = router_with(8);
    for index in 0..8usize {
        let (channel, journal) = FakeChannel::new();
        assert_eq!(router.add_channel_at_index(channel, index), Ok(()));
        assert_eq!(journal.borrow().assignment, Some(ChannelAssignment::Assigned(index as u8)));
        let (again, journal) = FakeChannel::new();
        assert_eq!(router.add_channel_at_index(again, index), Err(RouterError::ChannelAlreadyAssigned()));
        assert_eq!(journal.borrow().assignment, None);
    }
    for index in [8usize, 9, 14, 15, 16, usize::MAX] {
        let (channel, _) = FakeChannel::new();
        assert_eq!(router.add_channel_at_index(channel, index), Err(RouterError::ChannelOutOfBounds()));
    }
}

#[test]
fn radio_with_more_channels_than_slots_is_held_to_the_table() {
    let (mut router, _wire) = router_with(200);
    assert_eq!(router.max_channels(), 200);
    let (channel, _) = FakeChannel::new();
    assert_eq!(router.add_channel_at_index(channel, 15), Err(RouterError::ChannelOutOfBounds()));
    fill(&mut router, 15);
    let (channel, _) = FakeChannel::new();
    assert_eq!(router.add_channel(channel), Err(RouterError::OutOfChannels()));
}

#[test]
fn remove_channel_frees_the_slot_and_tells_the_radio() {
    let (mut router, wire) = router_with(8);
    let journals = fill(&mut router, 3);
    let removed = router.remove_channel(1).unwrap();
    assert_eq!(removed.assignment(), ChannelAssignment::UnAssigned());
    assert_eq!(journals[1].borrow().assignment, Some(ChannelAssignment::UnAssigned()));
    assert!(router.channel(1).is_none());
    assert!(router.channel(0).is_some());
    assert!(router.channel(2).is_some());
    assert_eq!(
        wire.borrow().sent,
        vec![
            TxMessage::CloseChannel { channel_number: 1 },
            TxMessage::Config(TxMessageChannelConfig::UnAssignChannel { channel_number: 1 }),
        ]
    );
    assert!(matches!(router.remove_channel(1), Err(RouterError::ChannelNotAssociated())));
    assert!(matches!(router.remove_channel(7), Err(RouterError::ChannelNotAssociated())));
    assert!(matches!(router.remove_channel(15), Err(RouterError::ChannelNotAssociated())));
    assert_eq!(wire.borrow().sent.len(), 2);
}

#[test]
fn remove_channel_reports_a_failing_driver() {
    let (mut router, wire) = router_with(8);
    let journals = fill(&mut router, 1);
    wire.borrow_mut().fail_sends = true;
    assert!(matches!(router.remove_channel(0), Err(RouterError::DriverError())));
    assert!(router.channel(0).is_none());
    assert_eq!(journals[0].borrow().assignment, Some(ChannelAssignment::UnAssigned()));
}

#[test]
fn broadcast_data_goes_to_its_channel_alone() {
    let (mut router, wire) = router_with(8);
    let journals = fill(&mut router, 5);
    let msg = AntMessage::BroadcastData { channel_number: 3, data: [1, 2, 3, 4, 5, 6, 7, 8] };
    wire.borrow_mut().inbound.push_back(msg);
    assert_eq!(router.process(), Ok(()));
    for (index, journal) in journals.iter().enumerate() {
        if index == 3 {
            assert_eq!(journal.borrow().received, vec![msg]);
        } else {
            assert!(journal.borrow().received.is_empty());
        }
    }
}

#[test]
fn capabilities_go_to_every_channel_and_set_the_count() {
    let (mut router, wire) = router_with(8);
    let first = fill(&mut router, 2);
    let (channel, far) = FakeChannel::new();
    router.add_channel_at_index(channel, 6).unwrap();
    let msg = AntMessage::Capabilities { max_ant_channels: 5, max_networks: 2 };
    wire.borrow_mut().inbound.push_back(msg);
    assert_eq!(router.process(), Ok(()));
    assert_eq!(router.max_channels(), 5);
    assert_eq!(first[0].borrow().received, vec![msg]);
    assert_eq!(first[1].borrow().received, vec![msg]);
    assert_eq!(far.borrow().received, vec![msg]);
}

#[test]
fn event_filter_goes_to_no_channel() {
    let (mut router, _wire) = router_with(8);
    let journals = fill(&mut router, 4);
    assert_eq!(router.handle_message(&AntMessage::EventFilter { filter: 9 }), Ok(()));
    assert_eq!(router.handle_message(&AntMessage::UserNvm { data: [0; 8] }), Ok(()));
    assert_eq!(router.max_channels(), 8);
    for journal in journals {
        assert!(journal.borrow().received.is_empty());
    }
}

#[test]
fn every_channel_scoped_kind_is_routed_by_its_number() {
    let (mut router, _wire) = router_with(8);
    let journals = fill(&mut router, 3);
    let scoped = [
        AntMessage::BroadcastData { channel_number: 2, data: [0; 8] },
        AntMessage::AcknowledgedData { channel_number: 2, data: [0; 8] },
        AntMessage::BurstTransferData { channel_number: 2, sequence_number: 1, data: [0; 8] },
        AntMessage::AdvancedBurstData { channel_number: 2, sequence_number: 1, data: [0; 8] },
        AntMessage::ChannelEvent { channel_number: 2, event_code: 3 },
        AntMessage::ChannelResponse { channel_number: 2, message_id: 0x42, response_code: 0 },
        AntMessage::ChannelStatus { channel_number: 2, channel_state: 1 },
        AntMessage::ChannelId { channel_number: 2, device_number: 7, device_type: 120, transmission_type: 1 },
    ];
    for msg in scoped {
        assert_eq!(router.handle_message(&msg), Ok(()));
    }
    assert_eq!(journals[2].borrow().received, scoped.to_vec());
    assert!(journals[0].borrow().received.is_empty());
    assert!(journals[1].borrow().received.is_empty());
}

#[test]
fn every_broadcast_kind_goes_to_every_channel() {
    let (mut router, _wire) = router_with(8);
    let journals = fill(&mut router, 2);
    let global = [
        AntMessage::StartUpMessage { reason: 0x20 },
        AntMessage::AdvancedBurstCapabilities { supported_max_packet_length: 3 },
        AntMessage::AdvancedBurstCurrentConfiguration { enabled: true, max_packet_length: 3 },
        AntMessage::EncryptionModeParameters { max_supported_encryption_mode: 1 },
    ];
    for msg in global {
        assert_eq!(router.handle_message(&msg), Ok(()));
    }
    assert_eq!(router.max_channels(), 8);
    assert_eq!(journals[0].borrow().received, global.to_vec());
    assert_eq!(journals[1].borrow().received, global.to_vec());
}

#[test]
fn message_for_a_free_or_missing_slot_is_an_error() {
    let (mut router, wire) = router_with(8);
    fill(&mut router, 2);
    let free = AntMessage::ChannelEvent { channel_number: 2, event_code: 1 };
    let beyond = AntMessage::ChannelEvent { channel_number: 15, event_code: 1 };
    assert_eq!(router.handle_message(&free), Err(RouterError::ChannelNotAssociated()));
    assert_eq!(router.handle_message(&beyond), Err(RouterError::ChannelOutOfBounds()));
    let last = AntMessage::ChannelEvent { channel_number: 14, event_code: 1 };
    assert_eq!(router.handle_message(&last), Err(RouterError::ChannelNotAssociated()));
    wire.borrow_mut().inbound.push_back(free);
    assert_eq!(router.process(), Err(RouterError::ChannelNotAssociated()));
}

#[test]
fn process_flushes_each_channel_in_slot_order() {
    let (mut router, wire) = router_with(8);
    let journals = fill(&mut router, 3);
    let close = |n: u8| TxMessage::CloseChannel { channel_number: n };
    journals[2].borrow_mut().outbox.extend([close(20), close(21)]);
    journals[0].borrow_mut().outbox.extend([close(0), close(1), close(2)]);
    assert_eq!(router.process(), Ok(()));
    assert_eq!(wire.borrow().sent, vec![close(0), close(1), close(2), close(20), close(21)]);
    assert_eq!(router.process(), Ok(()));
    assert_eq!(wire.borrow().sent.len(), 5);
}

#[test]
fn process_stops_at_a_failing_driver() {
    let (mut router, wire) = router_with(8);
    let journals = fill(&mut router, 1);
    journals[0].borrow_mut().outbox.push_back(TxMessage::ResetSystem);
    wire.borrow_mut().fail_sends = true;
    assert_eq!(router.process(), Err(RouterError::DriverError()));
}

#[test]
fn observer_sees_every_message_before_it_is_routed() {
    let (driver, wire) = FakeDriver::new(Some(8));
    let seen: Rc<RefCell<Vec<AntMessage>>> = Rc::new(RefCell::new(Vec::new()));
    let sink = seen.clone();
    let mut router: Router<(), FakeDriver, FakeChannel, Box<dyn Fn(&AntMessage)>> =
        Router::new(driver).unwrap();
    router.set_rx_message_callback(Some(Box::new(move |msg: &AntMessage| sink.borrow_mut().push(*msg))));
    let filter = AntMessage::EventFilter { filter: 1 };
    let stray = AntMessage::BroadcastData { channel_number: 4, data: [0; 8] };
    wire.borrow_mut().inbound.extend([filter, stray]);
    assert_eq!(router.process(), Err(RouterError::ChannelNotAssociated()));
    assert_eq!(*seen.borrow(), vec![filter, stray]);
    router.set_rx_message_callback(None);
    wire.borrow_mut().inbound.push_back(filter);
    assert_eq!(router.process(), Ok(()));
    assert_eq!(seen.borrow().len(), 2);
}

#[test]
fn reset_remembers_whether_to_restore() {
    let (mut router, wire) = router_with(8);
    assert!(router.reset(true).is_ok());
    assert!(router.reset_restore());
    assert!(router.reset(false).is_ok());
    assert!(!router.reset_restore());
    assert_eq!(wire.borrow().sent, vec![TxMessage::ResetSystem, TxMessage::ResetSystem]);
    assert!(router.reset(true).is_ok());
    wire.borrow_mut().fail_sends = true;
    assert!(matches!(router.reset(false), Err(DriverError::WriteError(()))));
    assert!(router.reset_restore());
}

#[test]
fn send_passes_the_message_to_the_driver() {
    let (mut router, wire) = router_with(8);
    let msg = TxMessage::OpenChannel { channel_number: 3 };
    assert_eq!(router.send(&msg), Ok(()));
    assert_eq!(wire.borrow().sent, vec![msg]);
    assert_eq!(router.driver().wire.borrow().sent.len(), 1);
    wire.borrow_mut().fail_sends = true;
    assert_eq!(router.send(&msg), Err(RouterError::DriverError()));
}

#[test]
fn release_gives_the_driver_back() {
    let (router, wire) = router_with(8);
    let driver = router.release();
    assert!(Rc::ptr_eq(&driver.wire, &wire));
}

#[test]
fn driver_errors_become_the_router_s_driver_error() {
    assert_eq!(RouterError::from(DriverError::ReadError(5u8)), RouterError::DriverError());
    assert_eq!(RouterError::from(DriverError::<()>::BadChecksum(1, 2)), RouterError::DriverError());
}
