use vstd::prelude::*;
use packed_struct::types::bits::Bits;
use packed_struct::types::{Integer, SizedInteger};
use thingbuf::mpsc::{Receiver, Sender};
use crate::channel::{duration_to_search_timeout, search_timeout_of, ChannelAssignment};
use crate::messages::{
    AntMessage, ChannelType, TransmissionChannelType, TransmissionGlobalDataPages,
    TransmissionType, TxMessage, TxMessageChannelConfig, TxMessageData,
};
use crate::plus::common::datapages::{
    in_manufacturer_specific_range, lemma_le_bytes_round_trip, MANUFACTURER_SPECIFIC_FIRST,
    MANUFACTURER_SPECIFIC_LAST,
};
use crate::plus::common::msg_handler::{ChannelConfig, HandlerState, MessageHandler};
use crate::plus::profiles::heart_rate::datapages::{
    page_number_of, unpack_page_number, BatteryStatus, Capabilities, CumulativeOperatingTime,
    DataPageNumbers, DefaultDataPage, DeviceInformation, Error, ManufacturerInformation,
    ManufacturerSpecific, MonitorTxDataPage, Period, PreviousHeartBeat, ProductInformation,
    SwimIntervalSummary, DEVICE_TYPE,
};
use crate::plus::NETWORK_RF_FREQUENCY;
use crate::router::DRAIN_LIMIT;

verus! {

/// `Integer` of packed_struct: an integer held to a number of bits. Nothing
/// is known of what is inside one.
#[verifier::external_type_specification]
#[verifier::external_body]
#[verifier::reject_recursive_types(T)]
#[verifier::reject_recursive_types(B)]
pub struct ExInteger<T, B>(Integer<T, B>);

/// `Bits` of packed_struct: the number of bits of an `Integer`, as a type.
#[verifier::external_type_specification]
#[verifier::external_body]
pub struct ExBits<const N: usize>(Bits<N>);

/// `mpsc::Receiver` of thingbuf: the receiving end of a queue. Nothing is
/// known of what the queue holds.
#[verifier::external_type_specification]
#[verifier::external_body]
#[verifier::reject_recursive_types(T)]
#[verifier::reject_recursive_types(R)]
pub struct ExReceiver<T, R>(Receiver<T, R>);

/// `mpsc::Sender` of thingbuf: a sending end of a queue.
#[verifier::external_type_specification]
#[verifier::external_body]
#[verifier::reject_recursive_types(T)]
#[verifier::reject_recursive_types(R)]
pub struct ExSender<T, R>(Sender<T, R>);

/// `recycling::DefaultRecycle` of thingbuf: how a queue's ends reuse their
/// slots when nothing else is asked for.
#[verifier::external_type_specification]
#[verifier::external_body]
pub struct ExDefaultRecycle(thingbuf::recycling::DefaultRecycle);

/// `SizedInteger::to_primitive` of packed_struct, on a four-bit integer: the
/// number the integer holds. Every way the crate offers to make such an
/// integer masks the number to four bits, so it is below 16.
#[verifier::external_body]
fn extension_bits(extension: Integer<u8, Bits<4>>) -> (bits: u8)
    ensures
        bits < 16,
{
    extension.to_primitive()
}

/// `Receiver::try_recv` of thingbuf: the next message in the queue, or
/// nothing where the queue is empty or closed. What the queue holds is up to
/// whoever has the sending ends, so nothing is said of the answer.
#[verifier::external_body]
fn try_recv(rx: &Receiver<AntMessage>) -> (msg: Option<AntMessage>) {
    rx.try_recv().ok()
}

/// `Sender::try_send` of thingbuf: puts the message in the queue where there
/// is room and a receiver, and says whether it did.
#[verifier::external_body]
fn try_send(tx: &Sender<TxMessage>, msg: TxMessage) -> (sent: bool) {
    tx.try_send(msg).is_ok()
}

/// The page that the eight bytes of a data message hold, or why they hold
/// none that a monitor transmits.
pub open spec fn parsed(data: Seq<u8>) -> Result<MonitorTxDataPage, Error> {
    let number = page_number_of(data[0]);
    match DataPageNumbers::of_number(number) {
        Some(DataPageNumbers::DefaultDataPage) => Ok(
            MonitorTxDataPage::DefaultDataPage(DefaultDataPage::unpacked(data)),
        ),
        Some(DataPageNumbers::CumulativeOperatingTime) => Ok(
            MonitorTxDataPage::CumulativeOperatingTime(CumulativeOperatingTime::unpacked(data)),
        ),
        Some(DataPageNumbers::ManufacturerInformation) => Ok(
            MonitorTxDataPage::ManufacturerInformation(ManufacturerInformation::unpacked(data)),
        ),
        Some(DataPageNumbers::ProductInformation) => Ok(
            MonitorTxDataPage::ProductInformation(ProductInformation::unpacked(data)),
        ),
        Some(DataPageNumbers::PreviousHeartBeat) => Ok(
            MonitorTxDataPage::PreviousHeartBeat(PreviousHeartBeat::unpacked(data)),
        ),
        Some(DataPageNumbers::SwimIntervalSummary) => Ok(
            MonitorTxDataPage::SwimIntervalSummary(SwimIntervalSummary::unpacked(data)),
        ),
        Some(DataPageNumbers::Capabilities) => Ok(
            MonitorTxDataPage::Capabilities(Capabilities::unpacked(data)),
        ),
        Some(DataPageNumbers::BatteryStatus) => Ok(
            MonitorTxDataPage::BatteryStatus(BatteryStatus::unpacked(data)),
        ),
        Some(DataPageNumbers::DeviceInformation) => Ok(
            MonitorTxDataPage::DeviceInformation(DeviceInformation::unpacked(data)),
        ),
        Some(DataPageNumbers::HRFeatureCommand) => Err(Error::UnsupportedDataPage(number)),
        None => if in_manufacturer_specific_range(number) {
            Ok(MonitorTxDataPage::ManufacturerSpecific(ManufacturerSpecific::unpacked(data)))
        } else {
            Err(Error::UnsupportedDataPage(number))
        },
    }
}

/// Decode the eight bytes of a data message.
pub fn parse_dp(data: &[u8; 8]) -> (r: Result<MonitorTxDataPage, Error>)
    ensures
        r == parsed(data@),
        r matches Ok(page) ==> page.wf(),
{
    let dp_num = unpack_page_number(data[0]);
    if let Some(dp) = DataPageNumbers::from_primitive(dp_num) {
        let parsed = match dp {
            DataPageNumbers::DefaultDataPage => MonitorTxDataPage::DefaultDataPage(
                DefaultDataPage::unpack(data),
            ),
            DataPageNumbers::CumulativeOperatingTime => MonitorTxDataPage::CumulativeOperatingTime(
                CumulativeOperatingTime::unpack(data),
            ),
            DataPageNumbers::ManufacturerInformation => MonitorTxDataPage::ManufacturerInformation(
                ManufacturerInformation::unpack(data),
            ),
            DataPageNumbers::ProductInformation => MonitorTxDataPage::ProductInformation(
                ProductInformation::unpack(data),
            ),
            DataPageNumbers::PreviousHeartBeat => MonitorTxDataPage::PreviousHeartBeat(
                PreviousHeartBeat::unpack(data),
            ),
            DataPageNumbers::SwimIntervalSummary => MonitorTxDataPage::SwimIntervalSummary(
                SwimIntervalSummary::unpack(data),
            ),
            DataPageNumbers::Capabilities => MonitorTxDataPage::Capabilities(Capabilities::unpack(data)),
            DataPageNumbers::BatteryStatus => MonitorTxDataPage::BatteryStatus(
                BatteryStatus::unpack(data),
            ),
            DataPageNumbers::DeviceInformation => MonitorTxDataPage::DeviceInformation(
                DeviceInformation::unpack(data),
            ),
            // A page of the profile that only ever travels the other way.
            DataPageNumbers::HRFeatureCommand => {
                return Err(Error::UnsupportedDataPage(dp_num));
            },
        };
        return Ok(parsed);
    }
    if MANUFACTURER_SPECIFIC_FIRST <= dp_num && dp_num <= MANUFACTURER_SPECIFIC_LAST {
        return Ok(MonitorTxDataPage::ManufacturerSpecific(ManufacturerSpecific::unpack(data)));
    }
    Err(Error::UnsupportedDataPage(dp_num))
}

/// Packing a page and decoding the bytes gives the page back.
pub proof fn lemma_pack_then_parse(page: MonitorTxDataPage)
    requires
        page.wf(),
    ensures
        page.packed().len() == 8,
        parsed(page.packed()) == Ok::<MonitorTxDataPage, Error>(page),
{
    match page {
        MonitorTxDataPage::DefaultDataPage(p) => {
            lemma_le_bytes_round_trip(p.common.heart_beat_event_time as u32, 0, 0, 0);
        },
        MonitorTxDataPage::CumulativeOperatingTime(p) => {
            lemma_le_bytes_round_trip(p.common.heart_beat_event_time as u32, 0, 0, 0);
            lemma_le_bytes_round_trip(p.cumulative_operating_time, 0, 0, 0);
        },
        MonitorTxDataPage::ManufacturerInformation(p) => {
            lemma_le_bytes_round_trip(p.common.heart_beat_event_time as u32, 0, 0, 0);
            lemma_le_bytes_round_trip(p.serial_number as u32, 0, 0, 0);
        },
        MonitorTxDataPage::ProductInformation(p) => {
            lemma_le_bytes_round_trip(p.common.heart_beat_event_time as u32, 0, 0, 0);
        },
        MonitorTxDataPage::PreviousHeartBeat(p) => {
            lemma_le_bytes_round_trip(p.common.heart_beat_event_time as u32, 0, 0, 0);
            lemma_le_bytes_round_trip(p.previous_heart_beat_event_time as u32, 0, 0, 0);
        },
        MonitorTxDataPage::SwimIntervalSummary(p) => {
            lemma_le_bytes_round_trip(p.common.heart_beat_event_time as u32, 0, 0, 0);
        },
        MonitorTxDataPage::Capabilities(p) => {
            lemma_le_bytes_round_trip(p.common.heart_beat_event_time as u32, 0, 0, 0);
        },
        MonitorTxDataPage::BatteryStatus(p) => {
            lemma_le_bytes_round_trip(p.common.heart_beat_event_time as u32, 0, 0, 0);
        },
        MonitorTxDataPage::DeviceInformation(p) => {
            lemma_le_bytes_round_trip(p.common.heart_beat_event_time as u32, 0, 0, 0);
        },
        MonitorTxDataPage::ManufacturerSpecific(p) => {
            lemma_le_bytes_round_trip(p.common.heart_beat_event_time as u32, 0, 0, 0);
        },
    }
}

/// A payload with the number of the feature command is refused, whatever
/// else it holds.
pub proof fn lemma_feature_command_is_refused(data: Seq<u8>)
    requires
        page_number_of(data[0]) == DataPageNumbers::HRFeatureCommand.number(),
    ensures
        parsed(data) == Err::<MonitorTxDataPage, Error>(
            Error::UnsupportedDataPage(DataPageNumbers::HRFeatureCommand.number()),
        ),
{
}

/// A payload with a number from the manufacturers' range decodes, by the
/// layout of that range and into a page with that number.
pub proof fn lemma_manufacturer_range_decodes(data: Seq<u8>)
    requires
        in_manufacturer_specific_range(page_number_of(data[0])),
    ensures
        parsed(data) == Ok::<MonitorTxDataPage, Error>(
            MonitorTxDataPage::ManufacturerSpecific(ManufacturerSpecific::unpacked(data)),
        ),
        ManufacturerSpecific::unpacked(data).data_page_number == page_number_of(data[0]),
{
}

/// The search timeout of a display's channel, in seconds.
pub const SEARCH_TIMEOUT_SECONDS: u64 = 30;

/// What a callback without arguments may have answered: one of its possible
/// results, or nothing where there is no callback.
pub open spec fn answered<F: Fn() -> Option<T>, T>(callback: Option<F>, answer: Option<T>) -> bool {
    match callback {
        Some(f) => call_ensures(f, (), answer),
        None => answer.is_none(),
    }
}

/// The configuration of a display's channel: a receiving end on the managed
/// network that searches for `device_number`, or for any monitor where that
/// is 0.
pub open spec fn display_config(
    device_number: u16,
    transmission_type_extension: u8,
    ant_plus_key_index: u8,
    period: Period,
) -> ChannelConfig {
    ChannelConfig {
        device_number,
        device_type: DEVICE_TYPE,
        channel_type: ChannelType::BidirectionalSlave,
        network_key_index: ant_plus_key_index,
        transmission_type: TransmissionType {
            transmission_channel_type: TransmissionChannelType::IndependentChannel,
            global_datapages_used: TransmissionGlobalDataPages::GlobalDataPagesNotUsed,
            device_number_extension: transmission_type_extension,
        },
        radio_frequency: NETWORK_RF_FREQUENCY,
        timeout_duration: search_timeout_of(SEARCH_TIMEOUT_SECONDS),
        channel_period: period.ticks(),
    }
}

/// The one message a poll emits, and the handler after it: the handler's own
/// next message first; else the configuration message the application
/// supplied; else, where the link is ready for one, the data page it
/// supplied.
pub open spec fn chosen(
    handler: MessageHandler,
    config: Option<TxMessageChannelConfig>,
    page: Option<TxMessageData>,
) -> (Option<TxMessage>, MessageHandler) {
    if handler.pending().is_some() {
        (handler.pending(), handler.sent())
    } else if config.is_some() {
        (Some(TxMessage::Config(config.unwrap().with_channel(handler.channel_number()))), handler)
    } else if handler.tx_ready && page.is_some() {
        (
            Some(TxMessage::Data(page.unwrap().with_channel(handler.channel_number()))),
            MessageHandler { tx_ready: false, ..handler },
        )
    } else {
        (None, handler)
    }
}

/// Whether a poll can have asked the application callbacks and been answered
/// `config` and `page`: the configuration callback is asked only where the
/// handler has no message of its own, and the page callback only where
/// neither has one and the link is ready.
pub open spec fn asked<TM: Fn() -> Option<TxMessageChannelConfig>, TD: Fn() -> Option<TxMessageData>>(
    handler: MessageHandler,
    tx_message_callback: Option<TM>,
    tx_datapage_callback: Option<TD>,
    config: Option<TxMessageChannelConfig>,
    page: Option<TxMessageData>,
) -> bool {
    &&& handler.pending().is_none() ==> answered(tx_message_callback, config)
    &&& handler.pending().is_none() && config.is_none() && handler.tx_ready ==> answered(
        tx_datapage_callback,
        page,
    )
}

/// The display end of a heart-rate link: it brings the channel up, takes the
/// monitor's pages in and hands them, decoded, to the application.
pub struct Display<RM, RD, TM, TD> where
    RM: Fn(&AntMessage),
    RD: Fn(Result<MonitorTxDataPage, Error>),
    TM: Fn() -> Option<TxMessageChannelConfig>,
    TD: Fn() -> Option<TxMessageData>,
 {
    msg_handler: MessageHandler,
    rx_message_callback: Option<RM>,
    rx_datapage_callback: Option<RD>,
    tx_message_callback: Option<TM>,
    tx_datapage_callback: Option<TD>,
    tx: Sender<TxMessage>,
    rx: Receiver<AntMessage>,
}

impl<RM, RD, TM, TD> Display<RM, RD, TM, TD> where
    RM: Fn(&AntMessage),
    RD: Fn(Result<MonitorTxDataPage, Error>),
    TM: Fn() -> Option<TxMessageChannelConfig>,
    TD: Fn() -> Option<TxMessageData>,
 {
    /// The state machine of the display's channel.
    pub closed spec fn handler(&self) -> MessageHandler {
        self.msg_handler
    }

    pub closed spec fn rx_message_callback(&self) -> Option<RM> {
        self.rx_message_callback
    }

    pub closed spec fn rx_datapage_callback(&self) -> Option<RD> {
        self.rx_datapage_callback
    }

    pub closed spec fn tx_message_callback(&self) -> Option<TM> {
        self.tx_message_callback
    }

    pub closed spec fn tx_datapage_callback(&self) -> Option<TD> {
        self.tx_datapage_callback
    }

    /// Every callback there is can be called with whatever it may be given.
    pub open spec fn wf(&self) -> bool {
        &&& self.rx_message_callback() matches Some(f) ==> forall|m: &AntMessage| call_requires(f, (m,))
        &&& self.rx_datapage_callback() matches Some(f) ==> forall|r: Result<MonitorTxDataPage, Error>|
            call_requires(f, (r,))
        &&& self.tx_message_callback() matches Some(f) ==> call_requires(f, ())
        &&& self.tx_datapage_callback() matches Some(f) ==> call_requires(f, ())
    }

    /// Everything but the handler is as in `before`.
    pub closed spec fn same_wiring(&self, before: &Self) -> bool {
        &&& self.rx_message_callback == before.rx_message_callback
        &&& self.rx_datapage_callback == before.rx_datapage_callback
        &&& self.tx_message_callback == before.tx_message_callback
        &&& self.tx_datapage_callback == before.tx_datapage_callback
        &&& self.tx == before.tx
        &&& self.rx == before.rx
    }

    /// A display on hardware channel `channel` for the monitor `device`
    /// names, by its number and the extension of its transmission type, or
    /// for any monitor where `device` names none.
    pub fn with_device(
        device: Option<(u16, u8)>,
        ant_plus_key_index: u8,
        channel: u8,
        period: Period,
        tx: Sender<TxMessage>,
        rx: Receiver<AntMessage>,
    ) -> (display: Self)
        requires
            device matches Some(d) ==> d.1 < 16,
        ensures
            display.wf(),
            display.handler().channel == ChannelAssignment::Assigned(channel),
            display.handler().state == HandlerState::Closed,
            display.handler().paired_device == 0,
            !display.handler().tx_ready,
            display.handler().config == display_config(
                if device.is_some() { device.unwrap().0 } else { 0 },
                if device.is_some() { device.unwrap().1 } else { 0 },
                ant_plus_key_index,
                period,
            ),
            display.rx_message_callback().is_none(),
            display.rx_datapage_callback().is_none(),
            display.tx_message_callback().is_none(),
            display.tx_datapage_callback().is_none(),
    {
        let (device_number, transmission_type_extension) = match device {
            Some(d) => d,
            None => (0, 0),
        };
        let channel_config = ChannelConfig {
            device_number,
            device_type: DEVICE_TYPE,
            channel_type: ChannelType::BidirectionalSlave,
            network_key_index: ant_plus_key_index,
            transmission_type: TransmissionType::new(
                TransmissionChannelType::IndependentChannel,
                TransmissionGlobalDataPages::GlobalDataPagesNotUsed,
                transmission_type_extension,
            ),
            radio_frequency: NETWORK_RF_FREQUENCY,
            timeout_duration: duration_to_search_timeout(SEARCH_TIMEOUT_SECONDS),
            channel_period: period.channel_period(),
        };
        Display {
            rx_message_callback: None,
            rx_datapage_callback: None,
            tx_message_callback: None,
            tx_datapage_callback: None,
            msg_handler: MessageHandler::new(channel, &channel_config),
            tx,
            rx,
        }
    }

    /// As `with_device`, with the extension given as the four-bit integer
    /// that the transmission type holds it in.
    pub fn new(
        device: Option<(u16, Integer<u8, Bits<4>>)>,
        ant_plus_key_index: u8,
        channel: u8,
        period: Period,
        tx: Sender<TxMessage>,
        rx: Receiver<AntMessage>,
    ) -> (display: Self)
        ensures
            display.wf(),
            display.handler().channel == ChannelAssignment::Assigned(channel),
            display.handler().state == HandlerState::Closed,
            display.handler().paired_device == 0,
            !display.handler().tx_ready,
            display.handler().config == display_config(
                if device.is_some() { device.unwrap().0 } else { 0 },
                display.handler().config.transmission_type.device_number_extension,
                ant_plus_key_index,
                period,
            ),
            display.handler().config.transmission_type.device_number_extension < 16,
            device.is_none() ==> display.handler().config.transmission_type.device_number_extension == 0,
            display.rx_message_callback().is_none(),
            display.rx_datapage_callback().is_none(),
            display.tx_message_callback().is_none(),
            display.tx_datapage_callback().is_none(),
    {
        let plain = match device {
            Some((device_number, extension)) => Some((device_number, extension_bits(extension))),
            None => None,
        };
        Self::with_device(plain, ant_plus_key_index, channel, period, tx, rx)
    }

    /// Ask for the channel to be brought up.
    pub fn open(&mut self)
        ensures
            final(self).same_wiring(old(self)),
            final(self).handler() == old(self).handler().opened(),
    {
        self.msg_handler.open();
    }

    /// Ask for the channel to be closed.
    pub fn close(&mut self)
        ensures
            final(self).same_wiring(old(self)),
            final(self).handler() == old(self).handler().closed(),
    {
        self.msg_handler.close();
    }

    /// The monitor at the other end: the one paired with, or while there is
    /// none, the one the display was made for.
    pub fn get_device_id(&self) -> (id: u16)
        ensures
            id == (if self.handler().paired_device != 0 {
                self.handler().paired_device
            } else {
                self.handler().config.device_number
            }),
    {
        self.msg_handler.get_device_id()
    }

    /// Set or clear the observer of every inbound message.
    pub fn set_rx_message_callback(&mut self, f: Option<RM>)
        requires
            old(self).wf(),
            f matches Some(g) ==> forall|m: &AntMessage| call_requires(g, (m,)),
        ensures
            final(self).wf(),
            final(self).rx_message_callback() == f,
            final(self).handler() == old(self).handler(),
            final(self).rx_datapage_callback() == old(self).rx_datapage_callback(),
            final(self).tx_message_callback() == old(self).tx_message_callback(),
            final(self).tx_datapage_callback() == old(self).tx_datapage_callback(),
    {
        self.rx_message_callback = f;
    }

    /// Set or clear the observer of decoded pages and of what went wrong.
    pub fn set_rx_datapage_callback(&mut self, f: Option<RD>)
        requires
            old(self).wf(),
            f matches Some(g) ==> forall|r: Result<MonitorTxDataPage, Error>| call_requires(g, (r,)),
        ensures
            final(self).wf(),
            final(self).rx_datapage_callback() == f,
            final(self).handler() == old(self).handler(),
            final(self).rx_message_callback() == old(self).rx_message_callback(),
            final(self).tx_message_callback() == old(self).tx_message_callback(),
            final(self).tx_datapage_callback() == old(self).tx_datapage_callback(),
    {
        self.rx_datapage_callback = f;
    }

    /// Set or clear the source of configuration messages to send.
    pub fn set_tx_message_callback(&mut self, f: Option<TM>)
        requires
            old(self).wf(),
            f matches Some(g) ==> call_requires(g, ()),
        ensures
            final(self).wf(),
            final(self).tx_message_callback() == f,
            final(self).handler() == old(self).handler(),
            final(self).rx_message_callback() == old(self).rx_message_callback(),
            final(self).rx_datapage_callback() == old(self).rx_datapage_callback(),
            final(self).tx_datapage_callback() == old(self).tx_datapage_callback(),
    {
        self.tx_message_callback = f;
    }

    /// Set or clear the source of data pages to send.
    pub fn set_tx_datapage_callback(&mut self, f: Option<TD>)
        requires
            old(self).wf(),
            f matches Some(g) ==> call_requires(g, ()),
        ensures
            final(self).wf(),
            final(self).tx_datapage_callback() == f,
            final(self).handler() == old(self).handler(),
            final(self).rx_message_callback() == old(self).rx_message_callback(),
            final(self).rx_datapage_callback() == old(self).rx_datapage_callback(),
            final(self).tx_message_callback() == old(self).tx_message_callback(),
    {
        self.tx_datapage_callback = f;
    }

    /// A display keeps no state of its own to reset: nothing changes.
    pub fn reset_state(&mut self)
        ensures
            *final(self) == *old(self),
    {
    }

    /// Decode the payload of a data message, show the outcome to the page
    /// observer, and hand it back.
    fn handle_dp(&self, data: &[u8; 8]) -> (dp: Result<MonitorTxDataPage, Error>)
        requires
            self.wf(),
        ensures
            dp == parsed(data@),
    {
        let dp = parse_dp(data);
        if let Some(f) = &self.rx_datapage_callback {
            f(dp);
        }
        dp
    }

    /// Take in one message from the radio: show it to the message observer,
    /// decode and show the page it carries, if it is a data message, and
    /// feed it to the channel's state machine, whose refusal goes to the
    /// page observer too. The answer is the page outcome where there was
    /// one, ahead of the state machine's verdict.
    pub fn receive_message(&mut self, msg: &AntMessage) -> (shown: Option<Result<MonitorTxDataPage, Error>>)
        requires
            old(self).wf(),
        ensures
            final(self).wf(),
            final(self).same_wiring(old(self)),
            final(self).handler() == old(self).handler().received(*msg),
            shown == match *msg {
                AntMessage::BroadcastData { data, .. } => Some(parsed(data@)),
                AntMessage::AcknowledgedData { data, .. } => Some(parsed(data@)),
                _ => None,
            },
    {
        if let Some(f) = &self.rx_message_callback {
            f(msg);
        }
        let shown = match msg {
            AntMessage::BroadcastData { data, .. } => Some(self.handle_dp(data)),
            AntMessage::AcknowledgedData { data, .. } => Some(self.handle_dp(data)),
            _ => None,
        };
        match self.msg_handler.receive_message(msg) {
            Ok(()) => {},
            Err(e) => {
                if let Some(f) = &self.rx_datapage_callback {
                    f(Err(Error::Channel(e)));
                }
            },
        }
        shown
    }

    /// Choose the one message this poll emits, asking the application only
    /// for what may go out.
    pub fn send_message(&mut self) -> (out: Option<TxMessage>)
        requires
            old(self).wf(),
        ensures
            final(self).wf(),
            final(self).same_wiring(old(self)),
            exists|config: Option<TxMessageChannelConfig>, page: Option<TxMessageData>|
                {
                    &&& asked(
                        old(self).handler(),
                        old(self).tx_message_callback(),
                        old(self).tx_datapage_callback(),
                        config,
                        page,
                    )
                    &&& (out, final(self).handler()) == #[trigger] chosen(old(self).handler(), config, page)
                },
    {
        let ghost before = self.msg_handler;
        if let Some(msg) = self.msg_handler.send_message() {
            assert((Some(msg), self.msg_handler) == chosen(before, None, None));
            return Some(msg);
        }
        let mut config: Option<TxMessageChannelConfig> = None;
        if let Some(callback) = &self.tx_message_callback {
            config = callback();
        }
        if let Some(mut msg) = config {
            msg.set_channel(self.msg_handler.get_channel());
            assert((Some(TxMessage::Config(msg)), self.msg_handler) == chosen(before, config, None));
            return Some(TxMessage::from(msg));
        }
        if self.msg_handler.is_tx_ready() {
            let mut page: Option<TxMessageData> = None;
            if let Some(callback) = &self.tx_datapage_callback {
                page = callback();
            }
            if let Some(mut msg) = page {
                msg.set_channel(self.msg_handler.get_channel());
                self.msg_handler.tx_sent();
                assert((Some(TxMessage::Data(msg)), self.msg_handler) == chosen(before, config, page));
                return Some(TxMessage::from(msg));
            }
            assert((None::<TxMessage>, self.msg_handler) == chosen(before, config, page));
            return None;
        }
        assert((None::<TxMessage>, self.msg_handler) == chosen(before, config, None));
        None
    }

    /// One poll: take in every message waiting in the inbound queue, then
    /// put at most one message into the outbound queue.
    pub fn process(&mut self)
        requires
            old(self).wf(),
        ensures
            final(self).wf(),
            final(self).same_wiring(old(self)),
            exists|
                taken: Seq<AntMessage>,
                config: Option<TxMessageChannelConfig>,
                page: Option<TxMessageData>,
            |
                {
                    &&& taken.len() <= DRAIN_LIMIT
                    &&& asked(
                        old(self).handler().received_all(taken),
                        old(self).tx_message_callback(),
                        old(self).tx_datapage_callback(),
                        config,
                        page,
                    )
                    &&& final(self).handler() == (#[trigger] chosen(
                        old(self).handler().received_all(taken),
                        config,
                        page,
                    )).1
                },
    {
        let ghost mut taken: Seq<AntMessage> = Seq::empty();
        let mut budget: usize = DRAIN_LIMIT;
        while budget > 0
            invariant
                self.wf(),
                self.same_wiring(old(self)),
                taken.len() + budget == DRAIN_LIMIT,
                self.handler() == old(self).handler().received_all(taken),
            decreases budget,
        {
            match try_recv(&self.rx) {
                Some(msg) => {
                    let _ = self.receive_message(&msg);
                    proof {
                        assert(taken.push(msg).drop_last() =~= taken);
                        taken = taken.push(msg);
                    }
                },
                None => {
                    break;
                },
            }
            budget = budget - 1;
        }
        if let Some(msg) = self.send_message() {
            let _ = try_send(&self.tx, msg);
        }
    }
}

} // verus!
