use vstd::prelude::*;
use crate::channel::{Channel, ChannelAssignment, ChannelError};
use crate::messages::{
    AntMessage, ChannelType, MessageScope, TransmissionType, TxMessage, TxMessageChannelConfig,
};

verus! {

/// The channel event that says the radio has closed the channel.
pub const EVENT_CHANNEL_CLOSED: u8 = 7;

/// The channel event that says the link was lost and the search began anew.
pub const EVENT_RX_FAIL_GO_TO_SEARCH: u8 = 8;

/// The response code with which the radio accepts a command.
pub const RESPONSE_NO_ERROR: u8 = 0;

/// All that is settled about a link before its channel opens.
#[derive(Clone, Copy, Debug, PartialEq, Eq, Structural)]
pub struct ChannelConfig {
    /// The device to pair with; 0 pairs with any.
    pub device_number: u16,
    pub device_type: u8,
    pub channel_type: ChannelType,
    pub network_key_index: u8,
    pub transmission_type: TransmissionType,
    pub radio_frequency: u8,
    /// The search timeout, in units of 2.5 s.
    pub timeout_duration: u8,
    pub channel_period: u16,
}

/// How far a channel is on its way from closed to open and back. Each
/// `Send..` state names the message that goes out next.
#[derive(Clone, Copy, Debug, PartialEq, Eq, Structural)]
pub enum HandlerState {
    Closed,
    SendAssign,
    SendId,
    SendFrequency,
    SendPeriod,
    SendTimeout,
    SendOpen,
    Open,
    SendClose,
}

/// The state machine that brings one channel up and down and keeps track of
/// the device at its other end.
#[derive(Clone, Copy, Debug, PartialEq, Eq, Structural)]
pub struct MessageHandler {
    /// The hardware channel the handler speaks for, if it has one.
    pub channel: ChannelAssignment,
    pub config: ChannelConfig,
    pub state: HandlerState,
    /// The device the channel has paired with, 0 while it has not.
    pub paired_device: u16,
    /// Whether the link is at a point where a data page may go out.
    pub tx_ready: bool,
}

impl HandlerState {
    /// The state after the message that this state names has gone out.
    pub open spec fn after_send(self) -> HandlerState {
        match self {
            HandlerState::SendAssign => HandlerState::SendId,
            HandlerState::SendId => HandlerState::SendFrequency,
            HandlerState::SendFrequency => HandlerState::SendPeriod,
            HandlerState::SendPeriod => HandlerState::SendTimeout,
            HandlerState::SendTimeout => HandlerState::SendOpen,
            HandlerState::SendOpen => HandlerState::Open,
            HandlerState::SendClose => HandlerState::Closed,
            HandlerState::Closed => HandlerState::Closed,
            HandlerState::Open => HandlerState::Open,
        }
    }
}

impl MessageHandler {
    /// The number of the handler's hardware channel, 0 while it has none.
    pub open spec fn channel_number(self) -> u8 {
        match self.channel {
            ChannelAssignment::Assigned(n) => n,
            ChannelAssignment::UnAssigned() => 0,
        }
    }

    /// The message that goes out next, if the state names one. A handler
    /// without a hardware channel is closed and has none.
    pub open spec fn pending(self) -> Option<TxMessage> {
        let channel_number = self.channel_number();
        match self.state {
            HandlerState::SendAssign => Some(
                TxMessage::Config(
                    TxMessageChannelConfig::AssignChannel {
                        channel_number,
                        channel_type: self.config.channel_type,
                        network_number: self.config.network_key_index,
                    },
                ),
            ),
            HandlerState::SendId => Some(
                TxMessage::Config(
                    TxMessageChannelConfig::ChannelId {
                        channel_number,
                        device_number: self.config.device_number,
                        device_type: self.config.device_type,
                        transmission_type: self.config.transmission_type,
                    },
                ),
            ),
            HandlerState::SendFrequency => Some(
                TxMessage::Config(
                    TxMessageChannelConfig::ChannelRfFrequency {
                        channel_number,
                        frequency: self.config.radio_frequency,
                    },
                ),
            ),
            HandlerState::SendPeriod => Some(
                TxMessage::Config(
                    TxMessageChannelConfig::ChannelPeriod {
                        channel_number,
                        period: self.config.channel_period,
                    },
                ),
            ),
            HandlerState::SendTimeout => Some(
                TxMessage::Config(
                    TxMessageChannelConfig::SearchTimeout {
                        channel_number,
                        timeout: self.config.timeout_duration,
                    },
                ),
            ),
            HandlerState::SendOpen => Some(TxMessage::OpenChannel { channel_number }),
            HandlerState::SendClose => Some(TxMessage::CloseChannel { channel_number }),
            HandlerState::Closed => None,
            HandlerState::Open => None,
        }
    }

    /// The handler after `pending` has gone out.
    pub open spec fn sent(self) -> MessageHandler {
        MessageHandler { state: self.state.after_send(), ..self }
    }

    /// What taking `msg` in answers.
    pub open spec fn verdict(self, msg: AntMessage) -> Result<(), ChannelError> {
        match msg.scope_of() {
            MessageScope::Channel(n) => if self.channel != ChannelAssignment::Assigned(n) {
                Err(ChannelError::WrongChannel)
            } else {
                match msg {
                    AntMessage::ChannelResponse { response_code, .. } => if response_code
                        != RESPONSE_NO_ERROR {
                        Err(ChannelError::CommandRejected(response_code))
                    } else {
                        Ok(())
                    },
                    _ => Ok(()),
                }
            },
            _ => Ok(()),
        }
    }

    /// The handler after it has taken `msg` in. A message for another
    /// channel, or one it answers with an error, leaves it as it was.
    pub open spec fn received(self, msg: AntMessage) -> MessageHandler {
        if self.verdict(msg).is_err() {
            self
        } else {
            match msg {
                AntMessage::BroadcastData { .. } | AntMessage::AcknowledgedData { .. } => MessageHandler {
                    tx_ready: self.state == HandlerState::Open,
                    ..self
                },
                AntMessage::ChannelId { device_number, .. } => MessageHandler {
                    paired_device: device_number,
                    ..self
                },
                AntMessage::ChannelEvent { event_code, .. } => if event_code == EVENT_CHANNEL_CLOSED {
                    MessageHandler { state: HandlerState::Closed, tx_ready: false, ..self }
                } else if event_code == EVENT_RX_FAIL_GO_TO_SEARCH {
                    MessageHandler { tx_ready: false, ..self }
                } else {
                    self
                },
                AntMessage::StartUpMessage { .. } => MessageHandler {
                    state: HandlerState::Closed,
                    tx_ready: false,
                    paired_device: 0,
                    ..self
                },
                _ => self,
            }
        }
    }

    /// The handler after it has taken in `msgs`, one after the other.
    pub open spec fn received_all(self, msgs: Seq<AntMessage>) -> MessageHandler
        decreases msgs.len(),
    {
        if msgs.len() == 0 {
            self
        } else {
            self.received_all(msgs.drop_last()).received(msgs.last())
        }
    }

    /// A closed handler for hardware channel `channel`.
    pub fn new(channel: u8, config: &ChannelConfig) -> (handler: Self)
        ensures
            handler == (MessageHandler {
                channel: ChannelAssignment::Assigned(channel),
                config: *config,
                state: HandlerState::Closed,
                paired_device: 0,
                tx_ready: false,
            }),
    {
        MessageHandler {
            channel: ChannelAssignment::Assigned(channel),
            config: *config,
            state: HandlerState::Closed,
            paired_device: 0,
            tx_ready: false,
        }
    }

    /// The handler after it was asked to bring the channel up. A channel
    /// that is up, or on its way up, stays as it is, and so does a handler
    /// without a hardware channel.
    pub open spec fn opened(self) -> MessageHandler {
        MessageHandler {
            state: if self.channel != ChannelAssignment::UnAssigned() && (self.state
                == HandlerState::Closed || self.state == HandlerState::SendClose) {
                HandlerState::SendAssign
            } else {
                self.state
            },
            ..self
        }
    }

    /// The handler after it was asked to close the channel. A closed channel
    /// stays closed.
    pub open spec fn closed(self) -> MessageHandler {
        MessageHandler {
            state: if self.state == HandlerState::Closed {
                HandlerState::Closed
            } else {
                HandlerState::SendClose
            },
            tx_ready: false,
            ..self
        }
    }

    /// The handler after it was given `channel`: off its hardware channel it
    /// is closed, unready and unpaired; on one it goes on as it was.
    pub open spec fn moved_to(self, channel: ChannelAssignment) -> MessageHandler {
        match channel {
            ChannelAssignment::Assigned(_) => MessageHandler { channel, ..self },
            ChannelAssignment::UnAssigned() => MessageHandler {
                channel,
                state: HandlerState::Closed,
                tx_ready: false,
                paired_device: 0,
                ..self
            },
        }
    }

    /// Ask for the channel to be brought up.
    pub fn open(&mut self)
        ensures
            *final(self) == old(self).opened(),
    {
        match self.channel {
            ChannelAssignment::UnAssigned() => {},
            ChannelAssignment::Assigned(_) => {
                match self.state {
                    HandlerState::Closed | HandlerState::SendClose => {
                        self.state = HandlerState::SendAssign;
                    },
                    _ => {},
                }
            },
        }
    }

    /// Ask for the channel to be closed.
    pub fn close(&mut self)
        ensures
            *final(self) == old(self).closed(),
    {
        match self.state {
            HandlerState::Closed => {},
            _ => {
                self.state = HandlerState::SendClose;
            },
        }
        self.tx_ready = false;
    }

    /// The device at the other end: the one paired with, or while there is
    /// none, the one the configuration asks for.
    pub fn get_device_id(&self) -> (id: u16)
        ensures
            id == (if self.paired_device != 0 { self.paired_device } else { self.config.device_number }),
    {
        if self.paired_device != 0 {
            self.paired_device
        } else {
            self.config.device_number
        }
    }

    /// The number of the handler's hardware channel, 0 while it has none.
    pub fn get_channel(&self) -> (channel: u8)
        ensures
            channel == self.channel_number(),
    {
        match self.channel {
            ChannelAssignment::Assigned(n) => n,
            ChannelAssignment::UnAssigned() => 0,
        }
    }

    pub fn is_tx_ready(&self) -> (ready: bool)
        ensures
            ready == self.tx_ready,
    {
        self.tx_ready
    }

    /// Note that the data page the link was ready for has gone out.
    pub fn tx_sent(&mut self)
        ensures
            *final(self) == (MessageHandler { tx_ready: false, ..*old(self) }),
    {
        self.tx_ready = false;
    }

    /// Take in a message from the radio.
    pub fn receive_message(&mut self, msg: &AntMessage) -> (r: Result<(), ChannelError>)
        ensures
            r == old(self).verdict(*msg),
            *final(self) == old(self).received(*msg),
    {
        match msg.scope() {
            MessageScope::Channel(n) => {
                match self.channel {
                    ChannelAssignment::Assigned(own) => {
                        if n != own {
                            return Err(ChannelError::WrongChannel);
                        }
                    },
                    ChannelAssignment::UnAssigned() => {
                        return Err(ChannelError::WrongChannel);
                    },
                }
            },
            _ => {},
        }
        match msg {
            AntMessage::ChannelResponse { response_code, .. } => {
                if *response_code != RESPONSE_NO_ERROR {
                    return Err(ChannelError::CommandRejected(*response_code));
                }
            },
            AntMessage::BroadcastData { .. } | AntMessage::AcknowledgedData { .. } => {
                self.tx_ready = matches!(self.state, HandlerState::Open);
            },
            AntMessage::ChannelId { device_number, .. } => {
                self.paired_device = *device_number;
            },
            AntMessage::ChannelEvent { event_code, .. } => {
                if *event_code == EVENT_CHANNEL_CLOSED {
                    self.state = HandlerState::Closed;
                    self.tx_ready = false;
                } else if *event_code == EVENT_RX_FAIL_GO_TO_SEARCH {
                    self.tx_ready = false;
                }
            },
            AntMessage::StartUpMessage { .. } => {
                self.state = HandlerState::Closed;
                self.tx_ready = false;
                self.paired_device = 0;
            },
            _ => {},
        }
        Ok(())
    }

    /// Hand out the message that brings the channel one step further, if the
    /// channel is on its way up or down.
    pub fn send_message(&mut self) -> (out: Option<TxMessage>)
        ensures
            out == old(self).pending(),
            *final(self) == old(self).sent(),
    {
        let channel_number = self.get_channel();
        let out = match self.state {
            HandlerState::SendAssign => Some(
                TxMessage::Config(
                    TxMessageChannelConfig::AssignChannel {
                        channel_number,
                        channel_type: self.config.channel_type,
                        network_number: self.config.network_key_index,
                    },
                ),
            ),
            HandlerState::SendId => Some(
                TxMessage::Config(
                    TxMessageChannelConfig::ChannelId {
                        channel_number,
                        device_number: self.config.device_number,
                        device_type: self.config.device_type,
                        transmission_type: self.config.transmission_type,
                    },
                ),
            ),
            HandlerState::SendFrequency => Some(
                TxMessage::Config(
                    TxMessageChannelConfig::ChannelRfFrequency {
                        channel_number,
                        frequency: self.config.radio_frequency,
                    },
                ),
            ),
            HandlerState::SendPeriod => Some(
                TxMessage::Config(
                    TxMessageChannelConfig::ChannelPeriod {
                        channel_number,
                        period: self.config.channel_period,
                    },
                ),
            ),
            HandlerState::SendTimeout => Some(
                TxMessage::Config(
                    TxMessageChannelConfig::SearchTimeout {
                        channel_number,
                        timeout: self.config.timeout_duration,
                    },
                ),
            ),
            HandlerState::SendOpen => Some(TxMessage::OpenChannel { channel_number }),
            HandlerState::SendClose => Some(TxMessage::CloseChannel { channel_number }),
            HandlerState::Closed => None,
            HandlerState::Open => None,
        };
        self.state = match self.state {
            HandlerState::SendAssign => HandlerState::SendId,
            HandlerState::SendId => HandlerState::SendFrequency,
            HandlerState::SendFrequency => HandlerState::SendPeriod,
            HandlerState::SendPeriod => HandlerState::SendTimeout,
            HandlerState::SendTimeout => HandlerState::SendOpen,
            HandlerState::SendOpen => HandlerState::Open,
            HandlerState::SendClose => HandlerState::Closed,
            HandlerState::Closed => HandlerState::Closed,
            HandlerState::Open => HandlerState::Open,
        };
        out
    }
}

impl Channel for MessageHandler {
    open spec fn assignment(&self) -> ChannelAssignment {
        self.channel
    }

    open spec fn takes_to(&self, msg: AntMessage, after: &Self) -> bool {
        *after == self.received(msg)
    }

    open spec fn hands_to(&self, out: Option<TxMessage>, after: &Self) -> bool {
        out == self.pending() && *after == self.sent()
    }

    fn receive_message(&mut self, msg: &AntMessage) -> (r: Result<(), ChannelError>)
        ensures
            r == old(self).verdict(*msg),
    {
        MessageHandler::receive_message(self, msg)
    }

    fn send_message(&mut self) -> (out: Option<TxMessage>) {
        MessageHandler::send_message(self)
    }

    open spec fn moves_to(&self, channel: ChannelAssignment, after: &Self) -> bool {
        *after == self.moved_to(channel)
    }

    fn set_channel(&mut self, channel: ChannelAssignment) {
        self.channel = channel;
        match channel {
            ChannelAssignment::Assigned(_) => {},
            ChannelAssignment::UnAssigned() => {
                self.state = HandlerState::Closed;
                self.tx_ready = false;
                self.paired_device = 0;
            },
        }
    }
}

} // verus!
