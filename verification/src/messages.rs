use vstd::prelude::*;
use vstd::std_specs::convert::FromSpecImpl;

verus! {

/// How a channel takes part in a link.
#[derive(Clone, Copy, Debug, PartialEq, Eq, Structural)]
pub enum ChannelType {
    BidirectionalSlave,
    BidirectionalMaster,
    SharedBidirectionalSlave,
    SharedBidirectionalMaster,
    SharedReceiveOnly,
    MasterTransmitOnly,
}

/// Whether a channel stands alone or shares its link through an address.
#[derive(Clone, Copy, Debug, PartialEq, Eq, Structural)]
pub enum TransmissionChannelType {
    Reserved,
    IndependentChannel,
    SharedChannel1ByteAddress,
    SharedChannel2ByteAddress,
}

/// Whether the common data pages are in use on a link.
#[derive(Clone, Copy, Debug, PartialEq, Eq, Structural)]
pub enum TransmissionGlobalDataPages {
    GlobalDataPagesNotUsed,
    GlobalDataPagesUsed,
}

/// The transmission-type descriptor of a channel id. The extension is the
/// upper nibble of the descriptor byte, so it stays below 16.
#[derive(Clone, Copy, Debug, PartialEq, Eq, Structural)]
pub struct TransmissionType {
    pub transmission_channel_type: TransmissionChannelType,
    pub global_datapages_used: TransmissionGlobalDataPages,
    pub device_number_extension: u8,
}

impl TransmissionType {
    pub open spec fn wf(&self) -> bool {
        self.device_number_extension < 16
    }

    pub fn new(
        transmission_channel_type: TransmissionChannelType,
        global_datapages_used: TransmissionGlobalDataPages,
        device_number_extension: u8,
    ) -> (t: Self)
        requires
            device_number_extension < 16,
        ensures
            t.wf(),
            t.transmission_channel_type == transmission_channel_type,
            t.global_datapages_used == global_datapages_used,
            t.device_number_extension == device_number_extension,
    {
        TransmissionType {
            transmission_channel_type,
            global_datapages_used,
            device_number_extension,
        }
    }
}

/// The replies that a request message can ask the radio for.
#[derive(Clone, Copy, Debug, PartialEq, Eq, Structural)]
pub enum RequestableMessageId {
    ChannelStatus,
    ChannelId,
    AntVersion,
    Capabilities,
    SerialNumber,
    EventBufferConfiguration,
    AdvancedBurstCapabilities,
    AdvancedBurstCurrentConfiguration,
    EventFilter,
    SelectiveDataUpdateMaskSetting,
    UserNvm,
    EncryptionModeParameters,
}

/// A message that configures one channel. The channel number is filled in by
/// whoever owns the channel.
#[derive(Clone, Copy, Debug, PartialEq, Eq)]
pub enum TxMessageChannelConfig {
    AssignChannel { channel_number: u8, channel_type: ChannelType, network_number: u8 },
    UnAssignChannel { channel_number: u8 },
    ChannelId {
        channel_number: u8,
        device_number: u16,
        device_type: u8,
        transmission_type: TransmissionType,
    },
    ChannelPeriod { channel_number: u8, period: u16 },
    SearchTimeout { channel_number: u8, timeout: u8 },
    ChannelRfFrequency { channel_number: u8, frequency: u8 },
}

/// A message that carries one data page out on a channel.
#[derive(Clone, Copy, Debug, PartialEq, Eq)]
pub enum TxMessageData {
    BroadcastData { channel_number: u8, data: [u8; 8] },
    AcknowledgedData { channel_number: u8, data: [u8; 8] },
}

/// Every message that can be handed to a driver for transmission.
#[derive(Clone, Copy, Debug, PartialEq, Eq)]
pub enum TxMessage {
    ResetSystem,
    RequestMessage { channel: u8, message_id: RequestableMessageId },
    OpenChannel { channel_number: u8 },
    CloseChannel { channel_number: u8 },
    Config(TxMessageChannelConfig),
    Data(TxMessageData),
}

/// A message that came in from the radio: either scoped to one channel, whose
/// number it carries, or global.
#[derive(Clone, Copy, Debug, PartialEq, Eq)]
pub enum AntMessage {
    BroadcastData { channel_number: u8, data: [u8; 8] },
    AcknowledgedData { channel_number: u8, data: [u8; 8] },
    BurstTransferData { channel_number: u8, sequence_number: u8, data: [u8; 8] },
    AdvancedBurstData { channel_number: u8, sequence_number: u8, data: [u8; 8] },
    ChannelEvent { channel_number: u8, event_code: u8 },
    ChannelResponse { channel_number: u8, message_id: u8, response_code: u8 },
    ChannelStatus { channel_number: u8, channel_state: u8 },
    ChannelId { channel_number: u8, device_number: u16, device_type: u8, transmission_type: u8 },
    StartUpMessage { reason: u8 },
    Capabilities { max_ant_channels: u8, max_networks: u8 },
    AdvancedBurstCapabilities { supported_max_packet_length: u8 },
    AdvancedBurstCurrentConfiguration { enabled: bool, max_packet_length: u8 },
    EncryptionModeParameters { max_supported_encryption_mode: u8 },
    EventFilter { filter: u16 },
    SerialErrorMessage { error_number: u8 },
    AntVersion { version: [u8; 8] },
    SerialNumber { serial_number: u32 },
    EventBufferConfiguration { buffer_config: u8, size: u16, time: u16 },
    SelectiveDataUpdateMaskSetting { sdu_mask_number: u8, sdu_mask: [u8; 8] },
    UserNvm { data: [u8; 8] },
}

impl TxMessageChannelConfig {
    /// The same message, addressed to `channel`.
    pub open spec fn with_channel(self, channel: u8) -> Self {
        match self {
            TxMessageChannelConfig::AssignChannel { channel_type, network_number, .. } => {
                TxMessageChannelConfig::AssignChannel { channel_number: channel, channel_type, network_number }
            },
            TxMessageChannelConfig::UnAssignChannel { .. } => TxMessageChannelConfig::UnAssignChannel {
                channel_number: channel,
            },
            TxMessageChannelConfig::ChannelId { device_number, device_type, transmission_type, .. } => {
                TxMessageChannelConfig::ChannelId {
                    channel_number: channel,
                    device_number,
                    device_type,
                    transmission_type,
                }
            },
            TxMessageChannelConfig::ChannelPeriod { period, .. } => TxMessageChannelConfig::ChannelPeriod {
                channel_number: channel,
                period,
            },
            TxMessageChannelConfig::SearchTimeout { timeout, .. } => TxMessageChannelConfig::SearchTimeout {
                channel_number: channel,
                timeout,
            },
            TxMessageChannelConfig::ChannelRfFrequency { frequency, .. } => {
                TxMessageChannelConfig::ChannelRfFrequency { channel_number: channel, frequency }
            },
        }
    }

    /// Address the message to `channel`.
    pub fn set_channel(&mut self, channel: u8)
        ensures
            *final(self) == old(self).with_channel(channel),
    {
        match self {
            TxMessageChannelConfig::AssignChannel { channel_number, .. } => {
                *channel_number = channel;
            },
            TxMessageChannelConfig::UnAssignChannel { channel_number } => {
                *channel_number = channel;
            },
            TxMessageChannelConfig::ChannelId { channel_number, .. } => {
                *channel_number = channel;
            },
            TxMessageChannelConfig::ChannelPeriod { channel_number, .. } => {
                *channel_number = channel;
            },
            TxMessageChannelConfig::SearchTimeout { channel_number, .. } => {
                *channel_number = channel;
            },
            TxMessageChannelConfig::ChannelRfFrequency { channel_number, .. } => {
                *channel_number = channel;
            },
        }
    }
}

impl TxMessageData {
    /// The same message, addressed to `channel`.
    pub open spec fn with_channel(self, channel: u8) -> Self {
        match self {
            TxMessageData::BroadcastData { data, .. } => TxMessageData::BroadcastData {
                channel_number: channel,
                data,
            },
            TxMessageData::AcknowledgedData { data, .. } => TxMessageData::AcknowledgedData {
                channel_number: channel,
                data,
            },
        }
    }

    /// Address the message to `channel`.
    pub fn set_channel(&mut self, channel: u8)
        ensures
            *final(self) == old(self).with_channel(channel),
    {
        match self {
            TxMessageData::BroadcastData { channel_number, .. } => {
                *channel_number = channel;
            },
            TxMessageData::AcknowledgedData { channel_number, .. } => {
                *channel_number = channel;
            },
        }
    }
}

impl From<TxMessageChannelConfig> for TxMessage {
    fn from(msg: TxMessageChannelConfig) -> (r: Self) {
        TxMessage::Config(msg)
    }
}

impl FromSpecImpl<TxMessageChannelConfig> for TxMessage {
    open spec fn obeys_from_spec() -> bool {
        true
    }

    open spec fn from_spec(msg: TxMessageChannelConfig) -> Self {
        TxMessage::Config(msg)
    }
}

impl From<TxMessageData> for TxMessage {
    fn from(msg: TxMessageData) -> (r: Self) {
        TxMessage::Data(msg)
    }
}

impl FromSpecImpl<TxMessageData> for TxMessage {
    open spec fn obeys_from_spec() -> bool {
        true
    }

    open spec fn from_spec(msg: TxMessageData) -> Self {
        TxMessage::Data(msg)
    }
}

impl Default for TxMessage {
    fn default() -> (msg: Self)
        ensures
            msg == TxMessage::ResetSystem,
    {
        TxMessage::ResetSystem
    }
}

impl Default for AntMessage {
    fn default() -> (msg: Self)
        ensures
            msg == (AntMessage::StartUpMessage { reason: 0 }),
    {
        AntMessage::StartUpMessage { reason: 0 }
    }
}

/// How the router treats an inbound message.
#[derive(Clone, Copy, Debug, PartialEq, Eq, Structural)]
pub enum MessageScope {
    /// For the one channel whose number the message carries.
    Channel(u8),
    /// For every channel that is assigned at the moment.
    Broadcast,
    /// For the observer alone.
    RouterOnly,
}

impl AntMessage {
    /// The routing class of the message.
    pub open spec fn scope_of(self) -> MessageScope {
        match self {
            AntMessage::BroadcastData { channel_number, .. } => MessageScope::Channel(channel_number),
            AntMessage::AcknowledgedData { channel_number, .. } => MessageScope::Channel(channel_number),
            AntMessage::BurstTransferData { channel_number, .. } => MessageScope::Channel(channel_number),
            AntMessage::AdvancedBurstData { channel_number, .. } => MessageScope::Channel(channel_number),
            AntMessage::ChannelEvent { channel_number, .. } => MessageScope::Channel(channel_number),
            AntMessage::ChannelResponse { channel_number, .. } => MessageScope::Channel(channel_number),
            AntMessage::ChannelStatus { channel_number, .. } => MessageScope::Channel(channel_number),
            AntMessage::ChannelId { channel_number, .. } => MessageScope::Channel(channel_number),
            AntMessage::StartUpMessage { .. } => MessageScope::Broadcast,
            AntMessage::Capabilities { .. } => MessageScope::Broadcast,
            AntMessage::AdvancedBurstCapabilities { .. } => MessageScope::Broadcast,
            AntMessage::AdvancedBurstCurrentConfiguration { .. } => MessageScope::Broadcast,
            AntMessage::EncryptionModeParameters { .. } => MessageScope::Broadcast,
            AntMessage::EventFilter { .. } => MessageScope::RouterOnly,
            AntMessage::SerialErrorMessage { .. } => MessageScope::RouterOnly,
            AntMessage::AntVersion { .. } => MessageScope::RouterOnly,
            AntMessage::SerialNumber { .. } => MessageScope::RouterOnly,
            AntMessage::EventBufferConfiguration { .. } => MessageScope::RouterOnly,
            AntMessage::SelectiveDataUpdateMaskSetting { .. } => MessageScope::RouterOnly,
            AntMessage::UserNvm { .. } => MessageScope::RouterOnly,
        }
    }

    /// Classifies the message for routing.
    pub fn scope(&self) -> (s: MessageScope)
        ensures
            s == self.scope_of(),
    {
        match self {
            AntMessage::BroadcastData { channel_number, .. } => MessageScope::Channel(*channel_number),
            AntMessage::AcknowledgedData { channel_number, .. } => MessageScope::Channel(*channel_number),
            AntMessage::BurstTransferData { channel_number, .. } => MessageScope::Channel(*channel_number),
            AntMessage::AdvancedBurstData { channel_number, .. } => MessageScope::Channel(*channel_number),
            AntMessage::ChannelEvent { channel_number, .. } => MessageScope::Channel(*channel_number),
            AntMessage::ChannelResponse { channel_number, .. } => MessageScope::Channel(*channel_number),
            AntMessage::ChannelStatus { channel_number, .. } => MessageScope::Channel(*channel_number),
            AntMessage::ChannelId { channel_number, .. } => MessageScope::Channel(*channel_number),
            AntMessage::StartUpMessage { .. } => MessageScope::Broadcast,
            AntMessage::Capabilities { .. } => MessageScope::Broadcast,
            AntMessage::AdvancedBurstCapabilities { .. } => MessageScope::Broadcast,
            AntMessage::AdvancedBurstCurrentConfiguration { .. } => MessageScope::Broadcast,
            AntMessage::EncryptionModeParameters { .. } => MessageScope::Broadcast,
            _ => MessageScope::RouterOnly,
        }
    }
}

} // verus!
