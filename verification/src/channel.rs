use vstd::prelude::*;
use crate::messages::{AntMessage, TxMessage};

verus! {

/// Where a channel sits in the radio: nowhere, or at a hardware channel number.
#[derive(Clone, Copy, Debug, PartialEq, Eq, Structural)]
pub enum ChannelAssignment {
    UnAssigned(),
    Assigned(u8),
}

/// Why a channel could not take a message in.
#[derive(Clone, Copy, Debug, PartialEq, Eq, Structural)]
pub enum ChannelError {
    /// The message is addressed to another channel than the one held.
    WrongChannel,
    /// The radio refused a command that the channel had sent.
    CommandRejected(u8),
}

/// The search timeout that stands for `seconds`: their count of whole 2.5 s
/// units, or 255 where that would be more.
pub open spec fn search_timeout_of(seconds: u64) -> u8 {
    if seconds * 2 / 5 > 255 {
        255u8
    } else {
        (seconds * 2 / 5) as u8
    }
}

/// The search timeout to hand to the radio for a search of `seconds`.
pub fn duration_to_search_timeout(seconds: u64) -> (timeout: u8)
    ensures
        timeout == search_timeout_of(seconds),
{
    if seconds >= 638 {
        255
    } else {
        (seconds * 2 / 5) as u8
    }
}

/// What the router asks of anything that occupies one of its slots.
///
/// A channel remembers the assignment it was last given: only `set_channel`
/// changes it.
pub trait Channel {
    /// The assignment the channel was last given.
    spec fn assignment(&self) -> ChannelAssignment;

    /// Whether taking `msg` in can turn the channel `self` into `after`. This
    /// is for each kind of channel to say; `receive_message` keeps to it.
    spec fn takes_to(&self, msg: AntMessage, after: &Self) -> bool;

    /// Takes in a message that the router found to be for this channel.
    fn receive_message(&mut self, msg: &AntMessage) -> (r: Result<(), ChannelError>)
        ensures
            old(self).takes_to(*msg, final(self)),
            final(self).assignment() == old(self).assignment(),
    ;

    /// Whether handing out `out` can turn the channel `self` into `after`.
    /// This too is for each kind of channel to say; `send_message` keeps to
    /// it.
    spec fn hands_to(&self, out: Option<TxMessage>, after: &Self) -> bool;

    /// Hands out the next message waiting to be transmitted, if there is one.
    fn send_message(&mut self) -> (out: Option<TxMessage>)
        ensures
            old(self).hands_to(out, final(self)),
            final(self).assignment() == old(self).assignment(),
    ;

    /// Whether being given `channel` can turn the channel `self` into `after`.
    /// This too is for each kind of channel to say; `set_channel` keeps to
    /// it.
    spec fn moves_to(&self, channel: ChannelAssignment, after: &Self) -> bool;

    /// Tells the channel which hardware channel it now is, or that it is none.
    fn set_channel(&mut self, channel: ChannelAssignment)
        ensures
            old(self).moves_to(channel, final(self)),
            final(self).assignment() == channel,
    ;
}

} // verus!
