use std::marker::PhantomData;

pub mod poll;
pub mod startup;

use vstd::prelude::*;
use vstd::std_specs::convert::FromSpecImpl;
use crate::channel::{Channel, ChannelAssignment};
use crate::drivers::{lemma_sends_one_more, sends_all_to, Driver, DriverError};
use crate::messages::{
    AntMessage, MessageScope, RequestableMessageId, TxMessage, TxMessageChannelConfig,
};
use crate::router::startup::{builds_to, capabilities_request, fresh, negotiates_to, purges_to};
use crate::router::poll::{
    drain_step, drains_to, flush_step, flushes_to, handles_to, lemma_drains_one_more,
    lemma_flushes_one_more, processes_to, table_flushes_to, with_driver, with_flushed,
};

verus! {

/// Why the router could not do what it was asked.
#[derive(Debug, Clone, Copy, PartialEq, Eq, Structural)]
pub enum RouterError {
    OutOfChannels(),
    ChannelAlreadyAssigned(),
    DriverError(),
    ChannelOutOfBounds(),
    ChannelNotAssociated(),
    FailedToGetCapabilities(),
}

impl<E> From<DriverError<E>> for RouterError {
    fn from(_err: DriverError<E>) -> (r: Self) {
        RouterError::DriverError()
    }
}

impl<E> FromSpecImpl<DriverError<E>> for RouterError {
    open spec fn obeys_from_spec() -> bool {
        true
    }

    open spec fn from_spec(_err: DriverError<E>) -> Self {
        RouterError::DriverError()
    }
}

/// The number of slots in a router's table: the most channels any known radio
/// offers.
pub const MAX_CHANNELS: usize = 15;

/// How many polls a new router waits for the radio's capabilities.
pub const ROUTER_CAPABILITIES_RETRIES: u8 = 25;

/// What a new router does next while it waits for the radio's capabilities.
#[derive(Debug, Clone, Copy, PartialEq, Eq, Structural)]
pub enum Negotiation {
    /// Poll once more.
    Poll,
    /// The capabilities have come.
    Done,
    /// The retries are used up.
    GiveUp,
}

/// The next step of a router that knows of `max_channels` channels after
/// `attempts` polls: done once the count is known, another poll while
/// retries are left, and no more after that.
pub open spec fn negotiation(max_channels: usize, attempts: u8) -> Negotiation {
    if max_channels != 0 {
        Negotiation::Done
    } else if attempts < ROUTER_CAPABILITIES_RETRIES {
        Negotiation::Poll
    } else {
        Negotiation::GiveUp
    }
}

pub fn negotiation_step(max_channels: usize, attempts: u8) -> (step: Negotiation)
    ensures
        step == negotiation(max_channels, attempts),
{
    if max_channels != 0 {
        Negotiation::Done
    } else if attempts < ROUTER_CAPABILITIES_RETRIES {
        Negotiation::Poll
    } else {
        Negotiation::GiveUp
    }
}

/// The most messages taken from one source in one go. It only serves to keep
/// a poll finite against a source that never runs dry.
pub const DRAIN_LIMIT: usize = usize::MAX;

/// The one place through which messages pass between a radio and the
/// channels that use it. It owns the driver and the channels in its table;
/// a channel is known to its user by the number of its slot.
pub struct Router<E, D: Driver<E>, C: Channel, F: Fn(&AntMessage)> {
    channels: Vec<Option<C>>,
    max_channels: usize,
    driver: D,
    reset_restore: bool,
    rx_message_callback: Option<F>,
    _marker: PhantomData<E>,
}

/// What a router is, to its contracts.
pub struct RouterView<D, C, F> {
    /// The slot table; the index is the hardware channel number.
    pub channels: Seq<Option<C>>,
    /// The number of channels the radio reported, 0 before it has.
    pub max_channels: usize,
    /// Whether the last reset asked to keep the channels' associations.
    pub reset_restore: bool,
    pub driver: D,
    pub rx_message_callback: Option<F>,
}

impl<E, D: Driver<E>, C: Channel, F: Fn(&AntMessage)> View for Router<E, D, C, F> {
    type V = RouterView<D, C, F>;

    closed spec fn view(&self) -> RouterView<D, C, F> {
        RouterView {
            channels: self.channels@,
            max_channels: self.max_channels,
            reset_restore: self.reset_restore,
            driver: self.driver,
            rx_message_callback: self.rx_message_callback,
        }
    }
}

/// Every occupant of the table knows the number of the slot it is in.
pub open spec fn occupants_know_their_slot<C: Channel>(channels: Seq<Option<C>>) -> bool {
    forall|i: int|
        0 <= i < channels.len() && (#[trigger] channels[i]).is_some()
            ==> channels[i].unwrap().assignment() == ChannelAssignment::Assigned(i as u8)
}

/// The slots that `add_channel` may fill: those the table has and the radio
/// supports.
pub open spec fn usable_slots(max_channels: usize) -> int {
    if max_channels < MAX_CHANNELS { max_channels as int } else { MAX_CHANNELS as int }
}

/// Two tables hold channels in the same slots, each under the assignment it
/// had.
pub open spec fn same_occupancy<C: Channel>(before: Seq<Option<C>>, after: Seq<Option<C>>) -> bool {
    &&& after.len() == before.len()
    &&& forall|i: int|
        0 <= i < before.len() ==> {
            &&& (#[trigger] after[i]).is_some() == before[i].is_some()
            &&& before[i].is_some() ==> after[i].unwrap().assignment() == before[i].unwrap().assignment()
        }
}

/// Slot `index` holds a channel in both tables, and the one in `after` is the
/// one in `before` once it has taken `msg` in.
pub open spec fn delivered<C: Channel>(
    before: Seq<Option<C>>,
    after: Seq<Option<C>>,
    msg: AntMessage,
    index: int,
) -> bool {
    &&& before[index].is_some()
    &&& after[index].is_some()
    &&& before[index].unwrap().takes_to(msg, &after[index].unwrap())
}

/// `msg` went to the occupant of slot `index` and to no other.
pub open spec fn delivered_to_one<C: Channel>(
    before: Seq<Option<C>>,
    after: Seq<Option<C>>,
    msg: AntMessage,
    index: int,
) -> bool {
    &&& after.len() == before.len()
    &&& 0 <= index < before.len()
    &&& delivered(before, after, msg, index)
    &&& forall|j: int| 0 <= j < before.len() && j != index ==> after[j] == before[j]
}

/// `msg` went to every occupant of the table; the free slots stayed free.
pub open spec fn delivered_to_all<C: Channel>(
    before: Seq<Option<C>>,
    after: Seq<Option<C>>,
    msg: AntMessage,
) -> bool {
    &&& after.len() == before.len()
    &&& forall|i: int|
        0 <= i < before.len() ==> if (#[trigger] before[i]).is_some() {
            delivered(before, after, msg, i)
        } else {
            after[i].is_none()
        }
}

/// The usable slots of the table are all occupied.
pub open spec fn table_full<C>(channels: Seq<Option<C>>, max_channels: usize) -> bool {
    forall|j: int| 0 <= j < usable_slots(max_channels) ==> (#[trigger] channels[j]).is_some()
}

/// Slot `index` is usable and free, and every slot below it is occupied.
pub open spec fn is_first_free<C>(channels: Seq<Option<C>>, max_channels: usize, index: int) -> bool {
    &&& 0 <= index < usable_slots(max_channels)
    &&& channels[index].is_none()
    &&& forall|j: int| 0 <= j < index ==> (#[trigger] channels[j]).is_some()
}

/// The table `after` is `before` with `channel` put into its free slot
/// `index`, once it was told that it is there.
pub open spec fn placed_at<C: Channel>(
    before: Seq<Option<C>>,
    after: Seq<Option<C>>,
    channel: C,
    index: int,
) -> bool {
    &&& after.len() == before.len()
    &&& 0 <= index < before.len()
    &&& before[index].is_none()
    &&& after[index].is_some()
    &&& channel.moves_to(ChannelAssignment::Assigned(index as u8), &after[index].unwrap())
    &&& after[index].unwrap().assignment() == ChannelAssignment::Assigned(index as u8)
    &&& forall|j: int| 0 <= j < before.len() && j != index ==> after[j] == before[j]
}

/// What putting a channel at `index` answers: the index must be one the radio
/// supports and the table has, and the slot must be free.
pub open spec fn placement<C>(channels: Seq<Option<C>>, max_channels: usize, index: usize) -> Result<
    (),
    RouterError,
> {
    if index >= max_channels || index >= MAX_CHANNELS {
        Err(RouterError::ChannelOutOfBounds())
    } else if channels[index as int].is_some() {
        Err(RouterError::ChannelAlreadyAssigned())
    } else {
        Ok(())
    }
}

/// What the radio is told when the channel in slot `index` is removed: to
/// close the channel, then to unassign it.
pub open spec fn removal_commands(index: u8) -> Seq<TxMessage> {
    seq![
        TxMessage::CloseChannel { channel_number: index },
        TxMessage::Config(TxMessageChannelConfig::UnAssignChannel { channel_number: index }),
    ]
}

/// Whether a message for hardware channel `channel` finds its channel.
pub open spec fn routed<C>(channels: Seq<Option<C>>, channel: u8) -> Result<(), RouterError> {
    if channel >= MAX_CHANNELS {
        Err(RouterError::ChannelOutOfBounds())
    } else if channels[channel as int].is_none() {
        Err(RouterError::ChannelNotAssociated())
    } else {
        Ok(())
    }
}

/// What handling `msg` answers, given the table it meets.
pub open spec fn handled<C>(channels: Seq<Option<C>>, msg: AntMessage) -> Result<(), RouterError> {
    match msg.scope_of() {
        MessageScope::Channel(n) => routed(channels, n),
        _ => Ok(()),
    }
}

/// The channel count after `msg` was handled: the one a capabilities report
/// gives, else the one before.
pub open spec fn max_channels_after(before: usize, msg: AntMessage) -> usize {
    match msg {
        AntMessage::Capabilities { max_ant_channels, .. } => max_ant_channels as usize,
        _ => before,
    }
}

/// The table after one message was handled, whatever the message and the
/// answer.
pub open spec fn table_after<C: Channel>(
    before: Seq<Option<C>>,
    after: Seq<Option<C>>,
    msg: AntMessage,
    r: Result<(), RouterError>,
) -> bool {
    match msg.scope_of() {
        MessageScope::Channel(n) => if r.is_ok() {
            delivered_to_one(before, after, msg, n as int)
        } else {
            after == before
        },
        MessageScope::Broadcast => delivered_to_all(before, after, msg),
        MessageScope::RouterOnly => after == before,
    }
}

/// Handling a message neither fills nor frees a slot, and moves no channel.
pub proof fn lemma_handling_keeps_occupancy<C: Channel>(
    before: Seq<Option<C>>,
    after: Seq<Option<C>>,
    msg: AntMessage,
    r: Result<(), RouterError>,
)
    requires
        occupants_know_their_slot(before),
        occupants_know_their_slot(after),
        table_after(before, after, msg, r),
    ensures
        same_occupancy(before, after),
{
    assert forall|i: int| 0 <= i < before.len() implies {
        &&& (#[trigger] after[i]).is_some() == before[i].is_some()
        &&& before[i].is_some() ==> after[i].unwrap().assignment() == before[i].unwrap().assignment()
    } by {
        let _ = before[i];
    }
}

impl<D, C: Channel, F: Fn(&AntMessage)> RouterView<D, C, F> {
    pub open spec fn wf(self) -> bool {
        &&& self.channels.len() == MAX_CHANNELS
        &&& occupants_know_their_slot(self.channels)
        &&& self.rx_message_callback matches Some(f) ==> forall|m: &AntMessage| call_requires(f, (m,))
    }
}

impl<E, D: Driver<E>, C: Channel, F: Fn(&AntMessage)> Router<E, D, C, F> {
    /// The table has its fifteen slots, every occupant knows its slot, and
    /// the observer, if there is one, accepts every message.
    pub open spec fn wf(&self) -> bool {
        self@.wf()
    }

    /// Build a router over `driver`: reset the radio, drop whatever it still
    /// had waiting, ask for its capabilities, and poll until they have come
    /// or the retries are used up.
    pub fn new(driver: D) -> (r: Result<Self, RouterError>)
        ensures
            match r {
                Ok(router) => {
                    &&& router.wf()
                    &&& router@.channels =~= Seq::new(MAX_CHANNELS as nat, |i: int| None::<C>)
                    &&& router@.max_channels != 0
                    &&& !router@.reset_restore
                    &&& router@.rx_message_callback.is_none()
                    &&& exists|polls: nat| #[trigger] builds_to::<E, D, C, F>(driver, Ok(()), router@, polls)
                },
                Err(e) => {
                    &&& e != RouterError::OutOfChannels()
                    &&& e != RouterError::ChannelAlreadyAssigned()
                    &&& exists|after: RouterView<D, C, F>, polls: nat| #[trigger]
                        builds_to::<E, D, C, F>(driver, Err(e), after, polls)
                },
            },
    {
        let mut transport = driver;
        let reset = transport.send_message(&TxMessage::ResetSystem);
        let ghost idle = transport;
        match reset {
            Ok(()) => {},
            Err(e) => {
                proof {
                    assert(builds_to::<E, D, C, F>(
                        driver,
                        Err(RouterError::DriverError()),
                        fresh::<D, C, F>(idle),
                        0,
                    ));
                }
                return Err(RouterError::from(e));
            },
        }
        let mut budget: usize = DRAIN_LIMIT;
        while budget > 0
            invariant_except_break
                forall|after: D| #[trigger]
                    purges_to::<E, D>(transport, budget as nat, after) ==> purges_to::<E, D>(
                        idle,
                        DRAIN_LIMIT as nat,
                        after,
                    ),
                budget == 0 ==> purges_to::<E, D>(idle, DRAIN_LIMIT as nat, transport),
            ensures
                purges_to::<E, D>(idle, DRAIN_LIMIT as nat, transport),
            decreases budget,
        {
            let ghost before = transport;
            let polled = transport.get_message();
            match polled {
                Ok(Some(_)) => {},
                _ => {
                    proof {
                        assert(purges_to::<E, D>(before, budget as nat, transport));
                    }
                    break;
                },
            }
            budget = budget - 1;
            proof {
                assert forall|after: D| #[trigger]
                    purges_to::<E, D>(transport, budget as nat, after) implies purges_to::<E, D>(
                    idle,
                    DRAIN_LIMIT as nat,
                    after,
                ) by {
                    assert(purges_to::<E, D>(before, (budget + 1) as nat, after));
                }
                if budget == 0 {
                    assert(purges_to::<E, D>(transport, 0, transport));
                }
            }
        }
        let ghost purged = transport;
        let asked = transport.send_message(
            &TxMessage::RequestMessage { channel: 0, message_id: RequestableMessageId::Capabilities },
        );
        let ghost ready = transport;
        match asked {
            Ok(()) => {},
            Err(e) => {
                proof {
                    assert(builds_to::<E, D, C, F>(
                        driver,
                        Err(RouterError::DriverError()),
                        fresh::<D, C, F>(ready),
                        0,
                    ));
                }
                return Err(RouterError::from(e));
            },
        }
        let mut channels: Vec<Option<C>> = Vec::new();
        while channels.len() < MAX_CHANNELS
            invariant
                channels.len() <= MAX_CHANNELS,
                forall|i: int| 0 <= i < channels.len() ==> channels[i].is_none(),
            decreases MAX_CHANNELS - channels.len(),
        {
            channels.push(None);
        }
        let mut router = Router {
            channels,
            max_channels: 0,
            driver: transport,
            reset_restore: false,
            rx_message_callback: None,
            _marker: PhantomData,
        };
        assert(router@.channels =~= fresh::<D, C, F>(ready).channels);
        let mut attempts: u8 = 0;
        loop
            invariant
                attempts <= ROUTER_CAPABILITIES_RETRIES,
                router.wf(),
                forall|i: int| 0 <= i < MAX_CHANNELS ==> router@.channels[i].is_none(),
                !router@.reset_restore,
                router@.rx_message_callback.is_none(),
                driver.sends_to(TxMessage::ResetSystem, reset, &idle),
                reset.is_ok(),
                purges_to::<E, D>(idle, DRAIN_LIMIT as nat, purged),
                purged.sends_to(capabilities_request(), asked, &ready),
                asked.is_ok(),
                forall|r: Result<(), RouterError>, after: RouterView<D, C, F>, polls: nat| #[trigger]
                    negotiates_to::<E, D, C, F>(router@, attempts, r, after, polls) ==> negotiates_to::<
                        E,
                        D,
                        C,
                        F,
                    >(fresh(ready), 0, r, after, (polls + attempts) as nat),
            decreases ROUTER_CAPABILITIES_RETRIES - attempts,
        {
            let ghost before = router@;
            match negotiation_step(router.max_channels, attempts) {
                Negotiation::Done => {
                    proof {
                        assert(negotiates_to::<E, D, C, F>(before, attempts, Ok(()), before, 0));
                        assert(builds_to::<E, D, C, F>(driver, Ok(()), before, attempts as nat));
                    }
                    return Ok(router);
                },
                Negotiation::GiveUp => {
                    proof {
                        let gave_up = Err::<(), RouterError>(RouterError::FailedToGetCapabilities());
                        assert(negotiates_to::<E, D, C, F>(before, attempts, gave_up, before, 0));
                        assert(builds_to::<E, D, C, F>(driver, gave_up, before, attempts as nat));
                    }
                    return Err(RouterError::FailedToGetCapabilities());
                },
                Negotiation::Poll => {},
            }
            let polled = router.process();
            match polled {
                Ok(()) => {},
                Err(e) => {
                    proof {
                        assert(negotiates_to::<E, D, C, F>(before, attempts, polled, router@, 1));
                        assert(builds_to::<E, D, C, F>(driver, polled, router@, (1 + attempts) as nat));
                    }
                    return Err(e);
                },
            }
            attempts = attempts + 1;
            proof {
                assert forall|r: Result<(), RouterError>, after: RouterView<D, C, F>, polls: nat| #[trigger]
                    negotiates_to::<E, D, C, F>(
                        router@,
                        attempts,
                        r,
                        after,
                        polls,
                    ) implies negotiates_to::<E, D, C, F>(fresh(ready), 0, r, after, (polls + attempts) as nat) by {
                    assert(negotiates_to::<E, D, C, F>(before, (attempts - 1) as u8, r, after, (polls + 1) as nat));
                }
            }
        }
    }

    /// The occupant of slot `index`, if the table has such a slot and it is
    /// occupied.
    pub fn channel(&self, index: usize) -> (c: Option<&C>)
        requires
            self.wf(),
        ensures
            match c {
                Some(channel) => index < MAX_CHANNELS && self@.channels[index as int] == Some(*channel),
                None => index >= MAX_CHANNELS || self@.channels[index as int].is_none(),
            },
    {
        if index >= MAX_CHANNELS {
            return None;
        }
        self.channels[index].as_ref()
    }

    /// The number of channels the radio reported.
    pub fn max_channels(&self) -> (n: usize)
        ensures
            n == self@.max_channels,
    {
        self.max_channels
    }

    /// Whether the last reset asked to keep the channels' associations.
    pub fn reset_restore(&self) -> (restore: bool)
        ensures
            restore == self@.reset_restore,
    {
        self.reset_restore
    }

    /// The driver, to look at.
    pub fn driver(&self) -> (driver: &D)
        ensures
            *driver == self@.driver,
    {
        &self.driver
    }

    /// Add a channel at the next available index, and say which it is. A
    /// channel that finds no slot is dropped.
    pub fn add_channel(&mut self, channel: C) -> (r: Result<usize, RouterError>)
        requires
            old(self).wf(),
        ensures
            final(self).wf(),
            final(self)@.max_channels == old(self)@.max_channels,
            final(self)@.reset_restore == old(self)@.reset_restore,
            final(self)@.driver == old(self)@.driver,
            final(self)@.rx_message_callback == old(self)@.rx_message_callback,
            r.is_err() <==> table_full(old(self)@.channels, old(self)@.max_channels),
            match r {
                Ok(index) => {
                    &&& is_first_free(old(self)@.channels, old(self)@.max_channels, index as int)
                    &&& placed_at(old(self)@.channels, final(self)@.channels, channel, index as int)
                },
                Err(e) => {
                    &&& e == RouterError::OutOfChannels()
                    &&& final(self)@.channels == old(self)@.channels
                },
            },
    {
        let limit: usize = if self.max_channels < MAX_CHANNELS {
            self.max_channels
        } else {
            MAX_CHANNELS
        };
        let mut index: usize = 0;
        while index < limit && self.channels[index].is_some()
            invariant
                index <= limit <= MAX_CHANNELS,
                self.channels.len() == MAX_CHANNELS,
                *self == *old(self),
                forall|j: int| 0 <= j < index ==> self.channels[j].is_some(),
            decreases limit - index,
        {
            index = index + 1;
        }
        if index >= limit {
            return Err(RouterError::OutOfChannels());
        }
        let mut channel = channel;
        channel.set_channel(ChannelAssignment::Assigned(index as u8));
        self.channels[index] = Some(channel);
        Ok(index)
    }

    /// Add a channel at a specific index. A channel that cannot go there is
    /// dropped.
    pub fn add_channel_at_index(&mut self, channel: C, index: usize) -> (r: Result<(), RouterError>)
        requires
            old(self).wf(),
        ensures
            final(self).wf(),
            final(self)@.max_channels == old(self)@.max_channels,
            final(self)@.reset_restore == old(self)@.reset_restore,
            final(self)@.driver == old(self)@.driver,
            final(self)@.rx_message_callback == old(self)@.rx_message_callback,
            r == placement(old(self)@.channels, old(self)@.max_channels, index),
            match r {
                Ok(()) => placed_at(old(self)@.channels, final(self)@.channels, channel, index as int),
                Err(_) => final(self)@.channels == old(self)@.channels,
            },
    {
        if index >= self.max_channels || index >= MAX_CHANNELS {
            return Err(RouterError::ChannelOutOfBounds());
        }
        if self.channels[index].is_some() {
            return Err(RouterError::ChannelAlreadyAssigned());
        }
        let mut channel = channel;
        channel.set_channel(ChannelAssignment::Assigned(index as u8));
        self.channels[index] = Some(channel);
        Ok(())
    }

    /// Reboot the radio with a reset message, and remember whether the
    /// channels are meant to keep their associations across it.
    pub fn reset(&mut self, restore: bool) -> (r: Result<(), DriverError<E>>)
        requires
            old(self).wf(),
        ensures
            final(self).wf(),
            final(self)@.channels == old(self)@.channels,
            final(self)@.max_channels == old(self)@.max_channels,
            final(self)@.rx_message_callback == old(self)@.rx_message_callback,
            final(self)@.reset_restore == (if r.is_ok() { restore } else { old(self)@.reset_restore }),
            old(self)@.driver.sends_to(TxMessage::ResetSystem, r, &final(self)@.driver),
    {
        let sent = self.driver.send_message(&TxMessage::ResetSystem);
        if sent.is_ok() {
            self.reset_restore = restore;
        }
        sent
    }

    /// Transmit a message to the radio.
    pub fn send(&mut self, msg: &TxMessage) -> (r: Result<(), RouterError>)
        requires
            old(self).wf(),
        ensures
            final(self).wf(),
            final(self)@.channels == old(self)@.channels,
            final(self)@.max_channels == old(self)@.max_channels,
            final(self)@.reset_restore == old(self)@.reset_restore,
            final(self)@.rx_message_callback == old(self)@.rx_message_callback,
            r matches Err(e) ==> e == RouterError::DriverError(),
            sends_all_to::<E, D>(old(self)@.driver, seq![*msg], final(self)@.driver, r.is_ok()),
    {
        let sent = self.driver.send_message(msg);
        proof {
            lemma_sends_one_more::<E, D>(
                old(self)@.driver,
                *msg,
                sent,
                self@.driver,
                Seq::empty(),
                self@.driver,
                sent.is_ok(),
            );
        }
        match sent {
            Ok(()) => Ok(()),
            Err(e) => Err(RouterError::from(e)),
        }
    }

    /// Take the channel out of slot `index` and hand it back, unassigned. The
    /// radio is told to close and to unassign that channel; where the driver
    /// fails at that, the slot is free all the same and the channel is
    /// dropped.
    pub fn remove_channel(&mut self, index: usize) -> (r: Result<C, RouterError>)
        requires
            old(self).wf(),
        ensures
            final(self).wf(),
            final(self)@.max_channels == old(self)@.max_channels,
            final(self)@.reset_restore == old(self)@.reset_restore,
            final(self)@.rx_message_callback == old(self)@.rx_message_callback,
            index >= MAX_CHANNELS || old(self)@.channels[index as int].is_none() <==> r
                == Err::<C, RouterError>(RouterError::ChannelNotAssociated()),
            match r {
                Ok(channel) => {
                    &&& old(self)@.channels[index as int].unwrap().moves_to(
                        ChannelAssignment::UnAssigned(),
                        &channel,
                    )
                    &&& channel.assignment() == ChannelAssignment::UnAssigned()
                },
                Err(e) => e == RouterError::ChannelNotAssociated() || e == RouterError::DriverError(),
            },
            if r == Err::<C, RouterError>(RouterError::ChannelNotAssociated()) {
                &&& final(self)@.channels == old(self)@.channels
                &&& final(self)@.driver == old(self)@.driver
            } else {
                &&& final(self)@.channels == old(self)@.channels.update(index as int, None)
                &&& sends_all_to::<E, D>(
                    old(self)@.driver,
                    removal_commands(index as u8),
                    final(self)@.driver,
                    r.is_ok(),
                )
            },
    {
        if index >= MAX_CHANNELS {
            return Err(RouterError::ChannelNotAssociated());
        }
        let mut channel = match self.channels[index].take() {
            Some(channel) => channel,
            None => {
                return Err(RouterError::ChannelNotAssociated());
            },
        };
        channel.set_channel(ChannelAssignment::UnAssigned());
        let close = TxMessage::CloseChannel { channel_number: index as u8 };
        let unassign = TxMessage::Config(
            TxMessageChannelConfig::UnAssignChannel { channel_number: index as u8 },
        );
        let closed = self.driver.send_message(&close);
        let ghost between = self@.driver;
        assert(seq![close] + seq![unassign] =~= removal_commands(index as u8));
        match closed {
            Ok(()) => {},
            Err(e) => {
                proof {
                    lemma_sends_one_more::<E, D>(
                        old(self)@.driver,
                        close,
                        closed,
                        between,
                        seq![unassign],
                        between,
                        false,
                    );
                }
                return Err(RouterError::from(e));
            },
        }
        let unassigned = self.driver.send_message(&unassign);
        proof {
            lemma_sends_one_more::<E, D>(
                between,
                unassign,
                unassigned,
                self@.driver,
                Seq::empty(),
                self@.driver,
                unassigned.is_ok(),
            );
            lemma_sends_one_more::<E, D>(
                old(self)@.driver,
                close,
                closed,
                between,
                seq![unassign],
                self@.driver,
                unassigned.is_ok(),
            );
        }
        match unassigned {
            Ok(()) => {},
            Err(e) => {
                return Err(RouterError::from(e));
            },
        }
        Ok(channel)
    }

    /// Register an observer for every inbound message, or take it away.
    pub fn set_rx_message_callback(&mut self, f: Option<F>)
        requires
            old(self).wf(),
            f matches Some(g) ==> forall|m: &AntMessage| call_requires(g, (m,)),
        ensures
            final(self).wf(),
            final(self)@.rx_message_callback == f,
            final(self)@.channels == old(self)@.channels,
            final(self)@.max_channels == old(self)@.max_channels,
            final(self)@.reset_restore == old(self)@.reset_restore,
            final(self)@.driver == old(self)@.driver,
    {
        self.rx_message_callback = f;
    }

    /// Hand `msg` to the occupant of slot `channel`.
    fn route_message(&mut self, channel: u8, msg: &AntMessage) -> (r: Result<(), RouterError>)
        requires
            old(self).wf(),
        ensures
            final(self).wf(),
            final(self)@.max_channels == old(self)@.max_channels,
            final(self)@.reset_restore == old(self)@.reset_restore,
            final(self)@.rx_message_callback == old(self)@.rx_message_callback,
            final(self)@.driver == old(self)@.driver,
            r == routed(old(self)@.channels, channel),
            r.is_err() ==> final(self)@.channels == old(self)@.channels,
            r.is_ok() ==> delivered_to_one(old(self)@.channels, final(self)@.channels, *msg, channel as int),
    {
        if channel as usize >= MAX_CHANNELS {
            return Err(RouterError::ChannelOutOfBounds());
        }
        match &mut self.channels[channel as usize] {
            Some(handler) => {
                let _ = handler.receive_message(msg);
            },
            None => {
                return Err(RouterError::ChannelNotAssociated());
            },
        }
        Ok(())
    }

    /// Hand `msg` to every occupant of the table, lowest slot first.
    fn broadcast_message(&mut self, msg: &AntMessage)
        requires
            old(self).wf(),
        ensures
            final(self).wf(),
            delivered_to_all(old(self)@.channels, final(self)@.channels, *msg),
            final(self)@.max_channels == old(self)@.max_channels,
            final(self)@.reset_restore == old(self)@.reset_restore,
            final(self)@.rx_message_callback == old(self)@.rx_message_callback,
            final(self)@.driver == old(self)@.driver,
    {
        let mut index: usize = 0;
        while index < MAX_CHANNELS
            invariant
                index <= MAX_CHANNELS,
                self.wf(),
                old(self).wf(),
                forall|i: int|
                    0 <= i < index ==> if (#[trigger] old(self)@.channels[i]).is_some() {
                        delivered(old(self)@.channels, self@.channels, *msg, i)
                    } else {
                        self@.channels[i].is_none()
                    },
                forall|i: int| index <= i < MAX_CHANNELS ==> self@.channels[i] == old(self)@.channels[i],
                self@.max_channels == old(self)@.max_channels,
                self@.reset_restore == old(self)@.reset_restore,
                self@.rx_message_callback == old(self)@.rx_message_callback,
                self@.driver == old(self)@.driver,
            decreases MAX_CHANNELS - index,
        {
            match &mut self.channels[index] {
                Some(handler) => {
                    let _ = handler.receive_message(msg);
                },
                None => {},
            }
            index = index + 1;
        }
    }

    /// Take the channel count from a capabilities report.
    fn parse_capabilities(&mut self, max_ant_channels: u8)
        ensures
            final(self)@.max_channels == max_ant_channels,
            final(self)@.channels == old(self)@.channels,
            final(self)@.reset_restore == old(self)@.reset_restore,
            final(self)@.rx_message_callback == old(self)@.rx_message_callback,
            final(self)@.driver == old(self)@.driver,
    {
        self.max_channels = max_ant_channels as usize;
    }

    /// Show one inbound message to the observer, then deliver it: to the one
    /// channel it names, to every channel, or to none, by its scope.
    pub fn handle_message(&mut self, msg: &AntMessage) -> (r: Result<(), RouterError>)
        requires
            old(self).wf(),
        ensures
            final(self).wf(),
            handles_to(old(self)@, *msg, r, final(self)@),
    {
        if let Some(f) = &self.rx_message_callback {
            f(msg);
        }
        match msg.scope() {
            MessageScope::Channel(n) => self.route_message(n, msg),
            MessageScope::Broadcast => {
                self.broadcast_message(msg);
                if let AntMessage::Capabilities { max_ant_channels, .. } = msg {
                    self.parse_capabilities(*max_ant_channels);
                }
                Ok(())
            },
            MessageScope::RouterOnly => Ok(()),
        }
    }

    /// Let one channel transmit everything it has waiting, in order.
    fn send_channel(driver: &mut D, channel: &mut C) -> (r: Result<(), RouterError>)
        ensures
            flushes_to::<E, D, C>(
                *old(channel),
                *old(driver),
                DRAIN_LIMIT as nat,
                r.is_ok(),
                *final(channel),
                *final(driver),
            ),
            final(channel).assignment() == old(channel).assignment(),
            r matches Err(e) ==> e == RouterError::DriverError(),
    {
        let mut budget: usize = DRAIN_LIMIT;
        while budget > 0
            invariant
                channel.assignment() == old(channel).assignment(),
                forall|ok: bool, channel_after: C, driver_after: D| #[trigger]
                    flushes_to::<E, D, C>(*channel, *driver, budget as nat, ok, channel_after, driver_after)
                        ==> flushes_to::<E, D, C>(
                        *old(channel),
                        *old(driver),
                        DRAIN_LIMIT as nat,
                        ok,
                        channel_after,
                        driver_after,
                    ),
            decreases budget,
        {
            let ghost channel_before = *channel;
            let ghost driver_before = *driver;
            let out = channel.send_message();
            match out {
                Some(msg) => {
                    let sent = driver.send_message(&msg);
                    let ghost end = if sent.is_ok() {
                        None
                    } else {
                        Some(false)
                    };
                    match sent {
                        Ok(()) => {},
                        Err(e) => {
                            proof {
                                lemma_flushes_one_more::<E, D, C>(
                                    channel_before,
                                    driver_before,
                                    end,
                                    *channel,
                                    *driver,
                                    budget as nat,
                                    false,
                                    *channel,
                                    *driver,
                                );
                            }
                            return Err(RouterError::from(e));
                        },
                    }
                },
                None => {
                    proof {
                        assert(flush_step::<E, D, C>(
                            channel_before,
                            driver_before,
                            Some(true),
                            *channel,
                            *driver,
                        ));
                        lemma_flushes_one_more::<E, D, C>(
                            channel_before,
                            driver_before,
                            Some(true),
                            *channel,
                            *driver,
                            budget as nat,
                            true,
                            *channel,
                            *driver,
                        );
                    }
                    return Ok(());
                },
            }
            budget = budget - 1;
            proof {
                assert forall|ok: bool, channel_after: C, driver_after: D| #[trigger]
                    flushes_to::<E, D, C>(
                        *channel,
                        *driver,
                        budget as nat,
                        ok,
                        channel_after,
                        driver_after,
                    ) implies flushes_to::<E, D, C>(
                    *old(channel),
                    *old(driver),
                    DRAIN_LIMIT as nat,
                    ok,
                    channel_after,
                    driver_after,
                ) by {
                    lemma_flushes_one_more::<E, D, C>(
                        channel_before,
                        driver_before,
                        None,
                        *channel,
                        *driver,
                        (budget + 1) as nat,
                        ok,
                        channel_after,
                        driver_after,
                    );
                }
            }
        }
        assert(flushes_to::<E, D, C>(*channel, *driver, 0, true, *channel, *driver));
        Ok(())
    }

    /// One poll: take in and deliver every message the driver has waiting,
    /// then let every channel, lowest slot first, transmit what it has
    /// waiting.
    pub fn process(&mut self) -> (r: Result<(), RouterError>)
        requires
            old(self).wf(),
        ensures
            final(self).wf(),
            processes_to::<E, D, C, F>(old(self)@, r, final(self)@),
            same_occupancy(old(self)@.channels, final(self)@.channels),
            final(self)@.reset_restore == old(self)@.reset_restore,
            final(self)@.rx_message_callback == old(self)@.rx_message_callback,
            r matches Err(e) ==> e == RouterError::DriverError() || e
                == RouterError::ChannelOutOfBounds() || e == RouterError::ChannelNotAssociated(),
    {
        let mut budget: usize = DRAIN_LIMIT;
        while budget > 0
            invariant_except_break
                forall|r: Result<(), RouterError>, after: RouterView<D, C, F>| #[trigger]
                    drains_to::<E, D, C, F>(self@, budget as nat, r, after) ==> drains_to::<E, D, C, F>(
                        old(self)@,
                        DRAIN_LIMIT as nat,
                        r,
                        after,
                    ),
                budget == 0 ==> drains_to::<E, D, C, F>(old(self)@, DRAIN_LIMIT as nat, Ok(()), self@),
            invariant
                self.wf(),
                same_occupancy(old(self)@.channels, self@.channels),
                self@.reset_restore == old(self)@.reset_restore,
                self@.rx_message_callback == old(self)@.rx_message_callback,
            ensures
                self.wf(),
                same_occupancy(old(self)@.channels, self@.channels),
                self@.reset_restore == old(self)@.reset_restore,
                self@.rx_message_callback == old(self)@.rx_message_callback,
                drains_to::<E, D, C, F>(old(self)@, DRAIN_LIMIT as nat, Ok(()), self@),
            decreases budget,
        {
            let ghost before = self@;
            let polled = self.driver.get_message();
            proof {
                assert(before.driver.polls_to(polled, &self@.driver));
            }
            let msg = match polled {
                Ok(Some(msg)) => msg,
                Ok(None) => {
                    proof {
                        lemma_drains_one_more::<E, D, C, F>(
                            before,
                            Some(Ok(())),
                            self@,
                            budget as nat,
                            Ok(()),
                            self@,
                        );
                    }
                    break;
                },
                Err(e) => {
                    proof {
                        let failed = Err::<(), RouterError>(RouterError::DriverError());
                        lemma_drains_one_more::<E, D, C, F>(
                            before,
                            Some(failed),
                            self@,
                            budget as nat,
                            failed,
                            self@,
                        );
                    }
                    return Err(RouterError::from(e));
                },
            };
            let ghost polled_view = self@;
            let handled = self.handle_message(&msg);
            let ghost end = if handled.is_err() {
                Some(handled)
            } else {
                None
            };
            proof {
                lemma_handling_keeps_occupancy(polled_view.channels, self@.channels, msg, handled);
            }
            match handled {
                Ok(()) => {},
                Err(e) => {
                    proof {
                        lemma_drains_one_more::<E, D, C, F>(
                            before,
                            end,
                            self@,
                            budget as nat,
                            handled,
                            self@,
                        );
                    }
                    return Err(e);
                },
            }
            budget = budget - 1;
            proof {
                assert forall|r: Result<(), RouterError>, after: RouterView<D, C, F>| #[trigger]
                    drains_to::<E, D, C, F>(self@, budget as nat, r, after) implies drains_to::<E, D, C, F>(
                    old(self)@,
                    DRAIN_LIMIT as nat,
                    r,
                    after,
                ) by {
                    lemma_drains_one_more::<E, D, C, F>(
                        before,
                        None,
                        self@,
                        (budget + 1) as nat,
                        r,
                        after,
                    );
                }
                if budget == 0 {
                    assert(drains_to::<E, D, C, F>(self@, 0, Ok(()), self@));
                }
            }
        }
        let ghost between = self@;
        let mut index: usize = 0;
        while index < MAX_CHANNELS
            invariant
                index <= MAX_CHANNELS,
                self.wf(),
                same_occupancy(old(self)@.channels, self@.channels),
                self@.reset_restore == old(self)@.reset_restore,
                self@.rx_message_callback == old(self)@.rx_message_callback,
                drains_to::<E, D, C, F>(old(self)@, DRAIN_LIMIT as nat, Ok(()), between),
                forall|r: Result<(), RouterError>, after: RouterView<D, C, F>| #[trigger]
                    table_flushes_to::<E, D, C, F>(self@, index as int, r, after)
                        ==> table_flushes_to::<E, D, C, F>(between, 0, r, after),
            decreases MAX_CHANNELS - index,
        {
            let ghost before = self@;
            match &mut self.channels[index] {
                Some(channel) => {
                    let flushed = Self::send_channel(&mut self.driver, channel);
                    proof {
                        let after_channel = self@.channels[index as int].unwrap();
                        assert(flushes_to::<E, D, C>(
                            before.channels[index as int].unwrap(),
                            before.driver,
                            DRAIN_LIMIT as nat,
                            flushed.is_ok(),
                            after_channel,
                            self@.driver,
                        ));
                    }
                    match flushed {
                        Ok(()) => {},
                        Err(e) => {
                            proof {
                                assert(table_flushes_to::<E, D, C, F>(before, index as int, flushed, self@));
                            }
                            return Err(e);
                        },
                    }
                },
                None => {},
            }
            index = index + 1;
            proof {
                assert forall|r: Result<(), RouterError>, after: RouterView<D, C, F>| #[trigger]
                    table_flushes_to::<E, D, C, F>(
                        self@,
                        index as int,
                        r,
                        after,
                    ) implies table_flushes_to::<E, D, C, F>(between, 0, r, after) by {
                    if before.channels[index - 1].is_some() {
                        assert(flushes_to::<E, D, C>(
                            before.channels[index - 1].unwrap(),
                            before.driver,
                            DRAIN_LIMIT as nat,
                            true,
                            self@.channels[index - 1].unwrap(),
                            self@.driver,
                        ));
                        assert(self@ == with_flushed(
                            before,
                            index - 1,
                            self@.channels[index - 1].unwrap(),
                            self@.driver,
                        ));
                    } else {
                        assert(self@.channels =~= before.channels);
                    }
                    assert(table_flushes_to::<E, D, C, F>(before, index - 1, r, after));
                }
            }
        }
        proof {
            assert(table_flushes_to::<E, D, C, F>(self@, MAX_CHANNELS as int, Ok(()), self@));
        }
        Ok(())
    }

    /// Teardown router and return driver.
    pub fn release(self) -> (driver: D)
        ensures
            driver == self@.driver,
    {
        self.driver
    }
}

} // verus!
