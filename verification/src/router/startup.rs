use vstd::prelude::*;
use crate::channel::Channel;
use crate::drivers::{Driver, DriverError};
use crate::messages::{AntMessage, RequestableMessageId, TxMessage};
use crate::router::poll::{
    drain_step, drains_to, flushes_to, processes_to, table_flushes_to, with_flushed,
};
use crate::router::{
    negotiation, Negotiation, RouterError, RouterView, DRAIN_LIMIT, MAX_CHANNELS,
    ROUTER_CAPABILITIES_RETRIES,
};

verus! {

/// A router as it is made: over `driver`, with a free table, no channel
/// count, no observer, and no restore asked for.
pub open spec fn fresh<D, C, F>(driver: D) -> RouterView<D, C, F> {
    RouterView {
        channels: Seq::new(MAX_CHANNELS as nat, |i: int| None::<C>),
        max_channels: 0,
        reset_restore: false,
        driver,
        rx_message_callback: None::<F>,
    }
}

/// The request for the radio's capabilities.
pub open spec fn capabilities_request() -> TxMessage {
    TxMessage::RequestMessage { channel: 0, message_id: RequestableMessageId::Capabilities }
}

/// Dropping what the driver `before` has waiting, for at most `budget` polls,
/// leaves the driver `after`: it goes on until a poll brings no message.
pub open spec fn purges_to<E, D: Driver<E>>(before: D, budget: nat, after: D) -> bool
    decreases budget,
{
    if budget == 0 {
        after == before
    } else {
        exists|answer: Result<Option<AntMessage>, DriverError<E>>, next: D| #[trigger]
            before.polls_to(answer, &next) && if answer matches Ok(Some(_)) {
                purges_to::<E, D>(next, (budget - 1) as nat, after)
            } else {
                after == next
            }
    }
}

/// Waiting for the capabilities, after `attempts` polls, turns the router
/// `before` into `after` with `polls` more polls, and answers `r`: it polls
/// until the channel count is known, the retries are used up, or a poll
/// fails.
pub open spec fn negotiates_to<E, D: Driver<E>, C: Channel, F>(
    before: RouterView<D, C, F>,
    attempts: u8,
    r: Result<(), RouterError>,
    after: RouterView<D, C, F>,
    polls: nat,
) -> bool
    decreases ROUTER_CAPABILITIES_RETRIES - attempts,
{
    match negotiation(before.max_channels, attempts) {
        Negotiation::Done => r.is_ok() && after == before && polls == 0,
        Negotiation::GiveUp => r == Err::<(), RouterError>(RouterError::FailedToGetCapabilities())
            && after == before && polls == 0,
        Negotiation::Poll => polls > 0 && exists|polled: Result<(), RouterError>, next: RouterView<D, C, F>|
         #[trigger]
            processes_to::<E, D, C, F>(before, polled, next) && if polled.is_ok() {
                negotiates_to::<E, D, C, F>(next, (attempts + 1) as u8, r, after, (polls - 1) as nat)
            } else {
                r == polled && after == next && polls == 1
            },
    }
}

/// Making a router over `driver` gives the router `after`, or fails, as `r`
/// says, with `polls` polls spent waiting for the capabilities: the radio is
/// reset, what it had waiting is dropped, its capabilities are asked for and
/// waited for.
pub open spec fn builds_to<E, D: Driver<E>, C: Channel, F>(
    driver: D,
    r: Result<(), RouterError>,
    after: RouterView<D, C, F>,
    polls: nat,
) -> bool {
    exists|reset: Result<(), DriverError<E>>, idle: D| #[trigger]
        driver.sends_to(TxMessage::ResetSystem, reset, &idle) && if reset.is_err() {
            r == Err::<(), RouterError>(RouterError::DriverError()) && after == fresh::<D, C, F>(idle)
                && polls == 0
        } else {
            exists|purged: D| #[trigger]
                purges_to::<E, D>(idle, DRAIN_LIMIT as nat, purged) && exists|
                    asked: Result<(), DriverError<E>>,
                    ready: D,
                | #[trigger]
                    purged.sends_to(capabilities_request(), asked, &ready) && if asked.is_err() {
                        r == Err::<(), RouterError>(RouterError::DriverError()) && after == fresh::<
                            D,
                            C,
                            F,
                        >(ready) && polls == 0
                    } else {
                        negotiates_to::<E, D, C, F>(fresh(ready), 0, r, after, polls)
                    }
        }
}

/// Taking messages in never gives up on the capabilities: that is for the
/// waiting alone to say.
pub proof fn lemma_drain_never_gives_up<E, D: Driver<E>, C: Channel, F>(
    before: RouterView<D, C, F>,
    budget: nat,
    r: Result<(), RouterError>,
    after: RouterView<D, C, F>,
)
    requires
        drains_to::<E, D, C, F>(before, budget, r, after),
    ensures
        r != Err::<(), RouterError>(RouterError::FailedToGetCapabilities()),
    decreases budget,
{
    if budget > 0 {
        let (end, next) = choose|end: Option<Result<(), RouterError>>, next: RouterView<D, C, F>| #[trigger]
            drain_step::<E, D, C, F>(before, end, next) && match end {
                Some(answer) => r == answer && after == next,
                None => drains_to::<E, D, C, F>(next, (budget - 1) as nat, r, after),
            };
        if end.is_none() {
            lemma_drain_never_gives_up::<E, D, C, F>(next, (budget - 1) as nat, r, after);
        }
    }
}

/// Nor does letting the channels transmit.
pub proof fn lemma_flush_never_gives_up<E, D: Driver<E>, C: Channel, F>(
    before: RouterView<D, C, F>,
    from: int,
    r: Result<(), RouterError>,
    after: RouterView<D, C, F>,
)
    requires
        table_flushes_to::<E, D, C, F>(before, from, r, after),
    ensures
        r != Err::<(), RouterError>(RouterError::FailedToGetCapabilities()),
    decreases MAX_CHANNELS - from,
{
    if 0 <= from < MAX_CHANNELS {
        if before.channels[from].is_none() {
            lemma_flush_never_gives_up::<E, D, C, F>(before, from + 1, r, after);
        } else {
            let (ok, channel, driver) = choose|ok: bool, channel: C, driver: D| #[trigger]
                flushes_to::<E, D, C>(
                    before.channels[from].unwrap(),
                    before.driver,
                    DRAIN_LIMIT as nat,
                    ok,
                    channel,
                    driver,
                ) && if ok {
                    table_flushes_to::<E, D, C, F>(
                        with_flushed(before, from, channel, driver),
                        from + 1,
                        r,
                        after,
                    )
                } else {
                    r == Err::<(), RouterError>(RouterError::DriverError()) && after
                        == with_flushed(before, from, channel, driver)
                };
            if ok {
                lemma_flush_never_gives_up::<E, D, C, F>(
                    with_flushed(before, from, channel, driver),
                    from + 1,
                    r,
                    after,
                );
            }
        }
    }
}

/// Nor does a whole poll.
pub proof fn lemma_poll_never_gives_up<E, D: Driver<E>, C: Channel, F>(
    before: RouterView<D, C, F>,
    r: Result<(), RouterError>,
    after: RouterView<D, C, F>,
)
    requires
        processes_to::<E, D, C, F>(before, r, after),
    ensures
        r != Err::<(), RouterError>(RouterError::FailedToGetCapabilities()),
{
    let (drained, between) = choose|drained: Result<(), RouterError>, between: RouterView<D, C, F>| #[trigger]
        drains_to::<E, D, C, F>(before, DRAIN_LIMIT as nat, drained, between) && if drained.is_ok() {
            table_flushes_to::<E, D, C, F>(between, 0, r, after)
        } else {
            r == drained && after == between
        };
    lemma_drain_never_gives_up::<E, D, C, F>(before, DRAIN_LIMIT as nat, drained, between);
    if drained.is_ok() {
        lemma_flush_never_gives_up::<E, D, C, F>(between, 0, r, after);
    }
}

/// A wait for the capabilities that gives up has made every poll that was
/// left to it, never fewer, never more, and still knows of no channel; one
/// that ends otherwise has made no more than were left.
pub proof fn lemma_wait_takes_the_retries<E, D: Driver<E>, C: Channel, F>(
    before: RouterView<D, C, F>,
    attempts: u8,
    r: Result<(), RouterError>,
    after: RouterView<D, C, F>,
    polls: nat,
)
    requires
        attempts <= ROUTER_CAPABILITIES_RETRIES,
        negotiates_to::<E, D, C, F>(before, attempts, r, after, polls),
    ensures
        polls <= ROUTER_CAPABILITIES_RETRIES - attempts,
        r == Err::<(), RouterError>(RouterError::FailedToGetCapabilities()) ==> polls
            == ROUTER_CAPABILITIES_RETRIES - attempts && after.max_channels == 0,
        r.is_ok() ==> after.max_channels != 0,
    decreases ROUTER_CAPABILITIES_RETRIES - attempts,
{
    if negotiation(before.max_channels, attempts) == Negotiation::Poll {
        let (polled, next) = choose|polled: Result<(), RouterError>, next: RouterView<D, C, F>| #[trigger]
            processes_to::<E, D, C, F>(before, polled, next) && if polled.is_ok() {
                negotiates_to::<E, D, C, F>(next, (attempts + 1) as u8, r, after, (polls - 1) as nat)
            } else {
                r == polled && after == next && polls == 1
            };
        lemma_poll_never_gives_up::<E, D, C, F>(before, polled, next);
        if polled.is_ok() {
            lemma_wait_takes_the_retries::<E, D, C, F>(
                next,
                (attempts + 1) as u8,
                r,
                after,
                (polls - 1) as nat,
            );
        }
    }
}

/// Making a router fails for want of the capabilities only after exactly 25
/// polls have gone by without them. One that is made has taken no more.
pub proof fn lemma_silent_radio_costs_25_polls<E, D: Driver<E>, C: Channel, F>(
    driver: D,
    r: Result<(), RouterError>,
    after: RouterView<D, C, F>,
    polls: nat,
)
    requires
        builds_to::<E, D, C, F>(driver, r, after, polls),
    ensures
        polls <= 25,
        r == Err::<(), RouterError>(RouterError::FailedToGetCapabilities()) ==> polls == 25,
        r.is_ok() ==> after.max_channels != 0,
{
    let (reset, idle) = choose|reset: Result<(), DriverError<E>>, idle: D| #[trigger]
        driver.sends_to(TxMessage::ResetSystem, reset, &idle) && if reset.is_err() {
            r == Err::<(), RouterError>(RouterError::DriverError()) && after == fresh::<D, C, F>(idle)
                && polls == 0
        } else {
            exists|purged: D| #[trigger]
                purges_to::<E, D>(idle, DRAIN_LIMIT as nat, purged) && exists|
                    asked: Result<(), DriverError<E>>,
                    ready: D,
                | #[trigger]
                    purged.sends_to(capabilities_request(), asked, &ready) && if asked.is_err() {
                        r == Err::<(), RouterError>(RouterError::DriverError()) && after == fresh::<
                            D,
                            C,
                            F,
                        >(ready) && polls == 0
                    } else {
                        negotiates_to::<E, D, C, F>(fresh(ready), 0, r, after, polls)
                    }
        };
    if reset.is_ok() {
        let purged = choose|purged: D| #[trigger]
            purges_to::<E, D>(idle, DRAIN_LIMIT as nat, purged) && exists|
                asked: Result<(), DriverError<E>>,
                ready: D,
            | #[trigger]
                purged.sends_to(capabilities_request(), asked, &ready) && if asked.is_err() {
                    r == Err::<(), RouterError>(RouterError::DriverError()) && after == fresh::<D, C, F>(
                        ready,
                    ) && polls == 0
                } else {
                    negotiates_to::<E, D, C, F>(fresh(ready), 0, r, after, polls)
                };
        let (asked, ready) = choose|asked: Result<(), DriverError<E>>, ready: D| #[trigger]
            purged.sends_to(capabilities_request(), asked, &ready) && if asked.is_err() {
                r == Err::<(), RouterError>(RouterError::DriverError()) && after == fresh::<D, C, F>(ready)
                    && polls == 0
            } else {
                negotiates_to::<E, D, C, F>(fresh(ready), 0, r, after, polls)
            };
        if asked.is_ok() {
            lemma_wait_takes_the_retries::<E, D, C, F>(fresh(ready), 0, r, after, polls);
        }
    }
}

} // verus!
