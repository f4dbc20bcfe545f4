use vstd::prelude::*;
use crate::channel::Channel;
use crate::drivers::{Driver, DriverError};
use crate::messages::{AntMessage, TxMessage};
use crate::router::{
    handled, max_channels_after, table_after, RouterError, RouterView, DRAIN_LIMIT, MAX_CHANNELS,
};

verus! {

/// The router `before` with another driver in its place.
pub open spec fn with_driver<D, C, F>(before: RouterView<D, C, F>, driver: D) -> RouterView<D, C, F> {
    RouterView { driver, ..before }
}

/// Handling `msg` turns the router `before` into `after` and answers `r`: the
/// message went where its scope says, a capabilities report set the channel
/// count, and nothing else changed.
pub open spec fn handles_to<D, C: Channel, F>(
    before: RouterView<D, C, F>,
    msg: AntMessage,
    r: Result<(), RouterError>,
    after: RouterView<D, C, F>,
) -> bool {
    &&& r == handled(before.channels, msg)
    &&& table_after(before.channels, after.channels, msg, r)
    &&& after.max_channels == max_channels_after(before.max_channels, msg)
    &&& after.reset_restore == before.reset_restore
    &&& after.rx_message_callback == before.rx_message_callback
    &&& after.driver == before.driver
}

/// One turn of taking messages in: the driver is polled, and a message it
/// brought is handled. `end` is the answer with which the taking in ends
/// here, or nothing where it goes on.
pub open spec fn drain_step<E, D: Driver<E>, C: Channel, F>(
    before: RouterView<D, C, F>,
    end: Option<Result<(), RouterError>>,
    after: RouterView<D, C, F>,
) -> bool {
    exists|answer: Result<Option<AntMessage>, DriverError<E>>, driver: D| #[trigger]
        before.driver.polls_to(answer, &driver) && match answer {
            Err(_) => end == Some(Err::<(), RouterError>(RouterError::DriverError())) && after
                == with_driver(before, driver),
            Ok(None) => end == Some(Ok::<(), RouterError>(())) && after == with_driver(before, driver),
            Ok(Some(msg)) => {
                let r = handled(before.channels, msg);
                &&& handles_to(with_driver(before, driver), msg, r, after)
                &&& end == if r.is_err() {
                    Some(r)
                } else {
                    None
                }
            },
        }
}

/// Taking messages in, for at most `budget` turns, turns the router `before`
/// into `after` and answers `r`: it goes on until the driver has no message
/// left, the driver fails, or a message finds no channel.
pub open spec fn drains_to<E, D: Driver<E>, C: Channel, F>(
    before: RouterView<D, C, F>,
    budget: nat,
    r: Result<(), RouterError>,
    after: RouterView<D, C, F>,
) -> bool
    decreases budget,
{
    if budget == 0 {
        r.is_ok() && after == before
    } else {
        exists|end: Option<Result<(), RouterError>>, next: RouterView<D, C, F>| #[trigger]
            drain_step::<E, D, C, F>(before, end, next) && match end {
                Some(answer) => r == answer && after == next,
                None => drains_to::<E, D, C, F>(next, (budget - 1) as nat, r, after),
            }
    }
}

/// One turn of letting a channel transmit: the channel is asked for a
/// message, and one it hands out goes to the driver. `end` says whether the
/// transmitting ends here, and whether well, or goes on.
pub open spec fn flush_step<E, D: Driver<E>, C: Channel>(
    channel: C,
    driver: D,
    end: Option<bool>,
    channel_after: C,
    driver_after: D,
) -> bool {
    exists|out: Option<TxMessage>| #[trigger]
        channel.hands_to(out, &channel_after) && if out.is_none() {
            end == Some(true) && driver_after == driver
        } else {
            exists|sent: Result<(), DriverError<E>>| #[trigger]
                driver.sends_to(out.unwrap(), sent, &driver_after) && end == if sent.is_ok() {
                    None
                } else {
                    Some(false)
                }
        }
}

/// Letting `channel` transmit to `driver`, for at most `budget` turns, leaves
/// the two as `channel_after` and `driver_after`: it goes on until the
/// channel has no message left or the driver fails, and `ok` says that the
/// driver did not.
pub open spec fn flushes_to<E, D: Driver<E>, C: Channel>(
    channel: C,
    driver: D,
    budget: nat,
    ok: bool,
    channel_after: C,
    driver_after: D,
) -> bool
    decreases budget,
{
    if budget == 0 {
        ok && channel_after == channel && driver_after == driver
    } else {
        exists|end: Option<bool>, next_channel: C, next_driver: D| #[trigger]
            flush_step::<E, D, C>(channel, driver, end, next_channel, next_driver) && match end {
                Some(well) => ok == well && channel_after == next_channel && driver_after == next_driver,
                None => flushes_to::<E, D, C>(
                    next_channel,
                    next_driver,
                    (budget - 1) as nat,
                    ok,
                    channel_after,
                    driver_after,
                ),
            }
    }
}

/// The router `before` with the channel in slot `index` and the driver as
/// they are after that channel has transmitted.
pub open spec fn with_flushed<D, C, F>(
    before: RouterView<D, C, F>,
    index: int,
    channel: C,
    driver: D,
) -> RouterView<D, C, F> {
    RouterView { channels: before.channels.update(index, Some(channel)), driver, ..before }
}

/// Letting the channels in the slots from `from` on transmit, lowest slot
/// first and each until it has no more, turns the router `before` into
/// `after` and answers `r`: the first failure of the driver ends it.
pub open spec fn table_flushes_to<E, D: Driver<E>, C: Channel, F>(
    before: RouterView<D, C, F>,
    from: int,
    r: Result<(), RouterError>,
    after: RouterView<D, C, F>,
) -> bool
    decreases MAX_CHANNELS - from,
{
    if from < 0 || from >= MAX_CHANNELS {
        r.is_ok() && after == before
    } else if before.channels[from].is_none() {
        table_flushes_to::<E, D, C, F>(before, from + 1, r, after)
    } else {
        exists|ok: bool, channel: C, driver: D| #[trigger]
            flushes_to::<E, D, C>(
                before.channels[from].unwrap(),
                before.driver,
                DRAIN_LIMIT as nat,
                ok,
                channel,
                driver,
            ) && if ok {
                table_flushes_to::<E, D, C, F>(with_flushed(before, from, channel, driver), from + 1, r, after)
            } else {
                r == Err::<(), RouterError>(RouterError::DriverError()) && after == with_flushed(
                    before,
                    from,
                    channel,
                    driver,
                )
            }
    }
}

/// One poll turns the router `before` into `after` and answers `r`: the
/// messages are taken in, and where that ended well, the channels transmit.
pub open spec fn processes_to<E, D: Driver<E>, C: Channel, F>(
    before: RouterView<D, C, F>,
    r: Result<(), RouterError>,
    after: RouterView<D, C, F>,
) -> bool {
    exists|drained: Result<(), RouterError>, between: RouterView<D, C, F>| #[trigger]
        drains_to::<E, D, C, F>(before, DRAIN_LIMIT as nat, drained, between) && if drained.is_ok() {
            table_flushes_to::<E, D, C, F>(between, 0, r, after)
        } else {
            r == drained && after == between
        }
}

/// A turn and what follows it make up a taking in.
pub proof fn lemma_drains_one_more<E, D: Driver<E>, C: Channel, F>(
    before: RouterView<D, C, F>,
    end: Option<Result<(), RouterError>>,
    next: RouterView<D, C, F>,
    budget: nat,
    r: Result<(), RouterError>,
    after: RouterView<D, C, F>,
)
    requires
        budget > 0,
        drain_step::<E, D, C, F>(before, end, next),
        match end {
            Some(answer) => r == answer && after == next,
            None => drains_to::<E, D, C, F>(next, (budget - 1) as nat, r, after),
        },
    ensures
        drains_to::<E, D, C, F>(before, budget, r, after),
{
}

/// A turn and what follows it make up a transmitting.
pub proof fn lemma_flushes_one_more<E, D: Driver<E>, C: Channel>(
    channel: C,
    driver: D,
    end: Option<bool>,
    next_channel: C,
    next_driver: D,
    budget: nat,
    ok: bool,
    channel_after: C,
    driver_after: D,
)
    requires
        budget > 0,
        flush_step::<E, D, C>(channel, driver, end, next_channel, next_driver),
        match end {
            Some(well) => ok == well && channel_after == next_channel && driver_after == next_driver,
            None => flushes_to::<E, D, C>(
                next_channel,
                next_driver,
                (budget - 1) as nat,
                ok,
                channel_after,
                driver_after,
            ),
        },
    ensures
        flushes_to::<E, D, C>(channel, driver, budget, ok, channel_after, driver_after),
{
}

} // verus!
