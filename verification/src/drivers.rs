use vstd::prelude::*;
use crate::messages::{AntMessage, TxMessage};

verus! {

/// What can go wrong between the router and the radio. `E` is whatever the
/// transport itself reports.
#[derive(Debug)]
pub enum DriverError<E> {
    ReadError(E),
    WriteError(E),
    BadChecksum(u8, u8),
    BadLength(usize, usize),
    InvalidData(),
}

/// A transport that carries whole messages to and from the radio. Neither
/// call blocks: `get_message` answers `Ok(None)` when nothing is waiting.
///
/// What a transport does is for each kind of driver to say, in `polls_to` and
/// `sends_to`; the two calls keep to it.
pub trait Driver<E> {
    /// Whether a poll can answer `r` and turn the driver `self` into `after`.
    spec fn polls_to(&self, r: Result<Option<AntMessage>, DriverError<E>>, after: &Self) -> bool;

    /// Whether handing over `msg` can answer `r` and turn the driver `self`
    /// into `after`.
    spec fn sends_to(&self, msg: TxMessage, r: Result<(), DriverError<E>>, after: &Self) -> bool;

    /// The next message from the radio, if one is waiting.
    fn get_message(&mut self) -> (r: Result<Option<AntMessage>, DriverError<E>>)
        ensures
            old(self).polls_to(r, final(self)),
    ;

    /// Hands `msg` over for transmission.
    fn send_message(&mut self, msg: &TxMessage) -> (r: Result<(), DriverError<E>>)
        ensures
            old(self).sends_to(*msg, r, final(self)),
    ;
}

/// Handing `msgs` to the driver `before`, one after the other and up to the
/// first it refuses, can leave the driver `after`; `ok` says whether it took
/// them all.
pub open spec fn sends_all_to<E, D: Driver<E>>(before: D, msgs: Seq<TxMessage>, after: D, ok: bool) -> bool
    decreases msgs.len(),
{
    if msgs.len() == 0 {
        after == before && ok
    } else {
        exists|r: Result<(), DriverError<E>>, next: D| #[trigger]
            before.sends_to(msgs[0], r, &next) && if r.is_ok() {
                sends_all_to::<E, D>(next, msgs.skip(1), after, ok)
            } else {
                after == next && !ok
            }
    }
}

/// A driver that answered `r` to `msg` and then went through `rest` has gone
/// through `msg` followed by `rest`.
pub proof fn lemma_sends_one_more<E, D: Driver<E>>(
    before: D,
    msg: TxMessage,
    r: Result<(), DriverError<E>>,
    next: D,
    rest: Seq<TxMessage>,
    after: D,
    ok: bool,
)
    requires
        before.sends_to(msg, r, &next),
        if r.is_ok() {
            sends_all_to::<E, D>(next, rest, after, ok)
        } else {
            after == next && !ok
        },
    ensures
        sends_all_to::<E, D>(before, seq![msg] + rest, after, ok),
{
    let msgs = seq![msg] + rest;
    assert(msgs[0] == msg);
    assert(msgs.skip(1) =~= rest);
}

} // verus!
