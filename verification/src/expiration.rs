//! Points in time at which a vote ends.
use std::cmp::Ordering;
use vstd::prelude::*;

verus! {

/// The block a message is handled in, as far as time is concerned.
#[derive(Clone, Copy, Debug, PartialEq, Eq, Structural)]
pub struct BlockInfo {
    pub height: u64,
    /// Nanoseconds since the epoch.
    pub time: u64,
}

/// A point in time, by height or by clock, or none at all.
#[derive(Clone, Copy, Debug, PartialEq, Eq, Structural)]
pub enum Expiration {
    AtHeight(u64),
    /// Nanoseconds since the epoch.
    AtTime(u64),
    Never,
}

/// A span of blocks, or of seconds.
#[derive(Clone, Copy, Debug, PartialEq, Eq, Structural)]
pub enum Duration {
    Height(u64),
    /// Seconds.
    Time(u64),
}

pub open spec fn nanos_per_second() -> int {
    1_000_000_000
}

impl Expiration {
    /// The point has been reached, in this block or an earlier one.
    pub open spec fn reached(self, block: BlockInfo) -> bool {
        match self {
            Expiration::AtHeight(height) => block.height >= height,
            Expiration::AtTime(time) => block.time >= time,
            Expiration::Never => false,
        }
    }

    /// How two points compare: heights with heights, times with times, and `Never` after every
    /// other point. A height and a time do not compare.
    pub open spec fn order(self, other: Expiration) -> Option<Ordering> {
        match (self, other) {
            (Expiration::AtHeight(a), Expiration::AtHeight(b)) => Some(number_order(a, b)),
            (Expiration::AtTime(a), Expiration::AtTime(b)) => Some(number_order(a, b)),
            (Expiration::Never, Expiration::Never) => Some(Ordering::Equal),
            (Expiration::Never, _) => Some(Ordering::Greater),
            (_, Expiration::Never) => Some(Ordering::Less),
            _ => None,
        }
    }
}

pub open spec fn number_order(a: u64, b: u64) -> Ordering {
    if a < b {
        Ordering::Less
    } else if a > b {
        Ordering::Greater
    } else {
        Ordering::Equal
    }
}

impl Duration {
    /// The end of the span that starts at `block` is a point that can be written down.
    pub open spec fn fits_after(self, block: BlockInfo) -> bool {
        match self {
            Duration::Height(blocks) => block.height + blocks <= u64::MAX,
            Duration::Time(seconds) => block.time + seconds * nanos_per_second() <= u64::MAX,
        }
    }

    /// The end of the span that starts at `block`.
    pub open spec fn end_after(self, block: BlockInfo) -> Expiration
        recommends
            self.fits_after(block),
    {
        match self {
            Duration::Height(blocks) => Expiration::AtHeight((block.height + blocks) as u64),
            Duration::Time(seconds) => Expiration::AtTime(
                (block.time + seconds * nanos_per_second()) as u64,
            ),
        }
    }
}

/// `cw0::Expiration::is_expired`: true once the block has come to the height or the time, and
/// never for `Never`. It reads the block's height and time alone.
#[verifier::external_body]
pub(crate) fn is_expired(expires: &Expiration, block: &BlockInfo) -> (expired: bool)
    ensures
        expired == expires.reached(*block),
{
    let point = match expires {
        Expiration::AtHeight(height) => cw0::Expiration::AtHeight(*height),
        Expiration::AtTime(time) => cw0::Expiration::AtTime(cosmwasm_std::Timestamp::from_nanos(*time)),
        Expiration::Never => cw0::Expiration::Never {},
    };
    point.is_expired(&cosmwasm_std::BlockInfo {
        height: block.height,
        time: cosmwasm_std::Timestamp::from_nanos(block.time),
        chain_id: String::new(),
    })
}

/// `cw0::Expiration::partial_cmp`: heights compare with heights, times with times, `Never` comes
/// after every other point, and a height has no order with a time.
#[verifier::external_body]
pub(crate) fn compare_expirations(left: &Expiration, right: &Expiration) -> (order: Option<Ordering>)
    ensures
        order == left.order(*right),
{
    let convert = |e: &Expiration| match e {
        Expiration::AtHeight(height) => cw0::Expiration::AtHeight(*height),
        Expiration::AtTime(time) => cw0::Expiration::AtTime(cosmwasm_std::Timestamp::from_nanos(*time)),
        Expiration::Never => cw0::Expiration::Never {},
    };
    convert(left).partial_cmp(&convert(right))
}

/// `cw0::Duration::after`: the block's height plus the number of blocks, or its time plus the
/// number of seconds. It panics where the sum does not fit, which `requires` leaves out.
#[verifier::external_body]
pub(crate) fn end_of_duration(duration: &Duration, block: &BlockInfo) -> (end: Expiration)
    requires
        duration.fits_after(*block),
    ensures
        end == duration.end_after(*block),
{
    let span = match duration {
        Duration::Height(blocks) => cw0::Duration::Height(*blocks),
        Duration::Time(seconds) => cw0::Duration::Time(*seconds),
    };
    let time = cosmwasm_std::Timestamp::from_nanos(block.time);
    match span.after(&cosmwasm_std::BlockInfo { height: block.height, time, chain_id: String::new() }) {
        cw0::Expiration::AtHeight(height) => Expiration::AtHeight(height),
        cw0::Expiration::AtTime(time) => Expiration::AtTime(time.nanos()),
        cw0::Expiration::Never {} => Expiration::Never,
    }
}

impl Expiration {
    /// Whether the point has been reached.
    pub fn is_expired(&self, block: &BlockInfo) -> (expired: bool)
        ensures
            expired == self.reached(*block),
    {
        is_expired(self, block)
    }
}

impl Duration {
    /// Whether `after` has a point to return.
    pub fn can_be_added_to(&self, block: &BlockInfo) -> (fits: bool)
        ensures
            fits == self.fits_after(*block),
    {
        match self {
            Duration::Height(blocks) => *blocks <= u64::MAX - block.height,
            Duration::Time(seconds) => *seconds <= (u64::MAX - block.time) / 1_000_000_000,
        }
    }

    /// The end of the span that starts at `block`.
    pub fn after(&self, block: &BlockInfo) -> (end: Expiration)
        requires
            self.fits_after(*block),
        ensures
            end == self.end_after(*block),
    {
        end_of_duration(self, block)
    }
}

} // verus!
