//! The requests by which a PowerEdge management controller is told to
//! leave the fans to the daemon, to run them at a given speed, and to take
//! them back. Each is the data of one raw command under
//! [`NETFN`] and [`COMMAND`].

use vstd::prelude::*;
use crate::gamma::UNIT;

verus! {

/// Network function of the fan commands.
pub const NETFN: u8 = 0x30;

/// Command number of the fan commands.
pub const COMMAND: u8 = 0x30;

/// A duty in whole percent, rounded to the nearest, halves upwards.
pub open spec fn percent_spec(duty: int) -> int {
    (duty * 100 + UNIT / 2) / (UNIT as int)
}

/// A duty in whole percent.
pub fn percent(duty: u32) -> (p: u8)
    requires
        duty <= UNIT,
    ensures
        p == percent_spec(duty as int),
        p <= 100,
{
    let scaled: u64 = duty as u64 * 100 + 500_000;
    (scaled / 1_000_000) as u8
}

/// The request that takes the fans from the controller's own regulation.
pub fn take_control() -> (data: [u8; 2])
    ensures
        data@ == seq![0x01u8, 0x00u8],
{
    let data: [u8; 2] = [0x01, 0x00];
    assert(data@ =~= seq![0x01u8, 0x00u8]);
    data
}

/// The request that hands the fans back to the controller's own
/// regulation.
pub fn restore_control() -> (data: [u8; 2])
    ensures
        data@ == seq![0x01u8, 0x01u8],
{
    let data: [u8; 2] = [0x01, 0x01];
    assert(data@ =~= seq![0x01u8, 0x01u8]);
    data
}

/// The request that runs all fans at `duty`.
pub fn set_speed(duty: u32) -> (data: [u8; 3])
    requires
        duty <= UNIT,
    ensures
        data@ == seq![0x02u8, 0xffu8, percent_spec(duty as int) as u8],
{
    let data: [u8; 3] = [0x02, 0xff, percent(duty)];
    assert(data@ =~= seq![0x02u8, 0xffu8, percent_spec(duty as int) as u8]);
    data
}

/// More duty never gives a lower percentage.
pub proof fn lemma_percent_monotonic(d1: int, d2: int)
    requires
        0 <= d1 <= d2,
    ensures
        percent_spec(d1) <= percent_spec(d2),
{
}

} // verus!
