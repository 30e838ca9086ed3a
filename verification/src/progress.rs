//! Progress arithmetic and the event payloads the engine publishes while a
//! transfer runs. Publishing itself is fire-and-forget and happens outside
//! this crate; the engine only decides what each event says.

use vstd::prelude::*;

verus! {

/// The integer percentage reported for `(sent, total)` counters:
/// `floor(sent * 100 / total)`, and `0` when `total` is zero. The
/// machine-limit clamp matters only when `sent` exceeds `total` by more
/// than the word size allows.
pub open spec fn percentage_spec(sent: nat, total: nat) -> nat {
    if total == 0 {
        0
    } else if sent * 100 / total > u64::MAX {
        u64::MAX as nat
    } else {
        sent * 100 / total
    }
}

/// Converts transfer counters to an integer percentage.
pub fn transfer_percentage(sent: u64, total: u64) -> (p: u64)
    ensures
        p as nat == percentage_spec(sent as nat, total as nat),
        sent <= total ==> p <= 100,
{
    if total == 0 {
        0
    } else {
        let wide: u128 = (sent as u128) * 100 / (total as u128);
        proof {
            assert(sent <= total && total > 0 ==> (sent as nat) * 100 / (total as nat) <= 100)
                by (nonlinear_arith);
        }
        if wide > u64::MAX as u128 {
            u64::MAX
        } else {
            wide as u64
        }
    }
}

/// The phase a send-progress event reports.
pub enum SendStatus {
    Preparing,
    Waiting,
    Packaging,
    Sending,
}

/// One send-progress event: what the caller shows for a send in flight.
pub struct SendProgress {
    pub id: String,
    pub file_name: String,
    pub sent: u64,
    pub total: u64,
    pub percentage: u64,
    pub code: String,
    pub status: SendStatus,
}

/// One download-progress event.
pub struct DownloadProgress {
    pub id: String,
    pub file_name: String,
    pub transferred: u64,
    pub total: u64,
    pub percentage: u64,
}

} // verus!
