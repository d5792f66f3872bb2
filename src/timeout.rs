use vstd::prelude::*;

verus! {

/// The timeout value that tells `start` to wait without a bound.
pub const NO_TIMEOUT: i32 = 0;

/// A duration as seconds and the nanoseconds beyond them.
#[derive(Debug, Clone, Copy, PartialEq, Eq, Structural)]
pub struct Timeout {
    pub secs: u64,
    pub subsec_nanos: u32,
}

impl Timeout {
    /// The whole milliseconds in the duration.
    pub open spec fn millis(self) -> int {
        self.secs * 1000 + self.subsec_nanos / 1_000_000
    }
}

/// The millisecond timeout handed to the boundary: absent means no timeout,
/// and a duration past the representable range is clamped to its maximum.
pub open spec fn clamped_millis(timeout: Option<Timeout>) -> int {
    match timeout {
        None => NO_TIMEOUT as int,
        Some(t) => if t.millis() > i32::MAX {
            i32::MAX as int
        } else {
            t.millis()
        },
    }
}

/// Converts an optional duration into the boundary's millisecond timeout,
/// clamping rather than overflowing.
pub fn timeout_millis(timeout: Option<Timeout>) -> (r: i32)
    ensures
        r == clamped_millis(timeout),
        0 <= r,
{
    match timeout {
        None => NO_TIMEOUT,
        Some(t) => {
            if t.secs >= 2_147_484 {
                i32::MAX
            } else {
                let ms: u64 = t.secs * 1000 + (t.subsec_nanos / 1_000_000) as u64;
                if ms > i32::MAX as u64 {
                    i32::MAX
                } else {
                    ms as i32
                }
            }
        },
    }
}

} // verus!
