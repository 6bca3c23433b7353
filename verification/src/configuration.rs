use vstd::prelude::*;

verus! {

/// The value that both sides settle on for a limit of which 0 means "no
/// preference": the peer's value if we have none, ours if the peer has
/// none, else the lower of the two.
pub open spec fn negotiated(ours: int, theirs: int) -> int {
    if ours == 0 {
        theirs
    } else if theirs == 0 {
        ours
    } else if theirs < ours {
        theirs
    } else {
        ours
    }
}

/// A negotiated limit, with 0 ("no limit") replaced by the largest value
/// that the field can hold.
pub open spec fn saturated(value: int, max: int) -> int {
    if value == 0 {
        max
    } else {
        value
    }
}

/// The tunables of a connection.
#[derive(Clone, Copy, Debug, PartialEq, Eq, Structural)]
pub struct Configuration {
    pub channel_max: u16,
    pub frame_max: u32,
    pub heartbeat: u16,
}

impl Configuration {
    pub fn new(channel_max: u16, frame_max: u32, heartbeat: u16) -> (r: Self)
        ensures
            r == (Configuration { channel_max, frame_max, heartbeat }),
    {
        Configuration { channel_max, frame_max, heartbeat }
    }

    pub fn channel_max(&self) -> (r: u16)
        ensures
            r == self.channel_max,
    {
        self.channel_max
    }

    pub fn frame_max(&self) -> (r: u32)
        ensures
            r == self.frame_max,
    {
        self.frame_max
    }

    pub fn heartbeat(&self) -> (r: u16)
        ensures
            r == self.heartbeat,
    {
        self.heartbeat
    }

    /// Settles the three tunables against the values that the broker
    /// proposed. A channel or frame limit that is still 0 afterwards
    /// becomes the largest value of its type; a heartbeat of 0 stays 0.
    pub fn tune_connection_configuration(&mut self, channel_max: u16, frame_max: u32, heartbeat: u16)
        ensures
            final(self).heartbeat == negotiated(old(self).heartbeat as int, heartbeat as int),
            final(self).channel_max == saturated(
                negotiated(old(self).channel_max as int, channel_max as int),
                u16::MAX as int,
            ),
            final(self).frame_max == saturated(
                negotiated(old(self).frame_max as int, frame_max as int),
                u32::MAX as int,
            ),
    {
        if self.heartbeat == 0 || (heartbeat != 0 && heartbeat < self.heartbeat) {
            self.heartbeat = heartbeat;
        }
        if channel_max != 0 {
            if self.channel_max == 0 || channel_max < self.channel_max {
                self.channel_max = channel_max;
            }
        }
        if self.channel_max == 0 {
            self.channel_max = u16::MAX;
        }
        if frame_max != 0 {
            if self.frame_max == 0 || frame_max < self.frame_max {
                self.frame_max = frame_max;
            }
        }
        if self.frame_max == 0 {
            self.frame_max = u32::MAX;
        }
    }
}

/// After tuning, the channel and frame limits are never 0, and neither
/// exceeds a non-zero value that either side asked for.
pub proof fn lemma_tuned_limits(ours: int, theirs: int, max: int)
    requires
        0 <= ours <= max,
        0 <= theirs <= max,
        max > 0,
    ensures
        saturated(negotiated(ours, theirs), max) > 0,
        ours != 0 ==> saturated(negotiated(ours, theirs), max) <= ours,
        theirs != 0 ==> saturated(negotiated(ours, theirs), max) <= theirs,
        negotiated(ours, theirs) == negotiated(theirs, ours),
{
}

} // verus!
