use vstd::prelude::*;

verus! {

/// Why the next presentable image could not be acquired.
#[derive(Clone, Copy, PartialEq, Eq, Structural, Debug)]
pub enum SurfaceError {
    Timeout,
    Outdated,
    Lost,
    OutOfMemory,
}

/// What the frame loop does after a failed frame.
#[derive(Clone, Copy, PartialEq, Eq, Structural, Debug)]
pub enum FrameAction {
    /// Reconfigure the surface at the last known size and draw next frame.
    Reconfigure,
    /// Skip this frame and try again on the next one.
    Skip,
    /// Stop the session: nothing can safely continue.
    Exit,
}

/// The recovery for a surface error: a lost or outdated surface is
/// reconfigured, a timeout skips the frame, running out of memory ends the
/// session.
pub fn recover(error: SurfaceError) -> (r: FrameAction)
    ensures
        r == (match error {
            SurfaceError::Lost | SurfaceError::Outdated => FrameAction::Reconfigure,
            SurfaceError::Timeout => FrameAction::Skip,
            SurfaceError::OutOfMemory => FrameAction::Exit,
        }),
{
    match error {
        SurfaceError::Lost | SurfaceError::Outdated => FrameAction::Reconfigure,
        SurfaceError::Timeout => FrameAction::Skip,
        SurfaceError::OutOfMemory => FrameAction::Exit,
    }
}

/// Counts frames between throughput reports. Times are milliseconds since
/// the session started.
pub struct FrameCounter {
    pub frame_count: u32,
    pub last_update: u64,
}

impl FrameCounter {
    /// A counter with no frames counted, last reported at `now`.
    pub fn new(now: u64) -> (r: FrameCounter)
        ensures
            r.frame_count == 0,
            r.last_update == now,
    {
        FrameCounter { frame_count: 0, last_update: now }
    }

    /// Counts one frame finished at `elapsed`. Once time has advanced past
    /// the last report, returns the frames counted since then and starts
    /// over from `elapsed`.
    pub fn calculate_frames(&mut self, elapsed: u64) -> (r: Option<u32>)
        ensures
            ({
                let counted = if old(self).frame_count < u32::MAX {
                    (old(self).frame_count + 1) as u32
                } else {
                    u32::MAX
                };
                if elapsed > old(self).last_update {
                    &&& r == Some(counted)
                    &&& final(self).frame_count == 0
                    &&& final(self).last_update == elapsed
                } else {
                    &&& r is None
                    &&& final(self).frame_count == counted
                    &&& final(self).last_update == old(self).last_update
                }
            }),
    {
        if self.frame_count < u32::MAX {
            self.frame_count = self.frame_count + 1;
        }
        if elapsed > self.last_update {
            let counted = self.frame_count;
            self.frame_count = 0;
            self.last_update = elapsed;
            Some(counted)
        } else {
            None
        }
    }
}

} // verus!
