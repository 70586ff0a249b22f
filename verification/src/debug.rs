//! Host-side diagnostics: rendering a chained error report and counting
//! frames per second.

use vstd::prelude::*;
use vstd::string::StringExecFns;

verus! {

/// One cause in a chained error: its message and, when the source
/// recorded one, the place it arose.
pub struct CauseEntry {
    /// The cause's own message.
    pub message: String,
    /// Where the cause arose, when known.
    pub location: Option<String>,
}

/// One rendered cause line: the message, then either the annotated
/// location or a bare line end.
pub open spec fn render_cause(e: CauseEntry) -> Seq<char> {
    e.message@ + match e.location {
        Some(l) => " This happened at "@ + l@ + "\n"@,
        None => "\n"@,
    }
}

/// The report from position `i` on: each cause after the first is
/// introduced by a consequence line.
pub open spec fn render_from(entries: Seq<CauseEntry>, i: int) -> Seq<char>
    decreases entries.len() - i,
{
    if i < 0 || i >= entries.len() {
        Seq::empty()
    } else if i == 0 {
        render_cause(entries[0]) + render_from(entries, 1)
    } else {
        "  Which caused:\n"@ + render_cause(entries[i]) + render_from(entries, i + 1)
    }
}

/// The whole report of a cause chain given oldest first.
pub open spec fn render_report(entries: Seq<CauseEntry>) -> Seq<char> {
    render_from(entries, 0)
}

/// Renders a chained error, given newest first as error chains hand it
/// out, into a multi-line report, oldest cause first, each cause
/// annotated with its originating location when one is known.
pub fn failure_to_string(chain: &Vec<CauseEntry>) -> (r: String)
    ensures
        r@ == render_report(chain@.reverse()),
{
    let ghost rev = chain@.reverse();
    let mut result = String::new();
    let n = chain.len();
    let mut j: usize = 0;
    proof {
        assert(rev.len() == n);
    }
    while j < n
        invariant
            0 <= j <= n,
            n == chain@.len(),
            rev == chain@.reverse(),
            rev.len() == n,
            result@ + render_from(rev, j as int) == render_report(rev),
        decreases n - j,
    {
        if j > 0 {
            result.append("  Which caused:\n");
        }
        let entry = &chain[n - 1 - j];
        proof {
            assert(rev[j as int] == chain@[n - 1 - j as int]);
        }
        result.append(entry.message.as_str());
        match &entry.location {
            Some(l) => {
                result.append(" This happened at ");
                result.append(l.as_str());
                result.append("\n");
            },
            None => {
                result.append("\n");
            },
        }
        proof {
            assert(result@ + render_from(rev, j as int + 1) =~= render_report(rev));
        }
        j = j + 1;
    }
    result
}

/// How many milliseconds of ticks one frame-rate report spans.
pub const FPS_INTERVAL: u32 = 1000;

/// A frame counter fed with a millisecond tick reading once per frame,
/// reporting the frame count of each elapsed interval.
pub struct FPSCounter {
    /// The tick reading when the running interval began.
    pub fps_lasttime: u32,
    /// Frames counted in the running interval.
    pub fps_frames: u32,
    /// The frame count of the last finished interval.
    pub fps_current: u32,
}

impl FPSCounter {
    /// A counter whose first interval begins at the given tick reading.
    pub fn new(ticks: u32) -> (r: FPSCounter)
        ensures
            r == (FPSCounter { fps_lasttime: ticks, fps_frames: 0u32, fps_current: 0u32 }),
    {
        FPSCounter { fps_lasttime: ticks, fps_frames: 0, fps_current: 0 }
    }

    /// Counts one frame at the given tick reading.  Once the interval is
    /// over, returns the finished interval's frame count and starts the
    /// next interval at this reading.
    pub fn count(&mut self, ticks: u32) -> (fps: Option<u32>)
        requires
            old(self).fps_frames < u32::MAX,
            old(self).fps_lasttime + FPS_INTERVAL <= u32::MAX,
        ensures
            if old(self).fps_lasttime + FPS_INTERVAL < ticks {
                &&& *final(self) == (FPSCounter {
                    fps_lasttime: ticks,
                    fps_frames: 0u32,
                    fps_current: (old(self).fps_frames + 1) as u32,
                })
                &&& fps == Some((old(self).fps_frames + 1) as u32)
            } else {
                &&& *final(self) == (FPSCounter {
                    fps_frames: (old(self).fps_frames + 1) as u32,
                    ..*old(self)
                })
                &&& fps == None::<u32>
            },
    {
        self.fps_frames = self.fps_frames + 1;
        let ticks_due = self.fps_lasttime + FPS_INTERVAL;
        if ticks_due < ticks {
            self.fps_lasttime = ticks;
            self.fps_current = self.fps_frames;
            self.fps_frames = 0;
            Some(self.fps_current)
        } else {
            None
        }
    }
}

} // verus!
