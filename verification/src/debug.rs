//! Frame-rate samples kept for the debug overlay.

use vstd::prelude::*;

verus! {

/// The number of samples kept.
pub const FPS_HISTORY_LEN: usize = 60;

/// The last frame-rate samples, oldest first, and the highest sample seen.
pub struct DebugStats {
    window_open: bool,
    fps_history: [u16; 60],
    highest_fps: u16,
}

impl DebugStats {
    /// The samples kept, oldest first.
    pub closed spec fn history(&self) -> Seq<u16> {
        self.fps_history@
    }

    /// The highest sample taken so far.
    pub closed spec fn highest(&self) -> u16 {
        self.highest_fps
    }

    /// Whether the overlay's window is shown.
    pub closed spec fn is_open(&self) -> bool {
        self.window_open
    }

    /// Takes a sample: the oldest sample leaves, the others move up by one
    /// place and `fps` comes last.
    pub fn insert_fps(&mut self, fps: u16)
        ensures
            final(self).history() == old(self).history().drop_first().push(fps),
            final(self).highest() == if fps > old(self).highest() {
                fps
            } else {
                old(self).highest()
            },
            final(self).is_open() == old(self).is_open(),
    {
        if fps > self.highest_fps {
            self.highest_fps = fps;
        }
        let ghost before = self.fps_history@;
        let mut to_write = fps;
        let mut done: usize = 0;
        while done < FPS_HISTORY_LEN
            invariant
                done <= FPS_HISTORY_LEN,
                before.len() == FPS_HISTORY_LEN,
                self.fps_history@.len() == FPS_HISTORY_LEN,
                self.window_open == old(self).window_open,
                self.highest_fps == if fps > old(self).highest_fps {
                    fps
                } else {
                    old(self).highest_fps
                },
                to_write == if done == 0 {
                    fps
                } else {
                    before[FPS_HISTORY_LEN - done]
                },
                forall|j: int| 0 <= j < FPS_HISTORY_LEN - done ==> self.fps_history@[j] == before[j],
                forall|j: int|
                    FPS_HISTORY_LEN - done <= j < FPS_HISTORY_LEN ==> self.fps_history@[j]
                        == before.drop_first().push(fps)[j],
            decreases FPS_HISTORY_LEN - done,
        {
            let i = FPS_HISTORY_LEN - done - 1;
            let moved = self.fps_history[i];
            self.fps_history[i] = to_write;
            to_write = moved;
            done += 1;
        }
        assert(self.fps_history@ =~= before.drop_first().push(fps));
    }

    /// The sample taken last.
    pub fn fps_latest(&self) -> (fps: u16)
        ensures
            fps == self.history().last(),
    {
        self.fps_history[FPS_HISTORY_LEN - 1]
    }

    /// The samples kept, oldest first.
    pub fn fps_history(&self) -> (samples: &[u16; 60])
        ensures
            samples@ == self.history(),
    {
        &self.fps_history
    }

    /// The highest sample taken so far.
    pub fn highest_fps(&self) -> (fps: u16)
        ensures
            fps == self.highest(),
    {
        self.highest_fps
    }

    /// Whether the overlay's window is shown.
    pub fn window_open(&self) -> (open: bool)
        ensures
            open == self.is_open(),
    {
        self.window_open
    }

    /// Shows the overlay's window, or hides it again.
    pub fn set_window_open(&mut self, open: bool)
        ensures
            final(self).is_open() == open,
            final(self).history() == old(self).history(),
            final(self).highest() == old(self).highest(),
    {
        self.window_open = open;
    }

    /// Shows the overlay's window if it is hidden and hides it if it is
    /// shown.
    pub fn toggle(&mut self)
        ensures
            final(self).is_open() == !old(self).is_open(),
            final(self).history() == old(self).history(),
            final(self).highest() == old(self).highest(),
    {
        self.window_open = !self.window_open;
    }
}

impl Default for DebugStats {
    fn default() -> (stats: Self)
        ensures
            !stats.is_open(),
            stats.highest() == 0,
            stats.history() == Seq::new(FPS_HISTORY_LEN as nat, |i: int| 0u16),
    {
        let stats = DebugStats { window_open: false, fps_history: [0u16; 60], highest_fps: 0 };
        assert(stats.history() =~= Seq::new(FPS_HISTORY_LEN as nat, |i: int| 0u16));
        stats
    }
}

} // verus!
