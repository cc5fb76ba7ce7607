//! The display loop's bookkeeping: the most recently shown frame and the
//! shared configuration cell written by the control surface and read by
//! the frame source.

use vstd::prelude::*;
use crate::config::ImageProcessingConfiguration;
use crate::frame::Frame;

verus! {

/// What the render loop keeps between ticks: the last frame that arrived,
/// shown again whenever a tick brings nothing new.
pub struct DisplayState {
    /// The most recent frame received, if any has arrived yet.
    pub latest_frame: Option<Frame>,
}

impl DisplayState {
    /// Before the first frame arrives nothing is shown but a placeholder.
    pub fn new() -> (r: Self)
        ensures
            r.latest_frame is None,
    {
        Self { latest_frame: None }
    }

    /// One render tick's frame update: a newly arrived frame replaces the
    /// shown one, and otherwise the previous frame is retained, so the
    /// display never falls back to empty once a first frame has arrived.
    pub fn on_tick(&mut self, incoming: Option<Frame>)
        ensures
            old(self).latest_frame is Some || incoming is Some
                ==> final(self).latest_frame is Some,
            incoming is Some ==> final(self).latest_frame == incoming,
            incoming is None ==> final(self).latest_frame == old(self).latest_frame,
    {
        match incoming {
            Some(f) => {
                self.latest_frame = Some(f);
            },
            None => {},
        }
    }
}

/// The shared configuration cell: the control surface is its only writer
/// and installs a whole replacement snapshot; readers copy the whole
/// current snapshot. There is no partial state to observe.
pub struct ConfigCell {
    current: ImageProcessingConfiguration,
}

impl ConfigCell {
    /// The snapshot a read observes.
    pub closed spec fn snapshot(self) -> ImageProcessingConfiguration {
        self.current
    }

    /// A cell holding the given initial snapshot.
    pub fn new(initial: ImageProcessingConfiguration) -> (r: Self)
        ensures
            r.snapshot() == initial,
    {
        Self { current: initial }
    }

    /// Copies the whole current snapshot; the cell is unchanged and the
    /// copy is complete, never a mix of two writes.
    pub fn read(&self) -> (r: ImageProcessingConfiguration)
        ensures
            r == self.snapshot(),
    {
        self.current
    }

    /// Installs a whole replacement snapshot.
    pub fn write(&mut self, cfg: ImageProcessingConfiguration)
        ensures
            final(self).snapshot() == cfg,
    {
        self.current = cfg;
    }

    /// The tick's write-back: installs the edited configuration exactly
    /// when some control changed this tick, and otherwise leaves the cell
    /// untouched.
    pub fn commit(&mut self, changed: bool, edited: ImageProcessingConfiguration)
        ensures
            final(self).snapshot()
                == (if changed { edited } else { old(self).snapshot() }),
    {
        if changed {
            self.current = edited;
        }
    }
}

} // verus!
