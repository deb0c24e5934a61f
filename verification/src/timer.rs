use vstd::prelude::*;

verus! {

/// A timer that counts down by one each frame. What it is attached to is
/// removed when it runs out, unless the timer was made not to ask for that.
#[derive(Debug)]
pub struct CountDownTimer {
    count: u32,
    pause: bool,
    auto_despawn: bool,
}

/// State of a [`CountDownTimer`].
pub ghost struct CountDownState {
    /// Frames left.
    pub count: u32,
    pub pause: bool,
    pub auto_despawn: bool,
}

impl View for CountDownTimer {
    type V = CountDownState;

    closed spec fn view(&self) -> CountDownState {
        CountDownState { count: self.count, pause: self.pause, auto_despawn: self.auto_despawn }
    }
}

impl CountDownTimer {
    /// A running timer of `count` frames that asks for removal at its end.
    pub fn new(count: u32) -> (r: Self)
        ensures
            r@ == (CountDownState { count, pause: false, auto_despawn: true }),
    {
        Self { count, pause: false, auto_despawn: true }
    }

    /// A running timer of `count` frames that does not ask for removal.
    pub fn new_not_despawn(count: u32) -> (r: Self)
        ensures
            r@ == (CountDownState { count, pause: false, auto_despawn: false }),
    {
        Self { count, pause: false, auto_despawn: false }
    }

    /// Counts one frame, unless the timer is paused or has run out.
    pub fn tick(&mut self)
        ensures
            final(self)@ == (CountDownState {
                count: if !old(self)@.pause && old(self)@.count > 0 {
                    (old(self)@.count - 1) as u32
                } else {
                    old(self)@.count
                },
                ..old(self)@
            }),
    {
        if !self.pause && self.count > 0 {
            self.count -= 1;
        }
    }

    /// Frames left.
    pub fn count(&self) -> (r: u32)
        ensures
            r == self@.count,
    {
        self.count
    }

    pub fn is_finished(&self) -> (r: bool)
        ensures
            r == (self@.count == 0),
    {
        self.count == 0
    }

    pub fn pause(&mut self)
        ensures
            final(self)@ == (CountDownState { pause: true, ..old(self)@ }),
    {
        self.pause = true;
    }

    #[must_use]
    pub fn paused(&self) -> (r: bool)
        ensures
            r == self@.pause,
    {
        self.pause
    }

    pub fn toggle_pause(&mut self)
        ensures
            final(self)@ == (CountDownState { pause: !old(self)@.pause, ..old(self)@ }),
    {
        self.pause = !self.pause;
    }

    /// Whether the timer asks for removal at its end.
    pub fn auto_despawn(&self) -> (r: bool)
        ensures
            r == self@.auto_despawn,
    {
        self.auto_despawn
    }
}

/// A counter that goes up by one each frame and can be paused.
#[derive(Clone, Copy, Debug)]
pub struct FrameCounter {
    count: u32,
    pause: bool,
}

/// State of a [`FrameCounter`].
pub ghost struct FrameCounterState {
    /// Frames counted; the count stops at the largest `u32`.
    pub count: u32,
    pub pause: bool,
}

impl View for FrameCounter {
    type V = FrameCounterState;

    closed spec fn view(&self) -> FrameCounterState {
        FrameCounterState { count: self.count, pause: self.pause }
    }
}

impl FrameCounter {
    /// A running counter that starts at zero.
    pub fn new() -> (r: Self)
        ensures
            r@ == (FrameCounterState { count: 0, pause: false }),
    {
        Self::new_default(0)
    }

    /// A running counter that starts at `count`.
    pub fn new_default(count: u32) -> (r: Self)
        ensures
            r@ == (FrameCounterState { count, pause: false }),
    {
        Self { count, pause: false }
    }

    /// Counts one frame, unless the counter is paused.
    pub fn tick(&mut self)
        ensures
            final(self)@ == (FrameCounterState {
                count: if !old(self)@.pause && old(self)@.count < u32::MAX {
                    (old(self)@.count + 1) as u32
                } else {
                    old(self)@.count
                },
                ..old(self)@
            }),
    {
        if !self.pause && self.count < u32::MAX {
            self.count += 1;
        }
    }

    /// Sets the count back to zero.
    pub fn reset(&mut self)
        ensures
            final(self)@ == (FrameCounterState { count: 0, ..old(self)@ }),
    {
        self.count = 0;
    }

    #[must_use]
    pub fn paused(&self) -> (r: bool)
        ensures
            r == self@.pause,
    {
        self.pause
    }

    pub fn toggle_pause(&mut self)
        ensures
            final(self)@ == (FrameCounterState { pause: !old(self)@.pause, ..old(self)@ }),
    {
        self.pause = !self.pause;
    }

    /// Frames counted.
    pub fn count(&self) -> (r: u32)
        ensures
            r == self@.count,
    {
        self.count
    }
}

} // verus!
