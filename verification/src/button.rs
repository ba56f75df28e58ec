//! Debounce logic for one push button: the raw level is sampled once per
//! tick, and only thirty consecutive samples at the opposite level flip
//! the accepted state and emit an event. The pin is read outside this
//! library; `poll` takes the sampled level.

use vstd::prelude::*;

verus! {

#[derive(Debug, Copy, Clone, PartialEq, Eq, Structural)]
pub enum Event {
    Pressed,
    Reseased,
    Nothing,
}

/// The accepted level, with the count of contrary samples seen so far.
#[derive(Debug, Copy, Clone, PartialEq, Eq, Structural)]
pub enum State {
    High(u8),
    Low(u8),
}

#[derive(Debug, Copy, Clone, PartialEq, Eq, Structural)]
pub struct Button {
    pub state: State,
}

impl Button {
    pub open spec fn wf(self) -> bool {
        match self.state {
            State::High(c) => c < 30,
            State::Low(c) => c < 30,
        }
    }

    /// One debounce step: a sample at the accepted level clears the
    /// count; thirty contrary samples in a row flip the state and
    /// report the edge.
    pub open spec fn spec_poll(self, value: bool) -> (Button, Event) {
        match self.state {
            State::High(cnt) => {
                let c2: int = if value {
                    0
                } else {
                    cnt + 1
                };
                if c2 >= 30 {
                    (Button { state: State::Low(0) }, Event::Pressed)
                } else {
                    (Button { state: State::High(c2 as u8) }, Event::Nothing)
                }
            },
            State::Low(cnt) => {
                let c2: int = if value {
                    cnt + 1
                } else {
                    0
                };
                if c2 >= 30 {
                    (Button { state: State::High(0) }, Event::Reseased)
                } else {
                    (Button { state: State::Low(c2 as u8) }, Event::Nothing)
                }
            },
        }
    }

    pub fn new() -> (b: Button)
        ensures
            b.wf(),
            b.state == State::High(0),
    {
        Button { state: State::High(0) }
    }

    /// Feed one sampled level; `value` is true when the pin reads high
    /// (the button released).
    pub fn poll(&mut self, value: bool) -> (e: Event)
        requires
            old(self).wf(),
        ensures
            final(self).wf(),
            *final(self) == old(self).spec_poll(value).0,
            e == old(self).spec_poll(value).1,
    {
        match self.state {
            State::High(cnt) => {
                let c2: u8 = if value {
                    0
                } else {
                    cnt + 1
                };
                if c2 >= 30 {
                    self.state = State::Low(0);
                    Event::Pressed
                } else {
                    self.state = State::High(c2);
                    Event::Nothing
                }
            },
            State::Low(cnt) => {
                let c2: u8 = if value {
                    cnt + 1
                } else {
                    0
                };
                if c2 >= 30 {
                    self.state = State::High(0);
                    Event::Reseased
                } else {
                    self.state = State::Low(c2);
                    Event::Nothing
                }
            },
        }
    }
}

} // verus!
