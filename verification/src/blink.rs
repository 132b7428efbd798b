//! A blinking output: the level is held for a fixed number of writes, then
//! toggled, without end. The caller owns the pin and performs each write.

use vstd::prelude::*;

verus! {

/// How many times a level is written before the output toggles.
pub const HOLD: u32 = 100_000;

/// The level of an output pin.
#[derive(Clone, Copy, Debug, PartialEq, Eq, Structural)]
pub enum Level {
    High,
    Low,
}

impl Level {
    /// The other level.
    pub open spec fn spec_toggled(self) -> Level {
        match self {
            Level::High => Level::Low,
            Level::Low => Level::High,
        }
    }

    /// The other level.
    pub fn toggled(self) -> (other: Level)
        ensures
            other == self.spec_toggled(),
    {
        match self {
            Level::High => Level::Low,
            Level::Low => Level::High,
        }
    }

    /// What is logged when a phase at this level begins.
    pub open spec fn spec_label(self) -> Seq<char> {
        match self {
            Level::High => "LED on"@,
            Level::Low => "LED off"@,
        }
    }

    /// What is logged when a phase at this level begins.
    pub fn label(self) -> (text: &'static str)
        ensures
            text@ == self.spec_label(),
    {
        match self {
            Level::High => "LED on",
            Level::Low => "LED off",
        }
    }
}

/// Where the blinking stands: the level being held, and how many writes of
/// it were made in this phase.
#[derive(Clone, Copy, Debug, PartialEq, Eq, Structural)]
pub struct Blinker {
    pub level: Level,
    pub written: u32,
}

/// What the caller does next: write `level` to the pin, after logging the
/// start of a phase where `announce` is set.
#[derive(Clone, Copy, Debug, PartialEq, Eq, Structural)]
pub struct Action {
    pub announce: bool,
    pub level: Level,
}

impl Blinker {
    /// A phase is never complete between two steps.
    pub open spec fn wf(self) -> bool {
        self.written < HOLD
    }

    /// The action that this state asks for.
    pub open spec fn action(self) -> Action {
        Action { announce: self.written == 0, level: self.level }
    }

    /// The state after that action.
    pub open spec fn next(self) -> Blinker {
        if self.written + 1 < HOLD {
            Blinker { level: self.level, written: (self.written + 1) as u32 }
        } else {
            Blinker { level: self.level.spec_toggled(), written: 0 }
        }
    }

    /// The state after `steps` actions.
    pub open spec fn after(self, steps: nat) -> Blinker
        decreases steps,
    {
        if steps == 0 {
            self
        } else {
            self.next().after((steps - 1) as nat)
        }
    }

    /// The start: the output is about to be driven high.
    pub fn new() -> (blinker: Blinker)
        ensures
            blinker == (Blinker { level: Level::High, written: 0 }),
            blinker.wf(),
    {
        Blinker { level: Level::High, written: 0 }
    }

    /// Hands out the next action and moves on by one write.
    pub fn step(&mut self) -> (action: Action)
        requires
            old(self).wf(),
        ensures
            action == old(self).action(),
            *final(self) == old(self).next(),
            final(self).wf(),
    {
        let action = Action { announce: self.written == 0, level: self.level };
        if self.written + 1 < HOLD {
            self.written = self.written + 1;
        } else {
            self.level = self.level.toggled();
            self.written = 0;
        }
        action
    }

    /// Within a phase the level stays: after `steps` writes that do not
    /// complete the phase, only the count has moved.
    pub proof fn lemma_phase_holds(self, steps: nat)
        requires
            self.wf(),
            self.written + steps < HOLD,
        ensures
            self.after(steps) == (Blinker {
                level: self.level,
                written: (self.written + steps) as u32,
            }),
        decreases steps,
    {
        if steps > 0 {
            self.next().lemma_phase_holds((steps - 1) as nat);
        }
    }

    /// A phase lasts `HOLD` writes: that many steps after it began, the other
    /// level's phase begins.
    pub proof fn lemma_phase_length(self)
        requires
            self.written == 0,
        ensures
            self.after(HOLD as nat) == (Blinker { level: self.level.spec_toggled(), written: 0 }),
    {
        self.lemma_phase_holds((HOLD - 1) as nat);
        let last = self.after((HOLD - 1) as nat);
        self.lemma_after_split((HOLD - 1) as nat, 1);
        assert(last.after(1) == last.next().after(0));
    }

    /// Blinking repeats: two phases after one began, the same phase begins again.
    pub proof fn lemma_period(self)
        requires
            self.written == 0,
        ensures
            self.after(2 * HOLD as nat) == self,
    {
        self.lemma_phase_length();
        let half = self.after(HOLD as nat);
        half.lemma_phase_length();
        self.lemma_after_split(HOLD as nat, HOLD as nat);
    }

    /// Steps add up: `a` steps and then `b` more are `a + b` steps.
    pub proof fn lemma_after_split(self, a: nat, b: nat)
        ensures
            self.after(a + b) == self.after(a).after(b),
        decreases a,
    {
        if a > 0 {
            self.next().lemma_after_split((a - 1) as nat, b);
            assert(self.after(a + b) == self.next().after((a + b - 1) as nat));
        }
    }
}

} // verus!
