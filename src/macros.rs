//! The table of text macros: sixteen slots of text that can be sent once or
//! repeated at a fixed delay.

use vstd::prelude::*;

verus! {

/// Number of macro slots.
pub const MACRO_COUNT: usize = 16;

/// Delay between repetitions of a new macro, in milliseconds.
pub const DEFAULT_MACRO_DELAY: u32 = 1000;

/// One macro slot.
pub struct Macro {
    pub text: String,
    /// Milliseconds between repetitions.
    pub delay: u32,
    /// Whether the text is sent again and again.
    pub repeat: bool,
}

pub open spec fn default_macro(m: Macro) -> bool {
    m.text@ == Seq::<char>::empty() && m.delay == DEFAULT_MACRO_DELAY && !m.repeat
}

impl Default for Macro {
    /// Empty text, sent once, with the default delay.
    fn default() -> (r: Macro)
        ensures
            default_macro(r),
    {
        Macro { text: String::new(), delay: DEFAULT_MACRO_DELAY, repeat: false }
    }
}

impl Macro {
    /// A copy of the slot's fields.
    pub fn duplicate(&self) -> (r: Macro)
        ensures
            r == *self,
    {
        Macro { text: self.text.clone(), delay: self.delay, repeat: self.repeat }
    }
}

/// What to do with a macro's repeat timer after its repeat box changed.
#[derive(Clone, Copy, Debug, PartialEq, Eq, Structural)]
pub enum RepeatAction {
    /// Start a timer that sends the text every `delay` milliseconds.
    Start,
    /// Stop the running timer.
    Halt,
    /// Leave things as they are.
    Keep,
}

/// The timer change for a macro whose repeat box reads `repeat` while its
/// timer is `active`.
pub fn repeat_action(repeat: bool, active: bool) -> (r: RepeatAction)
    ensures
        r == (if repeat && !active {
            RepeatAction::Start
        } else if !repeat && active {
            RepeatAction::Halt
        } else {
            RepeatAction::Keep
        }),
{
    if repeat && !active {
        RepeatAction::Start
    } else if !repeat && active {
        RepeatAction::Halt
    } else {
        RepeatAction::Keep
    }
}

/// The delay one step up, capped at `max` and never wrapping.
pub fn delay_step_up(value: u32, step: u32, max: u32) -> (r: u32)
    ensures
        r == if value + step > max { max as int } else { value + step },
{
    let raised: u32 = if value > u32::MAX - step {
        u32::MAX
    } else {
        value + step
    };
    if raised > max {
        max
    } else {
        raised
    }
}

/// The delay one step down, never below `min` and never wrapping.
pub fn delay_step_down(value: u32, step: u32, min: u32) -> (r: u32)
    ensures
        r == if value - step < min { min as int } else { value - step },
{
    let lowered: u32 = if value < step {
        0
    } else {
        value - step
    };
    if lowered < min {
        min
    } else {
        lowered
    }
}

/// The macro table and whether its window is open.
pub struct Macros {
    macros: Vec<Macro>,
    window_open: bool,
}

impl Macros {
    pub closed spec fn slots(&self) -> Seq<Macro> {
        self.macros@
    }

    pub closed spec fn is_open(&self) -> bool {
        self.window_open
    }

    pub open spec fn wf(&self) -> bool {
        self.slots().len() == MACRO_COUNT
    }

    /// Sixteen default slots, window closed.
    pub fn new() -> (r: Macros)
        ensures
            r.wf(),
            forall|i: int| 0 <= i < MACRO_COUNT ==> default_macro(#[trigger] r.slots()[i]),
            !r.is_open(),
    {
        let mut macros: Vec<Macro> = Vec::new();
        while macros.len() < MACRO_COUNT
            invariant
                macros@.len() <= MACRO_COUNT,
                forall|i: int| 0 <= i < macros@.len() ==> default_macro(#[trigger] macros@[i]),
            decreases MACRO_COUNT - macros@.len(),
        {
            macros.push(Macro::default());
        }
        Macros { macros, window_open: false }
    }

    pub fn set_open(&mut self, state: bool)
        ensures
            final(self).is_open() == state,
            final(self).slots() == old(self).slots(),
    {
        self.window_open = state;
    }

    pub fn is_window_open(&self) -> (r: bool)
        ensures
            r == self.is_open(),
    {
        self.window_open
    }

    /// A copy of slot `index`, or `None` past the last slot.
    pub fn get_macro(&self, index: usize) -> (r: Option<Macro>)
        ensures
            index < self.slots().len() ==> r == Some(self.slots()[index as int]),
            index >= self.slots().len() ==> r is None,
    {
        if index < self.macros.len() {
            Some(self.macros[index].duplicate())
        } else {
            None
        }
    }

    /// Replaces slot `index`; false, with nothing changed, past the last slot.
    pub fn set_macro(&mut self, index: usize, m: Macro) -> (r: bool)
        ensures
            r == (index < old(self).slots().len()),
            r ==> final(self).slots() == old(self).slots().update(index as int, m),
            !r ==> final(self).slots() == old(self).slots(),
            final(self).is_open() == old(self).is_open(),
    {
        if index < self.macros.len() {
            self.macros.set(index, m);
            true
        } else {
            false
        }
    }
}

} // verus!
