//! A keypad code lock: the player engages it inside its sensor with the
//! action button, hovers and clicks the digit buttons, and after four digits
//! a short verify delay either solves the lock or clears the attempt.
use vstd::prelude::*;

use crate::ramp;
use crate::ramp::UNIT;

verus! {

/// Press-depth ramp rate of a hovered button (10/s).
pub const BUTTON_RATE: u64 = 10000;

/// Verify-delay ramp rate after the fourth digit (5/s).
pub const FINISH_RATE: u64 = 5000;

/// Largest representable four-digit secret.
pub const SECRET_MAX: u32 = 9999;

/// Digits a full input holds.
pub const CODE_LEN: usize = 4;

/// Number of digit buttons on the pad.
pub const BUTTON_COUNT: usize = 10;

#[derive(PartialEq, Eq, Structural, Clone, Copy, Debug)]
pub enum CodeState {
    Idle,
    Acting,
    InputFinished,
    Success,
}

/// What one keypad tick asks of the view collaborator.
#[derive(PartialEq, Eq, Structural, Clone, Copy, Debug)]
pub enum FocusChange {
    /// Leave the camera focus as it is.
    Keep,
    /// Move the camera onto the keypad screen.
    Engage,
    /// Give the camera back to the player.
    Release,
}

/// One keypad tick's outputs: the focus command, and while verifying, whether
/// the screen shows the matched (true) or mismatched (false) color.
#[derive(PartialEq, Eq, Structural, Clone, Copy, Debug)]
pub struct CodeOut {
    pub focus: FocusChange,
    pub feedback: Option<bool>,
}

/// The keypad's state as mathematical values.
pub struct CodeModel {
    pub state: CodeState,
    pub secret: u32,
    pub input: Seq<u8>,
    pub action_last: bool,
    pub mouse_last: bool,
    pub finish_timer: u64,
    pub buttons: Seq<u64>,
}

pub struct Code {
    pub state: CodeState,
    pub secret: u32,
    /// Captured digits, each in `0..=9`, oldest first, at most four.
    pub input: Vec<u8>,
    pub is_action_last: bool,
    pub is_mouse_last: bool,
    /// Verify-delay progress in `[0, UNIT]` micro-steps.
    pub finish_timer: u64,
    /// Press-depth of each digit button in `[0, UNIT]` micro-steps.
    pub button_timers: Vec<u64>,
}

/// Whether button `i` is the hovered one.
pub open spec fn is_hovered(hovered: Option<u8>, i: int) -> bool {
    match hovered {
        Some(h) => h as int == i,
        None => false,
    }
}

/// All press-depth ramps after one tick: the hovered button rises, the rest
/// fall.
pub open spec fn buttons_ticked(buttons: Seq<u64>, hovered: Option<u8>, delta_ms: u64) -> Seq<u64> {
    Seq::new(
        buttons.len(),
        |i: int|
            ramp::ramp_step(
                buttons[i],
                delta_ms,
                BUTTON_RATE,
                is_hovered(hovered, i),
                0,
                UNIT,
            ) as u64,
    )
}

/// The number a full four-digit input spells.
pub open spec fn input_value(input: Seq<u8>) -> int {
    input[0] * 1000 + input[1] * 100 + input[2] * 10 + input[3]
}

/// The state and outputs after one tick.
pub open spec fn code_ticked(
    m: CodeModel,
    inside: bool,
    action: bool,
    mouse: bool,
    hovered: Option<u8>,
    delta_ms: u64,
) -> (CodeModel, CodeOut) {
    let acted = !m.action_last && action;
    let clicked = !m.mouse_last && mouse;
    let m = CodeModel { action_last: action, mouse_last: mouse, ..m };
    let keep = CodeOut { focus: FocusChange::Keep, feedback: None };
    match m.state {
        CodeState::Idle => {
            if inside && acted {
                (
                    CodeModel { state: CodeState::Acting, ..m },
                    CodeOut { focus: FocusChange::Engage, feedback: None },
                )
            } else {
                (m, keep)
            }
        },
        CodeState::Acting => {
            if acted {
                (
                    CodeModel { state: CodeState::Idle, ..m },
                    CodeOut { focus: FocusChange::Release, feedback: None },
                )
            } else {
                let buttons = buttons_ticked(m.buttons, hovered, delta_ms);
                let input = match hovered {
                    Some(h) => if clicked {
                        m.input.push(h)
                    } else {
                        m.input
                    },
                    None => m.input,
                };
                let m = CodeModel { buttons, input, ..m };
                if input.len() == CODE_LEN {
                    (CodeModel { state: CodeState::InputFinished, finish_timer: 0, ..m }, keep)
                } else {
                    (m, keep)
                }
            }
        },
        CodeState::InputFinished => {
            let timer = ramp::ramp_step(m.finish_timer, delta_ms, FINISH_RATE, true, 0, UNIT) as u64;
            let done = timer == UNIT;
            if input_value(m.input) == m.secret {
                let state = if done {
                    CodeState::Success
                } else {
                    CodeState::InputFinished
                };
                (
                    CodeModel { state, finish_timer: timer, ..m },
                    CodeOut { focus: FocusChange::Keep, feedback: Some(true) },
                )
            } else {
                let state = if done {
                    CodeState::Acting
                } else {
                    CodeState::InputFinished
                };
                let input = if done {
                    Seq::<u8>::empty()
                } else {
                    m.input
                };
                (
                    CodeModel { state, finish_timer: timer, input, ..m },
                    CodeOut { focus: FocusChange::Keep, feedback: Some(false) },
                )
            }
        },
        CodeState::Success => {
            (m, CodeOut { focus: FocusChange::Release, feedback: None })
        },
    }
}

impl Code {
    pub open spec fn model(self) -> CodeModel {
        CodeModel {
            state: self.state,
            secret: self.secret,
            input: self.input@,
            action_last: self.is_action_last,
            mouse_last: self.is_mouse_last,
            finish_timer: self.finish_timer,
            buttons: self.button_timers@,
        }
    }

    pub open spec fn wf(self) -> bool {
        &&& self.secret <= SECRET_MAX
        &&& self.input@.len() <= CODE_LEN
        &&& (forall|i: int| 0 <= i < self.input@.len() ==> self.input@[i] <= 9)
        &&& (self.state == CodeState::InputFinished ==> self.input@.len() == CODE_LEN)
        &&& (self.state == CodeState::Idle || self.state == CodeState::Acting
            ==> self.input@.len() < CODE_LEN)
        &&& self.finish_timer <= UNIT
        &&& self.button_timers@.len() == BUTTON_COUNT
        &&& (forall|i: int| 0 <= i < BUTTON_COUNT ==> self.button_timers@[i] <= UNIT)
    }

    /// A fresh lock guarding `secret`. A secret of more than four digits is a
    /// level-authoring error and is rejected before a lock ever exists.
    pub fn new(secret: u32) -> (c: Code)
        requires
            secret <= SECRET_MAX,
        ensures
            c.wf(),
            c.state == CodeState::Idle,
            c.secret == secret,
            c.input@.len() == 0,
            !c.is_action_last,
            !c.is_mouse_last,
            c.finish_timer == 0,
            forall|i: int| 0 <= i < BUTTON_COUNT ==> c.button_timers@[i] == 0,
            !c.spec_activated(),
    {
        let mut button_timers: Vec<u64> = Vec::new();
        let mut i: usize = 0;
        while i < BUTTON_COUNT
            invariant
                i <= BUTTON_COUNT,
                button_timers@.len() == i,
                forall|j: int| 0 <= j < i ==> button_timers@[j] == 0,
            decreases BUTTON_COUNT - i,
        {
            button_timers.push(0);
            i = i + 1;
        }
        Code {
            state: CodeState::Idle,
            secret,
            input: Vec::new(),
            is_action_last: false,
            is_mouse_last: false,
            finish_timer: 0,
            button_timers,
        }
    }

    pub open spec fn spec_activated(self) -> bool {
        self.state == CodeState::Success
    }

    pub fn activated(&self) -> (r: bool)
        ensures
            r == self.spec_activated(),
    {
        self.state == CodeState::Success
    }

    /// One simulation tick. `hovered` is the digit button the pointer ray
    /// rests on, as the ray-cast collaborator resolved it.
    pub fn tick(
        &mut self,
        inside: bool,
        action: bool,
        mouse: bool,
        hovered: Option<u8>,
        delta_ms: u64,
    ) -> (out: CodeOut)
        requires
            old(self).wf(),
            hovered matches Some(h) ==> h < 10,
        ensures
            final(self).wf(),
            final(self).model() == code_ticked(
                old(self).model(),
                inside,
                action,
                mouse,
                hovered,
                delta_ms,
            ).0,
            out == code_ticked(old(self).model(), inside, action, mouse, hovered, delta_ms).1,
    {
        let acted = !self.is_action_last && action;
        self.is_action_last = action;
        let clicked = !self.is_mouse_last && mouse;
        self.is_mouse_last = mouse;

        match self.state {
            CodeState::Idle => {
                if inside && acted {
                    self.state = CodeState::Acting;
                    CodeOut { focus: FocusChange::Engage, feedback: None }
                } else {
                    CodeOut { focus: FocusChange::Keep, feedback: None }
                }
            }
            CodeState::Acting => {
                if acted {
                    self.state = CodeState::Idle;
                    CodeOut { focus: FocusChange::Release, feedback: None }
                } else {
                    let ghost snap = *self;
                    let ghost prior = self.button_timers@;
                    let mut i: usize = 0;
                    while i < BUTTON_COUNT
                        invariant
                            i <= BUTTON_COUNT,
                            snap.wf(),
                            prior == snap.button_timers@,
                            self.state == snap.state,
                            self.secret == snap.secret,
                            self.input == snap.input,
                            self.is_action_last == snap.is_action_last,
                            self.is_mouse_last == snap.is_mouse_last,
                            self.finish_timer == snap.finish_timer,
                            self.button_timers@.len() == BUTTON_COUNT,
                            forall|j: int|
                                i <= j < BUTTON_COUNT ==> self.button_timers@[j] == prior[j],
                            forall|j: int|
                                0 <= j < i ==> self.button_timers@[j] == buttons_ticked(
                                    prior,
                                    hovered,
                                    delta_ms,
                                )[j],
                        decreases BUTTON_COUNT - i,
                    {
                        let rising = match hovered {
                            Some(h) => (h as usize) == i,
                            None => false,
                        };
                        proof {
                            assert(self.button_timers@[i as int] == prior[i as int]);
                        }
                        let t = ramp::advance(
                            self.button_timers[i],
                            delta_ms,
                            BUTTON_RATE,
                            rising,
                            0,
                            UNIT,
                        );
                        self.button_timers.set(i, t);
                        i = i + 1;
                    }
                    proof {
                        assert(self.button_timers@ =~= buttons_ticked(prior, hovered, delta_ms));
                    }
                    if let Some(h) = hovered {
                        if clicked {
                            self.input.push(h);
                        }
                    }
                    if self.input.len() == CODE_LEN {
                        self.state = CodeState::InputFinished;
                        self.finish_timer = 0;
                    }
                    CodeOut { focus: FocusChange::Keep, feedback: None }
                }
            }
            CodeState::InputFinished => {
                self.finish_timer = ramp::advance(
                    self.finish_timer,
                    delta_ms,
                    FINISH_RATE,
                    true,
                    0,
                    UNIT,
                );
                let done = self.finish_timer == UNIT;
                if self.input_matches() {
                    if done {
                        self.state = CodeState::Success;
                    }
                    CodeOut { focus: FocusChange::Keep, feedback: Some(true) }
                } else {
                    if done {
                        self.state = CodeState::Acting;
                        self.input.clear();
                    }
                    CodeOut { focus: FocusChange::Keep, feedback: Some(false) }
                }
            }
            CodeState::Success => {
                CodeOut { focus: FocusChange::Release, feedback: None }
            }
        }
    }

    /// Whether the four captured digits spell the secret.
    fn input_matches(&self) -> (r: bool)
        requires
            self.wf(),
            self.input@.len() == CODE_LEN,
        ensures
            r == (input_value(self.input@) == self.secret),
    {
        let v: u32 = self.input[0] as u32 * 1000 + self.input[1] as u32 * 100 + self.input[2] as u32
            * 10 + self.input[3] as u32;
        v == self.secret
    }
}

/// A solved lock stays solved: `Success` is terminal for every input, and
/// with it `activated()` never flips back.
pub proof fn lemma_success_terminal(
    m: CodeModel,
    inside: bool,
    action: bool,
    mouse: bool,
    hovered: Option<u8>,
    delta_ms: u64,
)
    ensures
        m.state == CodeState::Success ==> code_ticked(
            m,
            inside,
            action,
            mouse,
            hovered,
            delta_ms,
        ).0.state == CodeState::Success,
{
}

/// The fixed seven-segment mask of a digit; bit `k` shows segment `k` of the
/// digit slot.
pub open spec fn spec_segment_mask(digit: u8) -> u8 {
    match digit {
        0u8 => 0x77u8,
        1u8 => 0x24u8,
        2u8 => 0x5du8,
        3u8 => 0x6du8,
        4u8 => 0x2eu8,
        5u8 => 0x6bu8,
        6u8 => 0x7bu8,
        7u8 => 0x25u8,
        8u8 => 0x7fu8,
        9u8 => 0x6fu8,
        _ => 0u8,
    }
}

/// The mask a digit slot shows: its digit's mask, or all-hidden for an empty
/// slot.
pub fn segment_mask(slot: Option<u8>) -> (r: u8)
    ensures
        r == match slot {
            Some(d) => spec_segment_mask(d),
            None => 0u8,
        },
{
    match slot {
        Some(0u8) => 0x77,
        Some(1u8) => 0x24,
        Some(2u8) => 0x5d,
        Some(3u8) => 0x6d,
        Some(4u8) => 0x2e,
        Some(5u8) => 0x6b,
        Some(6u8) => 0x7b,
        Some(7u8) => 0x25,
        Some(8u8) => 0x7f,
        Some(9u8) => 0x6f,
        _ => 0,
    }
}

impl Code {
    /// The four slot masks the display shows for the current input.
    pub fn display_masks(&self) -> (r: Vec<u8>)
        requires
            self.wf(),
        ensures
            r@.len() == CODE_LEN,
            forall|i: int|
                0 <= i < CODE_LEN ==> r@[i] == if i < self.input@.len() {
                    spec_segment_mask(self.input@[i])
                } else {
                    0u8
                },
    {
        let mut masks: Vec<u8> = Vec::new();
        let mut i: usize = 0;
        while i < CODE_LEN
            invariant
                i <= CODE_LEN,
                self.wf(),
                masks@.len() == i,
                forall|j: int|
                    0 <= j < i ==> masks@[j] == if j < self.input@.len() {
                        spec_segment_mask(self.input@[j])
                    } else {
                        0u8
                    },
            decreases CODE_LEN - i,
        {
            if i < self.input.len() {
                masks.push(segment_mask(Some(self.input[i])));
            } else {
                masks.push(segment_mask(None));
            }
            i = i + 1;
        }
        masks
    }
}

} // verus!
