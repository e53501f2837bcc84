//! Input driver PD: counts keyboard, mouse and touchpad events, one channel each.
use vstd::prelude::*;

verus! {

pub const CH_KEYBOARD: u8 = 1;
pub const CH_MOUSE: u8 = 2;
pub const CH_TOUCHPAD: u8 = 3;

/// Events seen per device.
pub struct InputDriver {
    pub keyboard_events: u64,
    pub mouse_events: u64,
    pub touchpad_events: u64,
}

/// What the driver logs when it starts.
pub open spec fn input_init_log() -> Seq<&'static str> {
    seq![
        "Input Driver PD: initializing\n",
        "Input: keyboard channel registered\n",
        "Input: mouse channel registered\n",
        "Input: touchpad channel registered\n",
        "Input: S4+i isolation enforced — crash cannot escape PD\n",
        "Input Driver PD: READY\n",
    ]
}

/// The driver and log after a notification on `channel`.
pub open spec fn input_step(s: InputDriver, channel: u8) -> (InputDriver, Seq<&'static str>) {
    if channel == CH_KEYBOARD {
        (InputDriver { keyboard_events: (s.keyboard_events + 1) as u64, ..s }, seq!["Input: keyboard event\n"])
    } else if channel == CH_MOUSE {
        (InputDriver { mouse_events: (s.mouse_events + 1) as u64, ..s }, seq!["Input: mouse event\n"])
    } else if channel == CH_TOUCHPAD {
        (InputDriver { touchpad_events: (s.touchpad_events + 1) as u64, ..s }, seq!["Input: touchpad event\n"])
    } else {
        (s, seq!["Input: unknown channel — ignored\n"])
    }
}

impl InputDriver {
    pub fn new() -> (s: Self)
        ensures
            s.keyboard_events == 0 && s.mouse_events == 0 && s.touchpad_events == 0,
    {
        InputDriver { keyboard_events: 0, mouse_events: 0, touchpad_events: 0 }
    }

    /// Start-up: the lines logged.
    pub fn init() -> (log: Vec<&'static str>)
        ensures
            log@ == input_init_log(),
    {
        let mut log: Vec<&'static str> = Vec::new();
        log.push("Input Driver PD: initializing\n");
        log.push("Input: keyboard channel registered\n");
        log.push("Input: mouse channel registered\n");
        log.push("Input: touchpad channel registered\n");
        log.push("Input: S4+i isolation enforced — crash cannot escape PD\n");
        log.push("Input Driver PD: READY\n");
        assert(log@ =~= input_init_log());
        log
    }

    /// An event on `channel`: counted for its device and logged; an unknown
    /// channel is logged and ignored.
    pub fn notified(&mut self, channel: u8) -> (log: Vec<&'static str>)
        requires
            channel == CH_KEYBOARD ==> old(self).keyboard_events < u64::MAX,
            channel == CH_MOUSE ==> old(self).mouse_events < u64::MAX,
            channel == CH_TOUCHPAD ==> old(self).touchpad_events < u64::MAX,
        ensures
            (*final(self), log@) == input_step(*old(self), channel),
    {
        let mut log: Vec<&'static str> = Vec::new();
        if channel == CH_KEYBOARD {
            self.keyboard_events = self.keyboard_events + 1;
            log.push("Input: keyboard event\n");
        } else if channel == CH_MOUSE {
            self.mouse_events = self.mouse_events + 1;
            log.push("Input: mouse event\n");
        } else if channel == CH_TOUCHPAD {
            self.touchpad_events = self.touchpad_events + 1;
            log.push("Input: touchpad event\n");
        } else {
            log.push("Input: unknown channel — ignored\n");
        }
        assert(log@ =~= input_step(*old(self), channel).1);
        log
    }
}

} // verus!
