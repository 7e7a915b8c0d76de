use vstd::prelude::*;

verus! {

/// The eight buttons of the joypad.
#[derive(Clone, Copy, PartialEq, Eq, Structural, Debug, Hash)]
pub enum JoypadInput {
    InputKeyUp,
    InputKeyDown,
    InputKeyLeft,
    InputKeyRight,
    InputKeyStart,
    InputKeySelect,
    InputKeyA,
    InputKeyB,
}

/// What a host event asks the console to do.
#[derive(Clone, Copy, PartialEq, Eq, Structural, Debug)]
pub enum Callback {
    DebugBreak,
    DebugPeek,
    DebugPrintScreen,
    Exit,
    InputKeyUp,
    InputKeyDown,
    InputKeyLeft,
    InputKeyRight,
    InputKeyStart,
    InputKeySelect,
    InputKeyA,
    InputKeyB,
}

/// The set of buttons held down, one flag per button.
#[derive(Clone, Copy, PartialEq, Eq, Structural, Debug)]
pub struct JoypadButtons {
    pub up: bool,
    pub down: bool,
    pub left: bool,
    pub right: bool,
    pub start: bool,
    pub select: bool,
    pub a: bool,
    pub b: bool,
}

impl JoypadButtons {
    /// Whether a button is in the set.
    pub open spec fn holds(self, key: JoypadInput) -> bool {
        match key {
            JoypadInput::InputKeyUp => self.up,
            JoypadInput::InputKeyDown => self.down,
            JoypadInput::InputKeyLeft => self.left,
            JoypadInput::InputKeyRight => self.right,
            JoypadInput::InputKeyStart => self.start,
            JoypadInput::InputKeySelect => self.select,
            JoypadInput::InputKeyA => self.a,
            JoypadInput::InputKeyB => self.b,
        }
    }

    /// The empty set.
    pub fn new() -> (r: JoypadButtons)
        ensures
            forall|k: JoypadInput| !r.holds(k),
    {
        JoypadButtons {
            up: false,
            down: false,
            left: false,
            right: false,
            start: false,
            select: false,
            a: false,
            b: false,
        }
    }

    /// Adds (`held`) or removes a button.
    pub fn set(&mut self, key: JoypadInput, held: bool)
        ensures
            final(self).holds(key) == held,
            forall|k: JoypadInput| k != key ==> final(self).holds(k) == old(self).holds(k),
    {
        match key {
            JoypadInput::InputKeyUp => self.up = held,
            JoypadInput::InputKeyDown => self.down = held,
            JoypadInput::InputKeyLeft => self.left = held,
            JoypadInput::InputKeyRight => self.right = held,
            JoypadInput::InputKeyStart => self.start = held,
            JoypadInput::InputKeySelect => self.select = held,
            JoypadInput::InputKeyA => self.a = held,
            JoypadInput::InputKeyB => self.b = held,
        }
    }
}

/// A key of the host keyboard, as far as the emulator tells keys apart.
#[derive(Clone, Copy, PartialEq, Eq, Structural, Debug)]
pub enum HostKey {
    Escape,
    B,
    P,
    O,
    Down,
    Up,
    Left,
    Right,
    Z,
    X,
    S,
    A,
    Other,
}

/// A host window event.
#[derive(Clone, Copy, PartialEq, Eq, Structural, Debug)]
pub enum HostEvent {
    Quit,
    KeyDown(HostKey),
    KeyUp(HostKey),
    Other,
}

/// The joypad button a key stands for: the arrows, A for Select, S for Start,
/// X for the A button and Z for the B button.
pub open spec fn key_button(key: HostKey) -> Option<JoypadInput> {
    match key {
        HostKey::Down => Some(JoypadInput::InputKeyDown),
        HostKey::Up => Some(JoypadInput::InputKeyUp),
        HostKey::Left => Some(JoypadInput::InputKeyLeft),
        HostKey::Right => Some(JoypadInput::InputKeyRight),
        HostKey::A => Some(JoypadInput::InputKeySelect),
        HostKey::S => Some(JoypadInput::InputKeyStart),
        HostKey::X => Some(JoypadInput::InputKeyA),
        HostKey::Z => Some(JoypadInput::InputKeyB),
        _ => None,
    }
}

/// The callback that pressing a joypad button gives.
pub open spec fn button_callback(button: JoypadInput) -> Callback {
    match button {
        JoypadInput::InputKeyUp => Callback::InputKeyUp,
        JoypadInput::InputKeyDown => Callback::InputKeyDown,
        JoypadInput::InputKeyLeft => Callback::InputKeyLeft,
        JoypadInput::InputKeyRight => Callback::InputKeyRight,
        JoypadInput::InputKeyStart => Callback::InputKeyStart,
        JoypadInput::InputKeySelect => Callback::InputKeySelect,
        JoypadInput::InputKeyA => Callback::InputKeyA,
        JoypadInput::InputKeyB => Callback::InputKeyB,
    }
}

/// What an event asks for: quitting or Escape exits; B, P and O are the
/// debugger's break, peek and screen dump; a button key pressed is reported and
/// held, released it is let go.
pub open spec fn event_callback(event: HostEvent) -> Option<Callback> {
    match event {
        HostEvent::Quit => Some(Callback::Exit),
        HostEvent::KeyDown(HostKey::Escape) => Some(Callback::Exit),
        HostEvent::KeyDown(HostKey::B) => Some(Callback::DebugBreak),
        HostEvent::KeyDown(HostKey::P) => Some(Callback::DebugPeek),
        HostEvent::KeyDown(HostKey::O) => Some(Callback::DebugPrintScreen),
        HostEvent::KeyDown(k) => match key_button(k) {
            Some(b) => Some(button_callback(b)),
            None => None,
        },
        _ => None,
    }
}

/// Applies one host event to the held buttons and returns its callback, if any.
pub fn input_event(buttons: &mut JoypadButtons, event: HostEvent) -> (r: Option<Callback>)
    ensures
        r == event_callback(event),
        forall|k: JoypadInput| #[trigger] final(buttons).holds(k) == match event {
            HostEvent::KeyDown(key) => if key_button(key) == Some(k) { true } else { old(buttons).holds(k) },
            HostEvent::KeyUp(key) => if key_button(key) == Some(k) { false } else { old(buttons).holds(k) },
            _ => old(buttons).holds(k),
        },
{
    match event {
        HostEvent::Quit => Some(Callback::Exit),
        HostEvent::KeyDown(key) => {
            match key {
                HostKey::Escape => Some(Callback::Exit),
                HostKey::B => Some(Callback::DebugBreak),
                HostKey::P => Some(Callback::DebugPeek),
                HostKey::O => Some(Callback::DebugPrintScreen),
                HostKey::Down => {
                    buttons.set(JoypadInput::InputKeyDown, true);
                    Some(Callback::InputKeyDown)
                },
                HostKey::Up => {
                    buttons.set(JoypadInput::InputKeyUp, true);
                    Some(Callback::InputKeyUp)
                },
                HostKey::Left => {
                    buttons.set(JoypadInput::InputKeyLeft, true);
                    Some(Callback::InputKeyLeft)
                },
                HostKey::Right => {
                    buttons.set(JoypadInput::InputKeyRight, true);
                    Some(Callback::InputKeyRight)
                },
                HostKey::A => {
                    buttons.set(JoypadInput::InputKeySelect, true);
                    Some(Callback::InputKeySelect)
                },
                HostKey::S => {
                    buttons.set(JoypadInput::InputKeyStart, true);
                    Some(Callback::InputKeyStart)
                },
                HostKey::X => {
                    buttons.set(JoypadInput::InputKeyA, true);
                    Some(Callback::InputKeyA)
                },
                HostKey::Z => {
                    buttons.set(JoypadInput::InputKeyB, true);
                    Some(Callback::InputKeyB)
                },
                HostKey::Other => None,
            }
        },
        HostEvent::KeyUp(key) => {
            match key {
                HostKey::Down => buttons.set(JoypadInput::InputKeyDown, false),
                HostKey::Up => buttons.set(JoypadInput::InputKeyUp, false),
                HostKey::Left => buttons.set(JoypadInput::InputKeyLeft, false),
                HostKey::Right => buttons.set(JoypadInput::InputKeyRight, false),
                HostKey::A => buttons.set(JoypadInput::InputKeySelect, false),
                HostKey::S => buttons.set(JoypadInput::InputKeyStart, false),
                HostKey::X => buttons.set(JoypadInput::InputKeyA, false),
                HostKey::Z => buttons.set(JoypadInput::InputKeyB, false),
                _ => {},
            }
            None
        },
        HostEvent::Other => None,
    }
}

/// Whether a button is held after an event: a key down presses the button it
/// stands for, a key up releases it, and other events change nothing.
pub open spec fn held_after(b: JoypadButtons, event: HostEvent, k: JoypadInput) -> bool {
    match event {
        HostEvent::KeyDown(key) => if key_button(key) == Some(k) { true } else { b.holds(k) },
        HostEvent::KeyUp(key) => if key_button(key) == Some(k) { false } else { b.holds(k) },
        _ => b.holds(k),
    }
}

/// The held buttons after an event.
pub open spec fn buttons_after(b: JoypadButtons, event: HostEvent) -> JoypadButtons {
    JoypadButtons {
        up: held_after(b, event, JoypadInput::InputKeyUp),
        down: held_after(b, event, JoypadInput::InputKeyDown),
        left: held_after(b, event, JoypadInput::InputKeyLeft),
        right: held_after(b, event, JoypadInput::InputKeyRight),
        start: held_after(b, event, JoypadInput::InputKeyStart),
        select: held_after(b, event, JoypadInput::InputKeySelect),
        a: held_after(b, event, JoypadInput::InputKeyA),
        b: held_after(b, event, JoypadInput::InputKeyB),
    }
}

/// The held buttons after a sequence of events, one after the other.
pub open spec fn buttons_after_events(b: JoypadButtons, events: Seq<HostEvent>) -> JoypadButtons
    decreases events.len(),
{
    if events.len() == 0 {
        b
    } else {
        buttons_after(buttons_after_events(b, events.drop_last()), events.last())
    }
}

/// The callbacks of a sequence of events, in order: one for each event that has one.
pub open spec fn events_callbacks(events: Seq<HostEvent>) -> Seq<Callback>
    decreases events.len(),
{
    if events.len() == 0 {
        Seq::empty()
    } else {
        let rest = events_callbacks(events.drop_last());
        match event_callback(events.last()) {
            Some(c) => rest.push(c),
            None => rest,
        }
    }
}

/// Applies host events in order to the held buttons, and returns their callbacks in order.
pub fn input_events(buttons: &mut JoypadButtons, events: &Vec<HostEvent>) -> (r: Vec<Callback>)
    ensures
        r@ == events_callbacks(events@),
        *final(buttons) == buttons_after_events(*old(buttons), events@),
{
    let mut callbacks: Vec<Callback> = Vec::new();
    let mut i: usize = 0;
    while i < events.len()
        invariant
            i <= events@.len(),
            callbacks@ == events_callbacks(events@.take(i as int)),
            *buttons == buttons_after_events(*old(buttons), events@.take(i as int)),
        decreases events@.len() - i,
    {
        let event = events[i];
        let ghost before = *buttons;
        let c = input_event(buttons, event);
        proof {
            assert(events@.take(i + 1).drop_last() =~= events@.take(i as int));
            assert(events@.take(i + 1).last() == event);
            assert(*buttons == buttons_after(before, event)) by {
                assert(buttons.holds(JoypadInput::InputKeyUp) == held_after(before, event, JoypadInput::InputKeyUp));
                assert(buttons.holds(JoypadInput::InputKeyDown) == held_after(before, event, JoypadInput::InputKeyDown));
                assert(buttons.holds(JoypadInput::InputKeyLeft) == held_after(before, event, JoypadInput::InputKeyLeft));
                assert(buttons.holds(JoypadInput::InputKeyRight) == held_after(before, event, JoypadInput::InputKeyRight));
                assert(buttons.holds(JoypadInput::InputKeyStart) == held_after(before, event, JoypadInput::InputKeyStart));
                assert(buttons.holds(JoypadInput::InputKeySelect) == held_after(before, event, JoypadInput::InputKeySelect));
                assert(buttons.holds(JoypadInput::InputKeyA) == held_after(before, event, JoypadInput::InputKeyA));
                assert(buttons.holds(JoypadInput::InputKeyB) == held_after(before, event, JoypadInput::InputKeyB));
            }
        }
        if let Some(callback) = c {
            callbacks.push(callback);
        }
        i += 1;
    }
    assert(events@.take(events@.len() as int) =~= events@);
    callbacks
}

} // verus!
