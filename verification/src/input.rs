//! What the window's events do to the state that the frame loop keeps: which
//! movement keys are held, whether the controls are active, and the resize
//! that waits for the next frame.
use vstd::prelude::*;

verus! {

/// The keys that the frame loop tells apart.
#[derive(Clone, Copy, Debug, PartialEq, Eq, Structural)]
pub enum Key {
    Escape,
    W,
    S,
    A,
    D,
    Q,
    E,
    Space,
    P,
    F1,
    /// Any other key.
    Other,
}

/// What happened to a key.
#[derive(Clone, Copy, Debug, PartialEq, Eq, Structural)]
pub enum Action {
    Release,
    Press,
    Repeat,
}

/// An event of the window, as far as the frame loop tells events apart.
#[derive(Clone, Copy, Debug, PartialEq, Eq, Structural)]
pub enum WindowEvent {
    /// The window was asked to close.
    Close,
    /// A key was pressed, released or repeated.
    Key(Key, Action),
    /// The cursor moved.
    CursorPos,
    /// The framebuffer of the window changed its size to this width and height.
    FramebufferSize(i32, i32),
    /// Any other event.
    Other,
}

/// What the frame loop does on an event, besides keeping its state.
#[derive(Clone, Copy, Debug, PartialEq, Eq, Structural)]
pub enum Reaction {
    /// Nothing.
    Nothing,
    /// Leave the loop at once.
    Quit,
    /// Tell that the controls are now enabled.
    ControlsEnabled,
    /// Tell that the controls are now disabled.
    ControlsDisabled,
    /// Tell the position and the look angles.
    ReportView,
    /// Put the camera at its preset position and look angles.
    ResetView,
    /// Take the look angles from the cursor's position.
    Look,
}

/// The axes of the camera that the movement keys move along.
#[derive(Clone, Copy, Debug, PartialEq, Eq, Structural)]
pub enum Axis {
    Look,
    Right,
    Up,
}

/// One step of the camera: one key speed along `axis`, forth or back.
#[derive(Clone, Copy, Debug, PartialEq, Eq, Structural)]
pub struct Step {
    pub axis: Axis,
    pub forth: bool,
}

/// The state that the frame loop keeps between events.
#[derive(Clone, Copy, Debug, PartialEq, Eq)]
pub struct Controls {
    /// Whether each of the movement keys is held.
    pub w: bool,
    pub s: bool,
    pub a: bool,
    pub d: bool,
    pub q: bool,
    pub e: bool,
    /// Whether the keys and the cursor move the camera.
    pub control_active: bool,
    /// The size of the last resize that no frame has handled yet.
    pub resize_size: Option<(i32, i32)>,
}

/// The state at the start: no key held, the controls active, no resize waiting.
pub open spec fn initial() -> Controls {
    Controls {
        w: false,
        s: false,
        a: false,
        d: false,
        q: false,
        e: false,
        control_active: true,
        resize_size: None,
    }
}

/// The state after an event.
pub open spec fn after(before: Controls, event: WindowEvent) -> Controls {
    match event {
        WindowEvent::Key(Key::W, action) => Controls { w: action != Action::Release, ..before },
        WindowEvent::Key(Key::S, action) => Controls { s: action != Action::Release, ..before },
        WindowEvent::Key(Key::A, action) => Controls { a: action != Action::Release, ..before },
        WindowEvent::Key(Key::D, action) => Controls { d: action != Action::Release, ..before },
        WindowEvent::Key(Key::Q, action) => Controls { q: action != Action::Release, ..before },
        WindowEvent::Key(Key::E, action) => Controls { e: action != Action::Release, ..before },
        WindowEvent::Key(Key::Space, Action::Press) => Controls {
            control_active: !before.control_active,
            ..before
        },
        WindowEvent::FramebufferSize(width, height) => Controls {
            resize_size: Some((width, height)),
            ..before
        },
        _ => before,
    }
}

/// What the frame loop does on an event.
pub open spec fn reaction(before: Controls, event: WindowEvent) -> Reaction {
    match event {
        WindowEvent::Close => Reaction::Quit,
        WindowEvent::Key(Key::Escape, Action::Release) => Reaction::Quit,
        WindowEvent::Key(Key::Space, Action::Press) => if before.control_active {
            Reaction::ControlsDisabled
        } else {
            Reaction::ControlsEnabled
        },
        WindowEvent::Key(Key::P, Action::Press) => Reaction::ReportView,
        WindowEvent::Key(Key::F1, Action::Press) => Reaction::ResetView,
        WindowEvent::CursorPos => if before.control_active {
            Reaction::Look
        } else {
            Reaction::Nothing
        },
        _ => Reaction::Nothing,
    }
}

/// The steps that the held keys ask for, in the order in which they are
/// taken: none while the controls are inactive.
pub open spec fn steps_of(controls: Controls) -> Seq<Step> {
    if !controls.control_active {
        Seq::empty()
    } else {
        Seq::empty() + step_if(controls.w, Axis::Look, true) + step_if(
            controls.s,
            Axis::Look,
            false,
        ) + step_if(controls.a, Axis::Right, true) + step_if(controls.d, Axis::Right, false)
            + step_if(controls.q, Axis::Up, true) + step_if(controls.e, Axis::Up, false)
    }
}

/// One step if the key is held, none if it is not.
pub open spec fn step_if(held: bool, axis: Axis, forth: bool) -> Seq<Step> {
    if held {
        seq![Step { axis, forth }]
    } else {
        Seq::empty()
    }
}

/// A signed number of 32 bits read as an unsigned one of the same bits.
pub open spec fn unsigned(value: i32) -> u32 {
    if value >= 0 {
        value as u32
    } else {
        (value + 0x1_0000_0000) as u32
    }
}

/// The size to resize to: the width and the height of the event, each read
/// as an unsigned number.
pub open spec fn resize_target(size: (i32, i32)) -> [u32; 2] {
    [unsigned(size.0), unsigned(size.1)]
}

/// Reads a signed number of 32 bits as an unsigned one of the same bits.
pub fn to_unsigned(value: i32) -> (read: u32)
    ensures
        read == unsigned(value),
{
    let read: u32 = #[verifier::truncate]
    (value as u32);
    assert(read == if value >= 0i32 {
        value as u32
    } else {
        (value + 0x1_0000_0000) as u32
    }) by (bit_vector)
        requires
            read == value as u32,
    ;
    read
}

/// Adds one step to the list if the key is held.
fn push_if(steps: &mut Vec<Step>, held: bool, axis: Axis, forth: bool)
    ensures
        final(steps)@ == old(steps)@ + step_if(held, axis, forth),
{
    if held {
        steps.push(Step { axis, forth });
    }
    assert(steps@ =~= old(steps)@ + step_if(held, axis, forth));
}

impl Controls {
    /// The state at the start of the frame loop.
    pub fn new() -> (controls: Self)
        ensures
            controls == initial(),
    {
        Controls {
            w: false,
            s: false,
            a: false,
            d: false,
            q: false,
            e: false,
            control_active: true,
            resize_size: None,
        }
    }

    /// Takes an event into the state, and says what else the frame loop does
    /// on it.
    pub fn handle(&mut self, event: WindowEvent) -> (reply: Reaction)
        ensures
            *final(self) == after(*old(self), event),
            reply == reaction(*old(self), event),
    {
        match event {
            WindowEvent::Close => Reaction::Quit,
            WindowEvent::Key(key, action) => {
                let held = match action {
                    Action::Release => false,
                    _ => true,
                };
                let pressed = match action {
                    Action::Press => true,
                    _ => false,
                };
                match key {
                    Key::Escape => match action {
                        Action::Release => Reaction::Quit,
                        _ => Reaction::Nothing,
                    },
                    Key::W => {
                        self.w = held;
                        Reaction::Nothing
                    },
                    Key::S => {
                        self.s = held;
                        Reaction::Nothing
                    },
                    Key::A => {
                        self.a = held;
                        Reaction::Nothing
                    },
                    Key::D => {
                        self.d = held;
                        Reaction::Nothing
                    },
                    Key::Q => {
                        self.q = held;
                        Reaction::Nothing
                    },
                    Key::E => {
                        self.e = held;
                        Reaction::Nothing
                    },
                    Key::Space => {
                        if pressed {
                            self.control_active = !self.control_active;
                            if self.control_active {
                                Reaction::ControlsEnabled
                            } else {
                                Reaction::ControlsDisabled
                            }
                        } else {
                            Reaction::Nothing
                        }
                    },
                    Key::P => if pressed {
                        Reaction::ReportView
                    } else {
                        Reaction::Nothing
                    },
                    Key::F1 => if pressed {
                        Reaction::ResetView
                    } else {
                        Reaction::Nothing
                    },
                    Key::Other => Reaction::Nothing,
                }
            },
            WindowEvent::CursorPos => if self.control_active {
                Reaction::Look
            } else {
                Reaction::Nothing
            },
            WindowEvent::FramebufferSize(width, height) => {
                self.resize_size = Some((width, height));
                Reaction::Nothing
            },
            WindowEvent::Other => Reaction::Nothing,
        }
    }

    /// Lists the steps that the held keys ask for in this frame, in the order
    /// in which they are taken.
    pub fn steps(&self) -> (steps: Vec<Step>)
        ensures
            steps@ == steps_of(*self),
    {
        let mut steps: Vec<Step> = Vec::new();
        if self.control_active {
            push_if(&mut steps, self.w, Axis::Look, true);
            push_if(&mut steps, self.s, Axis::Look, false);
            push_if(&mut steps, self.a, Axis::Right, true);
            push_if(&mut steps, self.d, Axis::Right, false);
            push_if(&mut steps, self.q, Axis::Up, true);
            push_if(&mut steps, self.e, Axis::Up, false);
        }
        steps
    }

    /// Takes the resize that waits, if there is one: the size to resize to,
    /// and no resize waits after it.
    pub fn take_resize(&mut self) -> (size: Option<[u32; 2]>)
        ensures
            *final(self) == (Controls { resize_size: None, ..*old(self) }),
            match old(self).resize_size {
                Some(waiting) => size == Some(resize_target(waiting)),
                None => size is None,
            },
    {
        match self.resize_size {
            Some((width, height)) => {
                self.resize_size = None;
                let target: [u32; 2] = [to_unsigned(width), to_unsigned(height)];
                assert(target =~= resize_target((width, height)));
                Some(target)
            },
            None => None,
        }
    }
}

} // verus!
