//! The event decoder: a total mapping from one raw polled event record to
//! a safe tagged variant. Compound boolean-pair fields go through explicit
//! lookup tables, scalar fields are copied verbatim, and every raw value
//! outside the tables — including a discriminant with no recognized
//! handler — degrades to an `Unknown` variant, never to a failure.

use vstd::prelude::*;

use crate::native::KeySym;
use crate::native::SDL_ACTIVEEVENT;
use crate::native::SDL_APPACTIVE;
use crate::native::SDL_APPINPUTFOCUS;
use crate::native::SDL_APPMOUSEFOCUS;
use crate::native::SDL_ActiveEvent;
use crate::native::SDL_BUTTON_LEFT;
use crate::native::SDL_BUTTON_MIDDLE;
use crate::native::SDL_BUTTON_RIGHT;
use crate::native::SDL_BUTTON_WHEELDOWN;
use crate::native::SDL_BUTTON_WHEELUP;
use crate::native::SDL_BUTTON_X1;
use crate::native::SDL_BUTTON_X2;
use crate::native::SDL_Event;
use crate::native::SDL_ExposeEvent;
use crate::native::SDL_INIT_EVENTTHREAD;
use crate::native::SDL_JOYAXISMOTION;
use crate::native::SDL_JOYBALLMOTION;
use crate::native::SDL_JOYBUTTONDOWN;
use crate::native::SDL_JOYBUTTONUP;
use crate::native::SDL_JOYHATMOTION;
use crate::native::SDL_JoyAxisEvent;
use crate::native::SDL_JoyBallEvent;
use crate::native::SDL_JoyButtonEvent;
use crate::native::SDL_JoyHatEvent;
use crate::native::SDL_KEYDOWN;
use crate::native::SDL_KEYUP;
use crate::native::SDL_KeyboardEvent;
use crate::native::SDL_MOUSEBUTTONDOWN;
use crate::native::SDL_MOUSEBUTTONUP;
use crate::native::SDL_MOUSEMOTION;
use crate::native::SDL_MouseButtonEvent;
use crate::native::SDL_MouseMotionEvent;
use crate::native::SDL_PRESSED;
use crate::native::SDL_QUIT;
use crate::native::SDL_RELEASED;
use crate::native::SDL_ResizeEvent;
use crate::native::SDL_VIDEOEXPOSE;
use crate::native::SDL_VIDEORESIZE;
use crate::sdl::Error;
use crate::sdl::SDL;

verus! {

/// One decoded event.
#[derive(PartialEq, Eq, Debug)]
pub enum Event<UserEvent = ()> {
    Active(ActiveEvent),
    Keyboard(KeyboardEvent),
    MouseMotion(MouseMotionEvent),
    MouseButton(MouseButtonEvent),
    JoyAxis(JoyAxisEvent),
    JoyButton(JoyButtonEvent),
    JoyHat(JoyHatEvent),
    JoyBall(JoyBallEvent),
    Resize(ResizeEvent),
    Expose,
    Quit,
    User(UserEvent),
    Unknown,
}

/// Application activity, decoded from a `(focus kind, gain)` pair by an
/// explicit lookup table.
#[derive(Clone, Copy, PartialEq, Eq, Structural, Debug)]
pub enum ActiveEvent {
    MouseEnter,
    MouseLeave,
    AppFocused,
    AppUnfocused,
    Minimized,
    Restored,
    Unknown,
}

/// The lookup table for the `(focus kind, gain)` pair of an activity
/// record; any pair outside the table degrades to `Unknown`.
pub open spec fn spec_active_event(raw: SDL_ActiveEvent) -> ActiveEvent {
    if raw.state == SDL_APPMOUSEFOCUS && raw.gain == 0 {
        ActiveEvent::MouseLeave
    } else if raw.state == SDL_APPMOUSEFOCUS && raw.gain == 1 {
        ActiveEvent::MouseEnter
    } else if raw.state == SDL_APPINPUTFOCUS && raw.gain == 0 {
        ActiveEvent::AppUnfocused
    } else if raw.state == SDL_APPINPUTFOCUS && raw.gain == 1 {
        ActiveEvent::AppFocused
    } else if raw.state == SDL_APPACTIVE && raw.gain == 0 {
        ActiveEvent::Minimized
    } else if raw.state == SDL_APPACTIVE && raw.gain == 1 {
        ActiveEvent::Restored
    } else {
        ActiveEvent::Unknown
    }
}

impl core::convert::From<SDL_ActiveEvent> for ActiveEvent {
    fn from(value: SDL_ActiveEvent) -> (r: Self) {
        if value.state == SDL_APPMOUSEFOCUS && value.gain == 0 {
            ActiveEvent::MouseLeave
        } else if value.state == SDL_APPMOUSEFOCUS && value.gain == 1 {
            ActiveEvent::MouseEnter
        } else if value.state == SDL_APPINPUTFOCUS && value.gain == 0 {
            ActiveEvent::AppUnfocused
        } else if value.state == SDL_APPINPUTFOCUS && value.gain == 1 {
            ActiveEvent::AppFocused
        } else if value.state == SDL_APPACTIVE && value.gain == 0 {
            ActiveEvent::Minimized
        } else if value.state == SDL_APPACTIVE && value.gain == 1 {
            ActiveEvent::Restored
        } else {
            ActiveEvent::Unknown
        }
    }
}

impl vstd::std_specs::convert::FromSpecImpl<SDL_ActiveEvent> for ActiveEvent {
    open spec fn obeys_from_spec() -> bool {
        true
    }

    open spec fn from_spec(value: SDL_ActiveEvent) -> Self {
        spec_active_event(value)
    }
}

/// A key press or release; any other raw state degrades to `Unknown`.
#[derive(Clone, Copy, PartialEq, Eq, Structural, Debug)]
pub enum KeyboardEvent {
    KeyUp(KeySym),
    KeyDown(KeySym),
    Unknown,
}

/// The pressed/released mapping for a keyboard record.
pub open spec fn spec_keyboard_event(raw: SDL_KeyboardEvent) -> KeyboardEvent {
    if raw.state == SDL_RELEASED {
        KeyboardEvent::KeyUp(raw.keysym)
    } else if raw.state == SDL_PRESSED {
        KeyboardEvent::KeyDown(raw.keysym)
    } else {
        KeyboardEvent::Unknown
    }
}

impl core::convert::From<SDL_KeyboardEvent> for KeyboardEvent {
    fn from(value: SDL_KeyboardEvent) -> (r: Self) {
        if value.state == SDL_RELEASED {
            KeyboardEvent::KeyUp(value.keysym)
        } else if value.state == SDL_PRESSED {
            KeyboardEvent::KeyDown(value.keysym)
        } else {
            KeyboardEvent::Unknown
        }
    }
}

impl vstd::std_specs::convert::FromSpecImpl<SDL_KeyboardEvent> for KeyboardEvent {
    open spec fn obeys_from_spec() -> bool {
        true
    }

    open spec fn from_spec(value: SDL_KeyboardEvent) -> Self {
        spec_keyboard_event(value)
    }
}

/// A mouse movement: position and deltas copied verbatim.
#[derive(Clone, Copy, PartialEq, Eq, Structural, Debug)]
pub struct MouseMotionEvent {
    pub x: u16,
    pub y: u16,
    pub xrel: i16,
    pub yrel: i16,
}

/// The verbatim field copy for a mouse motion record.
pub open spec fn spec_mouse_motion_event(raw: SDL_MouseMotionEvent) -> MouseMotionEvent {
    MouseMotionEvent { x: raw.x, y: raw.y, xrel: raw.xrel, yrel: raw.yrel }
}

impl core::convert::From<SDL_MouseMotionEvent> for MouseMotionEvent {
    fn from(value: SDL_MouseMotionEvent) -> (r: Self) {
        MouseMotionEvent { x: value.x, y: value.y, xrel: value.xrel, yrel: value.yrel }
    }
}

impl vstd::std_specs::convert::FromSpecImpl<SDL_MouseMotionEvent> for MouseMotionEvent {
    open spec fn obeys_from_spec() -> bool {
        true
    }

    open spec fn from_spec(value: SDL_MouseMotionEvent) -> Self {
        spec_mouse_motion_event(value)
    }
}

/// Whether a key or button is pressed or released.
#[derive(Clone, Copy, PartialEq, Eq, Structural, Debug)]
pub enum ButtonState {
    Pressed,
    Released,
}

/// A mouse button; an index outside the known set is carried verbatim.
#[derive(Clone, Copy, PartialEq, Eq, Structural, Debug)]
pub enum Button {
    Left,
    Middle,
    Right,
    WheelUp,
    WheelDown,
    X1,
    X2,
    Other(u8),
}

/// The total mapping from a raw button index.
pub open spec fn spec_button(value: u8) -> Button {
    if value == SDL_BUTTON_LEFT {
        Button::Left
    } else if value == SDL_BUTTON_MIDDLE {
        Button::Middle
    } else if value == SDL_BUTTON_RIGHT {
        Button::Right
    } else if value == SDL_BUTTON_WHEELUP {
        Button::WheelUp
    } else if value == SDL_BUTTON_WHEELDOWN {
        Button::WheelDown
    } else if value == SDL_BUTTON_X1 {
        Button::X1
    } else if value == SDL_BUTTON_X2 {
        Button::X2
    } else {
        Button::Other(value)
    }
}

impl core::convert::From<u8> for Button {
    fn from(value: u8) -> (r: Self) {
        if value == SDL_BUTTON_LEFT {
            Button::Left
        } else if value == SDL_BUTTON_MIDDLE {
            Button::Middle
        } else if value == SDL_BUTTON_RIGHT {
            Button::Right
        } else if value == SDL_BUTTON_WHEELUP {
            Button::WheelUp
        } else if value == SDL_BUTTON_WHEELDOWN {
            Button::WheelDown
        } else if value == SDL_BUTTON_X1 {
            Button::X1
        } else if value == SDL_BUTTON_X2 {
            Button::X2
        } else {
            Button::Other(value)
        }
    }
}

impl vstd::std_specs::convert::FromSpecImpl<u8> for Button {
    open spec fn obeys_from_spec() -> bool {
        true
    }

    open spec fn from_spec(value: u8) -> Self {
        spec_button(value)
    }
}

/// A mouse button press or release at a position.
#[derive(Clone, Copy, PartialEq, Eq, Structural, Debug)]
pub struct MouseButtonEvent {
    pub button: Button,
    pub pressed: bool,
    pub x: u16,
    pub y: u16,
}

/// The decoding of a mouse button record: the index goes through the
/// button table, the state collapses to a pressed flag, the position is
/// copied verbatim.
pub open spec fn spec_mouse_button_event(raw: SDL_MouseButtonEvent) -> MouseButtonEvent {
    MouseButtonEvent {
        button: spec_button(raw.button),
        pressed: raw.state == SDL_PRESSED,
        x: raw.x,
        y: raw.y,
    }
}

impl core::convert::From<SDL_MouseButtonEvent> for MouseButtonEvent {
    fn from(value: SDL_MouseButtonEvent) -> (r: Self) {
        MouseButtonEvent {
            button: Button::from(value.button),
            pressed: value.state == SDL_PRESSED,
            x: value.x,
            y: value.y,
        }
    }
}

impl vstd::std_specs::convert::FromSpecImpl<SDL_MouseButtonEvent> for MouseButtonEvent {
    open spec fn obeys_from_spec() -> bool {
        true
    }

    open spec fn from_spec(value: SDL_MouseButtonEvent) -> Self {
        spec_mouse_button_event(value)
    }
}

/// A joystick axis movement.
#[derive(Clone, Copy, PartialEq, Eq, Structural, Debug)]
pub struct JoyAxisEvent {
    pub device: u8,
    pub axis: u8,
    pub value: i16,
}

/// The verbatim field copy for a joystick axis record.
pub open spec fn spec_joy_axis_event(raw: SDL_JoyAxisEvent) -> JoyAxisEvent {
    JoyAxisEvent { device: raw.which, axis: raw.axis, value: raw.value }
}

impl core::convert::From<SDL_JoyAxisEvent> for JoyAxisEvent {
    fn from(value: SDL_JoyAxisEvent) -> (r: Self) {
        JoyAxisEvent { device: value.which, axis: value.axis, value: value.value }
    }
}

impl vstd::std_specs::convert::FromSpecImpl<SDL_JoyAxisEvent> for JoyAxisEvent {
    open spec fn obeys_from_spec() -> bool {
        true
    }

    open spec fn from_spec(value: SDL_JoyAxisEvent) -> Self {
        spec_joy_axis_event(value)
    }
}

/// A joystick button press or release.
#[derive(Clone, Copy, PartialEq, Eq, Structural, Debug)]
pub struct JoyButtonEvent {
    pub device: u8,
    pub button: u8,
    pub pressed: bool,
}

/// The decoding of a joystick button record.
pub open spec fn spec_joy_button_event(raw: SDL_JoyButtonEvent) -> JoyButtonEvent {
    JoyButtonEvent { device: raw.which, button: raw.button, pressed: raw.state == SDL_PRESSED }
}

impl core::convert::From<SDL_JoyButtonEvent> for JoyButtonEvent {
    fn from(value: SDL_JoyButtonEvent) -> (r: Self) {
        JoyButtonEvent {
            device: value.which,
            button: value.button,
            pressed: value.state == SDL_PRESSED,
        }
    }
}

impl vstd::std_specs::convert::FromSpecImpl<SDL_JoyButtonEvent> for JoyButtonEvent {
    open spec fn obeys_from_spec() -> bool {
        true
    }

    open spec fn from_spec(value: SDL_JoyButtonEvent) -> Self {
        spec_joy_button_event(value)
    }
}

/// A joystick hat movement.
#[derive(Clone, Copy, PartialEq, Eq, Structural, Debug)]
pub struct JoyHatEvent {
    pub device: u8,
    pub hat: u8,
    pub value: u8,
}

/// The verbatim field copy for a joystick hat record.
pub open spec fn spec_joy_hat_event(raw: SDL_JoyHatEvent) -> JoyHatEvent {
    JoyHatEvent { device: raw.which, hat: raw.hat, value: raw.value }
}

impl core::convert::From<SDL_JoyHatEvent> for JoyHatEvent {
    fn from(value: SDL_JoyHatEvent) -> (r: Self) {
        JoyHatEvent { device: value.which, hat: value.hat, value: value.value }
    }
}

impl vstd::std_specs::convert::FromSpecImpl<SDL_JoyHatEvent> for JoyHatEvent {
    open spec fn obeys_from_spec() -> bool {
        true
    }

    open spec fn from_spec(value: SDL_JoyHatEvent) -> Self {
        spec_joy_hat_event(value)
    }
}

/// A joystick trackball movement.
#[derive(Clone, Copy, PartialEq, Eq, Structural, Debug)]
pub struct JoyBallEvent {
    pub device: u8,
    pub ball: u8,
    pub xrel: i16,
    pub yrel: i16,
}

/// The verbatim field copy for a joystick trackball record.
pub open spec fn spec_joy_ball_event(raw: SDL_JoyBallEvent) -> JoyBallEvent {
    JoyBallEvent { device: raw.which, ball: raw.ball, xrel: raw.xrel, yrel: raw.yrel }
}

impl core::convert::From<SDL_JoyBallEvent> for JoyBallEvent {
    fn from(value: SDL_JoyBallEvent) -> (r: Self) {
        JoyBallEvent { device: value.which, ball: value.ball, xrel: value.xrel, yrel: value.yrel }
    }
}

impl vstd::std_specs::convert::FromSpecImpl<SDL_JoyBallEvent> for JoyBallEvent {
    open spec fn obeys_from_spec() -> bool {
        true
    }

    open spec fn from_spec(value: SDL_JoyBallEvent) -> Self {
        spec_joy_ball_event(value)
    }
}

/// A window resize.
#[derive(Clone, Copy, PartialEq, Eq, Structural, Debug)]
pub struct ResizeEvent {
    pub w: i32,
    pub h: i32,
}

/// The verbatim field copy for a resize record.
pub open spec fn spec_resize_event(raw: SDL_ResizeEvent) -> ResizeEvent {
    ResizeEvent { w: raw.w, h: raw.h }
}

impl core::convert::From<SDL_ResizeEvent> for ResizeEvent {
    fn from(value: SDL_ResizeEvent) -> (r: Self) {
        ResizeEvent { w: value.w, h: value.h }
    }
}

impl vstd::std_specs::convert::FromSpecImpl<SDL_ResizeEvent> for ResizeEvent {
    open spec fn obeys_from_spec() -> bool {
        true
    }

    open spec fn from_spec(value: SDL_ResizeEvent) -> Self {
        spec_resize_event(value)
    }
}

impl<T> core::convert::From<SDL_ExposeEvent> for Event<T> {
    fn from(value: SDL_ExposeEvent) -> (r: Self) {
        Event::Expose
    }
}

impl<T> vstd::std_specs::convert::FromSpecImpl<SDL_ExposeEvent> for Event<T> {
    open spec fn obeys_from_spec() -> bool {
        true
    }

    open spec fn from_spec(value: SDL_ExposeEvent) -> Self {
        Event::Expose
    }
}

impl<T> core::convert::From<ActiveEvent> for Event<T> {
    fn from(value: ActiveEvent) -> (r: Self) {
        Event::Active(value)
    }
}

impl<T> vstd::std_specs::convert::FromSpecImpl<ActiveEvent> for Event<T> {
    open spec fn obeys_from_spec() -> bool {
        true
    }

    open spec fn from_spec(value: ActiveEvent) -> Self {
        Event::Active(value)
    }
}

impl<T> core::convert::From<KeyboardEvent> for Event<T> {
    fn from(value: KeyboardEvent) -> (r: Self) {
        Event::Keyboard(value)
    }
}

impl<T> vstd::std_specs::convert::FromSpecImpl<KeyboardEvent> for Event<T> {
    open spec fn obeys_from_spec() -> bool {
        true
    }

    open spec fn from_spec(value: KeyboardEvent) -> Self {
        Event::Keyboard(value)
    }
}

impl<T> core::convert::From<MouseMotionEvent> for Event<T> {
    fn from(value: MouseMotionEvent) -> (r: Self) {
        Event::MouseMotion(value)
    }
}

impl<T> vstd::std_specs::convert::FromSpecImpl<MouseMotionEvent> for Event<T> {
    open spec fn obeys_from_spec() -> bool {
        true
    }

    open spec fn from_spec(value: MouseMotionEvent) -> Self {
        Event::MouseMotion(value)
    }
}

impl<T> core::convert::From<MouseButtonEvent> for Event<T> {
    fn from(value: MouseButtonEvent) -> (r: Self) {
        Event::MouseButton(value)
    }
}

impl<T> vstd::std_specs::convert::FromSpecImpl<MouseButtonEvent> for Event<T> {
    open spec fn obeys_from_spec() -> bool {
        true
    }

    open spec fn from_spec(value: MouseButtonEvent) -> Self {
        Event::MouseButton(value)
    }
}

impl<T> core::convert::From<JoyAxisEvent> for Event<T> {
    fn from(value: JoyAxisEvent) -> (r: Self) {
        Event::JoyAxis(value)
    }
}

impl<T> vstd::std_specs::convert::FromSpecImpl<JoyAxisEvent> for Event<T> {
    open spec fn obeys_from_spec() -> bool {
        true
    }

    open spec fn from_spec(value: JoyAxisEvent) -> Self {
        Event::JoyAxis(value)
    }
}

impl<T> core::convert::From<JoyButtonEvent> for Event<T> {
    fn from(value: JoyButtonEvent) -> (r: Self) {
        Event::JoyButton(value)
    }
}

impl<T> vstd::std_specs::convert::FromSpecImpl<JoyButtonEvent> for Event<T> {
    open spec fn obeys_from_spec() -> bool {
        true
    }

    open spec fn from_spec(value: JoyButtonEvent) -> Self {
        Event::JoyButton(value)
    }
}

impl<T> core::convert::From<JoyHatEvent> for Event<T> {
    fn from(value: JoyHatEvent) -> (r: Self) {
        Event::JoyHat(value)
    }
}

impl<T> vstd::std_specs::convert::FromSpecImpl<JoyHatEvent> for Event<T> {
    open spec fn obeys_from_spec() -> bool {
        true
    }

    open spec fn from_spec(value: JoyHatEvent) -> Self {
        Event::JoyHat(value)
    }
}

impl<T> core::convert::From<JoyBallEvent> for Event<T> {
    fn from(value: JoyBallEvent) -> (r: Self) {
        Event::JoyBall(value)
    }
}

impl<T> vstd::std_specs::convert::FromSpecImpl<JoyBallEvent> for Event<T> {
    open spec fn obeys_from_spec() -> bool {
        true
    }

    open spec fn from_spec(value: JoyBallEvent) -> Self {
        Event::JoyBall(value)
    }
}

impl<T> core::convert::From<ResizeEvent> for Event<T> {
    fn from(value: ResizeEvent) -> (r: Self) {
        Event::Resize(value)
    }
}

impl<T> vstd::std_specs::convert::FromSpecImpl<ResizeEvent> for Event<T> {
    open spec fn obeys_from_spec() -> bool {
        true
    }

    open spec fn from_spec(value: ResizeEvent) -> Self {
        Event::Resize(value)
    }
}

/// Whether the decoder has a payload-bearing or unit handler for a
/// discriminant.
pub open spec fn spec_recognized(kind: u8) -> bool {
    ||| kind == SDL_ACTIVEEVENT
    ||| kind == SDL_KEYDOWN
    ||| kind == SDL_KEYUP
    ||| kind == SDL_MOUSEMOTION
    ||| kind == SDL_MOUSEBUTTONDOWN
    ||| kind == SDL_MOUSEBUTTONUP
    ||| kind == SDL_JOYAXISMOTION
    ||| kind == SDL_JOYBALLMOTION
    ||| kind == SDL_JOYHATMOTION
    ||| kind == SDL_JOYBUTTONDOWN
    ||| kind == SDL_JOYBUTTONUP
    ||| kind == SDL_QUIT
    ||| kind == SDL_VIDEORESIZE
    ||| kind == SDL_VIDEOEXPOSE
}

impl<UserEvent> Event<UserEvent> {
    /// What the decoder returns for one raw record: the discriminant
    /// selects the payload member that is interpreted; every discriminant
    /// outside the table yields `Unknown`.
    pub open spec fn spec_decode(raw: SDL_Event) -> Event<UserEvent> {
        if raw.kind == SDL_ACTIVEEVENT {
            Event::Active(spec_active_event(raw.active))
        } else if raw.kind == SDL_KEYDOWN || raw.kind == SDL_KEYUP {
            Event::Keyboard(spec_keyboard_event(raw.key))
        } else if raw.kind == SDL_MOUSEMOTION {
            Event::MouseMotion(spec_mouse_motion_event(raw.motion))
        } else if raw.kind == SDL_MOUSEBUTTONDOWN || raw.kind == SDL_MOUSEBUTTONUP {
            Event::MouseButton(spec_mouse_button_event(raw.button))
        } else if raw.kind == SDL_JOYAXISMOTION {
            Event::JoyAxis(spec_joy_axis_event(raw.jaxis))
        } else if raw.kind == SDL_JOYBALLMOTION {
            Event::JoyBall(spec_joy_ball_event(raw.jball))
        } else if raw.kind == SDL_JOYHATMOTION {
            Event::JoyHat(spec_joy_hat_event(raw.jhat))
        } else if raw.kind == SDL_JOYBUTTONDOWN || raw.kind == SDL_JOYBUTTONUP {
            Event::JoyButton(spec_joy_button_event(raw.jbutton))
        } else if raw.kind == SDL_QUIT {
            Event::Quit
        } else if raw.kind == SDL_VIDEORESIZE {
            Event::Resize(spec_resize_event(raw.resize))
        } else if raw.kind == SDL_VIDEOEXPOSE {
            Event::Expose
        } else {
            Event::Unknown
        }
    }

    /// Decodes one raw polled record; total over all discriminant values.
    pub fn decode(raw: &SDL_Event) -> (e: Event<UserEvent>)
        ensures
            e == Event::<UserEvent>::spec_decode(*raw),
    {
        if raw.kind == SDL_ACTIVEEVENT {
            Event::Active(ActiveEvent::from(raw.active))
        } else if raw.kind == SDL_KEYDOWN || raw.kind == SDL_KEYUP {
            Event::Keyboard(KeyboardEvent::from(raw.key))
        } else if raw.kind == SDL_MOUSEMOTION {
            Event::MouseMotion(MouseMotionEvent::from(raw.motion))
        } else if raw.kind == SDL_MOUSEBUTTONDOWN || raw.kind == SDL_MOUSEBUTTONUP {
            Event::MouseButton(MouseButtonEvent::from(raw.button))
        } else if raw.kind == SDL_JOYAXISMOTION {
            Event::JoyAxis(JoyAxisEvent::from(raw.jaxis))
        } else if raw.kind == SDL_JOYBALLMOTION {
            Event::JoyBall(JoyBallEvent::from(raw.jball))
        } else if raw.kind == SDL_JOYHATMOTION {
            Event::JoyHat(JoyHatEvent::from(raw.jhat))
        } else if raw.kind == SDL_JOYBUTTONDOWN || raw.kind == SDL_JOYBUTTONUP {
            Event::JoyButton(JoyButtonEvent::from(raw.jbutton))
        } else if raw.kind == SDL_QUIT {
            Event::Quit
        } else if raw.kind == SDL_VIDEORESIZE {
            Event::Resize(ResizeEvent::from(raw.resize))
        } else if raw.kind == SDL_VIDEOEXPOSE {
            Event::Expose
        } else {
            Event::Unknown
        }
    }
}

/// A discriminant with no recognized handler always decodes to `Unknown`,
/// whatever the payload bytes hold.
pub proof fn lemma_unrecognized_decodes_to_unknown(raw: SDL_Event)
    requires
        !spec_recognized(raw.kind),
    ensures
        Event::<()>::spec_decode(raw) == Event::<()>::Unknown,
{
}

/// Guard for the event-thread subsystem: it exists only while that
/// subsystem is initialized, borrows the root context for its whole
/// lifetime, and is consumed exactly once by [`Subsystem::release`].
#[derive(Debug)]
pub struct Subsystem<'sdl> {
    _root: &'sdl SDL,
}

impl<'sdl> Subsystem<'sdl> {
    /// Interprets the status of the event-thread subsystem init call:
    /// status `0` yields a guard borrowing `sdl_context`, any other status
    /// yields exactly the reported error.
    pub fn new(sdl_context: &'sdl SDL, status: i32, error: Error) -> (r: Result<
        Subsystem<'sdl>,
        Error,
    >)
        ensures
            status == 0 <==> r is Ok,
            status != 0 ==> r == Err::<Subsystem<'sdl>, Error>(error),
    {
        if status != 0 {
            Err(error)
        } else {
            Ok(Subsystem { _root: sdl_context })
        }
    }

    /// Consumes the guard and returns the subsystem mask that the matching
    /// subsystem-quit call must receive. Taking `self` by value makes the
    /// release possible at most once per guard.
    pub fn release(self) -> (mask: u32)
        ensures
            mask == SDL_INIT_EVENTTHREAD,
    {
        SDL_INIT_EVENTTHREAD
    }
}

} // verus!
