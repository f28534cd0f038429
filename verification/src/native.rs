//! Plain-value model of the native library's C ABI: the constants of its
//! wire protocol (subsystem masks, event discriminants, flag bits, error
//! codes) and the raw record layouts the event decoder reads.
//!
//! The C side hands these values across the boundary as integers and tagged
//! records; the embedding layer copies them into these types field by field,
//! so everything the verified logic reads is an ordinary scalar.

use vstd::prelude::*;

verus! {

// Subsystem initialization masks.
pub const SDL_INIT_TIMER: u32 = 0x0000_0001;
pub const SDL_INIT_AUDIO: u32 = 0x0000_0010;
pub const SDL_INIT_VIDEO: u32 = 0x0000_0020;
pub const SDL_INIT_CDROM: u32 = 0x0000_0100;
pub const SDL_INIT_JOYSTICK: u32 = 0x0000_0200;
pub const SDL_INIT_EVENTTHREAD: u32 = 0x0100_0000;

// Numeric error codes of the global error slot.
pub const SDL_ENOMEM: u32 = 0;
pub const SDL_EFREAD: u32 = 1;
pub const SDL_EFWRITE: u32 = 2;
pub const SDL_EFSEEK: u32 = 3;
pub const SDL_UNSUPPORTED: u32 = 4;

// Video mode / window flag bits.
pub const SDL_SWSURFACE: u32 = 0x0000_0000;
pub const SDL_HWSURFACE: u32 = 0x0000_0001;
pub const SDL_OPENGL: u32 = 0x0000_0002;
pub const SDL_ASYNCBLIT: u32 = 0x0000_0004;
pub const SDL_OPENGLBLIT: u32 = 0x0000_000A;
pub const SDL_RESIZABLE: u32 = 0x0000_0010;
pub const SDL_NOFRAME: u32 = 0x0000_0020;
pub const SDL_ANYFORMAT: u32 = 0x1000_0000;
pub const SDL_HWPALETTE: u32 = 0x2000_0000;
pub const SDL_DOUBLEBUF: u32 = 0x4000_0000;
pub const SDL_FULLSCREEN: u32 = 0x8000_0000;

// Event type discriminants.
pub const SDL_NOEVENT: u8 = 0;
pub const SDL_ACTIVEEVENT: u8 = 1;
pub const SDL_KEYDOWN: u8 = 2;
pub const SDL_KEYUP: u8 = 3;
pub const SDL_MOUSEMOTION: u8 = 4;
pub const SDL_MOUSEBUTTONDOWN: u8 = 5;
pub const SDL_MOUSEBUTTONUP: u8 = 6;
pub const SDL_JOYAXISMOTION: u8 = 7;
pub const SDL_JOYBALLMOTION: u8 = 8;
pub const SDL_JOYHATMOTION: u8 = 9;
pub const SDL_JOYBUTTONDOWN: u8 = 10;
pub const SDL_JOYBUTTONUP: u8 = 11;
pub const SDL_QUIT: u8 = 12;
pub const SDL_SYSWMEVENT: u8 = 13;
pub const SDL_VIDEORESIZE: u8 = 16;
pub const SDL_VIDEOEXPOSE: u8 = 17;
pub const SDL_USEREVENT: u8 = 24;

// Focus kinds carried by an "active" event.
pub const SDL_APPMOUSEFOCUS: u8 = 0x01;
pub const SDL_APPINPUTFOCUS: u8 = 0x02;
pub const SDL_APPACTIVE: u8 = 0x04;

// Key / button states.
pub const SDL_RELEASED: u8 = 0;
pub const SDL_PRESSED: u8 = 1;

// Mouse button indices.
pub const SDL_BUTTON_LEFT: u8 = 1;
pub const SDL_BUTTON_MIDDLE: u8 = 2;
pub const SDL_BUTTON_RIGHT: u8 = 3;
pub const SDL_BUTTON_WHEELUP: u8 = 4;
pub const SDL_BUTTON_WHEELDOWN: u8 = 5;
pub const SDL_BUTTON_X1: u8 = 6;
pub const SDL_BUTTON_X2: u8 = 7;

/// The window flag set, one variant per flag bit of the mode-set call.
#[allow(non_camel_case_types)]
#[derive(Clone, Copy, PartialEq, Eq, Structural, Debug)]
pub enum SDL_WindowFlags {
    SDL_SWSURFACE,
    SDL_HWSURFACE,
    SDL_ASYNCBLIT,
    SDL_ANYFORMAT,
    SDL_HWPALETTE,
    SDL_DOUBLEBUF,
    SDL_FULLSCREEN,
    SDL_OPENGL,
    SDL_OPENGLBLIT,
    SDL_RESIZABLE,
    SDL_NOFRAME,
}

impl SDL_WindowFlags {
    /// The flag's bit pattern in the native mask.
    pub open spec fn spec_bits(self) -> u32 {
        match self {
            SDL_WindowFlags::SDL_SWSURFACE => SDL_SWSURFACE,
            SDL_WindowFlags::SDL_HWSURFACE => SDL_HWSURFACE,
            SDL_WindowFlags::SDL_ASYNCBLIT => SDL_ASYNCBLIT,
            SDL_WindowFlags::SDL_ANYFORMAT => SDL_ANYFORMAT,
            SDL_WindowFlags::SDL_HWPALETTE => SDL_HWPALETTE,
            SDL_WindowFlags::SDL_DOUBLEBUF => SDL_DOUBLEBUF,
            SDL_WindowFlags::SDL_FULLSCREEN => SDL_FULLSCREEN,
            SDL_WindowFlags::SDL_OPENGL => SDL_OPENGL,
            SDL_WindowFlags::SDL_OPENGLBLIT => SDL_OPENGLBLIT,
            SDL_WindowFlags::SDL_RESIZABLE => SDL_RESIZABLE,
            SDL_WindowFlags::SDL_NOFRAME => SDL_NOFRAME,
        }
    }

    /// The flag's bit pattern in the native mask.
    pub fn bits(self) -> (r: u32)
        ensures
            r == self.spec_bits(),
    {
        match self {
            SDL_WindowFlags::SDL_SWSURFACE => SDL_SWSURFACE,
            SDL_WindowFlags::SDL_HWSURFACE => SDL_HWSURFACE,
            SDL_WindowFlags::SDL_ASYNCBLIT => SDL_ASYNCBLIT,
            SDL_WindowFlags::SDL_ANYFORMAT => SDL_ANYFORMAT,
            SDL_WindowFlags::SDL_HWPALETTE => SDL_HWPALETTE,
            SDL_WindowFlags::SDL_DOUBLEBUF => SDL_DOUBLEBUF,
            SDL_WindowFlags::SDL_FULLSCREEN => SDL_FULLSCREEN,
            SDL_WindowFlags::SDL_OPENGL => SDL_OPENGL,
            SDL_WindowFlags::SDL_OPENGLBLIT => SDL_OPENGLBLIT,
            SDL_WindowFlags::SDL_RESIZABLE => SDL_RESIZABLE,
            SDL_WindowFlags::SDL_NOFRAME => SDL_NOFRAME,
        }
    }
}

/// The native color record: three color bytes plus one "unused" byte,
/// in that field order.
#[allow(non_camel_case_types)]
#[derive(Clone, Copy, PartialEq, Eq, Structural, Debug)]
pub struct SDL_Color {
    pub r: u8,
    pub g: u8,
    pub b: u8,
    pub unused: u8,
}

/// The key symbol carried by a keyboard event record.
#[derive(Clone, Copy, PartialEq, Eq, Structural, Debug)]
pub struct KeySym {
    pub scancode: u8,
    pub sym: u32,
    pub modifiers: u32,
    pub unicode: u16,
}

/// Raw payload of an application-activity event: a focus kind and a gain flag.
#[allow(non_camel_case_types)]
#[derive(Clone, Copy, PartialEq, Eq, Structural, Debug)]
pub struct SDL_ActiveEvent {
    pub gain: u8,
    pub state: u8,
}

/// Raw payload of a keyboard event.
#[allow(non_camel_case_types)]
#[derive(Clone, Copy, PartialEq, Eq, Structural, Debug)]
pub struct SDL_KeyboardEvent {
    pub which: u8,
    pub state: u8,
    pub keysym: KeySym,
}

/// Raw payload of a mouse motion event.
#[allow(non_camel_case_types)]
#[derive(Clone, Copy, PartialEq, Eq, Structural, Debug)]
pub struct SDL_MouseMotionEvent {
    pub state: u8,
    pub x: u16,
    pub y: u16,
    pub xrel: i16,
    pub yrel: i16,
}

/// Raw payload of a mouse button event.
#[allow(non_camel_case_types)]
#[derive(Clone, Copy, PartialEq, Eq, Structural, Debug)]
pub struct SDL_MouseButtonEvent {
    pub which: u8,
    pub button: u8,
    pub state: u8,
    pub x: u16,
    pub y: u16,
}

/// Raw payload of a joystick axis event.
#[allow(non_camel_case_types)]
#[derive(Clone, Copy, PartialEq, Eq, Structural, Debug)]
pub struct SDL_JoyAxisEvent {
    pub which: u8,
    pub axis: u8,
    pub value: i16,
}

/// Raw payload of a joystick trackball event.
#[allow(non_camel_case_types)]
#[derive(Clone, Copy, PartialEq, Eq, Structural, Debug)]
pub struct SDL_JoyBallEvent {
    pub which: u8,
    pub ball: u8,
    pub xrel: i16,
    pub yrel: i16,
}

/// Raw payload of a joystick hat event.
#[allow(non_camel_case_types)]
#[derive(Clone, Copy, PartialEq, Eq, Structural, Debug)]
pub struct SDL_JoyHatEvent {
    pub which: u8,
    pub hat: u8,
    pub value: u8,
}

/// Raw payload of a joystick button event.
#[allow(non_camel_case_types)]
#[derive(Clone, Copy, PartialEq, Eq, Structural, Debug)]
pub struct SDL_JoyButtonEvent {
    pub which: u8,
    pub button: u8,
    pub state: u8,
}

/// Raw payload of a window resize event.
#[allow(non_camel_case_types)]
#[derive(Clone, Copy, PartialEq, Eq, Structural, Debug)]
pub struct SDL_ResizeEvent {
    pub w: i32,
    pub h: i32,
}

/// Raw payload of a window expose event; it carries no data.
#[allow(non_camel_case_types)]
#[derive(Clone, Copy, PartialEq, Eq, Structural, Debug)]
pub struct SDL_ExposeEvent {}

/// One raw polled event record.
///
/// On the C side this is a union discriminated by `kind`; here it is a
/// product of the payloads, so that reading a member never depends on the
/// discriminant. Only the member selected by `kind` is meaningful; the
/// decoder reads exactly that one.
#[allow(non_camel_case_types)]
#[derive(Clone, Copy, PartialEq, Eq, Structural, Debug)]
pub struct SDL_Event {
    pub kind: u8,
    pub active: SDL_ActiveEvent,
    pub key: SDL_KeyboardEvent,
    pub motion: SDL_MouseMotionEvent,
    pub button: SDL_MouseButtonEvent,
    pub jaxis: SDL_JoyAxisEvent,
    pub jball: SDL_JoyBallEvent,
    pub jhat: SDL_JoyHatEvent,
    pub jbutton: SDL_JoyButtonEvent,
    pub resize: SDL_ResizeEvent,
}

} // verus!
