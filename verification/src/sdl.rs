//! The root of the safety layer: the process-wide initialization token,
//! the video subsystem guard it issues, the typed error translation of the
//! global error slot, and the color value type with its packed forms.

use vstd::prelude::*;
use vstd::string::*;

use crate::native::SDL_Color;
use crate::native::SDL_EFREAD;
use crate::native::SDL_EFSEEK;
use crate::native::SDL_EFWRITE;
use crate::native::SDL_ENOMEM;
use crate::native::SDL_INIT_VIDEO;
use crate::native::SDL_UNSUPPORTED;

verus! {

/// The root context: owns the single process-wide "library is initialized"
/// fact. Every subsystem guard borrows it, so no guard can outlive it, and
/// its teardown is ordered after theirs by the borrow discipline alone.
///
/// The only way to obtain one is [`init`], so holding an `SDL` witnesses
/// that the embedding layer reported a successful global init call.
#[derive(Debug)]
pub struct SDL {
    _priv: (),
}

/// Interprets the status of the global init call: status `0` yields the
/// root context, any other status yields exactly the reported error.
///
/// The embedding layer makes the native call with an empty subsystem mask
/// and hands its status here together with the translated error slot; the
/// error is returned untouched, never invented, so a failure is surfaced
/// and a success never is.
pub fn init(status: i32, error: Error) -> (r: Result<SDL, Error>)
    ensures
        status == 0 <==> r is Ok,
        status != 0 ==> r == Err::<SDL, Error>(error),
{
    if status != 0 {
        Err(error)
    } else {
        Ok(SDL { _priv: () })
    }
}

impl SDL {
    /// Issues the video subsystem guard from the outcome of the video
    /// subsystem init call; the guard borrows this root context.
    pub fn video<'sdl>(&'sdl self, status: i32, error: Error) -> (r: Result<
        VideoSubsystem<'sdl>,
        Error,
    >)
        ensures
            status == 0 <==> r is Ok,
            status != 0 ==> r == Err::<VideoSubsystem<'sdl>, Error>(error),
    {
        VideoSubsystem::new(self, status, error)
    }
}

/// Guard for the video subsystem: it exists only while the subsystem is
/// initialized, borrows the root context for its whole lifetime, and is
/// consumed exactly once by [`VideoSubsystem::release`], which names the
/// mask the matching subsystem-quit call must receive.
#[derive(Debug)]
pub struct VideoSubsystem<'sdl> {
    _root: &'sdl SDL,
}

impl<'sdl> VideoSubsystem<'sdl> {
    /// Interprets the status of the video subsystem init call: status `0`
    /// yields a guard borrowing `sdl_context`, any other status yields
    /// exactly the reported error.
    pub fn new(sdl_context: &'sdl SDL, status: i32, error: Error) -> (r: Result<
        VideoSubsystem<'sdl>,
        Error,
    >)
        ensures
            status == 0 <==> r is Ok,
            status != 0 ==> r == Err::<VideoSubsystem<'sdl>, Error>(error),
    {
        if status != 0 {
            Err(error)
        } else {
            Ok(VideoSubsystem { _root: sdl_context })
        }
    }

    /// Consumes the guard and returns the subsystem mask that the matching
    /// subsystem-quit call must receive. Taking `self` by value makes the
    /// release possible at most once per guard.
    pub fn release(self) -> (mask: u32)
        ensures
            mask == SDL_INIT_VIDEO,
    {
        SDL_INIT_VIDEO
    }
}

/// The numeric codes the library reports through its global error slot.
#[derive(Clone, Copy, PartialEq, Eq, Structural, Debug, Hash)]
pub enum ErrorCode {
    NoMemError,
    ReadError,
    WriteError,
    SeekError,
    UnsupportedError,
}

impl ErrorCode {
    /// The code's fixed description text.
    pub open spec fn spec_description(self) -> Seq<char> {
        match self {
            ErrorCode::NoMemError => "out of memory"@,
            ErrorCode::ReadError => "error reading from datastream"@,
            ErrorCode::WriteError => "error writing to datastream"@,
            ErrorCode::SeekError => "error seeking in datastream"@,
            ErrorCode::UnsupportedError => "unknown SDL error"@,
        }
    }

    /// The code's fixed description text.
    pub fn description(&self) -> (r: &'static str)
        ensures
            r@ == self.spec_description(),
    {
        match self {
            ErrorCode::NoMemError => "out of memory",
            ErrorCode::ReadError => "error reading from datastream",
            ErrorCode::WriteError => "error writing to datastream",
            ErrorCode::SeekError => "error seeking in datastream",
            ErrorCode::UnsupportedError => "unknown SDL error",
        }
    }

    /// The total mapping from a raw numeric code; a code outside the fixed
    /// enumeration degrades to `UnsupportedError`.
    pub open spec fn spec_from_code(value: u32) -> ErrorCode {
        if value == SDL_ENOMEM {
            ErrorCode::NoMemError
        } else if value == SDL_EFREAD {
            ErrorCode::ReadError
        } else if value == SDL_EFWRITE {
            ErrorCode::WriteError
        } else if value == SDL_EFSEEK {
            ErrorCode::SeekError
        } else {
            ErrorCode::UnsupportedError
        }
    }
}

impl core::convert::From<u32> for ErrorCode {
    fn from(value: u32) -> (r: Self) {
        if value == SDL_ENOMEM {
            ErrorCode::NoMemError
        } else if value == SDL_EFREAD {
            ErrorCode::ReadError
        } else if value == SDL_EFWRITE {
            ErrorCode::WriteError
        } else if value == SDL_EFSEEK {
            ErrorCode::SeekError
        } else {
            ErrorCode::UnsupportedError
        }
    }
}

impl vstd::std_specs::convert::FromSpecImpl<u32> for ErrorCode {
    open spec fn obeys_from_spec() -> bool {
        true
    }

    open spec fn from_spec(value: u32) -> Self {
        ErrorCode::spec_from_code(value)
    }
}

/// A library-reported failure: one of the fixed numeric codes, or the raw
/// message text for anything else.
#[derive(Clone, PartialEq, Eq, Debug)]
pub enum Error {
    ErrorCode(ErrorCode),
    Other(String),
}

impl Error {
    /// The known code behind this error, if it carries one.
    pub fn code(&self) -> (r: Option<ErrorCode>)
        ensures
            r == (match self {
                Error::ErrorCode(c) => Some(*c),
                Error::Other(_) => None::<ErrorCode>,
            }),
    {
        match self {
            Error::ErrorCode(c) => Some(*c),
            Error::Other(_) => None,
        }
    }

    /// The error's message text.
    pub open spec fn spec_message(self) -> Seq<char> {
        match self {
            Error::ErrorCode(c) => "error code: "@ + c.spec_description(),
            Error::Other(m) => "unknown error: "@ + m@,
        }
    }

    /// Renders the error's message text.
    pub fn message(&self) -> (r: String)
        ensures
            r@ == self.spec_message(),
    {
        match self {
            Error::ErrorCode(c) => {
                let prefix = String::from_str("error code: ");
                prefix.concat(c.description())
            },
            Error::Other(m) => {
                let prefix = String::from_str("unknown error: ");
                prefix.concat(m.as_str())
            },
        }
    }
}

/// What the typed translation of the global error slot returns for a given
/// numeric code and message text: a known code maps into the fixed
/// enumeration, anything else carries the raw text.
pub open spec fn spec_translate_error(code: u32, text: String) -> Error {
    if code == SDL_ENOMEM {
        Error::ErrorCode(ErrorCode::NoMemError)
    } else if code == SDL_EFREAD {
        Error::ErrorCode(ErrorCode::ReadError)
    } else if code == SDL_EFWRITE {
        Error::ErrorCode(ErrorCode::WriteError)
    } else if code == SDL_EFSEEK {
        Error::ErrorCode(ErrorCode::SeekError)
    } else if code == SDL_UNSUPPORTED {
        Error::ErrorCode(ErrorCode::UnsupportedError)
    } else {
        Error::Other(text)
    }
}

/// Translates one reading of the library's global error slot into a typed
/// error.
///
/// The slot is overwritten by the next library call on the same thread, so
/// the embedding layer must read it immediately after the failing call and
/// before any further one; this function itself has no side effects.
pub fn get_error(code: u32, text: String) -> (r: Error)
    ensures
        r == spec_translate_error(code, text),
{
    if code == SDL_ENOMEM {
        Error::ErrorCode(ErrorCode::NoMemError)
    } else if code == SDL_EFREAD {
        Error::ErrorCode(ErrorCode::ReadError)
    } else if code == SDL_EFWRITE {
        Error::ErrorCode(ErrorCode::WriteError)
    } else if code == SDL_EFSEEK {
        Error::ErrorCode(ErrorCode::SeekError)
    } else if code == SDL_UNSUPPORTED {
        Error::ErrorCode(ErrorCode::UnsupportedError)
    } else {
        Error::Other(text)
    }
}

/// A color value: four 8-bit channels, no ownership.
#[derive(Clone, Copy, PartialEq, Eq, Structural, Hash, Debug)]
pub struct Color {
    pub r: u8,
    pub g: u8,
    pub b: u8,
    pub a: u8,
}

impl Color {
    /// An opaque color from its three color channels.
    pub fn rgb(r: u8, g: u8, b: u8) -> (c: Color)
        ensures
            c == (Color { r, g, b, a: 0xff }),
    {
        Color { r, g, b, a: 0xff }
    }

    /// A color from all four channels.
    pub fn rgba(r: u8, g: u8, b: u8, a: u8) -> (c: Color)
        ensures
            c == (Color { r, g, b, a }),
    {
        Color { r, g, b, a }
    }

    /// The channel-wise complement.
    pub fn invert(self) -> (c: Color)
        ensures
            c.r == 255 - self.r,
            c.g == 255 - self.g,
            c.b == 255 - self.b,
            c.a == 255 - self.a,
    {
        Color { r: 255 - self.r, g: 255 - self.g, b: 255 - self.b, a: 255 - self.a }
    }

    /// The three color channels.
    pub fn into_rgb(self) -> (t: (u8, u8, u8))
        ensures
            t == (self.r, self.g, self.b),
    {
        (self.r, self.g, self.b)
    }

    /// All four channels.
    pub fn into_rgba(self) -> (t: (u8, u8, u8, u8))
        ensures
            t == (self.r, self.g, self.b, self.a),
    {
        (self.r, self.g, self.b, self.a)
    }

    /// The native record for this color: the alpha channel sits in the
    /// record's "unused" byte.
    pub open spec fn spec_raw(self) -> SDL_Color {
        SDL_Color { r: self.r, g: self.g, b: self.b, unused: self.a }
    }

    /// Converts to the native color record.
    pub fn raw(self) -> (c: SDL_Color)
        ensures
            c == self.spec_raw(),
    {
        SDL_Color { r: self.r, g: self.g, b: self.b, unused: self.a }
    }

    /// The color a native record stands for.
    pub open spec fn spec_from_raw(raw: SDL_Color) -> Color {
        Color { r: raw.r, g: raw.g, b: raw.b, a: raw.unused }
    }

    /// Converts from the native color record.
    pub fn from_raw(raw: SDL_Color) -> (c: Color)
        ensures
            c == Color::spec_from_raw(raw),
    {
        Color { r: raw.r, g: raw.g, b: raw.b, a: raw.unused }
    }

    /// The big-endian 32-bit packed form: `r`, `g`, `b`, `a` from the most
    /// significant byte down.
    pub open spec fn spec_packed(self) -> u32 {
        ((self.r as u32) << 24) | ((self.g as u32) << 16) | ((self.b as u32) << 8) | (
        self.a as u32)
    }

    /// Packs the color into its big-endian 32-bit form.
    pub fn packed(self) -> (v: u32)
        ensures
            v == self.spec_packed(),
    {
        ((self.r as u32) << 24) | ((self.g as u32) << 16) | ((self.b as u32) << 8) | (
        self.a as u32)
    }

    /// The color a big-endian 32-bit packed value stands for.
    pub open spec fn spec_unpacked(v: u32) -> Color {
        Color {
            r: ((v >> 24) & 0xff) as u8,
            g: ((v >> 16) & 0xff) as u8,
            b: ((v >> 8) & 0xff) as u8,
            a: (v & 0xff) as u8,
        }
    }

    /// Unpacks a big-endian 32-bit packed value.
    pub fn from_packed(v: u32) -> (c: Color)
        ensures
            c == Color::spec_unpacked(v),
    {
        Color {
            r: ((v >> 24) & 0xff) as u8,
            g: ((v >> 16) & 0xff) as u8,
            b: ((v >> 8) & 0xff) as u8,
            a: (v & 0xff) as u8,
        }
    }
}

impl core::convert::From<(u8, u8, u8)> for Color {
    fn from(t: (u8, u8, u8)) -> (c: Self) {
        Color { r: t.0, g: t.1, b: t.2, a: 0xff }
    }
}

impl vstd::std_specs::convert::FromSpecImpl<(u8, u8, u8)> for Color {
    open spec fn obeys_from_spec() -> bool {
        true
    }

    open spec fn from_spec(t: (u8, u8, u8)) -> Self {
        Color { r: t.0, g: t.1, b: t.2, a: 0xff }
    }
}

impl core::convert::From<(u8, u8, u8, u8)> for Color {
    fn from(t: (u8, u8, u8, u8)) -> (c: Self) {
        Color { r: t.0, g: t.1, b: t.2, a: t.3 }
    }
}

impl vstd::std_specs::convert::FromSpecImpl<(u8, u8, u8, u8)> for Color {
    open spec fn obeys_from_spec() -> bool {
        true
    }

    open spec fn from_spec(t: (u8, u8, u8, u8)) -> Self {
        Color { r: t.0, g: t.1, b: t.2, a: t.3 }
    }
}

/// Round trip through the native color record: converting a color to the
/// record and back yields the color again.
pub proof fn lemma_raw_roundtrip(c: Color)
    ensures
        Color::spec_from_raw(c.spec_raw()) == c,
{
}

/// Round trip the other way: a native record rebuilt from the color it
/// stands for is the same record.
pub proof fn lemma_raw_roundtrip_native(raw: SDL_Color)
    ensures
        Color::spec_from_raw(raw).spec_raw() == raw,
{
}

/// Round trip through the packed form: packing a color to 32 bits and
/// unpacking yields the color again.
pub proof fn lemma_packed_roundtrip(c: Color)
    ensures
        Color::spec_unpacked(c.spec_packed()) == c,
{
    let r: u8 = c.r;
    let g: u8 = c.g;
    let b: u8 = c.b;
    let a: u8 = c.a;
    let v: u32 = c.spec_packed();
    assert(((((r as u32) << 24) | ((g as u32) << 16) | ((b as u32) << 8) | (a as u32)) >> 24)
        & 0xff == r) by (bit_vector);
    assert(((((r as u32) << 24) | ((g as u32) << 16) | ((b as u32) << 8) | (a as u32)) >> 16)
        & 0xff == g) by (bit_vector);
    assert(((((r as u32) << 24) | ((g as u32) << 16) | ((b as u32) << 8) | (a as u32)) >> 8)
        & 0xff == b) by (bit_vector);
    assert((((r as u32) << 24) | ((g as u32) << 16) | ((b as u32) << 8) | (a as u32)) & 0xff
        == a) by (bit_vector);
    assert(Color::spec_unpacked(v) == c);
}

/// Round trip the other way: unpacking a 32-bit value and packing the
/// resulting color yields the value again.
pub proof fn lemma_packed_roundtrip_u32(v: u32)
    ensures
        Color::spec_unpacked(v).spec_packed() == v,
{
    assert(((((v >> 24) & 0xff) as u8 as u32) << 24) | ((((v >> 16) & 0xff) as u8 as u32)
        << 16) | ((((v >> 8) & 0xff) as u8 as u32) << 8) | ((v & 0xff) as u8 as u32) == v)
        by (bit_vector);
}

} // verus!
