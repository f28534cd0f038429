//! The validating window builder and the exclusively owned surface handle.
//!
//! `build` runs every validation strictly before any native call can
//! happen: it either rejects the configuration with a typed error or
//! produces the one [`ModeSetRequest`] the embedding layer may perform.
//! The outcome of the performed mode-set call then comes back through
//! [`ModeSetRequest::complete`], which wraps a non-null handle in a
//! [`Surface`] or translates the failure.

use vstd::prelude::*;
use vstd::string::*;

use crate::native::SDL_FULLSCREEN;
use crate::native::SDL_NOFRAME;
use crate::native::SDL_OPENGL;
use crate::native::SDL_RESIZABLE;
use crate::sdl::Error;
use crate::sdl::VideoSubsystem;

verus! {

/// An exclusively owned, non-null native drawable handle. Exactly one
/// owner exists per handle; [`Surface::release`] consumes the owner and
/// hands the handle out once for the matching free call.
#[derive(Debug)]
pub struct Surface {
    handle: usize,
}

impl Surface {
    /// A surface handle is never null.
    #[verifier::type_invariant]
    spec fn inv(self) -> bool {
        self.handle != 0
    }

    /// The wrapped native handle.
    pub closed spec fn spec_handle(self) -> usize {
        self.handle
    }

    /// Wraps one non-null native handle.
    pub(crate) fn new(handle: usize) -> (s: Surface)
        requires
            handle != 0,
        ensures
            s.spec_handle() == handle,
    {
        Surface { handle }
    }

    /// The wrapped native handle, for pass-through calls; never null.
    pub fn raw(&self) -> (h: usize)
        ensures
            h == self.spec_handle(),
            h != 0,
    {
        proof {
            use_type_invariant(self);
        }
        self.handle
    }

    /// Interprets the status of the present/flip call on this surface:
    /// status `0` is success, any other status yields exactly the reported
    /// error. The surface itself is unchanged.
    pub fn flip(&mut self, status: i32, error: Error) -> (r: Result<(), Error>)
        ensures
            *final(self) == *old(self),
            status == 0 <==> r is Ok,
            status != 0 ==> r == Err::<(), Error>(error),
    {
        if status != 0 {
            Err(error)
        } else {
            Ok(())
        }
    }

    /// Consumes the owner and returns the handle that the matching free
    /// call must receive. Taking `self` by value makes the release
    /// possible at most once per surface.
    pub fn release(self) -> (h: usize)
        ensures
            h == self.spec_handle(),
            h != 0,
    {
        proof {
            use_type_invariant(&self);
        }
        self.handle
    }
}

impl<'sdl> VideoSubsystem<'sdl> {
    /// Starts a window configuration; no native call is involved.
    pub fn window(&self, title: &str, width: u32, height: u32) -> (b: WindowBuilder)
        ensures
            b.title@ == title@,
            b.width == width,
            b.height == height,
            b.window_flags == 0,
    {
        WindowBuilder::new(self, title, width, height)
    }
}

/// A transient window configuration: title, dimensions and an accumulated
/// flag bitmask, consumed by the validating [`WindowBuilder::build`] step.
#[derive(Debug)]
pub struct WindowBuilder {
    pub title: String,
    pub width: u32,
    pub height: u32,
    pub window_flags: u32,
}

/// Whether a title is free of the embedded terminator character, which the
/// native caption and mode-set calls cannot carry.
pub open spec fn spec_nul_free(s: Seq<char>) -> bool {
    forall|i: int| 0 <= i < s.len() ==> s[i] != '\0'
}

/// Scans a title for an embedded terminator character.
fn nul_free(s: &str) -> (r: bool)
    ensures
        r == spec_nul_free(s@),
{
    let n: usize = s.unicode_len();
    let mut i: usize = 0;
    while i < n
        invariant
            n == s@.len(),
            i <= n,
            forall|j: int| 0 <= j < i ==> s@[j] != '\0',
        decreases n - i,
    {
        if s.get_char(i) == '\0' {
            assert(!spec_nul_free(s@));
            return false;
        }
        i = i + 1;
    }
    true
}

/// The one validated mode-set call a build step permits: dimensions below
/// `2^31`, a fixed 32-bit depth, the accumulated flags, and a terminator-
/// free title for the follow-up caption call.
#[derive(Debug)]
pub struct ModeSetRequest {
    pub title: String,
    pub width: i32,
    pub height: i32,
    pub bpp: i32,
    pub flags: u32,
}

/// A rejected window configuration or a failed mode-set call.
#[derive(Clone, PartialEq, Eq, Debug)]
pub enum WindowBuildError {
    HeightOverflows(u32),
    WidthOverflows(u32),
    InvalidTitle,
    SdlError(Error),
}

impl WindowBuilder {
    /// Captures the configuration; the flag mask starts empty and no
    /// native call is involved.
    pub fn new<'a, 'sdl>(_v: &'a VideoSubsystem<'sdl>, title: &str, width: u32, height: u32) -> (b:
        WindowBuilder)
        ensures
            b.title@ == title@,
            b.width == width,
            b.height == height,
            b.window_flags == 0,
    {
        WindowBuilder { title: title.to_owned(), width, height, window_flags: 0 }
    }

    /// ORs the fullscreen bit into the accumulated mask.
    pub fn fullscreen(&mut self) -> (ret: &mut WindowBuilder)
        ensures
            *ret == (WindowBuilder {
                window_flags: old(self).window_flags | SDL_FULLSCREEN,
                ..*old(self)
            }),
            *final(self) == *final(ret),
    {
        self.window_flags = self.window_flags | SDL_FULLSCREEN;
        self
    }

    /// ORs the OpenGL bit into the accumulated mask.
    pub fn opengl(&mut self) -> (ret: &mut WindowBuilder)
        ensures
            *ret == (WindowBuilder {
                window_flags: old(self).window_flags | SDL_OPENGL,
                ..*old(self)
            }),
            *final(self) == *final(ret),
    {
        self.window_flags = self.window_flags | SDL_OPENGL;
        self
    }

    /// ORs the borderless (no frame) bit into the accumulated mask.
    pub fn borderless(&mut self) -> (ret: &mut WindowBuilder)
        ensures
            *ret == (WindowBuilder {
                window_flags: old(self).window_flags | SDL_NOFRAME,
                ..*old(self)
            }),
            *final(self) == *final(ret),
    {
        self.window_flags = self.window_flags | SDL_NOFRAME;
        self
    }

    /// ORs the resizable bit into the accumulated mask.
    pub fn resizable(&mut self) -> (ret: &mut WindowBuilder)
        ensures
            *ret == (WindowBuilder {
                window_flags: old(self).window_flags | SDL_RESIZABLE,
                ..*old(self)
            }),
            *final(self) == *final(ret),
    {
        self.window_flags = self.window_flags | SDL_RESIZABLE;
        self
    }

    /// What the validating build step decides for this configuration, in
    /// order: a title with an embedded terminator is rejected, then a
    /// width of `2^31` or more, then such a height; otherwise the one
    /// permitted mode-set request, with a fixed 32-bit depth.
    pub open spec fn spec_build(self) -> Result<ModeSetRequest, WindowBuildError> {
        if !spec_nul_free(self.title@) {
            Err(WindowBuildError::InvalidTitle)
        } else if self.width >= 0x8000_0000u32 {
            Err(WindowBuildError::WidthOverflows(self.width))
        } else if self.height >= 0x8000_0000u32 {
            Err(WindowBuildError::HeightOverflows(self.height))
        } else {
            Ok(
                ModeSetRequest {
                    title: self.title,
                    width: self.width as i32,
                    height: self.height as i32,
                    bpp: 32,
                    flags: self.window_flags,
                },
            )
        }
    }

    /// Validates the configuration and, when every check passes, produces
    /// the one mode-set request the embedding layer may perform.
    ///
    /// Every check runs strictly before any native call can happen: an
    /// invalid size or title never reaches the native library, because no
    /// request is produced for it. The builder is borrowed, not consumed,
    /// so a later build may attempt a fresh mode-set; the decision depends
    /// on the captured fields alone.
    pub fn build(&self) -> (r: Result<ModeSetRequest, WindowBuildError>)
        ensures
            r == self.spec_build(),
    {
        if !nul_free(self.title.as_str()) {
            return Err(WindowBuildError::InvalidTitle);
        }
        if self.width >= 0x8000_0000u32 {
            return Err(WindowBuildError::WidthOverflows(self.width));
        }
        if self.height >= 0x8000_0000u32 {
            return Err(WindowBuildError::HeightOverflows(self.height));
        }
        Ok(
            ModeSetRequest {
                title: self.title.clone(),
                width: self.width as i32,
                height: self.height as i32,
                bpp: 32,
                flags: self.window_flags,
            },
        )
    }
}

impl ModeSetRequest {
    /// Interprets the outcome of the performed mode-set call: a non-null
    /// handle becomes an exclusively owned [`Surface`], a null handle
    /// yields exactly the reported error.
    ///
    /// The follow-up caption call is best effort; its own failure is not
    /// surfaced here, a documented limitation.
    pub fn complete(&self, handle: usize, error: Error) -> (r: Result<Surface, WindowBuildError>)
        ensures
            handle != 0 ==> (r matches Ok(s) && s.spec_handle() == handle),
            handle == 0 ==> r == Err::<Surface, WindowBuildError>(WindowBuildError::SdlError(error)),
    {
        if handle == 0 {
            Err(WindowBuildError::SdlError(error))
        } else {
            Ok(Surface::new(handle))
        }
    }
}

} // verus!
