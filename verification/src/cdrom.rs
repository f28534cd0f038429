//! Guard for the CD-ROM subsystem.

use vstd::prelude::*;

use crate::native::SDL_INIT_CDROM;
use crate::sdl::Error;
use crate::sdl::SDL;

verus! {

/// Guard for the CD-ROM subsystem: it exists only while the subsystem is
/// initialized, borrows the root context for its whole lifetime, and is
/// consumed exactly once by [`Subsystem::release`].
#[derive(Debug)]
pub struct Subsystem<'sdl> {
    _root: &'sdl SDL,
}

impl<'sdl> Subsystem<'sdl> {
    /// Interprets the status of the CD-ROM subsystem init call: status `0`
    /// yields a guard borrowing `sdl_context`, any other status yields
    /// exactly the reported error.
    pub fn new(sdl_context: &'sdl SDL, status: i32, error: Error) -> (r: Result<
        Subsystem<'sdl>,
        Error,
    >)
        ensures
            status == 0 <==> r is Ok,
            status != 0 ==> r == Err::<Subsystem<'sdl>, Error>(error),
    {
        if status != 0 {
            Err(error)
        } else {
            Ok(Subsystem { _root: sdl_context })
        }
    }

    /// Consumes the guard and returns the subsystem mask that the matching
    /// subsystem-quit call must receive. Taking `self` by value makes the
    /// release possible at most once per guard.
    pub fn release(self) -> (mask: u32)
        ensures
            mask == SDL_INIT_CDROM,
    {
        SDL_INIT_CDROM
    }
}

} // verus!
