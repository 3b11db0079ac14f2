//! The control session: one connection to a device's control interface.

use crate::error::{Call, Error, ErrorKind};
use vstd::prelude::*;

verus! {

/// Where a session stands in its life.
#[derive(Clone, Copy, Debug, PartialEq, Eq, Structural)]
pub enum Phase {
    /// The native handle is held; no element directory has been loaded.
    Open,
    /// The native handle is held and a load has succeeded.
    Loaded,
    /// No native handle is held. Nothing leads out of this phase.
    Closed,
}

/// What a session stands for: the address of its native handle and its phase.
pub struct HCtlView {
    pub handle: usize,
    pub phase: Phase,
}

impl HCtlView {
    /// The handle is null exactly when the session is closed.
    pub open spec fn wf(self) -> bool {
        self.phase is Closed <==> self.handle == 0
    }

    pub open spec fn is_open(self) -> bool {
        !(self.phase is Closed)
    }

    /// The native handle that the session owns, if it owns one.
    pub open spec fn native(self) -> Option<usize> {
        if self.is_open() {
            Some(self.handle)
        } else {
            None
        }
    }
}

/// The session that a native open leaves behind: none where the status is
/// negative; else one that owns `handle`, or a closed one where the native
/// layer stored no handle.
pub open spec fn opened(status: i32, handle: usize) -> Result<HCtlView, Error> {
    if status < 0 {
        Err(Error { kind: ErrorKind::Open, call: Call::HctlOpen, code: status })
    } else if handle == 0 {
        Ok(HCtlView { handle: 0, phase: Phase::Closed })
    } else {
        Ok(HCtlView { handle, phase: Phase::Open })
    }
}

/// The session after a native load that returned `status`.
pub open spec fn after_load(s: HCtlView, status: i32) -> HCtlView {
    if status < 0 {
        s
    } else {
        HCtlView { handle: s.handle, phase: Phase::Loaded }
    }
}

/// The session after a close.
pub open spec fn after_close(s: HCtlView) -> HCtlView {
    HCtlView { handle: 0, phase: Phase::Closed }
}

/// A control session. It owns the address of one native handle from a
/// successful open until `close` hands it out for release, once.
///
/// The enumerator and the element handles borrow the session, so it can
/// neither be closed nor load again while one of them is alive.
#[derive(Debug)]
pub struct HCtl {
    handle: usize,
    phase: Phase,
}

impl View for HCtl {
    type V = HCtlView;

    closed spec fn view(&self) -> HCtlView {
        HCtlView { handle: self.handle, phase: self.phase }
    }
}

impl HCtl {
    #[verifier::type_invariant]
    pub closed spec fn wf(&self) -> bool {
        self@.wf()
    }

    /// The mode to hand to the native open: 1 asks for a non-blocking
    /// session, 0 for a blocking one. The asynchronous mode is not offered.
    pub fn open_flags(nonblock: bool) -> (flags: i32)
        ensures
            flags == (if nonblock { 1i32 } else { 0i32 }),
    {
        if nonblock {
            1
        } else {
            0
        }
    }

    /// Takes what the native open returned, its status and the address it
    /// stored, and gives the session or the failure.
    pub fn open(status: i32, handle: usize) -> (r: Result<HCtl, Error>)
        ensures
            match opened(status, handle) {
                Ok(v) => r matches Ok(s) && s@ == v,
                Err(e) => r matches Err(f) && f == e,
            },
    {
        if status < 0 {
            Err(Error { kind: ErrorKind::Open, call: Call::HctlOpen, code: status })
        } else if handle == 0 {
            Ok(HCtl { handle: 0, phase: Phase::Closed })
        } else {
            Ok(HCtl { handle, phase: Phase::Open })
        }
    }

    /// The address to hand to a native call on this session; none once the
    /// session is closed, so that no call is made on a handle it does not own.
    pub fn handle(&self) -> (r: Option<usize>)
        ensures
            r == self@.native(),
            self@.wf(),
    {
        proof {
            use_type_invariant(&*self);
        }
        match self.phase {
            Phase::Closed => None,
            _ => Some(self.handle),
        }
    }

    /// Takes the status that the native load returned on this session's
    /// handle. A negative one is the failure and leaves the session as it was.
    pub fn load(&mut self, status: i32) -> (r: Result<(), Error>)
        requires
            old(self)@.is_open(),
        ensures
            final(self)@ == after_load(old(self)@, status),
            status < 0 ==> r == Err::<(), Error>(
                Error { kind: ErrorKind::Load, call: Call::HctlLoad, code: status },
            ),
            status >= 0 ==> r == Ok::<(), Error>(()),
    {
        proof {
            use_type_invariant(&*self);
        }
        if status < 0 {
            Err(Error { kind: ErrorKind::Load, call: Call::HctlLoad, code: status })
        } else {
            *self = HCtl { handle: self.handle, phase: Phase::Loaded };
            Ok(())
        }
    }

    /// Ends the session and hands out the native handle to release. Only the
    /// first close of a session hands one out.
    pub fn close(&mut self) -> (r: Option<usize>)
        ensures
            r == old(self)@.native(),
            final(self)@ == after_close(old(self)@),
    {
        let r = self.handle();
        *self = HCtl { handle: 0, phase: Phase::Closed };
        r
    }

    pub fn is_open(&self) -> (b: bool)
        ensures
            b == self@.is_open(),
    {
        match self.phase {
            Phase::Closed => false,
            _ => true,
        }
    }

    pub fn is_loaded(&self) -> (b: bool)
        ensures
            b == (self@.phase is Loaded),
    {
        match self.phase {
            Phase::Loaded => true,
            _ => false,
        }
    }
}

/// A handle is released exactly once: the first close of a session that a
/// successful open gave hands out the very handle that the open stored, and
/// every close after it hands out nothing and changes nothing.
pub proof fn lemma_close_releases_once(status: i32, handle: usize)
    requires
        status >= 0,
        handle != 0,
    ensures
        opened(status, handle) matches Ok(s) && {
            &&& s.native() == Some(handle)
            &&& after_close(s).native() == None::<usize>
            &&& after_close(after_close(s)) == after_close(s)
        },
{
}

/// A failed open leaves no session behind, hence no handle to release.
pub proof fn lemma_failed_open_holds_nothing(status: i32, handle: usize)
    requires
        status < 0,
    ensures
        opened(status, handle) == Err::<HCtlView, Error>(
            Error { kind: ErrorKind::Open, call: Call::HctlOpen, code: status },
        ),
{
}

/// Nothing leads out of the closed phase: a closed session hands out no
/// handle, and closing it again changes nothing.
pub proof fn lemma_closed_is_final(s: HCtlView)
    requires
        s.wf(),
        !s.is_open(),
    ensures
        s.native() == None::<usize>,
        after_close(s) == s,
{
}

} // verus!
