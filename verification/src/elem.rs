//! The element enumerator and the element handle.

use crate::error::{Call, Error, ErrorKind};
use crate::session::{HCtl, HCtlView};
use crate::value::{blank, ElemId, ElemInfo, ElemValue};
use vstd::prelude::*;

verus! {

/// Where an enumerator stands in the element directory.
#[derive(Clone, Copy, Debug, PartialEq, Eq, Structural)]
pub enum Cursor {
    /// Before the first element.
    Start,
    /// At the element with this address, which has been handed out.
    At(usize),
    /// Past the last element. Nothing leads out of this position.
    End,
}

/// What an enumerator asks of the native layer for its next step.
#[derive(Clone, Copy, Debug, PartialEq, Eq, Structural)]
pub enum Fetch {
    /// The first element of the session with this handle.
    First(usize),
    /// The element that follows the one with this address.
    Next(usize),
    /// Nothing: the enumeration is over, no native call is to be made.
    Nothing,
}

/// The question that belongs to a position, on a session with this handle.
pub open spec fn fetch_at(handle: usize, cursor: Cursor) -> Fetch {
    match cursor {
        Cursor::Start => Fetch::First(handle),
        Cursor::At(elem) => Fetch::Next(elem),
        Cursor::End => Fetch::Nothing,
    }
}

/// The position after one step in which the native layer answered `fetched`:
/// a null answer ends the enumeration, and an ended one stays so whatever the
/// answer.
pub open spec fn advance(cursor: Cursor, fetched: usize) -> Cursor {
    if cursor is End || fetched == 0 {
        Cursor::End
    } else {
        Cursor::At(fetched)
    }
}

/// The address of the element that such a step hands out, if it hands one out.
pub open spec fn yielded(cursor: Cursor, fetched: usize) -> Option<usize> {
    if cursor is End || fetched == 0 {
        None
    } else {
        Some(fetched)
    }
}

/// What an enumerator stands for: its session and its position.
pub struct ElemIterView {
    pub session: HCtlView,
    pub cursor: Cursor,
}

impl ElemIterView {
    /// Only an open session is enumerated, and no null element is handed out.
    pub open spec fn wf(self) -> bool {
        &&& self.session.wf()
        &&& !(self.cursor is End) ==> self.session.is_open()
        &&& self.cursor matches Cursor::At(elem) ==> elem != 0
    }
}

/// What an element handle stands for: its session and the element's address.
pub struct ElemView {
    pub session: HCtlView,
    pub addr: usize,
}

/// Walks the elements of a session's directory once, forward, in the order in
/// which the native layer presents them.
#[derive(Debug)]
pub struct ElemIter<'a> {
    session: &'a HCtl,
    cursor: Cursor,
}

/// One element of a session's directory. It owns nothing: it is the element's
/// address, good for as long as the borrow of the session lasts.
#[derive(Debug)]
pub struct Elem<'a> {
    session: &'a HCtl,
    addr: usize,
}

impl<'a> View for ElemIter<'a> {
    type V = ElemIterView;

    closed spec fn view(&self) -> ElemIterView {
        ElemIterView { session: self.session@, cursor: self.cursor }
    }
}

impl<'a> View for Elem<'a> {
    type V = ElemView;

    closed spec fn view(&self) -> ElemView {
        ElemView { session: self.session@, addr: self.addr }
    }
}

impl HCtl {
    /// A fresh enumerator over this session's elements. On a closed session it
    /// is over before it starts.
    pub fn elem_iter<'a>(&'a self) -> (it: ElemIter<'a>)
        ensures
            it@.session == self@,
            it@.cursor == (if self@.is_open() { Cursor::Start } else { Cursor::End }),
    {
        let h = self.handle();
        match h {
            Some(_) => ElemIter { session: self, cursor: Cursor::Start },
            None => ElemIter { session: self, cursor: Cursor::End },
        }
    }
}

impl<'a> ElemIter<'a> {
    #[verifier::type_invariant]
    pub closed spec fn wf(&self) -> bool {
        self@.wf()
    }

    /// What to ask of the native layer before the next step.
    pub fn fetch(&self) -> (f: Fetch)
        ensures
            f == fetch_at(self@.session.handle, self@.cursor),
            self@.wf(),
    {
        proof {
            use_type_invariant(&*self);
        }
        match (self.cursor, self.session.handle()) {
            (Cursor::Start, Some(handle)) => Fetch::First(handle),
            (Cursor::At(elem), _) => Fetch::Next(elem),
            _ => Fetch::Nothing,
        }
    }

    /// Takes the address that the native layer answered to `fetch` and makes
    /// the step: the element at that address, or the end of the enumeration
    /// where the address is null. Once over, the enumeration yields nothing
    /// more, whatever it is handed.
    pub fn next(&mut self, fetched: usize) -> (r: Option<Elem<'a>>)
        ensures
            final(self)@.session == old(self)@.session,
            final(self)@.cursor == advance(old(self)@.cursor, fetched),
            match yielded(old(self)@.cursor, fetched) {
                Some(addr) => r matches Some(e) && e@ == (ElemView {
                    session: old(self)@.session,
                    addr,
                }),
                None => r is None,
            },
    {
        proof {
            use_type_invariant(&*self);
        }
        let ended = match self.cursor {
            Cursor::End => true,
            _ => false,
        };
        if ended || fetched == 0 {
            *self = ElemIter { session: self.session, cursor: Cursor::End };
            None
        } else {
            *self = ElemIter { session: self.session, cursor: Cursor::At(fetched) };
            Some(Elem { session: self.session, addr: fetched })
        }
    }
}

impl<'a> Elem<'a> {
    #[verifier::type_invariant]
    pub closed spec fn wf(&self) -> bool {
        self@.session.wf() && self@.session.is_open() && self@.addr != 0
    }

    /// The element's address, to hand to a native call on it; never null.
    pub fn addr(&self) -> (a: usize)
        ensures
            a == self@.addr,
            a != 0,
    {
        proof {
            use_type_invariant(&*self);
        }
        self.addr
    }

    /// Takes the status with which the native layer made room for the
    /// identity, and the identity that it then copied out of the element.
    /// Where the status is negative there is no identity: `id` is dropped.
    pub fn get_id(&self, status: i32, id: ElemId) -> (r: Result<ElemId, Error>)
        ensures
            status < 0 ==> r == Err::<ElemId, Error>(
                Error { kind: ErrorKind::Query, call: Call::ElemIdMalloc, code: status },
            ),
            status >= 0 ==> r == Ok::<ElemId, Error>(id),
    {
        if status < 0 {
            Err(Error { kind: ErrorKind::Query, call: Call::ElemIdMalloc, code: status })
        } else {
            Ok(id)
        }
    }

    /// Takes the status of the native metadata query on this element and the
    /// metadata that it filled in. Where the status is negative the metadata
    /// means nothing and is dropped.
    pub fn info(&self, status: i32, info: ElemInfo) -> (r: Result<ElemInfo, Error>)
        ensures
            r == info_outcome(status, info),
    {
        if status < 0 {
            Err(Error { kind: ErrorKind::Query, call: Call::ElemInfo, code: status })
        } else {
            Ok(info)
        }
    }

    /// First half of a read: takes what the native metadata query on this
    /// element returned and gives the buffer to read into, which has the type
    /// and the length that the metadata names, or the failure of the read.
    pub fn begin_read(&self, status: i32, info: ElemInfo) -> (r: Result<ElemValue, Error>)
        ensures
            status < 0 ==> r == Err::<ElemValue, Error>(
                Error { kind: ErrorKind::Read, call: Call::ElemInfo, code: status },
            ),
            status >= 0 ==> (r matches Ok(v) && v@ == blank(info.value_type, info.count as nat)),
    {
        if status < 0 {
            Err(Error { kind: ErrorKind::Read, call: Call::ElemInfo, code: status })
        } else {
            Ok(ElemValue::new(info.value_type, info.count))
        }
    }

    /// Second half of a read: takes the status of the native read on this
    /// element and the buffer that it filled. Where the status is negative the
    /// buffer is dropped: a failed read hands out no data.
    pub fn read(&self, status: i32, value: ElemValue) -> (r: Result<ElemValue, Error>)
        ensures
            status < 0 ==> r == Err::<ElemValue, Error>(
                Error { kind: ErrorKind::Read, call: Call::ElemRead, code: status },
            ),
            status >= 0 ==> r == Ok::<ElemValue, Error>(value),
    {
        if status < 0 {
            Err(Error { kind: ErrorKind::Read, call: Call::ElemRead, code: status })
        } else {
            Ok(value)
        }
    }

    /// Takes the status of the native write on this element and says whether
    /// the write changed the value on the device: a positive status means that
    /// it did, zero that the device held the value already.
    pub fn write(&self, status: i32) -> (r: Result<bool, Error>)
        ensures
            status < 0 ==> r == Err::<bool, Error>(
                Error { kind: ErrorKind::Write, call: Call::ElemWrite, code: status },
            ),
            status >= 0 ==> r == Ok::<bool, Error>(status > 0),
    {
        if status < 0 {
            Err(Error { kind: ErrorKind::Write, call: Call::ElemWrite, code: status })
        } else {
            Ok(status > 0)
        }
    }
}

/// What a metadata query amounts to: the failure where the status is negative,
/// else the metadata as the native layer filled it in.
pub open spec fn info_outcome(status: i32, info: ElemInfo) -> Result<ElemInfo, Error> {
    if status < 0 {
        Err(Error { kind: ErrorKind::Query, call: Call::ElemInfo, code: status })
    } else {
        Ok(info)
    }
}

/// Asking twice gives the same: where the native layer reports the same type
/// and count on two queries that both succeed, the two results name the same
/// type and the same count.
pub proof fn lemma_info_repeats(first: i32, reported: ElemInfo, second: i32, again: ElemInfo)
    requires
        first >= 0,
        second >= 0,
        reported.value_type == again.value_type,
        reported.count == again.count,
    ensures
        info_outcome(first, reported) matches Ok(a) && info_outcome(second, again) matches Ok(b)
            && a.value_type == b.value_type && a.count == b.count,
{
}

} // verus!
