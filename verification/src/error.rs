//! Native status codes and the failures they become.

use vstd::prelude::*;

verus! {

/// A function of the native library whose status is interpreted here.
#[derive(Clone, Copy, Debug, PartialEq, Eq, Structural)]
pub enum Call {
    HctlOpen,
    HctlLoad,
    ElemIdMalloc,
    ElemInfoMalloc,
    ElemInfo,
    ElemValueMalloc,
    ElemRead,
    ElemWrite,
}

impl Call {
    /// The symbol under which the native library exports the function.
    pub open spec fn symbol(self) -> Seq<char> {
        match self {
            Call::HctlOpen => "snd_hctl_open"@,
            Call::HctlLoad => "snd_hctl_load"@,
            Call::ElemIdMalloc => "snd_ctl_elem_id_malloc"@,
            Call::ElemInfoMalloc => "snd_ctl_elem_info_malloc"@,
            Call::ElemInfo => "snd_hctl_elem_info"@,
            Call::ElemValueMalloc => "snd_ctl_elem_value_malloc"@,
            Call::ElemRead => "snd_hctl_elem_read"@,
            Call::ElemWrite => "snd_hctl_elem_write"@,
        }
    }

    /// The native function's name, as failures report it.
    pub fn name(self) -> (s: &'static str)
        ensures
            s@ == self.symbol(),
    {
        match self {
            Call::HctlOpen => "snd_hctl_open",
            Call::HctlLoad => "snd_hctl_load",
            Call::ElemIdMalloc => "snd_ctl_elem_id_malloc",
            Call::ElemInfoMalloc => "snd_ctl_elem_info_malloc",
            Call::ElemInfo => "snd_hctl_elem_info",
            Call::ElemValueMalloc => "snd_ctl_elem_value_malloc",
            Call::ElemRead => "snd_hctl_elem_read",
            Call::ElemWrite => "snd_hctl_elem_write",
        }
    }
}

/// The operation of the binding that failed.
#[derive(Clone, Copy, Debug, PartialEq, Eq, Structural)]
pub enum ErrorKind {
    /// Opening a device.
    Open,
    /// Loading the element directory.
    Load,
    /// Asking for an element's identity or metadata.
    Query,
    /// Reading an element's value, the metadata query before it included.
    Read,
    /// Writing an element's value.
    Write,
}

/// A failure of the native layer: the operation it ended, the native function
/// that reported it and the status that function returned.
#[derive(Clone, Copy, Debug, PartialEq, Eq, Structural)]
pub struct Error {
    pub kind: ErrorKind,
    pub call: Call,
    pub code: i32,
}

/// What a native status means: a negative one is a failure that carries it, any
/// other is handed on unchanged.
pub open spec fn checked(kind: ErrorKind, call: Call, status: i32) -> Result<i32, Error> {
    if status < 0 {
        Err(Error { kind, call, code: status })
    } else {
        Ok(status)
    }
}

/// Interprets the status that `call` returned while `kind` was under way.
pub fn check(kind: ErrorKind, call: Call, status: i32) -> (r: Result<i32, Error>)
    ensures
        r == checked(kind, call, status),
{
    if status < 0 {
        Err(Error { kind, call, code: status })
    } else {
        Ok(status)
    }
}

} // verus!
