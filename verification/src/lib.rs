//! Decision core of a binding to the hardware control (HCtl) interface of a
//! native sound library.
//!
//! Nothing here talks to the native library. Each operation of the binding is
//! split where the native call stands: the session, the enumerator and the
//! element handle say what is to be asked of the native layer, and they take
//! what it answered (a status code, an address, a record of plain values) and
//! turn it into the next state and the result for the caller. The caller that
//! owns the native library performs the call in between.
//!
//! Native objects are known here by their address alone, a `usize` in which
//! zero is the null address.

pub mod directory;
pub mod elem;
pub mod error;
pub mod session;
pub mod value;

pub use elem::{Cursor, Elem, ElemIter, Fetch};
pub use error::{check, Call, Error, ErrorKind};
pub use session::{HCtl, Phase};
pub use value::{ElemId, ElemInfo, ElemType, ElemValue};
