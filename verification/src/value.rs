//! The records of an element as plain values: identity, metadata, value buffer.

use vstd::prelude::*;

verus! {

/// The type of the values that an element holds.
#[derive(Clone, Copy, Debug, PartialEq, Eq, Structural)]
pub enum ElemType {
    Invalid,
    Boolean,
    Integer,
    Enumerated,
    Bytes,
    Iec958,
    Integer64,
}

impl ElemType {
    /// The number by which the native layer knows the type.
    pub open spec fn number(self) -> u32 {
        match self {
            ElemType::Invalid => 0,
            ElemType::Boolean => 1,
            ElemType::Integer => 2,
            ElemType::Enumerated => 3,
            ElemType::Bytes => 4,
            ElemType::Iec958 => 5,
            ElemType::Integer64 => 6,
        }
    }

    /// The native number of the type.
    pub fn code(self) -> (c: u32)
        ensures
            c == self.number(),
    {
        match self {
            ElemType::Invalid => 0,
            ElemType::Boolean => 1,
            ElemType::Integer => 2,
            ElemType::Enumerated => 3,
            ElemType::Bytes => 4,
            ElemType::Iec958 => 5,
            ElemType::Integer64 => 6,
        }
    }

    /// The type that the native layer knows by `code`, if there is one.
    pub fn from_code(code: u32) -> (r: Option<ElemType>)
        ensures
            code <= 6 ==> (r matches Some(t) && t.number() == code),
            code > 6 ==> r is None,
    {
        match code {
            0 => Some(ElemType::Invalid),
            1 => Some(ElemType::Boolean),
            2 => Some(ElemType::Integer),
            3 => Some(ElemType::Enumerated),
            4 => Some(ElemType::Bytes),
            5 => Some(ElemType::Iec958),
            6 => Some(ElemType::Integer64),
            _ => None,
        }
    }
}

/// The identity of an element: what names it within a session's directory.
/// Nothing here looks inside it; it is carried from the native layer to the
/// caller as it came.
#[derive(Clone, Debug, PartialEq, Eq)]
pub struct ElemId {
    pub numid: u32,
    pub interface: u32,
    pub device: u32,
    pub subdevice: u32,
    pub name: String,
    pub index: u32,
}

/// The metadata of an element: the type of its values and how many it holds.
#[derive(Clone, Copy, Debug, PartialEq, Eq, Structural)]
pub struct ElemInfo {
    pub value_type: ElemType,
    pub count: u32,
}

/// The value of an element: a typed buffer whose length is fixed when it is
/// made.
#[derive(Clone, Debug, PartialEq, Eq)]
pub struct ElemValue {
    value_type: ElemType,
    values: Vec<i64>,
}

/// What an [`ElemValue`] stands for: its type and its values in order.
pub struct ElemValueView {
    pub value_type: ElemType,
    pub values: Seq<i64>,
}

/// A buffer of `count` zeros of type `value_type`.
pub open spec fn blank(value_type: ElemType, count: nat) -> ElemValueView {
    ElemValueView { value_type, values: Seq::new(count, |i: int| 0i64) }
}

impl View for ElemValue {
    type V = ElemValueView;

    closed spec fn view(&self) -> ElemValueView {
        ElemValueView { value_type: self.value_type, values: self.values@ }
    }
}

impl ElemValue {
    /// A buffer for `count` values of type `value_type`, all zero.
    pub fn new(value_type: ElemType, count: u32) -> (v: ElemValue)
        ensures
            v@ == blank(value_type, count as nat),
    {
        let mut values: Vec<i64> = Vec::new();
        let mut filled: u32 = 0;
        while filled < count
            invariant
                filled <= count,
                values@ == Seq::new(filled as nat, |i: int| 0i64),
            decreases count - filled,
        {
            values.push(0);
            filled = filled + 1;
        }
        ElemValue { value_type, values }
    }

    /// The type of the values.
    pub fn value_type(&self) -> (t: ElemType)
        ensures
            t == self@.value_type,
    {
        self.value_type
    }

    /// The number of values.
    pub fn count(&self) -> (n: usize)
        ensures
            n == self@.values.len(),
    {
        self.values.len()
    }

    /// The value at `idx`, if the buffer is that long.
    pub fn get(&self, idx: usize) -> (r: Option<i64>)
        ensures
            r == (if idx < self@.values.len() {
                Some(self@.values[idx as int])
            } else {
                None
            }),
    {
        if idx < self.values.len() {
            Some(self.values[idx])
        } else {
            None
        }
    }

    /// Stores `value` at `idx` if the buffer is that long, and says whether it
    /// did. The type and the length never change.
    pub fn set(&mut self, idx: usize, value: i64) -> (stored: bool)
        ensures
            stored == (idx < old(self)@.values.len()),
            final(self)@ == (if stored {
                (ElemValueView {
                    value_type: old(self)@.value_type,
                    values: old(self)@.values.update(idx as int, value),
                })
            } else {
                old(self)@
            }),
    {
        if idx < self.values.len() {
            self.values.set(idx, value);
            true
        } else {
            false
        }
    }
}

} // verus!
