//! Decisions on what the token hands back.
use vstd::prelude::*;

use cryptoki::slot::Slot;

use crate::error::RunError;

verus! {

/// An attribute read from a key: its value bytes, or an attribute of another kind.
#[derive(Debug, Clone, PartialEq, Eq)]
pub enum KeyAttribute {
    /// The key's value.
    Value(Vec<u8>),
    /// Any other attribute.
    Other,
}

/// Picks the first slot that holds a token. With none, the run cannot go on.
pub fn first_slot(slots: &Vec<Slot>) -> (r: Result<Slot, RunError>)
    ensures
        slots@.len() == 0 ==> r == Err::<Slot, RunError>(RunError::SlotUnavailable),
        slots@.len() > 0 ==> r == Ok::<Slot, RunError>(slots@[0]),
{
    if slots.len() == 0 {
        Err(RunError::SlotUnavailable)
    } else {
        Ok(slots[0])
    }
}

/// The bytes of a key's value, when the attributes read are exactly one value attribute.
pub open spec fn sole_value(attrs: Seq<KeyAttribute>) -> Option<Seq<u8>> {
    if attrs.len() == 1 && attrs[0] is Value {
        Some(attrs[0]->Value_0@)
    } else {
        None
    }
}

/// Takes the key's value out of the attributes read for it; any other shape
/// is a mismatch.
pub fn key_value(attrs: Vec<KeyAttribute>) -> (r: Result<Vec<u8>, RunError>)
    ensures
        sole_value(attrs@) matches Some(v) ==> (r matches Ok(b) && b@ == v),
        sole_value(attrs@) is None ==> r == Err::<Vec<u8>, RunError>(
            RunError::AttributeShapeMismatch,
        ),
{
    let mut attrs = attrs;
    if attrs.len() != 1 {
        return Err(RunError::AttributeShapeMismatch);
    }
    match attrs.pop() {
        Some(KeyAttribute::Value(bytes)) => Ok(bytes),
        _ => Err(RunError::AttributeShapeMismatch),
    }
}

} // verus!
