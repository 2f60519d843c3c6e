use vstd::prelude::*;

verus! {

/// A stable diagnostic code identifying a well-known failure class.
///
/// No classification rule produces a code yet. The enumeration is kept
/// separate from the suggestion catalog so that future failure families
/// can attach a code without disturbing the suggestions; a code, when one
/// exists, implies nothing about which suggestion accompanies it.
#[derive(Debug, Clone, PartialEq, Eq)]
pub enum Code {
    /// Reserved entry that keeps the catalog non-empty until real codes
    /// are added; no classification rule assigns it.
    Reserved,
}

} // verus!
