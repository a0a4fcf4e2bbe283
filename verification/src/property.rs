//! The property capabilities that a field type may offer to the engine.

use vstd::prelude::*;

verus! {

/// How the engine's editor should present a property.
pub struct PropertyHintInfo {
    /// The engine's number for the kind of hint.
    pub hint: i32,
    /// The hint's parameters, in the engine's own notation.
    pub hint_string: String,
}

/// A value that the engine can read and write as a property.
pub trait Property {
    /// The form in which the engine sees the value.
    type Intermediate;

    fn get_property(&self) -> Self::Intermediate;

    fn set_property(&mut self, value: Self::Intermediate);

    fn property_hint() -> PropertyHintInfo;
}

/// A property that can be exported to the engine's editor.
pub trait Export: Property {
    fn default_export_info() -> PropertyHintInfo;
}

} // verus!
