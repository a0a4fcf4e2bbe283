//! Late-initialized fields and runtime type provenance for handles to
//! engine-owned objects.
//!
//! [`OnReady`] is a single-slot container that is filled exactly once, either
//! by its own initializer when the lifecycle driver triggers it, or by a value
//! that the owner supplies. [`ObjectRtti`] records how an engine object was
//! created, so that a narrowing cast of its handle can be held against that
//! record.
//!
//! Whatever the engine would answer with a fatal error is a precondition here:
//! the functions of this crate never panic on inputs that meet their
//! `requires`.

pub mod onready;
pub mod property;
pub mod rtti;

pub use onready::{Misuse, OnReady, Slot};
pub use property::{Export, Property, PropertyHintInfo};
pub use rtti::{ClassName, GodotClass, InheritanceQuery, InstanceId, ObjectRtti, TypeMismatch};
