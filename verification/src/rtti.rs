//! Runtime type information of engine objects, obtained at creation time.

use vstd::prelude::*;

verus! {

/// The engine's identity of an object. It may refer to an object that is dead.
#[derive(Clone, Copy, Debug, PartialEq, Eq, Structural)]
pub struct InstanceId {
    pub value: u64,
}

/// The identity of a class: its index in the engine's table of class names.
#[derive(Clone, Copy, Debug, PartialEq, Eq, Structural)]
pub struct ClassName {
    pub index: u32,
}

/// A type that stands for a class of the engine.
pub trait GodotClass {
    /// The class that this type stands for.
    spec fn class_id() -> ClassName;

    fn class_name() -> (name: ClassName)
        ensures
            name == Self::class_id(),
    ;
}

/// The question to put to the engine's class registry before a handle is
/// narrowed: is `derived` the class `base`, or one that inherits from it?
#[derive(Clone, Copy, Debug, PartialEq, Eq, Structural)]
pub struct InheritanceQuery {
    pub derived: ClassName,
    pub base: ClassName,
}

/// A handle was narrowed to a class that its object does not have.
#[derive(Clone, Copy, Debug, PartialEq, Eq, Structural)]
pub struct TypeMismatch {
    /// The object.
    pub instance_id: InstanceId,
    /// The class with which the object was created.
    pub actual: ClassName,
    /// The class that the handle was narrowed to.
    pub expected: ClassName,
}

/// Object runtime type information, obtained at creation time.
///
/// It records how an engine-managed object was created, independently of the
/// static type of its handle, for sanity checks at run time.
#[derive(Debug)]
pub struct ObjectRtti {
    /// Cached instance ID. May point to dead objects.
    pub instance_id: InstanceId,
    /// The dynamic class, where type diagnostics are on; `None` where they
    /// are off.
    pub class_name: Option<ClassName>,
}

impl ObjectRtti {
    /// The record of an object `instance_id` created as `class`, with or
    /// without type diagnostics.
    pub open spec fn created(instance_id: InstanceId, class: ClassName, diagnostics: bool) -> Self {
        ObjectRtti { instance_id, class_name: if diagnostics { Some(class) } else { None } }
    }

    /// The question that a cast to `base` raises: none where no class was
    /// recorded, and none where the recorded class is `base` itself.
    pub open spec fn query_for(self, base: ClassName) -> Option<InheritanceQuery> {
        match self.class_name {
            Some(derived) if derived != base => Some(InheritanceQuery { derived, base }),
            _ => None,
        }
    }

    /// Whether a cast to `expected` passes, where the registry's answer to
    /// the question that it raises is `inherits`.
    pub open spec fn admits(self, expected: ClassName, inherits: bool) -> bool {
        match self.class_name {
            Some(actual) => actual == expected || inherits,
            None => true,
        }
    }

    /// The outcome of a cast to `expected`: the instance ID where the cast
    /// passes, else the object and both classes.
    pub open spec fn outcome(self, expected: ClassName, inherits: bool) -> Result<
        InstanceId,
        TypeMismatch,
    > {
        match self.class_name {
            Some(actual) if !(actual == expected || inherits) => Err(
                TypeMismatch { instance_id: self.instance_id, actual, expected },
            ),
            _ => Ok(self.instance_id),
        }
    }

    /// Creates the record of an object that is known to have class `T`.
    ///
    /// The class is recorded only if `diagnostics` is set.
    pub fn of<T: GodotClass>(instance_id: InstanceId, diagnostics: bool) -> (rtti: Self)
        ensures
            rtti == Self::created(instance_id, T::class_id(), diagnostics),
    {
        let class_name = if diagnostics {
            Some(T::class_name())
        } else {
            None
        };
        ObjectRtti { instance_id, class_name }
    }

    /// Says what the class registry must be asked before the handle is
    /// narrowed to `T`, if anything.
    pub fn inheritance_query<T: GodotClass>(&self) -> (query: Option<InheritanceQuery>)
        ensures
            query == self.query_for(T::class_id()),
    {
        match self.class_name {
            Some(derived) => {
                let base = T::class_name();
                if derived == base {
                    None
                } else {
                    Some(InheritanceQuery { derived, base })
                }
            },
            None => None,
        }
    }

    /// Checks that the object is of class `T` or derived, and returns the
    /// instance ID.
    ///
    /// `inherits` is the registry's answer to [`ObjectRtti::inheritance_query`];
    /// where there was nothing to ask, it is ignored. The cast must pass:
    /// [`ObjectRtti::try_check_type`] is for a caller that cannot show it.
    pub fn check_type<T: GodotClass>(&self, inherits: bool) -> (id: InstanceId)
        requires
            self.admits(T::class_id(), inherits),
        ensures
            id == self.instance_id,
            self.outcome(T::class_id(), inherits) == Ok::<InstanceId, TypeMismatch>(id),
    {
        self.instance_id
    }

    /// Checks that the object is of class `T` or derived. Returns the
    /// instance ID if it is, and else an error that names the object, its
    /// class and `T`.
    pub fn try_check_type<T: GodotClass>(&self, inherits: bool) -> (result: Result<
        InstanceId,
        TypeMismatch,
    >)
        ensures
            result == self.outcome(T::class_id(), inherits),
            result is Ok <==> self.admits(T::class_id(), inherits),
    {
        match self.class_name {
            Some(actual) => {
                let expected = T::class_name();
                if actual == expected || inherits {
                    Ok(self.instance_id)
                } else {
                    Err(TypeMismatch { instance_id: self.instance_id, actual, expected })
                }
            },
            None => Ok(self.instance_id),
        }
    }

    /// A cast to the class with which the object was created passes,
    /// whatever the registry says.
    pub proof fn lemma_cast_to_own_class_passes(
        instance_id: InstanceId,
        class: ClassName,
        diagnostics: bool,
        inherits: bool,
    )
        ensures
            Self::created(instance_id, class, diagnostics).query_for(class) is None,
            Self::created(instance_id, class, diagnostics).admits(class, inherits),
            Self::created(instance_id, class, diagnostics).outcome(class, inherits) == Ok::<
                InstanceId,
                TypeMismatch,
            >(instance_id),
    {
    }

    /// A cast to a class from which the object's class inherits passes.
    pub proof fn lemma_cast_to_base_class_passes(
        instance_id: InstanceId,
        derived: ClassName,
        base: ClassName,
        diagnostics: bool,
    )
        ensures
            Self::created(instance_id, derived, diagnostics).admits(base, true),
            Self::created(instance_id, derived, diagnostics).outcome(base, true) == Ok::<
                InstanceId,
                TypeMismatch,
            >(instance_id),
    {
    }

    /// With diagnostics on, a cast to another class from which the object's
    /// class does not inherit fails, and the error holds the instance ID and
    /// both classes.
    pub proof fn lemma_cast_to_unrelated_class_fails(
        instance_id: InstanceId,
        actual: ClassName,
        expected: ClassName,
    )
        requires
            actual != expected,
        ensures
            Self::created(instance_id, actual, true).query_for(expected) == Some(
                InheritanceQuery { derived: actual, base: expected },
            ),
            !Self::created(instance_id, actual, true).admits(expected, false),
            Self::created(instance_id, actual, true).outcome(expected, false) == Err::<
                InstanceId,
                TypeMismatch,
            >(TypeMismatch { instance_id, actual, expected }),
    {
    }

    /// With diagnostics off, every cast passes and nothing is asked.
    pub proof fn lemma_cast_without_diagnostics_passes(
        instance_id: InstanceId,
        actual: ClassName,
        expected: ClassName,
        inherits: bool,
    )
        ensures
            Self::created(instance_id, actual, false).query_for(expected) is None,
            Self::created(instance_id, actual, false).admits(expected, inherits),
            Self::created(instance_id, actual, false).outcome(expected, inherits) == Ok::<
                InstanceId,
                TypeMismatch,
            >(instance_id),
    {
    }
}

} // verus!
