//! The referential checks that validation makes, as mathematical values, and
//! what the first failure among a sequence of them is.

use crate::arena::ArenaKind;
use crate::descriptor::{DescriptorView, HandleErrorView};
use vstd::prelude::*;

verus! {

/// One check that validation makes of one reference.
pub enum Check {
    /// A reference into another arena: the arena of `kind`, which holds `len`
    /// entities, must hold the entity of `ordinal`.
    Exists { kind: ArenaKind, len: nat, ordinal: nat },
    /// A reference within one arena: `depends_on` must be an entity of the
    /// arena of `kind`, which holds `len` entities, and must have been
    /// defined strictly before `subject`.
    Precedes { kind: ArenaKind, len: nat, subject: DescriptorView, depends_on: DescriptorView },
    /// An optional reference that is absent.
    Nothing,
}

impl Check {
    /// Whether the reference is well-formed.
    pub open spec fn holds(self) -> bool {
        match self {
            Check::Exists { kind, len, ordinal } => 1 <= ordinal <= len,
            Check::Precedes { kind, len, subject, depends_on } => {
                &&& 1 <= depends_on.ordinal <= len
                &&& depends_on.ordinal < subject.ordinal
            },
            Check::Nothing => true,
        }
    }

    /// The error that the check raises, if it fails. A handle that names no
    /// entity is a bad handle, whichever arena it is looked up in; a handle
    /// that names an entity defined with or after its user is a forward
    /// dependency.
    pub open spec fn error(self) -> Option<HandleErrorView> {
        match self {
            Check::Exists { kind, len, ordinal } => if 1 <= ordinal <= len {
                None
            } else {
                Some(HandleErrorView::Bad { kind, ordinal })
            },
            Check::Precedes { kind, len, subject, depends_on } => if !(1 <= depends_on.ordinal
                <= len) {
                Some(HandleErrorView::Bad { kind, ordinal: depends_on.ordinal })
            } else if !(depends_on.ordinal < subject.ordinal) {
                Some(HandleErrorView::ForwardDependency { subject, depends_on })
            } else {
                None
            },
            Check::Nothing => None,
        }
    }
}

/// The first error among `errors[start..]`, if there is any.
pub open spec fn first_some_from(errors: Seq<Option<HandleErrorView>>, start: int) -> Option<
    HandleErrorView,
>
    decreases errors.len() - start,
{
    if start < 0 || start >= errors.len() {
        None
    } else if errors[start] is Some {
        errors[start]
    } else {
        first_some_from(errors, start + 1)
    }
}

/// The first error among `errors`, if there is any.
pub open spec fn first_some(errors: Seq<Option<HandleErrorView>>) -> Option<HandleErrorView> {
    first_some_from(errors, 0)
}

/// The error of each check, in the order of the checks.
pub open spec fn errors_of(checks: Seq<Check>) -> Seq<Option<HandleErrorView>> {
    Seq::new(checks.len(), |k: int| checks[k].error())
}

/// What a run of `checks` in order reports: the error of the first check
/// that fails.
pub open spec fn first_error(checks: Seq<Check>) -> Option<HandleErrorView> {
    first_some(errors_of(checks))
}

/// A check raises an error exactly when it does not hold.
pub proof fn check_fails_iff_not_holds(check: Check)
    ensures
        check.error() is None <==> check.holds(),
{
}

/// Where `errors[at]` is an error and nothing from `start` up to `at` is,
/// the first error from `start` on is `errors[at]`.
pub proof fn first_some_from_is_at(errors: Seq<Option<HandleErrorView>>, start: int, at: int)
    requires
        0 <= start <= at < errors.len(),
        errors[at] is Some,
        forall|j: int| start <= j < at ==> errors[j] is None,
    ensures
        first_some_from(errors, start) == errors[at],
    decreases at - start,
{
    if start < at {
        first_some_from_is_at(errors, start + 1, at);
    }
}

/// Where nothing from `start` on is an error, there is no first error.
pub proof fn first_some_from_is_none(errors: Seq<Option<HandleErrorView>>, start: int)
    requires
        0 <= start,
        forall|j: int| start <= j < errors.len() ==> errors[j] is None,
    ensures
        first_some_from(errors, start) is None,
    decreases errors.len() - start,
{
    if start < errors.len() {
        first_some_from_is_none(errors, start + 1);
    }
}

/// Where some position from `start` on holds an error, there is a first one.
pub proof fn first_some_from_finds(errors: Seq<Option<HandleErrorView>>, start: int, at: int)
    requires
        0 <= start <= at < errors.len(),
        errors[at] is Some,
    ensures
        first_some_from(errors, start) is Some,
    decreases at - start,
{
    if start < at && errors[start] is None {
        first_some_from_finds(errors, start + 1, at);
    }
}

/// There is no first error exactly when no position holds one.
pub proof fn first_some_is_none_iff(errors: Seq<Option<HandleErrorView>>)
    ensures
        first_some(errors) is None <==> forall|i: int|
            0 <= i < errors.len() ==> (#[trigger] errors[i]) is None,
{
    if forall|i: int| 0 <= i < errors.len() ==> (#[trigger] errors[i]) is None {
        first_some_from_is_none(errors, 0);
    } else {
        let at = choose|i: int| 0 <= i < errors.len() && (#[trigger] errors[i]) is Some;
        first_some_from_finds(errors, 0, at);
    }
}

} // verus!
