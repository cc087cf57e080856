//! A handle paired with its description, the ordering check between two of
//! them, and the errors that the checks raise.

use crate::arena::{Arena, ArenaEntity, BadHandle, ArenaKind, Handle};
use crate::describe::{decimal, decimal_string, ErasedDescription, HandleDescription};
use vstd::prelude::*;
use vstd::string::StringExecFns;

verus! {

/// What a diagnostic says of one handle: its ordinal and the text of its
/// description.
pub struct DescriptorView {
    pub ordinal: nat,
    pub text: Seq<char>,
}

/// A handle and a description of what it denotes.
#[derive(Debug, PartialEq, Eq)]
pub struct HandleDescriptor<T, D> {
    pub handle: Handle<T>,
    pub description: D,
}

impl<T, D: Clone> Clone for HandleDescriptor<T, D> {
    fn clone(&self) -> (copy: Self)
        ensures
            copy.handle == self.handle,
    {
        HandleDescriptor { handle: self.handle, description: self.description.clone() }
    }
}

impl<T, D: Copy> Copy for HandleDescriptor<T, D> {

}

impl<T, D: HandleDescription> View for HandleDescriptor<T, D> {
    type V = DescriptorView;

    open spec fn view(&self) -> DescriptorView {
        DescriptorView { ordinal: self.handle@, text: self.description.text() }
    }
}

impl DescriptorView {
    /// The description followed by the handle in parentheses.
    pub open spec fn rendered(self) -> Seq<char> {
        self.text + " (handle "@ + decimal(self.ordinal) + ")"@
    }
}

impl<T, D> HandleDescriptor<T, D> {
    /// Pairs `handle` with `description`.
    pub fn new(handle: Handle<T>, description: D) -> (descriptor: Self)
        ensures
            descriptor.handle == handle,
            descriptor.description == description,
    {
        Self { handle, description }
    }

    /// The description, to change it in place.
    pub fn description_mut(&mut self) -> (description: &mut D)
        ensures
            *description == old(self).description,
            final(self).description == *final(description),
            final(self).handle == old(self).handle,
    {
        &mut self.description
    }
}

/// A reference to an entity that was not defined before its user.
#[derive(Clone, Debug, PartialEq, Eq)]
pub struct FwdDepError {
    /// The entity that does the referencing.
    pub subject: HandleDescriptor<(), ErasedDescription>,
    /// The entity that is referenced.
    pub depends_on: HandleDescriptor<(), ErasedDescription>,
}

/// The two descriptors that a forward-dependency error names.
pub struct FwdDepView {
    pub subject: DescriptorView,
    pub depends_on: DescriptorView,
}

impl View for FwdDepError {
    type V = FwdDepView;

    open spec fn view(&self) -> FwdDepView {
        FwdDepView { subject: self.subject@, depends_on: self.depends_on@ }
    }
}

impl FwdDepView {
    /// The message of a forward-dependency error.
    pub open spec fn rendered(self) -> Seq<char> {
        self.subject.rendered() + " depends on "@ + self.depends_on.rendered()
            + ", which has not been processed yet"@
    }
}

impl<T, D: HandleDescription> HandleDescriptor<T, D> {
    /// Checks that the handle names an entity of `arena`.
    pub fn check_valid_for(self, arena: &Arena<T>) -> (checked: Result<Self, InvalidHandleError>)
        where T: ArenaEntity
        ensures
            arena.has(self.handle) <==> checked is Ok,
            checked matches Ok(same) ==> same == self,
            checked matches Err(e) ==> e@ == (HandleErrorView::Bad {
                kind: T::arena_kind_spec(),
                ordinal: self.handle@,
            }),
    {
        match arena.check_contains_handle(self.handle) {
            Ok(()) => Ok(self),
            Err(bad) => Err(InvalidHandleError::Bad(bad)),
        }
    }

    /// Checks that `depends_on` was defined strictly before `self`, both
    /// handles taken from the same arena. A handle does not precede itself.
    pub fn check_dep<D2: HandleDescription>(self, depends_on: HandleDescriptor<T, D2>) -> (checked:
        Result<Self, FwdDepError>)
        ensures
            depends_on.handle@ < self.handle@ <==> checked is Ok,
            checked matches Ok(same) ==> same == self,
            checked matches Err(e) ==> e@ == (FwdDepView {
                subject: self@,
                depends_on: depends_on@,
            }),
    {
        if depends_on.handle.precedes(self.handle) {
            Ok(self)
        } else {
            Err(FwdDepError { subject: self.into_erased(), depends_on: depends_on.into_erased() })
        }
    }

    /// Like `check_dep`, for a dependency that may be absent: absence passes.
    pub fn check_dep_opt<D2: HandleDescription>(
        self,
        depends_on: Option<HandleDescriptor<T, D2>>,
    ) -> (checked: Result<Self, FwdDepError>)
        ensures
            (depends_on matches Some(dep) ==> dep.handle@ < self.handle@) <==> checked is Ok,
            checked matches Ok(same) ==> same == self,
            checked matches Err(e) ==> depends_on is Some && e@ == (FwdDepView {
                subject: self@,
                depends_on: depends_on->0@,
            }),
    {
        if let Some(depends_on) = depends_on {
            self.check_dep(depends_on)
        } else {
            Ok(self)
        }
    }

    /// The same descriptor in the form that errors hold: the ordinal and the
    /// text stay.
    pub fn into_erased(self) -> (erased: HandleDescriptor<(), ErasedDescription>)
        ensures
            erased@ == self@,
    {
        let Self { handle, description } = self;
        HandleDescriptor { handle: handle.erase(), description: description.into_erased() }
    }

    /// Ends a chain of checks on this descriptor with success.
    pub fn ok(self) -> (done: Result<(), InvalidHandleError>)
        ensures
            done is Ok,
    {
        Ok(())
    }

    /// Writes the descriptor as it stands in a diagnostic.
    pub fn render(&self) -> (rendered: String)
        ensures
            rendered@ == self@.rendered(),
    {
        let mut rendered = self.description.render();
        rendered.append(" (handle ");
        let ordinal = decimal_string(self.handle.ordinal());
        rendered.append(ordinal.as_str());
        rendered.append(")");
        assert(rendered@ =~= self@.rendered());
        rendered
    }
}

impl FwdDepError {
    /// The message of the error.
    pub fn render(&self) -> (rendered: String)
        ensures
            rendered@ == self@.rendered(),
    {
        let mut rendered = self.subject.render();
        rendered.append(" depends on ");
        let depends_on = self.depends_on.render();
        rendered.append(depends_on.as_str());
        rendered.append(", which has not been processed yet");
        assert(rendered@ =~= self@.rendered());
        rendered
    }
}

/// Why a module's handles are not valid.
#[derive(Clone, Debug, PartialEq, Eq)]
pub enum InvalidHandleError {
    /// A handle names no entity of the arena it is looked up in.
    Bad(BadHandle),
    /// A handle names an entity that is not defined before its user.
    ForwardDependency(FwdDepError),
}

/// What an error says, with descriptions taken by their text.
pub enum HandleErrorView {
    Bad { kind: ArenaKind, ordinal: nat },
    ForwardDependency { subject: DescriptorView, depends_on: DescriptorView },
}

impl View for InvalidHandleError {
    type V = HandleErrorView;

    open spec fn view(&self) -> HandleErrorView {
        match self {
            InvalidHandleError::Bad(bad) => HandleErrorView::Bad {
                kind: bad.kind,
                ordinal: bad.ordinal as nat,
            },
            InvalidHandleError::ForwardDependency(e) => HandleErrorView::ForwardDependency {
                subject: e.subject@,
                depends_on: e.depends_on@,
            },
        }
    }
}

/// The message of a bad-handle error: the ordinal and the arena.
pub open spec fn bad_handle_rendered(kind: ArenaKind, ordinal: nat) -> Seq<char> {
    "Handle "@ + decimal(ordinal) + " of "@ + kind.name_spec()
        + " is either not present, or inaccessible yet"@
}

impl BadHandle {
    /// The message of the error.
    pub fn render(&self) -> (rendered: String)
        ensures
            rendered@ == bad_handle_rendered(self.kind, self.ordinal as nat),
    {
        let mut rendered = String::from_str("Handle ");
        let ordinal = decimal_string(self.ordinal);
        rendered.append(ordinal.as_str());
        rendered.append(" of ");
        rendered.append(self.kind.name());
        rendered.append(" is either not present, or inaccessible yet");
        assert(rendered@ =~= bad_handle_rendered(self.kind, self.ordinal as nat));
        rendered
    }
}

impl HandleErrorView {
    /// The message of the error: that of the bad handle or of the forward
    /// dependency it wraps.
    pub open spec fn rendered(self) -> Seq<char> {
        match self {
            HandleErrorView::Bad { kind, ordinal } => bad_handle_rendered(kind, ordinal),
            HandleErrorView::ForwardDependency { subject, depends_on } => (FwdDepView {
                subject,
                depends_on,
            }).rendered(),
        }
    }
}

impl InvalidHandleError {
    /// The message of the error. Errors with the same view have the same
    /// message.
    pub fn render(&self) -> (rendered: String)
        ensures
            rendered@ == self@.rendered(),
    {
        match self {
            InvalidHandleError::Bad(bad) => bad.render(),
            InvalidHandleError::ForwardDependency(error) => error.render(),
        }
    }
}

impl From<BadHandle> for InvalidHandleError {
    fn from(bad: BadHandle) -> (error: Self) {
        InvalidHandleError::Bad(bad)
    }
}

impl vstd::std_specs::convert::FromSpecImpl<BadHandle> for InvalidHandleError {
    open spec fn obeys_from_spec() -> bool {
        true
    }

    open spec fn from_spec(bad: BadHandle) -> Self {
        InvalidHandleError::Bad(bad)
    }
}

impl From<FwdDepError> for InvalidHandleError {
    fn from(error: FwdDepError) -> (wrapped: Self) {
        InvalidHandleError::ForwardDependency(error)
    }
}

impl vstd::std_specs::convert::FromSpecImpl<FwdDepError> for InvalidHandleError {
    open spec fn obeys_from_spec() -> bool {
        true
    }

    open spec fn from_spec(error: FwdDepError) -> Self {
        InvalidHandleError::ForwardDependency(error)
    }
}

} // verus!
