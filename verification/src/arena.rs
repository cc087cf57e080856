//! Handles and the append-only arenas they index.

use core::marker::PhantomData;
use vstd::prelude::*;

verus! {

/// The collections of a module that handles can point into.
#[derive(Clone, Copy, Debug, PartialEq, Eq, Structural)]
pub enum ArenaKind {
    Types,
    Constants,
    GlobalVariables,
    Functions,
    LocalVariables,
    Expressions,
}

impl ArenaKind {
    /// The name of the arena, as diagnostics give it.
    pub open spec fn name_spec(self) -> Seq<char> {
        match self {
            ArenaKind::Types => "types"@,
            ArenaKind::Constants => "constants"@,
            ArenaKind::GlobalVariables => "global variables"@,
            ArenaKind::Functions => "functions"@,
            ArenaKind::LocalVariables => "local variables"@,
            ArenaKind::Expressions => "expressions"@,
        }
    }

    /// The name of the arena, as diagnostics give it.
    pub fn name(self) -> (name: &'static str)
        ensures
            name@ == self.name_spec(),
    {
        match self {
            ArenaKind::Types => "types",
            ArenaKind::Constants => "constants",
            ArenaKind::GlobalVariables => "global variables",
            ArenaKind::Functions => "functions",
            ArenaKind::LocalVariables => "local variables",
            ArenaKind::Expressions => "expressions",
        }
    }
}

/// An entity kind that lives in an arena of its own.
pub trait ArenaEntity {
    /// The arena that holds entities of this kind.
    spec fn arena_kind_spec() -> ArenaKind;

    /// The arena that holds entities of this kind.
    fn arena_kind() -> (kind: ArenaKind)
        ensures
            kind == Self::arena_kind_spec(),
    ;
}

/// A typed, 1-based ordinal naming one entity of one arena.
///
/// The view of a handle is its ordinal. A handle carries no arena identity:
/// comparing handles of different arenas is meaningless.
#[derive(Debug, PartialEq, Eq)]
pub struct Handle<T> {
    ordinal: u32,
    marker: PhantomData<T>,
}

impl<T> View for Handle<T> {
    type V = nat;

    closed spec fn view(&self) -> nat {
        self.ordinal as nat
    }
}

impl<T> Clone for Handle<T> {
    fn clone(&self) -> (copy: Self)
        ensures
            copy == *self,
    {
        proof {
            use_type_invariant(self);
        }
        Handle { ordinal: self.ordinal, marker: PhantomData }
    }
}

impl<T> Copy for Handle<T> {

}

impl<T> Handle<T> {
    #[verifier::type_invariant]
    spec fn positive(self) -> bool {
        self.ordinal >= 1
    }

    /// The handle with the given ordinal; there is none with ordinal zero.
    pub fn new(ordinal: u32) -> (handle: Option<Self>)
        ensures
            ordinal == 0 <==> handle is None,
            handle matches Some(h) ==> h@ == ordinal,
    {
        if ordinal == 0 {
            None
        } else {
            Some(Handle { ordinal, marker: PhantomData })
        }
    }

    /// The position of the handle's entity in insertion order, counted from one.
    pub fn ordinal(self) -> (ordinal: u32)
        ensures
            ordinal == self@,
            ordinal >= 1,
    {
        proof {
            use_type_invariant(&self);
        }
        self.ordinal
    }

    /// The position of the handle's entity in insertion order, counted from zero.
    pub fn index(self) -> (index: usize)
        ensures
            index == self@ - 1,
    {
        proof {
            use_type_invariant(&self);
        }
        (self.ordinal - 1) as usize
    }

    /// Whether this handle's entity was defined strictly before `other`'s,
    /// both taken from the same arena.
    pub fn precedes(self, other: Handle<T>) -> (earlier: bool)
        ensures
            earlier == (self@ < other@),
    {
        self.ordinal < other.ordinal
    }

    /// The same ordinal, no longer tied to an entity kind.
    pub fn erase(self) -> (erased: Handle<()>)
        ensures
            erased@ == self@,
    {
        proof {
            use_type_invariant(&self);
        }
        Handle { ordinal: self.ordinal, marker: PhantomData }
    }
}

/// A region of source text, kept beside each entity for diagnostics.
#[derive(Clone, Copy, Debug, PartialEq, Eq, Structural)]
pub struct Span {
    pub start: u32,
    pub end: u32,
}

impl Span {
    /// The span from `start` to `end`.
    pub fn new(start: u32, end: u32) -> (span: Span)
        ensures
            span == (Span { start, end }),
    {
        Span { start, end }
    }
}

impl Default for Span {
    /// The empty span, for an entity that stands nowhere in a source.
    fn default() -> (span: Span)
        ensures
            span == (Span { start: 0, end: 0 }),
    {
        Span { start: 0, end: 0 }
    }
}

/// A handle that names no entity of the arena it was looked up in.
#[derive(Clone, Copy, Debug, PartialEq, Eq, Structural)]
pub struct BadHandle {
    /// The arena the handle was expected to belong to.
    pub kind: ArenaKind,
    /// The handle's raw ordinal.
    pub ordinal: u32,
}

/// An append-only collection of entities, each with a source span, addressed
/// by the handles it gives out.
///
/// The view of an arena is the sequence of its entities in insertion order;
/// the entity of handle `h` is element `h@ - 1`.
#[derive(Debug, PartialEq, Eq)]
pub struct Arena<T> {
    data: Vec<T>,
    span_info: Vec<Span>,
}

impl<T> View for Arena<T> {
    type V = Seq<T>;

    closed spec fn view(&self) -> Seq<T> {
        self.data@
    }
}

impl<T: Clone> Clone for Arena<T> {
    fn clone(&self) -> (copy: Self)
        ensures
            copy@.len() == self@.len(),
            copy.spans() == self.spans(),
    {
        proof {
            use_type_invariant(self);
        }
        let data = self.data.clone();
        let span_info = self.span_info.clone();
        assert(span_info@ =~= self.span_info@);
        Arena { data, span_info }
    }
}

impl<T> Arena<T> {
    #[verifier::type_invariant]
    spec fn consistent(self) -> bool {
        &&& self.data@.len() == self.span_info@.len()
        &&& self.data@.len() < u32::MAX
    }

    /// The spans of the entities, in insertion order.
    pub closed spec fn spans(&self) -> Seq<Span> {
        self.span_info@
    }

    /// Whether `handle` names an entity of this arena: its ordinal is within
    /// the arena's length.
    pub open spec fn has(&self, handle: Handle<T>) -> bool {
        1 <= handle@ <= self@.len()
    }

    /// The arena without entities.
    pub fn new() -> (arena: Self)
        ensures
            arena@ == Seq::<T>::empty(),
            arena.spans() == Seq::<Span>::empty(),
    {
        Arena { data: Vec::new(), span_info: Vec::new() }
    }

    /// The number of entities. It is also the largest ordinal in use.
    pub fn len(&self) -> (len: usize)
        ensures
            len == self@.len(),
            len < u32::MAX,
            self.spans().len() == len,
    {
        proof {
            use_type_invariant(self);
        }
        self.data.len()
    }

    /// Whether the arena holds no entity.
    pub fn is_empty(&self) -> (empty: bool)
        ensures
            empty == (self@.len() == 0),
    {
        self.data.len() == 0
    }

    /// Adds an entity at the end and returns the handle that names it.
    pub fn append(&mut self, value: T, span: Span) -> (handle: Handle<T>)
        requires
            old(self)@.len() + 1 < u32::MAX,
        ensures
            final(self)@ == old(self)@.push(value),
            final(self).spans() == old(self).spans().push(span),
            handle@ == old(self)@.len() + 1,
    {
        proof {
            use_type_invariant(&*self);
        }
        let mut taken: Arena<T> = Arena::new();
        core::mem::swap(self, &mut taken);
        let Arena { data, span_info } = taken;
        let mut data = data;
        let mut span_info = span_info;
        data.push(value);
        span_info.push(span);
        let ordinal: u32 = data.len() as u32;
        *self = Arena { data, span_info };
        Handle { ordinal, marker: PhantomData }
    }

    /// The handle of the entity at position `index`, counted from zero.
    pub fn handle_at(&self, index: usize) -> (handle: Handle<T>)
        requires
            index < self@.len(),
        ensures
            handle@ == index + 1,
            self.has(handle),
    {
        proof {
            use_type_invariant(self);
        }
        Handle { ordinal: (index + 1) as u32, marker: PhantomData }
    }

    /// Whether `handle` names an entity of this arena.
    pub fn contains(&self, handle: Handle<T>) -> (present: bool)
        ensures
            present == self.has(handle),
    {
        proof {
            use_type_invariant(self);
            use_type_invariant(&handle);
        }
        handle.ordinal as usize <= self.data.len()
    }

    /// The entity that `handle` names.
    pub fn get(&self, handle: Handle<T>) -> (entity: &T)
        requires
            self.has(handle),
        ensures
            *entity == self@[handle@ - 1],
    {
        &self.data[handle.index()]
    }

    /// The entity that `handle` names, if there is one.
    pub fn try_get(&self, handle: Handle<T>) -> (entity: Option<&T>)
        ensures
            self.has(handle) ==> entity == Some(&self@[handle@ - 1]),
            !self.has(handle) ==> entity is None,
    {
        if self.contains(handle) {
            Some(&self.data[handle.index()])
        } else {
            None
        }
    }

    /// The span recorded for `handle`'s entity, or the empty span if the
    /// handle names none.
    pub fn get_span(&self, handle: Handle<T>) -> (span: Span)
        ensures
            self.has(handle) ==> span == self.spans()[handle@ - 1],
            !self.has(handle) ==> span == (Span { start: 0, end: 0 }),
    {
        proof {
            use_type_invariant(self);
        }
        if self.contains(handle) {
            self.span_info[handle.index()]
        } else {
            Span::default()
        }
    }
}

impl<T: ArenaEntity> Arena<T> {
    /// Succeeds exactly when `handle` names an entity of this arena; the
    /// error carries the handle's ordinal and the arena's identity.
    pub fn check_contains_handle(&self, handle: Handle<T>) -> (checked: Result<(), BadHandle>)
        ensures
            self.has(handle) <==> checked is Ok,
            checked matches Err(bad) ==> bad.kind == T::arena_kind_spec() && bad.ordinal
                == handle@,
    {
        if self.contains(handle) {
            Ok(())
        } else {
            Err(BadHandle { kind: T::arena_kind(), ordinal: handle.ordinal() })
        }
    }
}

} // verus!
