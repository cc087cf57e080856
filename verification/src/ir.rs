//! The entities of a shader module, as far as their references to one
//! another go.

use crate::arena::{Arena, ArenaEntity, ArenaKind, Handle};
use vstd::prelude::*;

verus! {

/// The primitive kind of a scalar.
#[derive(Clone, Copy, Debug, PartialEq, Eq, Structural)]
pub enum ScalarKind {
    Sint,
    Uint,
    Float,
    Bool,
}

/// The number of components of a vector.
#[derive(Clone, Copy, Debug, PartialEq, Eq, Structural)]
pub enum VectorSize {
    Bi,
    Tri,
    Quad,
}

/// One member of a structure type.
#[derive(Clone, Debug, PartialEq, Eq)]
pub struct StructMember {
    pub name: Option<String>,
    pub ty: Handle<Type>,
    pub offset: u32,
}

/// What a type is made of.
#[allow(inconsistent_fields)]
#[derive(Clone, Debug, PartialEq, Eq)]
pub enum TypeInner {
    Scalar { kind: ScalarKind, width: u8 },
    Vector { size: VectorSize, kind: ScalarKind, width: u8 },
    Matrix { columns: VectorSize, rows: VectorSize, width: u8 },
    Atomic { kind: ScalarKind, width: u8 },
    Pointer { base: Handle<Type> },
    ValuePointer { size: Option<VectorSize>, kind: ScalarKind, width: u8 },
    Array { base: Handle<Type>, stride: u32 },
    Struct { members: Vec<StructMember>, span: u32 },
    Image { arrayed: bool },
    Sampler { comparison: bool },
    BindingArray { base: Handle<Type> },
}

/// A type, with the name it was declared under, if any.
#[derive(Clone, Debug, PartialEq, Eq)]
pub struct Type {
    pub name: Option<String>,
    pub inner: TypeInner,
}

/// The value of a scalar constant.
#[derive(Clone, Copy, Debug, PartialEq, Eq, Structural)]
pub enum ScalarValue {
    Sint(i64),
    Uint(u64),
    Bool(bool),
}

/// What a constant is made of.
#[derive(Clone, Debug, PartialEq, Eq)]
pub enum ConstantInner {
    Scalar { width: u8, value: ScalarValue },
    Composite { ty: Handle<Type>, components: Vec<Handle<Constant>> },
}

/// A constant, with the name it was declared under, if any.
#[derive(Clone, Debug, PartialEq, Eq)]
pub struct Constant {
    pub name: Option<String>,
    pub inner: ConstantInner,
}

/// A variable of module scope.
#[derive(Clone, Debug, PartialEq, Eq)]
pub struct GlobalVariable {
    pub name: Option<String>,
    pub ty: Handle<Type>,
    pub init: Option<Handle<Constant>>,
}

/// A variable of function scope.
#[derive(Clone, Debug, PartialEq, Eq)]
pub struct LocalVariable {
    pub name: Option<String>,
    pub ty: Handle<Type>,
    pub init: Option<Handle<Constant>>,
}

/// What is asked of an image.
#[derive(Clone, Copy, Debug, PartialEq, Eq)]
pub enum ImageQuery {
    Size { level: Option<Handle<Expression>> },
    NumLevels,
    NumLayers,
    NumSamples,
}

/// An expression of a function body. Operands are handles into the
/// expression arena of the same function.
#[derive(Clone, Debug, PartialEq, Eq)]
pub enum Expression {
    Access { base: Handle<Expression> },
    AccessIndex { base: Handle<Expression>, index: u32 },
    Constant(Handle<Constant>),
    Splat { size: VectorSize, value: Handle<Expression> },
    Swizzle { size: VectorSize, vector: Handle<Expression> },
    Compose { ty: Handle<Type>, components: Vec<Handle<Expression>> },
    FunctionArgument(u32),
    GlobalVariable(Handle<GlobalVariable>),
    LocalVariable(Handle<LocalVariable>),
    Load { pointer: Handle<Expression> },
    ImageSample {
        image: Handle<Expression>,
        sampler: Handle<Expression>,
        coordinate: Handle<Expression>,
        array_index: Option<Handle<Expression>>,
        offset: Option<Handle<Constant>>,
        depth_ref: Option<Handle<Expression>>,
    },
    ImageLoad {
        image: Handle<Expression>,
        coordinate: Handle<Expression>,
        array_index: Option<Handle<Expression>>,
        sample: Option<Handle<Expression>>,
        level: Option<Handle<Expression>>,
    },
    ImageQuery { image: Handle<Expression>, query: ImageQuery },
    Unary { expr: Handle<Expression> },
    Binary { left: Handle<Expression>, right: Handle<Expression> },
    Select {
        condition: Handle<Expression>,
        accept: Handle<Expression>,
        reject: Handle<Expression>,
    },
    Derivative { expr: Handle<Expression> },
    Relational { argument: Handle<Expression> },
    Math {
        arg: Handle<Expression>,
        arg1: Option<Handle<Expression>>,
        arg2: Option<Handle<Expression>>,
        arg3: Option<Handle<Expression>>,
    },
    As { expr: Handle<Expression>, kind: ScalarKind, convert: Option<u8> },
    CallResult(Handle<Function>),
    AtomicResult { kind: ScalarKind, width: u8, comparison: bool },
    ArrayLength(Handle<Expression>),
}

/// A function: its local variables and the expressions of its body.
#[derive(Clone, Debug, PartialEq, Eq)]
pub struct Function {
    pub name: Option<String>,
    pub local_variables: Arena<LocalVariable>,
    pub expressions: Arena<Expression>,
}

/// A function exposed as a shader stage. No handle names an entry point.
#[derive(Clone, Debug, PartialEq, Eq)]
pub struct EntryPoint {
    pub name: String,
    pub function: Function,
}

/// A shader module: four arenas and the entry points.
#[derive(Clone, Debug, PartialEq, Eq)]
pub struct Module {
    pub types: Arena<Type>,
    pub constants: Arena<Constant>,
    pub global_variables: Arena<GlobalVariable>,
    pub functions: Arena<Function>,
    pub entry_points: Vec<EntryPoint>,
}

impl ArenaEntity for Type {
    open spec fn arena_kind_spec() -> ArenaKind {
        ArenaKind::Types
    }

    fn arena_kind() -> (kind: ArenaKind) {
        ArenaKind::Types
    }
}

impl ArenaEntity for Constant {
    open spec fn arena_kind_spec() -> ArenaKind {
        ArenaKind::Constants
    }

    fn arena_kind() -> (kind: ArenaKind) {
        ArenaKind::Constants
    }
}

impl ArenaEntity for GlobalVariable {
    open spec fn arena_kind_spec() -> ArenaKind {
        ArenaKind::GlobalVariables
    }

    fn arena_kind() -> (kind: ArenaKind) {
        ArenaKind::GlobalVariables
    }
}

impl ArenaEntity for Function {
    open spec fn arena_kind_spec() -> ArenaKind {
        ArenaKind::Functions
    }

    fn arena_kind() -> (kind: ArenaKind) {
        ArenaKind::Functions
    }
}

impl ArenaEntity for LocalVariable {
    open spec fn arena_kind_spec() -> ArenaKind {
        ArenaKind::LocalVariables
    }

    fn arena_kind() -> (kind: ArenaKind) {
        ArenaKind::LocalVariables
    }
}

impl ArenaEntity for Expression {
    open spec fn arena_kind_spec() -> ArenaKind {
        ArenaKind::Expressions
    }

    fn arena_kind() -> (kind: ArenaKind) {
        ArenaKind::Expressions
    }
}

} // verus!
