//! What validation checks of each entity of a module, in which order, and
//! what it reports.

use crate::arena::ArenaKind;
use crate::checks::{first_error, first_some, Check};
use crate::describe::{debug_quoted, expression_suffix};
use crate::descriptor::{DescriptorView, HandleErrorView};
use crate::ir::{
    Constant, ConstantInner, Expression, Function, GlobalVariable, ImageQuery, LocalVariable,
    Module, Type, TypeInner,
};
use crate::arena::Handle;
use vstd::prelude::*;

verus! {

/// The characters of a declared name.
pub open spec fn name_of(name: Option<String>) -> Option<Seq<char>> {
    match name {
        Some(name) => Some(name@),
        None => None,
    }
}

/// The descriptor of an entity of a kind that may be named.
pub open spec fn named(ordinal: nat, kind: Seq<char>, name: Option<Seq<char>>) -> DescriptorView {
    DescriptorView {
        ordinal,
        text: match name {
            Some(name) => kind + seq![' '] + debug_quoted(name),
            None => kind,
        },
    }
}

/// The descriptor of an entity known by its kind alone.
pub open spec fn plain(ordinal: nat, kind: Seq<char>) -> DescriptorView {
    DescriptorView { ordinal, text: kind }
}

/// The descriptor of an expression.
pub open spec fn expression(ordinal: nat, kind: Seq<char>) -> DescriptorView {
    DescriptorView { ordinal, text: kind + expression_suffix() }
}

/// The check that a type refers to an earlier type.
pub open spec fn earlier_type(len: nat, subject: DescriptorView, depends_on: DescriptorView) -> Check {
    Check::Precedes { kind: ArenaKind::Types, len, subject, depends_on }
}

/// The checks made of the type at position `index`, in order: a pointer, an
/// array and a binding array refer to their base type, a structure to the
/// type of each member.
pub open spec fn type_checks(types: Seq<Type>, index: int) -> Seq<Check> {
    let ty = types[index];
    let ordinal = (index + 1) as nat;
    let name = name_of(ty.name);
    match ty.inner {
        TypeInner::Pointer { base } => seq![
            earlier_type(
                types.len(),
                named(ordinal, "pointer type"@, name),
                plain(base@, "base type"@),
            ),
        ],
        TypeInner::Array { base, stride } => seq![
            earlier_type(
                types.len(),
                named(ordinal, "array type"@, name),
                plain(base@, "base type"@),
            ),
        ],
        TypeInner::BindingArray { base } => seq![
            earlier_type(
                types.len(),
                named(ordinal, "binding array type"@, name),
                plain(base@, "base type"@),
            ),
        ],
        TypeInner::Struct { members, span } => Seq::new(
            members@.len(),
            |k: int|
                earlier_type(
                    types.len(),
                    named(ordinal, "structure"@, name),
                    named(members@[k].ty@, "member type"@, name_of(members@[k].name)),
                ),
        ),
        _ => Seq::empty(),
    }
}

/// The checks made of the constant at position `index`, in order: a
/// composite refers to its type and then to each component, which must be an
/// earlier constant.
pub open spec fn constant_checks(types: nat, constants: Seq<Constant>, index: int) -> Seq<Check> {
    let constant = constants[index];
    let ordinal = (index + 1) as nat;
    match constant.inner {
        ConstantInner::Scalar { width, value } => Seq::empty(),
        ConstantInner::Composite { ty, components } => Seq::new(
            components@.len() + 1,
            |k: int|
                if k == 0 {
                    Check::Exists { kind: ArenaKind::Types, len: types, ordinal: ty@ }
                } else {
                    Check::Precedes {
                        kind: ArenaKind::Constants,
                        len: constants.len(),
                        subject: named(ordinal, "constant"@, name_of(constant.name)),
                        depends_on: named(components@[k - 1]@, "component"@, None),
                    }
                },
        ),
    }
}

/// The check of an initializer, which may be absent.
pub open spec fn initializer_check(constants: nat, init: Option<Handle<Constant>>) -> Check {
    match init {
        Some(init) => Check::Exists { kind: ArenaKind::Constants, len: constants, ordinal: init@ },
        None => Check::Nothing,
    }
}

/// The checks made of a variable, global or local: its type, then its
/// initializer.
pub open spec fn variable_checks(
    types: nat,
    constants: nat,
    ty: Handle<Type>,
    init: Option<Handle<Constant>>,
) -> Seq<Check> {
    seq![
        Check::Exists { kind: ArenaKind::Types, len: types, ordinal: ty@ },
        initializer_check(constants, init),
    ]
}

/// The lengths of the arenas that an expression can refer to.
pub struct Scope {
    pub types: nat,
    pub constants: nat,
    pub global_variables: nat,
    pub functions: nat,
    pub local_variables: nat,
    pub expressions: nat,
}

/// The arenas in reach of the expressions of `function` in `module`.
pub open spec fn scope_of(module: Module, function: Function) -> Scope {
    Scope {
        types: module.types@.len(),
        constants: module.constants@.len(),
        global_variables: module.global_variables@.len(),
        functions: module.functions@.len(),
        local_variables: function.local_variables@.len(),
        expressions: function.expressions@.len(),
    }
}

/// The check that an expression refers to an earlier expression of the same
/// function.
pub open spec fn operand(
    scope: Scope,
    subject: DescriptorView,
    depends_on: Handle<Expression>,
    kind: Seq<char>,
) -> Check {
    Check::Precedes {
        kind: ArenaKind::Expressions,
        len: scope.expressions,
        subject,
        depends_on: expression(depends_on@, kind),
    }
}

/// The check of an operand that may be absent.
pub open spec fn optional_operand(
    scope: Scope,
    subject: DescriptorView,
    depends_on: Option<Handle<Expression>>,
    kind: Seq<char>,
) -> Check {
    match depends_on {
        Some(depends_on) => operand(scope, subject, depends_on, kind),
        None => Check::Nothing,
    }
}

/// The checks made of the expression at position `index` of a function, in
/// order. A reference into another arena must exist there; an operand must
/// be an earlier expression of the same function.
pub open spec fn expression_checks(scope: Scope, expressions: Seq<Expression>, index: int) -> Seq<
    Check,
> {
    let ordinal = (index + 1) as nat;
    match expressions[index] {
        Expression::Access { base } => seq![
            operand(scope, expression(ordinal, "access"@), base, "access base"@),
        ],
        Expression::AccessIndex { base, index } => seq![
            operand(scope, expression(ordinal, "access"@), base, "access base"@),
        ],
        Expression::Constant(constant) => seq![
            Check::Exists { kind: ArenaKind::Constants, len: scope.constants, ordinal: constant@ },
        ],
        Expression::Splat { size, value } => seq![
            operand(scope, expression(ordinal, "splat"@), value, "splat value"@),
        ],
        Expression::Swizzle { size, vector } => seq![
            operand(scope, expression(ordinal, "swizzle"@), vector, "vector"@),
        ],
        Expression::Compose { ty, components } => Seq::new(
            components@.len() + 1,
            |k: int|
                if k == 0 {
                    Check::Exists { kind: ArenaKind::Types, len: scope.types, ordinal: ty@ }
                } else {
                    operand(
                        scope,
                        expression(ordinal, "composite"@),
                        components@[k - 1],
                        "component"@,
                    )
                },
        ),
        Expression::FunctionArgument(position) => Seq::empty(),
        Expression::GlobalVariable(variable) => seq![
            Check::Exists {
                kind: ArenaKind::GlobalVariables,
                len: scope.global_variables,
                ordinal: variable@,
            },
        ],
        Expression::LocalVariable(variable) => seq![
            Check::Exists {
                kind: ArenaKind::LocalVariables,
                len: scope.local_variables,
                ordinal: variable@,
            },
        ],
        Expression::Load { pointer } => seq![
            operand(scope, expression(ordinal, "load"@), pointer, "pointee"@),
        ],
        Expression::ImageSample { image, sampler, coordinate, array_index, offset, depth_ref } => {
            let subject = expression(ordinal, "image sample"@);
            seq![
                initializer_check(scope.constants, offset),
                operand(scope, subject, image, "image"@),
                operand(scope, subject, sampler, "sampler"@),
                operand(scope, subject, coordinate, "coordinate"@),
                optional_operand(scope, subject, array_index, "array index"@),
                optional_operand(scope, subject, depth_ref, "depth reference"@),
            ]
        },
        Expression::ImageLoad { image, coordinate, array_index, sample, level } => {
            let subject = expression(ordinal, "image load"@);
            seq![
                operand(scope, subject, image, "image"@),
                operand(scope, subject, coordinate, "coordinate"@),
                optional_operand(scope, subject, array_index, "array index"@),
                optional_operand(scope, subject, sample, "sample index"@),
                optional_operand(scope, subject, level, "level of detail"@),
            ]
        },
        Expression::ImageQuery { image, query } => {
            let subject = expression(ordinal, "image query"@);
            seq![
                operand(scope, subject, image, "image"@),
                match query {
                    ImageQuery::Size { level } => optional_operand(
                        scope,
                        subject,
                        level,
                        "level of detail"@,
                    ),
                    _ => Check::Nothing,
                },
            ]
        },
        Expression::Unary { expr } => seq![
            operand(scope, expression(ordinal, "unary"@), expr, "unary operand"@),
        ],
        Expression::Binary { left, right } => {
            let subject = expression(ordinal, "binary"@);
            seq![
                operand(scope, subject, left, "left operand"@),
                operand(scope, subject, right, "right operand"@),
            ]
        },
        Expression::Select { condition, accept, reject } => {
            let subject = plain(ordinal, "`select` function call"@);
            seq![
                operand(scope, subject, condition, "condition"@),
                operand(scope, subject, accept, "accept"@),
                operand(scope, subject, reject, "reject"@),
            ]
        },
        Expression::Derivative { expr } => seq![
            operand(scope, expression(ordinal, "derivative"@), expr, "argument"@),
        ],
        Expression::Relational { argument } => seq![
            operand(scope, plain(ordinal, "relational function call"@), argument, "argument"@),
        ],
        Expression::Math { arg, arg1, arg2, arg3 } => {
            let subject = plain(ordinal, "math function call"@);
            seq![
                operand(scope, subject, arg, "first argument"@),
                optional_operand(scope, subject, arg1, "second argument"@),
                optional_operand(scope, subject, arg2, "third argument"@),
                optional_operand(scope, subject, arg3, "fourth argument"@),
            ]
        },
        Expression::As { expr, kind, convert } => seq![
            operand(scope, expression(ordinal, "cast"@), expr, "input"@),
        ],
        Expression::CallResult(function) => seq![
            Check::Exists { kind: ArenaKind::Functions, len: scope.functions, ordinal: function@ },
        ],
        Expression::AtomicResult { kind, width, comparison } => Seq::empty(),
        Expression::ArrayLength(array) => seq![
            operand(scope, expression(ordinal, "array length"@), array, "array"@),
        ],
    }
}

/// What validation reports of each type, in handle order.
pub open spec fn types_errors(types: Seq<Type>) -> Seq<Option<HandleErrorView>> {
    Seq::new(types.len(), |i: int| first_error(type_checks(types, i)))
}

/// What validation reports of each constant, in handle order.
pub open spec fn constants_errors(types: nat, constants: Seq<Constant>) -> Seq<
    Option<HandleErrorView>,
> {
    Seq::new(constants.len(), |i: int| first_error(constant_checks(types, constants, i)))
}

/// What validation reports of each global variable, in handle order.
pub open spec fn global_variables_errors(
    types: nat,
    constants: nat,
    variables: Seq<GlobalVariable>,
) -> Seq<Option<HandleErrorView>> {
    Seq::new(
        variables.len(),
        |i: int| first_error(variable_checks(types, constants, variables[i].ty, variables[i].init)),
    )
}

/// What validation reports of each local variable of a function, in handle
/// order.
pub open spec fn local_variables_errors(
    types: nat,
    constants: nat,
    variables: Seq<LocalVariable>,
) -> Seq<Option<HandleErrorView>> {
    Seq::new(
        variables.len(),
        |i: int| first_error(variable_checks(types, constants, variables[i].ty, variables[i].init)),
    )
}

/// What validation reports of each expression of a function, in handle
/// order.
pub open spec fn expressions_errors(scope: Scope, expressions: Seq<Expression>) -> Seq<
    Option<HandleErrorView>,
> {
    Seq::new(expressions.len(), |i: int| first_error(expression_checks(scope, expressions, i)))
}

/// `first`, or `next` where `first` is no error.
pub open spec fn or_next(first: Option<HandleErrorView>, next: Option<HandleErrorView>) -> Option<
    HandleErrorView,
> {
    if first is Some {
        first
    } else {
        next
    }
}

/// What validation reports of one function: the first error among its local
/// variables, or else the first among its expressions.
pub open spec fn function_error(module: Module, function: Function) -> Option<HandleErrorView> {
    or_next(
        first_some(
            local_variables_errors(
                module.types@.len(),
                module.constants@.len(),
                function.local_variables@,
            ),
        ),
        first_some(expressions_errors(scope_of(module, function), function.expressions@)),
    )
}

/// What validation reports of each function, in handle order.
pub open spec fn functions_errors(module: Module) -> Seq<Option<HandleErrorView>> {
    Seq::new(module.functions@.len(), |i: int| function_error(module, module.functions@[i]))
}

/// What validation reports of the function of each entry point, in their
/// order.
pub open spec fn entry_points_errors(module: Module) -> Seq<Option<HandleErrorView>> {
    Seq::new(
        module.entry_points@.len(),
        |i: int| function_error(module, module.entry_points@[i].function),
    )
}

/// The first error of a module in traversal order: types, constants, global
/// variables, functions, entry points, each in ascending order of its
/// entities, and the checks of an entity in their order.
pub open spec fn module_error(module: Module) -> Option<HandleErrorView> {
    or_next(
        first_some(types_errors(module.types@)),
        or_next(
            first_some(constants_errors(module.types@.len(), module.constants@)),
            or_next(
                first_some(
                    global_variables_errors(
                        module.types@.len(),
                        module.constants@.len(),
                        module.global_variables@,
                    ),
                ),
                or_next(
                    first_some(functions_errors(module)),
                    first_some(entry_points_errors(module)),
                ),
            ),
        ),
    )
}

/// What validating `module` returns.
pub open spec fn validation_outcome(module: Module) -> Result<(), HandleErrorView> {
    match module_error(module) {
        Some(error) => Err(error),
        None => Ok(()),
    }
}

} // verus!
