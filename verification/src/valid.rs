//! The validator: one pass over the arenas of a module, in a fixed order,
//! that stops at the first reference that is not well-formed.

use crate::arena::{Arena, ArenaEntity, ArenaKind, Handle};
use crate::checks::{errors_of, first_error, first_some, first_some_from, Check};
use crate::describe::{ExpressionHandleDescription, HandleDescription, KindAndMaybeName};
use crate::descriptor::{HandleDescriptor, HandleErrorView, InvalidHandleError};
use crate::ir::{
    Constant, ConstantInner, Expression, Function, ImageQuery, Module, Type, TypeInner,
};
use crate::model::{
    constant_checks, constants_errors, entry_points_errors, expression, expression_checks,
    expressions_errors, function_error, functions_errors, global_variables_errors,
    local_variables_errors, name_of, named, scope_of, type_checks, types_errors,
    validation_outcome, variable_checks,
};
use vstd::prelude::*;

verus! {

/// The error that a result carries, by its view.
pub open spec fn error_of<T>(result: Result<T, InvalidHandleError>) -> Option<HandleErrorView> {
    match result {
        Ok(_) => None,
        Err(error) => Some(error@),
    }
}

/// The outcome of a validation, with the error taken by its view.
pub open spec fn outcome_of(result: Result<(), InvalidHandleError>) -> Result<(), HandleErrorView> {
    match result {
        Ok(_) => Ok(()),
        Err(error) => Err(error@),
    }
}

/// The declared name as a string slice.
fn name_ref(name: &Option<String>) -> (slice: Option<&str>)
    ensures
        match slice {
            Some(slice) => name_of(*name) == Some(slice@),
            None => name_of(*name) is None,
        },
{
    match name {
        Some(name) => Some(name.as_str()),
        None => None,
    }
}

/// The descriptor of `handle` as an entity of kind `kind` declared under
/// `name`.
fn describe_named<'a, T>(handle: Handle<T>, kind: &'static str, name: Option<&'a str>) -> (descriptor:
    HandleDescriptor<T, KindAndMaybeName<'a>>)
    ensures
        descriptor@ == named(
            handle@,
            kind@,
            match name {
                Some(name) => Some(name@),
                None => None,
            },
        ),
{
    HandleDescriptor::new(handle, KindAndMaybeName::from_type(kind).with_name(name))
}

/// The descriptor of `handle` as an expression of kind `kind`.
fn describe_expression(handle: Handle<Expression>, kind: &'static str) -> (descriptor:
    HandleDescriptor<Expression, ExpressionHandleDescription>)
    ensures
        descriptor@ == expression(handle@, kind@),
{
    HandleDescriptor::new(handle, ExpressionHandleDescription { kind })
}

/// Checks that `handle` names an entity of `arena`.
fn check_exists<T: ArenaEntity>(arena: &Arena<T>, handle: Handle<T>) -> (checked: Result<
    (),
    InvalidHandleError,
>)
    ensures
        error_of(checked) == (Check::Exists {
            kind: T::arena_kind_spec(),
            len: arena@.len(),
            ordinal: handle@,
        }).error(),
{
    match arena.check_contains_handle(handle) {
        Ok(()) => Ok(()),
        Err(bad) => Err(InvalidHandleError::Bad(bad)),
    }
}

/// Checks that `depends_on` names an entity of `arena` that was defined
/// before `subject`, and hands `subject` back for the next check.
fn check_dependency<T: ArenaEntity, D: HandleDescription, D2: HandleDescription>(
    arena: &Arena<T>,
    subject: HandleDescriptor<T, D>,
    depends_on: HandleDescriptor<T, D2>,
) -> (checked: Result<HandleDescriptor<T, D>, InvalidHandleError>)
    ensures
        error_of(checked) == (Check::Precedes {
            kind: T::arena_kind_spec(),
            len: arena@.len(),
            subject: subject@,
            depends_on: depends_on@,
        }).error(),
        checked matches Ok(same) ==> same == subject,
{
    match depends_on.check_valid_for(arena) {
        Ok(depends_on) => match subject.check_dep(depends_on) {
            Ok(subject) => Ok(subject),
            Err(error) => Err(InvalidHandleError::ForwardDependency(error)),
        },
        Err(error) => Err(error),
    }
}

/// Checks that `depends_on` is an expression of `expressions` defined
/// before `subject`.
fn check_operand<D: HandleDescription>(
    expressions: &Arena<Expression>,
    subject: HandleDescriptor<Expression, D>,
    depends_on: Handle<Expression>,
    kind: &'static str,
) -> (checked: Result<HandleDescriptor<Expression, D>, InvalidHandleError>)
    ensures
        error_of(checked) == (Check::Precedes {
            kind: ArenaKind::Expressions,
            len: expressions@.len(),
            subject: subject@,
            depends_on: expression(depends_on@, kind@),
        }).error(),
        checked matches Ok(same) ==> same == subject,
{
    check_dependency(expressions, subject, describe_expression(depends_on, kind))
}

/// Like `check_operand`, for an operand that may be absent: absence passes.
fn check_operand_opt<D: HandleDescription>(
    expressions: &Arena<Expression>,
    subject: HandleDescriptor<Expression, D>,
    depends_on: Option<Handle<Expression>>,
    kind: &'static str,
) -> (checked: Result<HandleDescriptor<Expression, D>, InvalidHandleError>)
    ensures
        error_of(checked) == match depends_on {
            Some(depends_on) => (Check::Precedes {
                kind: ArenaKind::Expressions,
                len: expressions@.len(),
                subject: subject@,
                depends_on: expression(depends_on@, kind@),
            }).error(),
            None => None,
        },
        checked matches Ok(same) ==> same == subject,
{
    match depends_on {
        Some(depends_on) => check_operand(expressions, subject, depends_on, kind),
        None => Ok(subject),
    }
}

/// Checks that `handle`, where there is one, names an entity of `arena`.
fn check_exists_opt<T: ArenaEntity>(arena: &Arena<T>, handle: Option<Handle<T>>) -> (checked:
    Result<(), InvalidHandleError>)
    ensures
        error_of(checked) == match handle {
            Some(handle) => (Check::Exists {
                kind: T::arena_kind_spec(),
                len: arena@.len(),
                ordinal: handle@,
            }).error(),
            None => None,
        },
{
    match handle {
        Some(handle) => check_exists(arena, handle),
        None => Ok(()),
    }
}

/// Ends a chain of checks: what was an error stays one.
fn finish<T, D: HandleDescription>(checked: Result<HandleDescriptor<T, D>, InvalidHandleError>) -> (done:
    Result<(), InvalidHandleError>)
    ensures
        error_of(done) == error_of(checked),
{
    match checked {
        Ok(subject) => subject.ok(),
        Err(error) => Err(error),
    }
}

/// Validates the handles of shader modules.
pub struct Validator {}

impl Validator {
    /// Checks the type at position `index`.
    fn validate_type(types: &Arena<Type>, index: usize) -> (checked: Result<
        (),
        InvalidHandleError,
    >)
        requires
            index < types@.len(),
        ensures
            error_of(checked) == first_error(type_checks(types@, index as int)),
    {
        let handle = types.handle_at(index);
        let ty = types.get(handle);
        let name = name_ref(&ty.name);
        proof {
            reveal_with_fuel(first_some_from, 3);
        }
        match &ty.inner {
            TypeInner::Pointer { base } => {
                let subject = describe_named(handle, "pointer type", name);
                finish(check_dependency(types, subject, HandleDescriptor::new(*base, "base type")))
            },
            TypeInner::Array { base, .. } => {
                let subject = describe_named(handle, "array type", name);
                finish(check_dependency(types, subject, HandleDescriptor::new(*base, "base type")))
            },
            TypeInner::BindingArray { base } => {
                let subject = describe_named(handle, "binding array type", name);
                finish(check_dependency(types, subject, HandleDescriptor::new(*base, "base type")))
            },
            TypeInner::Struct { members, .. } => {
                let ghost checks = type_checks(types@, index as int);
                let mut subject = describe_named(handle, "structure", name);
                let mut k: usize = 0;
                while k < members.len()
                    invariant
                        k <= members@.len(),
                        index < types@.len(),
                        types@[index as int] == *ty,
                        ty.inner matches TypeInner::Struct { members: m, .. } && m == *members,
                        checks == type_checks(types@, index as int),
                        checks.len() == members@.len(),
                        subject@ == named(handle@, "structure"@, name_of(ty.name)),
                        handle@ == index + 1,
                        first_error(checks) == first_some_from(errors_of(checks), k as int),
                    decreases members@.len() - k,
                {
                    let member = &members[k];
                    let depends_on = describe_named(member.ty, "member type", name_ref(&member.name));
                    match check_dependency(types, subject, depends_on) {
                        Ok(same) => {
                            subject = same;
                        },
                        Err(error) => {
                            return Err(error);
                        },
                    }
                    k += 1;
                }
                subject.ok()
            },
            _ => Ok(()),
        }
    }

    /// Checks the constant at position `index`.
    fn validate_constant(types: &Arena<Type>, constants: &Arena<Constant>, index: usize) -> (checked:
        Result<(), InvalidHandleError>)
        requires
            index < constants@.len(),
        ensures
            error_of(checked) == first_error(
                constant_checks(types@.len(), constants@, index as int),
            ),
    {
        let handle = constants.handle_at(index);
        let constant = constants.get(handle);
        match &constant.inner {
            ConstantInner::Scalar { .. } => Ok(()),
            ConstantInner::Composite { ty, components } => {
                let ghost checks = constant_checks(types@.len(), constants@, index as int);
                match check_exists(types, *ty) {
                    Ok(()) => {},
                    Err(error) => {
                        return Err(error);
                    },
                }
                let mut subject = describe_named(handle, "constant", name_ref(&constant.name));
                let mut k: usize = 0;
                while k < components.len()
                    invariant
                        k <= components@.len(),
                        index < constants@.len(),
                        constants@[index as int] == *constant,
                        constant.inner matches ConstantInner::Composite { ty: t, components: c }
                            && c == *components,
                        checks == constant_checks(types@.len(), constants@, index as int),
                        checks.len() == components@.len() + 1,
                        subject@ == named(handle@, "constant"@, name_of(constant.name)),
                        handle@ == index + 1,
                        first_error(checks) == first_some_from(errors_of(checks), k + 1),
                    decreases components@.len() - k,
                {
                    let depends_on = describe_named(components[k], "component", None);
                    match check_dependency(constants, subject, depends_on) {
                        Ok(same) => {
                            subject = same;
                        },
                        Err(error) => {
                            return Err(error);
                        },
                    }
                    k += 1;
                }
                subject.ok()
            },
        }
    }

    /// Checks a variable, global or local: its type, then its initializer.
    fn validate_variable(
        types: &Arena<Type>,
        constants: &Arena<Constant>,
        ty: Handle<Type>,
        init: Option<Handle<Constant>>,
    ) -> (checked: Result<(), InvalidHandleError>)
        ensures
            error_of(checked) == first_error(
                variable_checks(types@.len(), constants@.len(), ty, init),
            ),
    {
        proof {
            reveal_with_fuel(first_some_from, 3);
        }
        match check_exists(types, ty) {
            Ok(()) => {},
            Err(error) => {
                return Err(error);
            },
        }
        check_exists_opt(constants, init)
    }

    /// Checks the expression at position `index` of `function`.
    fn validate_expression(module: &Module, function: &Function, index: usize) -> (checked: Result<
        (),
        InvalidHandleError,
    >)
        requires
            index < function.expressions@.len(),
        ensures
            error_of(checked) == first_error(
                expression_checks(
                    scope_of(*module, *function),
                    function.expressions@,
                    index as int,
                ),
            ),
    {
        let expressions = &function.expressions;
        let handle = expressions.handle_at(index);
        proof {
            reveal_with_fuel(first_some_from, 7);
        }
        match expressions.get(handle) {
            Expression::Access { base } => {
                let subject = describe_expression(handle, "access");
                finish(check_operand(expressions, subject, *base, "access base"))
            },
            Expression::AccessIndex { base, .. } => {
                let subject = describe_expression(handle, "access");
                finish(check_operand(expressions, subject, *base, "access base"))
            },
            Expression::Constant(constant) => check_exists(&module.constants, *constant),
            Expression::Splat { value, .. } => {
                let subject = describe_expression(handle, "splat");
                finish(check_operand(expressions, subject, *value, "splat value"))
            },
            Expression::Swizzle { vector, .. } => {
                let subject = describe_expression(handle, "swizzle");
                finish(check_operand(expressions, subject, *vector, "vector"))
            },
            Expression::Compose { ty, components } => Self::validate_compose(
                module,
                function,
                index,
                *ty,
                components,
            ),
            Expression::FunctionArgument(_) => Ok(()),
            Expression::GlobalVariable(variable) => check_exists(
                &module.global_variables,
                *variable,
            ),
            Expression::LocalVariable(variable) => check_exists(
                &function.local_variables,
                *variable,
            ),
            Expression::Load { pointer } => {
                let subject = describe_expression(handle, "load");
                finish(check_operand(expressions, subject, *pointer, "pointee"))
            },
            Expression::ImageSample { image, sampler, coordinate, array_index, offset, depth_ref } => {
                match check_exists_opt(&module.constants, *offset) {
                    Ok(()) => {},
                    Err(error) => {
                        return Err(error);
                    },
                }
                let subject = describe_expression(handle, "image sample");
                let subject = match check_operand(expressions, subject, *image, "image") {
                    Ok(subject) => subject,
                    Err(error) => {
                        return Err(error);
                    },
                };
                let subject = match check_operand(expressions, subject, *sampler, "sampler") {
                    Ok(subject) => subject,
                    Err(error) => {
                        return Err(error);
                    },
                };
                let subject = match check_operand(expressions, subject, *coordinate, "coordinate") {
                    Ok(subject) => subject,
                    Err(error) => {
                        return Err(error);
                    },
                };
                let subject = match check_operand_opt(
                    expressions,
                    subject,
                    *array_index,
                    "array index",
                ) {
                    Ok(subject) => subject,
                    Err(error) => {
                        return Err(error);
                    },
                };
                finish(check_operand_opt(expressions, subject, *depth_ref, "depth reference"))
            },
            Expression::ImageLoad { image, coordinate, array_index, sample, level } => {
                let subject = describe_expression(handle, "image load");
                let subject = match check_operand(expressions, subject, *image, "image") {
                    Ok(subject) => subject,
                    Err(error) => {
                        return Err(error);
                    },
                };
                let subject = match check_operand(expressions, subject, *coordinate, "coordinate") {
                    Ok(subject) => subject,
                    Err(error) => {
                        return Err(error);
                    },
                };
                let subject = match check_operand_opt(
                    expressions,
                    subject,
                    *array_index,
                    "array index",
                ) {
                    Ok(subject) => subject,
                    Err(error) => {
                        return Err(error);
                    },
                };
                let subject = match check_operand_opt(
                    expressions,
                    subject,
                    *sample,
                    "sample index",
                ) {
                    Ok(subject) => subject,
                    Err(error) => {
                        return Err(error);
                    },
                };
                finish(check_operand_opt(expressions, subject, *level, "level of detail"))
            },
            Expression::ImageQuery { image, query } => {
                let subject = describe_expression(handle, "image query");
                let subject = match check_operand(expressions, subject, *image, "image") {
                    Ok(subject) => subject,
                    Err(error) => {
                        return Err(error);
                    },
                };
                let level = match query {
                    ImageQuery::Size { level } => *level,
                    ImageQuery::NumLevels | ImageQuery::NumLayers | ImageQuery::NumSamples => None,
                };
                finish(check_operand_opt(expressions, subject, level, "level of detail"))
            },
            Expression::Unary { expr } => {
                let subject = describe_expression(handle, "unary");
                finish(check_operand(expressions, subject, *expr, "unary operand"))
            },
            Expression::Binary { left, right } => {
                let subject = describe_expression(handle, "binary");
                let subject = match check_operand(expressions, subject, *left, "left operand") {
                    Ok(subject) => subject,
                    Err(error) => {
                        return Err(error);
                    },
                };
                finish(check_operand(expressions, subject, *right, "right operand"))
            },
            Expression::Select { condition, accept, reject } => {
                let subject = HandleDescriptor::new(handle, "`select` function call");
                let subject = match check_operand(expressions, subject, *condition, "condition") {
                    Ok(subject) => subject,
                    Err(error) => {
                        return Err(error);
                    },
                };
                let subject = match check_operand(expressions, subject, *accept, "accept") {
                    Ok(subject) => subject,
                    Err(error) => {
                        return Err(error);
                    },
                };
                finish(check_operand(expressions, subject, *reject, "reject"))
            },
            Expression::Derivative { expr } => {
                let subject = describe_expression(handle, "derivative");
                finish(check_operand(expressions, subject, *expr, "argument"))
            },
            Expression::Relational { argument } => {
                let subject = HandleDescriptor::new(handle, "relational function call");
                finish(check_operand(expressions, subject, *argument, "argument"))
            },
            Expression::Math { arg, arg1, arg2, arg3 } => {
                let subject = HandleDescriptor::new(handle, "math function call");
                let subject = match check_operand(expressions, subject, *arg, "first argument") {
                    Ok(subject) => subject,
                    Err(error) => {
                        return Err(error);
                    },
                };
                let subject = match check_operand_opt(
                    expressions,
                    subject,
                    *arg1,
                    "second argument",
                ) {
                    Ok(subject) => subject,
                    Err(error) => {
                        return Err(error);
                    },
                };
                let subject = match check_operand_opt(
                    expressions,
                    subject,
                    *arg2,
                    "third argument",
                ) {
                    Ok(subject) => subject,
                    Err(error) => {
                        return Err(error);
                    },
                };
                finish(check_operand_opt(expressions, subject, *arg3, "fourth argument"))
            },
            Expression::As { expr, .. } => {
                let subject = describe_expression(handle, "cast");
                finish(check_operand(expressions, subject, *expr, "input"))
            },
            Expression::CallResult(function) => check_exists(&module.functions, *function),
            Expression::AtomicResult { .. } => Ok(()),
            Expression::ArrayLength(array) => {
                let subject = describe_expression(handle, "array length");
                finish(check_operand(expressions, subject, *array, "array"))
            },
        }
    }

    /// Checks a composite expression: its type, then each component.
    fn validate_compose(
        module: &Module,
        function: &Function,
        index: usize,
        ty: Handle<Type>,
        components: &Vec<Handle<Expression>>,
    ) -> (checked: Result<(), InvalidHandleError>)
        requires
            index < function.expressions@.len(),
            function.expressions@[index as int] == (Expression::Compose {
                ty,
                components: *components,
            }),
        ensures
            error_of(checked) == first_error(
                expression_checks(
                    scope_of(*module, *function),
                    function.expressions@,
                    index as int,
                ),
            ),
    {
        let expressions = &function.expressions;
        let handle = expressions.handle_at(index);
        let ghost checks = expression_checks(
            scope_of(*module, *function),
            function.expressions@,
            index as int,
        );
        match check_exists(&module.types, ty) {
            Ok(()) => {},
            Err(error) => {
                return Err(error);
            },
        }
        let mut subject = describe_expression(handle, "composite");
        let mut k: usize = 0;
        while k < components.len()
            invariant
                k <= components@.len(),
                index < function.expressions@.len(),
                function.expressions@[index as int] == (Expression::Compose {
                    ty,
                    components: *components,
                }),
                expressions == &function.expressions,
                checks == expression_checks(
                    scope_of(*module, *function),
                    function.expressions@,
                    index as int,
                ),
                checks.len() == components@.len() + 1,
                subject@ == expression(handle@, "composite"@),
                handle@ == index + 1,
                first_error(checks) == first_some_from(errors_of(checks), k + 1),
            decreases components@.len() - k,
        {
            match check_operand(expressions, subject, components[k], "component") {
                Ok(same) => {
                    subject = same;
                },
                Err(error) => {
                    return Err(error);
                },
            }
            k += 1;
        }
        subject.ok()
    }

    /// Checks every type, in handle order.
    fn validate_types(types: &Arena<Type>) -> (checked: Result<(), InvalidHandleError>)
        ensures
            error_of(checked) == first_some(types_errors(types@)),
    {
        let ghost errors = types_errors(types@);
        let mut index: usize = 0;
        while index < types.len()
            invariant
                index <= types@.len(),
                errors == types_errors(types@),
                first_some(errors) == first_some_from(errors, index as int),
            decreases types@.len() - index,
        {
            match Self::validate_type(types, index) {
                Ok(()) => {},
                Err(error) => {
                    return Err(error);
                },
            }
            index += 1;
        }
        Ok(())
    }

    /// Checks every constant, in handle order.
    fn validate_constants(types: &Arena<Type>, constants: &Arena<Constant>) -> (checked: Result<
        (),
        InvalidHandleError,
    >)
        ensures
            error_of(checked) == first_some(constants_errors(types@.len(), constants@)),
    {
        let ghost errors = constants_errors(types@.len(), constants@);
        let mut index: usize = 0;
        while index < constants.len()
            invariant
                index <= constants@.len(),
                errors == constants_errors(types@.len(), constants@),
                first_some(errors) == first_some_from(errors, index as int),
            decreases constants@.len() - index,
        {
            match Self::validate_constant(types, constants, index) {
                Ok(()) => {},
                Err(error) => {
                    return Err(error);
                },
            }
            index += 1;
        }
        Ok(())
    }

    /// Checks every global variable, in handle order.
    fn validate_global_variables(module: &Module) -> (checked: Result<(), InvalidHandleError>)
        ensures
            error_of(checked) == first_some(
                global_variables_errors(
                    module.types@.len(),
                    module.constants@.len(),
                    module.global_variables@,
                ),
            ),
    {
        let variables = &module.global_variables;
        let ghost errors = global_variables_errors(
            module.types@.len(),
            module.constants@.len(),
            module.global_variables@,
        );
        let mut index: usize = 0;
        while index < variables.len()
            invariant
                index <= variables@.len(),
                variables == &module.global_variables,
                errors == global_variables_errors(
                    module.types@.len(),
                    module.constants@.len(),
                    module.global_variables@,
                ),
                first_some(errors) == first_some_from(errors, index as int),
            decreases variables@.len() - index,
        {
            let variable = variables.get(variables.handle_at(index));
            match Self::validate_variable(
                &module.types,
                &module.constants,
                variable.ty,
                variable.init,
            ) {
                Ok(()) => {},
                Err(error) => {
                    return Err(error);
                },
            }
            index += 1;
        }
        Ok(())
    }

    /// Checks every local variable of `function`, in handle order.
    fn validate_local_variables(module: &Module, function: &Function) -> (checked: Result<
        (),
        InvalidHandleError,
    >)
        ensures
            error_of(checked) == first_some(
                local_variables_errors(
                    module.types@.len(),
                    module.constants@.len(),
                    function.local_variables@,
                ),
            ),
    {
        let variables = &function.local_variables;
        let ghost errors = local_variables_errors(
            module.types@.len(),
            module.constants@.len(),
            function.local_variables@,
        );
        let mut index: usize = 0;
        while index < variables.len()
            invariant
                index <= variables@.len(),
                variables == &function.local_variables,
                errors == local_variables_errors(
                    module.types@.len(),
                    module.constants@.len(),
                    function.local_variables@,
                ),
                first_some(errors) == first_some_from(errors, index as int),
            decreases variables@.len() - index,
        {
            let variable = variables.get(variables.handle_at(index));
            match Self::validate_variable(
                &module.types,
                &module.constants,
                variable.ty,
                variable.init,
            ) {
                Ok(()) => {},
                Err(error) => {
                    return Err(error);
                },
            }
            index += 1;
        }
        Ok(())
    }

    /// Checks every expression of `function`, in handle order.
    fn validate_expressions(module: &Module, function: &Function) -> (checked: Result<
        (),
        InvalidHandleError,
    >)
        ensures
            error_of(checked) == first_some(
                expressions_errors(scope_of(*module, *function), function.expressions@),
            ),
    {
        let ghost errors = expressions_errors(scope_of(*module, *function), function.expressions@);
        let mut index: usize = 0;
        while index < function.expressions.len()
            invariant
                index <= function.expressions@.len(),
                errors == expressions_errors(
                    scope_of(*module, *function),
                    function.expressions@,
                ),
                first_some(errors) == first_some_from(errors, index as int),
            decreases function.expressions@.len() - index,
        {
            match Self::validate_expression(module, function, index) {
                Ok(()) => {},
                Err(error) => {
                    return Err(error);
                },
            }
            index += 1;
        }
        Ok(())
    }

    /// Checks a function: its local variables first, since its expressions
    /// may refer to them, then its expressions.
    fn validate_function(module: &Module, function: &Function) -> (checked: Result<
        (),
        InvalidHandleError,
    >)
        ensures
            error_of(checked) == function_error(*module, *function),
    {
        match Self::validate_local_variables(module, function) {
            Ok(()) => {},
            Err(error) => {
                return Err(error);
            },
        }
        Self::validate_expressions(module, function)
    }

    /// Checks every function, in handle order.
    fn validate_functions(module: &Module) -> (checked: Result<(), InvalidHandleError>)
        ensures
            error_of(checked) == first_some(functions_errors(*module)),
    {
        let functions = &module.functions;
        let ghost errors = functions_errors(*module);
        let mut index: usize = 0;
        while index < functions.len()
            invariant
                index <= functions@.len(),
                functions == &module.functions,
                errors == functions_errors(*module),
                first_some(errors) == first_some_from(errors, index as int),
            decreases functions@.len() - index,
        {
            let function = functions.get(functions.handle_at(index));
            match Self::validate_function(module, function) {
                Ok(()) => {},
                Err(error) => {
                    return Err(error);
                },
            }
            index += 1;
        }
        Ok(())
    }

    /// Checks the function of every entry point, in their order.
    fn validate_entry_points(module: &Module) -> (checked: Result<(), InvalidHandleError>)
        ensures
            error_of(checked) == first_some(entry_points_errors(*module)),
    {
        let ghost errors = entry_points_errors(*module);
        let mut index: usize = 0;
        while index < module.entry_points.len()
            invariant
                index <= module.entry_points@.len(),
                errors == entry_points_errors(*module),
                first_some(errors) == first_some_from(errors, index as int),
            decreases module.entry_points@.len() - index,
        {
            match Self::validate_function(module, &module.entry_points[index].function) {
                Ok(()) => {},
                Err(error) => {
                    return Err(error);
                },
            }
            index += 1;
        }
        Ok(())
    }

    /// Checks every reference of `module`: types first, then constants,
    /// global variables, functions and entry points. Succeeds exactly when
    /// every reference is well-formed; otherwise returns the error of the
    /// first reference, in that order, that is not.
    pub fn validate_module_handles(module: &Module) -> (checked: Result<(), InvalidHandleError>)
        ensures
            outcome_of(checked) == validation_outcome(*module),
    {
        match Self::validate_types(&module.types) {
            Ok(()) => {},
            Err(error) => {
                return Err(error);
            },
        }
        match Self::validate_constants(&module.types, &module.constants) {
            Ok(()) => {},
            Err(error) => {
                return Err(error);
            },
        }
        match Self::validate_global_variables(module) {
            Ok(()) => {},
            Err(error) => {
                return Err(error);
            },
        }
        match Self::validate_functions(module) {
            Ok(()) => {},
            Err(error) => {
                return Err(error);
            },
        }
        Self::validate_entry_points(module)
    }
}

} // verus!
