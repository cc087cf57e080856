use ir_handles::arena::{Arena, ArenaKind, BadHandle, Handle, Span};
use ir_handles::describe::{ErasedDescription, ExpressionHandleDescription, KindAndMaybeName};
use ir_handles::descriptor::{FwdDepError, HandleDescriptor, InvalidHandleError};
use ir_handles::ir::{
    Constant, ConstantInner, EntryPoint, Expression, Function, GlobalVariable, ImageQuery,
    LocalVariable, Module, ScalarKind, ScalarValue, StructMember, Type, TypeInner, VectorSize,
};
use ir_handles::valid::Validator;
use std::borrow::Cow;

fn h<T>(ordinal: u32) -> Handle<T> {
    Handle::new(ordinal).unwrap()
}

fn empty_module() -> Module {
    Module {
        types: Arena::new(),
        constants: Arena::new(),
        global_variables: Arena::new(),
        functions: Arena::new(),
        entry_points: Vec::new(),
    }
}

fn empty_function() -> Function {
    Function { name: None, local_variables: Arena::new(), expressions: Arena::new() }
}

fn f32_type() -> Type {
    Type { name: None, inner: TypeInner::Scalar { kind: ScalarKind::Float, width: 4 } }
}

fn unnamed(inner: TypeInner) -> Type {
    Type { name: None, inner }
}

fn scalar_constant() -> Constant {
    Constant { name: None, inner: ConstantInner::Scalar { width: 4, value: ScalarValue::Uint(1) } }
}

fn composite(ty: u32, components: &[u32]) -> Constant {
    Constant {
        name: None,
        inner: ConstantInner::Composite {
            ty: h(ty),
            components: components.iter().map(|&c| h(c)).collect(),
        },
    }
}

fn module_with_types(types: Vec<Type>) -> Module {
    let mut module = empty_module();
    for ty in types {
        module.types.append(ty, Span::default());
    }
    module
}

fn function_of(expressions: Vec<Expression>) -> Function {
    let mut function = empty_function();
    for expression in expressions {
        function.expressions.append(expression, Span::default());
    }
    function
}

fn module_with_function(function: Function) -> Module {
    let mut module = module_with_types(vec![f32_type()]);
    module.constants.append(scalar_constant(), Span::default());
    module.functions.append(function, Span::default());
    module
}

fn plain(ordinal: u32, kind: &'static str) -> HandleDescriptor<(), ErasedDescription> {
    HandleDescriptor::new(h(ordinal), ErasedDescription::Plain(kind))
}

fn named(ordinal: u32, kind: &'static str, name: Option<&str>) -> HandleDescriptor<(), ErasedDescription> {
    HandleDescriptor::new(
        h(ordinal),
        ErasedDescription::Named(KindAndMaybeName {
            kind,
            name: name.map(|n| Cow::Owned(n.to_string())),
        }),
    )
}

fn expr(ordinal: u32, kind: &'static str) -> HandleDescriptor<(), ErasedDescription> {
    HandleDescriptor::new(h(ordinal), ErasedDescription::Expression(ExpressionHandleDescription { kind }))
}

fn forward(
    subject: HandleDescriptor<(), ErasedDescription>,
    depends_on: HandleDescriptor<(), ErasedDescription>,
) -> Result<(), InvalidHandleError> {
    Err(InvalidHandleError::ForwardDependency(FwdDepError { subject, depends_on }))
}

fn bad(kind: ArenaKind, ordinal: u32) -> Result<(), InvalidHandleError> {
    Err(InvalidHandleError::Bad(BadHandle { kind, ordinal }))
}

fn validate_expressions(expressions: Vec<Expression>) -> Result<(), InvalidHandleError> {
    Validator::validate_module_handles(&module_with_function(function_of(expressions)))
}

fn leaf() -> Expression {
    Expression::FunctionArgument(0)
}

#[test]
fn empty_module_is_valid() {
    assert_eq!(Validator::validate_module_handles(&empty_module()), Ok(()));
}

#[test]
fn pointer_to_itself_is_a_forward_dependency() {
    let module = module_with_types(vec![f32_type(), unnamed(TypeInner::Pointer { base: h(2) })]);
    let checked = Validator::validate_module_handles(&module);
    assert_eq!(checked, forward(named(2, "pointer type", None), plain(2, "base type")));
    assert_eq!(
        checked.unwrap_err().render(),
        "pointer type (handle 2) depends on base type (handle 2), which has not been processed yet"
    );
}

#[test]
fn composite_component_past_the_end_is_a_bad_handle() {
    let mut module = module_with_types(vec![f32_type()]);
    module.constants.append(scalar_constant(), Span::default());
    module.constants.append(scalar_constant(), Span::default());
    module.constants.append(composite(1, &[5]), Span::default());
    module.constants.append(scalar_constant(), Span::default());
    assert_eq!(module.constants.len(), 4);
    let checked = Validator::validate_module_handles(&module);
    assert_eq!(checked, bad(ArenaKind::Constants, 5));
    assert_eq!(
        checked.unwrap_err().render(),
        "Handle 5 of constants is either not present, or inaccessible yet"
    );
}

#[test]
fn leaf_types_need_nothing() {
    let module = module_with_types(vec![
        unnamed(TypeInner::Scalar { kind: ScalarKind::Bool, width: 1 }),
        unnamed(TypeInner::Vector { size: VectorSize::Quad, kind: ScalarKind::Float, width: 4 }),
        unnamed(TypeInner::Matrix { columns: VectorSize::Bi, rows: VectorSize::Tri, width: 4 }),
        unnamed(TypeInner::Atomic { kind: ScalarKind::Uint, width: 4 }),
        unnamed(TypeInner::ValuePointer { size: None, kind: ScalarKind::Sint, width: 4 }),
        unnamed(TypeInner::Image { arrayed: true }),
        unnamed(TypeInner::Sampler { comparison: false }),
    ]);
    assert_eq!(Validator::validate_module_handles(&module), Ok(()));
}

#[test]
fn array_and_binding_array_need_an_earlier_base() {
    let array = |base| unnamed(TypeInner::Array { base: h(base), stride: 4 });
    let binding = |base| unnamed(TypeInner::BindingArray { base: h(base) });
    assert_eq!(
        Validator::validate_module_handles(&module_with_types(vec![f32_type(), array(1), binding(2)])),
        Ok(())
    );
    assert_eq!(
        Validator::validate_module_handles(&module_with_types(vec![array(1)])),
        forward(named(1, "array type", None), plain(1, "base type"))
    );
    assert_eq!(
        Validator::validate_module_handles(&module_with_types(vec![f32_type(), binding(2)])),
        forward(named(2, "binding array type", None), plain(2, "base type"))
    );
    assert_eq!(
        Validator::validate_module_handles(&module_with_types(vec![f32_type(), array(3)])),
        bad(ArenaKind::Types, 3)
    );
}

#[test]
fn later_base_type_is_a_forward_dependency() {
    let module = module_with_types(vec![
        Type { name: Some(String::from("Ptr")), inner: TypeInner::Pointer { base: h(2) } },
        f32_type(),
    ]);
    let checked = Validator::validate_module_handles(&module);
    assert_eq!(checked, forward(named(1, "pointer type", Some("Ptr")), plain(2, "base type")));
    assert_eq!(
        checked.unwrap_err().render(),
        "pointer type \"Ptr\" (handle 1) depends on base type (handle 2), which has not been processed yet"
    );
}

#[test]
fn struct_members_are_checked_in_member_order() {
    let member = |name: &str, ty| StructMember { name: Some(String::from(name)), ty: h(ty), offset: 0 };
    let structure = |members| Type {
        name: Some(String::from("Light")),
        inner: TypeInner::Struct { members, span: 16 },
    };
    let valid = module_with_types(vec![f32_type(), f32_type(), structure(vec![member("a", 1), member("b", 2)])]);
    assert_eq!(Validator::validate_module_handles(&valid), Ok(()));
    let broken = module_with_types(vec![
        f32_type(),
        structure(vec![member("a", 1), member("b", 3), member("c", 2)]),
        f32_type(),
    ]);
    let checked = Validator::validate_module_handles(&broken);
    assert_eq!(
        checked,
        forward(named(2, "structure", Some("Light")), named(3, "member type", Some("b")))
    );
    assert_eq!(
        checked.unwrap_err().render(),
        "structure \"Light\" (handle 2) depends on member type \"b\" (handle 3), which has not been processed yet"
    );
}

#[test]
fn self_referencing_struct_fails_whatever_else_holds() {
    let structure = Type {
        name: None,
        inner: TypeInner::Struct {
            members: vec![StructMember { name: None, ty: h(2), offset: 0 }],
            span: 4,
        },
    };
    let expected = forward(named(2, "structure", None), named(2, "member type", None));
    let mut module = module_with_types(vec![f32_type(), structure]);
    assert_eq!(Validator::validate_module_handles(&module), expected);
    module.constants.append(scalar_constant(), Span::default());
    module.global_variables.append(
        GlobalVariable { name: None, ty: h(1), init: Some(h(1)) },
        Span::default(),
    );
    module.functions.append(function_of(vec![leaf(), Expression::Load { pointer: h(1) }]), Span::default());
    assert_eq!(Validator::validate_module_handles(&module), expected);
    module.constants.append(composite(9, &[7]), Span::default());
    module.global_variables.append(GlobalVariable { name: None, ty: h(9), init: None }, Span::default());
    assert_eq!(Validator::validate_module_handles(&module), expected);
}

#[test]
fn composite_constant_checks_type_then_components() {
    let mut module = module_with_types(vec![f32_type()]);
    module.constants.append(scalar_constant(), Span::default());
    module.constants.append(scalar_constant(), Span::default());
    module.constants.append(composite(1, &[1, 2]), Span::default());
    assert_eq!(Validator::validate_module_handles(&module), Ok(()));

    let mut bad_type = module_with_types(vec![f32_type()]);
    bad_type.constants.append(composite(2, &[1]), Span::default());
    assert_eq!(Validator::validate_module_handles(&bad_type), bad(ArenaKind::Types, 2));

    let mut own = module_with_types(vec![f32_type()]);
    own.constants.append(scalar_constant(), Span::default());
    own.constants.append(
        Constant {
            name: Some(String::from("C")),
            inner: ConstantInner::Composite { ty: h(1), components: vec![h(1), h(2)] },
        },
        Span::default(),
    );
    let checked = Validator::validate_module_handles(&own);
    assert_eq!(checked, forward(named(2, "constant", Some("C")), named(2, "component", None)));
    assert_eq!(
        checked.unwrap_err().render(),
        "constant \"C\" (handle 2) depends on component (handle 2), which has not been processed yet"
    );
}

#[test]
fn composite_components_are_checked_in_declaration_order() {
    let mut module = module_with_types(vec![f32_type()]);
    module.constants.append(composite(1, &[2, 9]), Span::default());
    module.constants.append(scalar_constant(), Span::default());
    assert_eq!(
        Validator::validate_module_handles(&module),
        forward(named(1, "constant", None), named(2, "component", None))
    );
    let mut swapped = module_with_types(vec![f32_type()]);
    swapped.constants.append(composite(1, &[9, 2]), Span::default());
    swapped.constants.append(scalar_constant(), Span::default());
    assert_eq!(Validator::validate_module_handles(&swapped), bad(ArenaKind::Constants, 9));
}

#[test]
fn global_variable_needs_its_type_and_initializer() {
    let global = |ty, init: Option<u32>| GlobalVariable { name: None, ty: h(ty), init: init.map(h) };
    let with = |variable| {
        let mut module = module_with_types(vec![f32_type()]);
        module.constants.append(scalar_constant(), Span::default());
        module.global_variables.append(variable, Span::default());
        Validator::validate_module_handles(&module)
    };
    assert_eq!(with(global(1, None)), Ok(()));
    assert_eq!(with(global(1, Some(1))), Ok(()));
    assert_eq!(with(global(2, Some(1))), bad(ArenaKind::Types, 2));
    assert_eq!(with(global(1, Some(2))), bad(ArenaKind::Constants, 2));
    assert_eq!(with(global(7, Some(8))), bad(ArenaKind::Types, 7));
}

#[test]
fn local_variable_needs_its_type_and_initializer() {
    let with = |ty, init: Option<u32>| {
        let mut function = empty_function();
        function.local_variables.append(
            LocalVariable { name: None, ty: h(ty), init: init.map(h) },
            Span::default(),
        );
        Validator::validate_module_handles(&module_with_function(function))
    };
    assert_eq!(with(1, Some(1)), Ok(()));
    assert_eq!(with(1, None), Ok(()));
    assert_eq!(with(2, None), bad(ArenaKind::Types, 2));
    assert_eq!(with(1, Some(2)), bad(ArenaKind::Constants, 2));
}

#[test]
fn handle_one_past_the_end_is_a_bad_handle() {
    let mut module = module_with_types(vec![f32_type(), f32_type(), f32_type()]);
    module.global_variables.append(GlobalVariable { name: None, ty: h(3), init: None }, Span::default());
    assert_eq!(Validator::validate_module_handles(&module), Ok(()));
    module.global_variables.append(GlobalVariable { name: None, ty: h(4), init: None }, Span::default());
    assert_eq!(Validator::validate_module_handles(&module), bad(ArenaKind::Types, 4));
}

#[test]
fn handle_into_an_empty_arena_is_a_bad_handle() {
    let mut module = empty_module();
    module.global_variables.append(GlobalVariable { name: None, ty: h(1), init: None }, Span::default());
    assert_eq!(Validator::validate_module_handles(&module), bad(ArenaKind::Types, 1));
}

#[test]
fn expression_references_into_other_arenas_must_exist() {
    assert_eq!(validate_expressions(vec![Expression::Constant(h(1))]), Ok(()));
    assert_eq!(validate_expressions(vec![Expression::Constant(h(2))]), bad(ArenaKind::Constants, 2));
    assert_eq!(validate_expressions(vec![Expression::CallResult(h(1))]), Ok(()));
    assert_eq!(validate_expressions(vec![Expression::CallResult(h(2))]), bad(ArenaKind::Functions, 2));
    assert_eq!(
        validate_expressions(vec![Expression::GlobalVariable(h(1))]),
        bad(ArenaKind::GlobalVariables, 1)
    );
    assert_eq!(
        validate_expressions(vec![Expression::LocalVariable(h(1))]),
        bad(ArenaKind::LocalVariables, 1)
    );
    assert_eq!(validate_expressions(vec![Expression::FunctionArgument(3)]), Ok(()));
    assert_eq!(
        validate_expressions(vec![Expression::AtomicResult {
            kind: ScalarKind::Uint,
            width: 4,
            comparison: false,
        }]),
        Ok(())
    );
}

#[test]
fn local_variable_reference_is_checked_for_existence_only() {
    let mut function = function_of(vec![Expression::LocalVariable(h(2))]);
    function.local_variables.append(LocalVariable { name: None, ty: h(1), init: None }, Span::default());
    function.local_variables.append(LocalVariable { name: None, ty: h(1), init: None }, Span::default());
    assert_eq!(Validator::validate_module_handles(&module_with_function(function)), Ok(()));
}

#[test]
fn global_variable_reference_must_exist() {
    let mut module = module_with_function(function_of(vec![Expression::GlobalVariable(h(1))]));
    module.global_variables.append(GlobalVariable { name: None, ty: h(1), init: None }, Span::default());
    assert_eq!(Validator::validate_module_handles(&module), Ok(()));
}

#[test]
fn single_operand_expressions_need_an_earlier_operand() {
    let cases: Vec<(Expression, &'static str, &'static str)> = vec![
        (Expression::Access { base: h(2) }, "access", "access base"),
        (Expression::AccessIndex { base: h(2), index: 0 }, "access", "access base"),
        (Expression::Splat { size: VectorSize::Bi, value: h(2) }, "splat", "splat value"),
        (Expression::Swizzle { size: VectorSize::Bi, vector: h(2) }, "swizzle", "vector"),
        (Expression::Load { pointer: h(2) }, "load", "pointee"),
        (Expression::Unary { expr: h(2) }, "unary", "unary operand"),
        (Expression::Derivative { expr: h(2) }, "derivative", "argument"),
        (Expression::As { expr: h(2), kind: ScalarKind::Float, convert: Some(4) }, "cast", "input"),
        (Expression::ArrayLength(h(2)), "array length", "array"),
    ];
    for (expression, subject, dependency) in cases {
        assert_eq!(
            validate_expressions(vec![leaf(), expression.clone()]),
            forward(expr(2, subject), expr(2, dependency))
        );
        assert_eq!(validate_expressions(vec![leaf(), leaf(), expression.clone()]), Ok(()));
        assert_eq!(validate_expressions(vec![expression]), bad(ArenaKind::Expressions, 2));
    }
}

#[test]
fn relational_call_is_described_plainly() {
    let checked = validate_expressions(vec![Expression::Relational { argument: h(1) }]);
    assert_eq!(checked, forward(plain(1, "relational function call"), expr(1, "argument")));
    assert_eq!(
        checked.unwrap_err().render(),
        "relational function call (handle 1) depends on argument expression (handle 1), which has not been processed yet"
    );
    assert_eq!(validate_expressions(vec![leaf(), Expression::Relational { argument: h(1) }]), Ok(()));
}

#[test]
fn binary_checks_left_then_right() {
    let binary = |left, right| Expression::Binary { left: h(left), right: h(right) };
    assert_eq!(validate_expressions(vec![leaf(), leaf(), binary(1, 2)]), Ok(()));
    assert_eq!(
        validate_expressions(vec![leaf(), leaf(), binary(3, 3)]),
        forward(expr(3, "binary"), expr(3, "left operand"))
    );
    assert_eq!(
        validate_expressions(vec![leaf(), leaf(), binary(1, 3)]),
        forward(expr(3, "binary"), expr(3, "right operand"))
    );
}

#[test]
fn select_checks_condition_accept_reject() {
    let select = |c, a, r| Expression::Select { condition: h(c), accept: h(a), reject: h(r) };
    assert_eq!(validate_expressions(vec![leaf(), leaf(), leaf(), select(1, 2, 3)]), Ok(()));
    assert_eq!(
        validate_expressions(vec![leaf(), select(2, 2, 2)]),
        forward(plain(2, "`select` function call"), expr(2, "condition"))
    );
    assert_eq!(
        validate_expressions(vec![leaf(), select(1, 2, 2)]),
        forward(plain(2, "`select` function call"), expr(2, "accept"))
    );
    assert_eq!(
        validate_expressions(vec![leaf(), select(1, 1, 2)]),
        forward(plain(2, "`select` function call"), expr(2, "reject"))
    );
}

#[test]
fn math_checks_up_to_four_arguments() {
    let math = |arg, arg1: Option<u32>, arg2: Option<u32>, arg3: Option<u32>| Expression::Math {
        arg: h(arg),
        arg1: arg1.map(h),
        arg2: arg2.map(h),
        arg3: arg3.map(h),
    };
    let subject = || plain(2, "math function call");
    assert_eq!(validate_expressions(vec![leaf(), math(1, None, None, None)]), Ok(()));
    assert_eq!(validate_expressions(vec![leaf(), math(1, Some(1), Some(1), Some(1))]), Ok(()));
    assert_eq!(
        validate_expressions(vec![leaf(), math(2, Some(2), Some(2), Some(2))]),
        forward(subject(), expr(2, "first argument"))
    );
    assert_eq!(
        validate_expressions(vec![leaf(), math(1, Some(2), Some(2), Some(2))]),
        forward(subject(), expr(2, "second argument"))
    );
    assert_eq!(
        validate_expressions(vec![leaf(), math(1, None, Some(2), Some(2))]),
        forward(subject(), expr(2, "third argument"))
    );
    assert_eq!(
        validate_expressions(vec![leaf(), math(1, None, None, Some(2))]),
        forward(subject(), expr(2, "fourth argument"))
    );
}

#[test]
fn compose_checks_type_then_components() {
    let compose = |ty, components: &[u32]| Expression::Compose {
        ty: h(ty),
        components: components.iter().map(|&c| h(c)).collect(),
    };
    assert_eq!(validate_expressions(vec![leaf(), leaf(), compose(1, &[1, 2])]), Ok(()));
    assert_eq!(validate_expressions(vec![compose(1, &[])]), Ok(()));
    assert_eq!(validate_expressions(vec![leaf(), compose(2, &[2])]), bad(ArenaKind::Types, 2));
    assert_eq!(
        validate_expressions(vec![leaf(), compose(1, &[1, 2, 5])]),
        forward(expr(2, "composite"), expr(2, "component"))
    );
    assert_eq!(
        validate_expressions(vec![leaf(), compose(1, &[1, 5, 2])]),
        bad(ArenaKind::Expressions, 5)
    );
}

#[test]
fn image_sample_checks_offset_then_operands() {
    let sample = |image,
                  sampler,
                  coordinate,
                  array_index: Option<u32>,
                  offset: Option<u32>,
                  depth_ref: Option<u32>| Expression::ImageSample {
        image: h(image),
        sampler: h(sampler),
        coordinate: h(coordinate),
        array_index: array_index.map(h),
        offset: offset.map(h),
        depth_ref: depth_ref.map(h),
    };
    let around = |expression| validate_expressions(vec![leaf(), leaf(), leaf(), expression]);
    let subject = || expr(4, "image sample");
    assert_eq!(around(sample(1, 2, 3, None, None, None)), Ok(()));
    assert_eq!(around(sample(1, 2, 3, Some(1), Some(1), Some(2))), Ok(()));
    assert_eq!(around(sample(4, 4, 4, Some(4), Some(2), Some(4))), bad(ArenaKind::Constants, 2));
    assert_eq!(around(sample(4, 4, 4, Some(4), Some(1), Some(4))), forward(subject(), expr(4, "image")));
    assert_eq!(around(sample(1, 4, 4, Some(4), None, Some(4))), forward(subject(), expr(4, "sampler")));
    assert_eq!(around(sample(1, 2, 4, Some(4), None, Some(4))), forward(subject(), expr(4, "coordinate")));
    assert_eq!(around(sample(1, 2, 3, Some(4), None, Some(4))), forward(subject(), expr(4, "array index")));
    assert_eq!(
        around(sample(1, 2, 3, None, None, Some(4))),
        forward(subject(), expr(4, "depth reference"))
    );
}

#[test]
fn image_load_checks_its_operands_in_order() {
    let load = |image, coordinate, array_index: Option<u32>, sample: Option<u32>, level: Option<u32>| {
        Expression::ImageLoad {
            image: h(image),
            coordinate: h(coordinate),
            array_index: array_index.map(h),
            sample: sample.map(h),
            level: level.map(h),
        }
    };
    let around = |expression| validate_expressions(vec![leaf(), leaf(), expression]);
    let subject = || expr(3, "image load");
    assert_eq!(around(load(1, 2, None, None, None)), Ok(()));
    assert_eq!(around(load(1, 2, Some(1), Some(2), Some(1))), Ok(()));
    assert_eq!(around(load(3, 3, Some(3), Some(3), Some(3))), forward(subject(), expr(3, "image")));
    assert_eq!(around(load(1, 3, Some(3), Some(3), Some(3))), forward(subject(), expr(3, "coordinate")));
    assert_eq!(around(load(1, 2, Some(3), Some(3), Some(3))), forward(subject(), expr(3, "array index")));
    assert_eq!(around(load(1, 2, None, Some(3), Some(3))), forward(subject(), expr(3, "sample index")));
    assert_eq!(around(load(1, 2, None, None, Some(3))), forward(subject(), expr(3, "level of detail")));
}

#[test]
fn image_query_checks_level_only_for_size() {
    let query = |image, query| Expression::ImageQuery { image: h(image), query };
    let around = |expression| validate_expressions(vec![leaf(), expression]);
    assert_eq!(around(query(1, ImageQuery::NumLevels)), Ok(()));
    assert_eq!(around(query(1, ImageQuery::NumLayers)), Ok(()));
    assert_eq!(around(query(1, ImageQuery::NumSamples)), Ok(()));
    assert_eq!(around(query(1, ImageQuery::Size { level: None })), Ok(()));
    assert_eq!(around(query(1, ImageQuery::Size { level: Some(h(1)) })), Ok(()));
    assert_eq!(
        around(query(2, ImageQuery::NumLevels)),
        forward(expr(2, "image query"), expr(2, "image"))
    );
    assert_eq!(
        around(query(1, ImageQuery::Size { level: Some(h(2)) })),
        forward(expr(2, "image query"), expr(2, "level of detail"))
    );
}

#[test]
fn operand_past_the_end_is_a_bad_handle() {
    assert_eq!(
        validate_expressions(vec![leaf(), Expression::Load { pointer: h(3) }]),
        bad(ArenaKind::Expressions, 3)
    );
    assert_eq!(
        validate_expressions(vec![leaf(), Expression::Load { pointer: h(2) }]),
        forward(expr(2, "load"), expr(2, "pointee"))
    );
}

#[test]
fn local_variables_are_checked_before_expressions() {
    let mut function = function_of(vec![Expression::Load { pointer: h(1) }]);
    function.local_variables.append(LocalVariable { name: None, ty: h(9), init: None }, Span::default());
    assert_eq!(
        Validator::validate_module_handles(&module_with_function(function)),
        bad(ArenaKind::Types, 9)
    );
}

#[test]
fn functions_are_checked_before_entry_points() {
    let broken_entry = EntryPoint {
        name: String::from("main"),
        function: function_of(vec![Expression::Constant(h(8))]),
    };
    let mut module = module_with_function(function_of(vec![Expression::Constant(h(7))]));
    module.entry_points.push(broken_entry);
    assert_eq!(Validator::validate_module_handles(&module), bad(ArenaKind::Constants, 7));
}

#[test]
fn entry_point_function_is_validated_like_a_function() {
    let mut module = module_with_function(empty_function());
    module.entry_points.push(EntryPoint {
        name: String::from("main"),
        function: function_of(vec![leaf(), Expression::Unary { expr: h(1) }]),
    });
    assert_eq!(Validator::validate_module_handles(&module), Ok(()));
    module.entry_points.push(EntryPoint {
        name: String::from("other"),
        function: function_of(vec![Expression::Unary { expr: h(1) }]),
    });
    assert_eq!(
        Validator::validate_module_handles(&module),
        forward(expr(1, "unary"), expr(1, "unary operand"))
    );
}

#[test]
fn earliest_defect_is_the_one_reported() {
    let mut module = module_with_types(vec![f32_type()]);
    module.constants.append(composite(3, &[]), Span::default());
    module.global_variables.append(GlobalVariable { name: None, ty: h(4), init: None }, Span::default());
    assert_eq!(Validator::validate_module_handles(&module), bad(ArenaKind::Types, 3));

    let mut later = module_with_types(vec![f32_type()]);
    later.constants.append(scalar_constant(), Span::default());
    later.constants.append(composite(1, &[2]), Span::default());
    later.constants.append(composite(5, &[]), Span::default());
    assert_eq!(
        Validator::validate_module_handles(&later),
        forward(named(2, "constant", None), named(2, "component", None))
    );

    let mut second_function = module_with_function(function_of(vec![leaf()]));
    second_function.functions.append(function_of(vec![Expression::CallResult(h(3))]), Span::default());
    second_function.functions.append(function_of(vec![Expression::CallResult(h(4))]), Span::default());
    assert_eq!(Validator::validate_module_handles(&second_function), bad(ArenaKind::Functions, 4));
}

#[test]
fn validating_twice_gives_the_same_result() {
    let valid = module_with_function(function_of(vec![leaf(), Expression::Load { pointer: h(1) }]));
    assert_eq!(Validator::validate_module_handles(&valid), Ok(()));
    assert_eq!(Validator::validate_module_handles(&valid), Ok(()));

    let broken = module_with_types(vec![unnamed(TypeInner::Pointer { base: h(1) })]);
    let first = Validator::validate_module_handles(&broken);
    let second = Validator::validate_module_handles(&broken);
    assert!(first.is_err());
    assert_eq!(first, second);
    assert_eq!(first.unwrap_err().render(), second.unwrap_err().render());
}

#[test]
fn module_in_dependency_order_is_valid() {
    let mut module = module_with_types(vec![
        f32_type(),
        unnamed(TypeInner::Vector { size: VectorSize::Tri, kind: ScalarKind::Float, width: 4 }),
        unnamed(TypeInner::Matrix { columns: VectorSize::Quad, rows: VectorSize::Quad, width: 4 }),
        unnamed(TypeInner::Atomic { kind: ScalarKind::Sint, width: 4 }),
        unnamed(TypeInner::Pointer { base: h(1) }),
        unnamed(TypeInner::ValuePointer { size: Some(VectorSize::Bi), kind: ScalarKind::Float, width: 4 }),
        unnamed(TypeInner::Array { base: h(2), stride: 16 }),
        Type {
            name: Some(String::from("Light")),
            inner: TypeInner::Struct {
                members: vec![
                    StructMember { name: Some(String::from("position")), ty: h(2), offset: 0 },
                    StructMember { name: None, ty: h(7), offset: 16 },
                ],
                span: 32,
            },
        },
        unnamed(TypeInner::Image { arrayed: false }),
        unnamed(TypeInner::Sampler { comparison: true }),
        unnamed(TypeInner::BindingArray { base: h(9) }),
    ]);
    module.constants.append(scalar_constant(), Span::default());
    module.constants.append(
        Constant { name: Some(String::from("one")), inner: ConstantInner::Scalar { width: 4, value: ScalarValue::Sint(-1) } },
        Span::default(),
    );
    module.constants.append(composite(2, &[1, 2, 1]), Span::default());
    module.global_variables.append(GlobalVariable { name: None, ty: h(9), init: None }, Span::default());
    module.global_variables.append(
        GlobalVariable { name: Some(String::from("g")), ty: h(2), init: Some(h(3)) },
        Span::default(),
    );

    let mut helper = function_of(vec![leaf(), Expression::Unary { expr: h(1) }]);
    helper.name = Some(String::from("helper"));
    module.functions.append(helper, Span::default());

    let mut function = function_of(vec![
        Expression::FunctionArgument(0),
        Expression::Constant(h(3)),
        Expression::GlobalVariable(h(1)),
        Expression::LocalVariable(h(2)),
        Expression::Access { base: h(2) },
        Expression::AccessIndex { base: h(2), index: 1 },
        Expression::Splat { size: VectorSize::Quad, value: h(1) },
        Expression::Swizzle { size: VectorSize::Bi, vector: h(7) },
        Expression::Compose { ty: h(2), components: vec![h(1), h(5), h(6)] },
        Expression::Load { pointer: h(4) },
        Expression::ImageSample {
            image: h(3),
            sampler: h(3),
            coordinate: h(9),
            array_index: Some(h(1)),
            offset: Some(h(1)),
            depth_ref: Some(h(10)),
        },
        Expression::ImageLoad {
            image: h(3),
            coordinate: h(9),
            array_index: None,
            sample: Some(h(1)),
            level: Some(h(1)),
        },
        Expression::ImageQuery { image: h(3), query: ImageQuery::Size { level: Some(h(1)) } },
        Expression::ImageQuery { image: h(3), query: ImageQuery::NumSamples },
        Expression::Unary { expr: h(1) },
        Expression::Binary { left: h(1), right: h(15) },
        Expression::Select { condition: h(16), accept: h(1), reject: h(15) },
        Expression::Derivative { expr: h(1) },
        Expression::Relational { argument: h(9) },
        Expression::Math { arg: h(1), arg1: Some(h(15)), arg2: None, arg3: None },
        Expression::As { expr: h(1), kind: ScalarKind::Uint, convert: None },
        Expression::CallResult(h(1)),
        Expression::AtomicResult { kind: ScalarKind::Uint, width: 4, comparison: true },
        Expression::ArrayLength(h(3)),
    ]);
    function.local_variables.append(LocalVariable { name: None, ty: h(1), init: None }, Span::default());
    function.local_variables.append(
        LocalVariable { name: Some(String::from("x")), ty: h(2), init: Some(h(3)) },
        Span::default(),
    );
    module.functions.append(function, Span::default());
    module.entry_points.push(EntryPoint {
        name: String::from("main"),
        function: function_of(vec![Expression::CallResult(h(2)), Expression::Load { pointer: h(1) }]),
    });
    assert_eq!(Validator::validate_module_handles(&module), Ok(()));
}
