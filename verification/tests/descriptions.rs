use ir_handles::arena::{Arena, ArenaKind, BadHandle, Handle, Span};
use ir_handles::describe::{
    decimal_string, ErasedDescription, ExpressionHandleDescription, HandleDescription,
    KindAndMaybeName,
};
use ir_handles::descriptor::{FwdDepError, HandleDescriptor, InvalidHandleError};
use ir_handles::ir::{Type, TypeInner};
use std::borrow::Cow;

fn type_handle(ordinal: u32) -> Handle<Type> {
    Handle::new(ordinal).unwrap()
}

#[test]
fn decimal_string_writes_numerals() {
    assert_eq!(decimal_string(0), "0");
    assert_eq!(decimal_string(7), "7");
    assert_eq!(decimal_string(10), "10");
    assert_eq!(decimal_string(109), "109");
    assert_eq!(decimal_string(4294967295), "4294967295");
}

#[test]
fn from_type_has_no_name() {
    let described = KindAndMaybeName::from_type("pointer type");
    assert_eq!(described.kind, "pointer type");
    assert_eq!(described.name, None);
    assert_eq!(described.render(), "pointer type");
}

#[test]
fn with_name_sets_and_clears_the_name() {
    let named = KindAndMaybeName::from_type("structure").with_name(Some("Light"));
    assert_eq!(named.kind, "structure");
    assert_eq!(named.name, Some(Cow::Borrowed("Light")));
    let renamed = named.clone().with_name(Some("Shadow"));
    assert_eq!(renamed.name, Some(Cow::Borrowed("Shadow")));
    let cleared = named.with_name(None);
    assert_eq!(cleared.name, None);
    assert_eq!(cleared.kind, "structure");
}

#[test]
fn named_description_quotes_the_name() {
    let named = KindAndMaybeName::from_type("structure").with_name(Some("Light"));
    assert_eq!(named.render(), "structure \"Light\"");
}

#[test]
fn named_description_escapes_the_name() {
    let named = KindAndMaybeName::from_type("constant").with_name(Some("a\"b\n"));
    assert_eq!(named.render(), "constant \"a\\\"b\\n\"");
}

#[test]
fn into_static_owns_the_name() {
    let name = String::from("Light");
    let described = KindAndMaybeName::from_type("structure").with_name(Some(name.as_str()));
    let owned: KindAndMaybeName<'static> = described.clone().into_static();
    assert_eq!(owned.kind, "structure");
    assert!(matches!(owned.name, Some(Cow::Owned(_))));
    assert_eq!(owned.render(), described.render());
    let unnamed = KindAndMaybeName::from_type("structure").into_static();
    assert_eq!(unnamed.name, None);
}

#[test]
fn expression_description_appends_the_word() {
    assert_eq!(ExpressionHandleDescription { kind: "access" }.render(), "access expression");
}

#[test]
fn plain_description_is_the_string() {
    assert_eq!("base type".render(), "base type");
}

#[test]
fn erasure_keeps_the_text() {
    let named = KindAndMaybeName::from_type("structure").with_name(Some("Light"));
    assert_eq!(named.clone().into_erased().render(), named.render());
    assert_eq!(
        named.into_erased(),
        ErasedDescription::Named(KindAndMaybeName {
            kind: "structure",
            name: Some(Cow::Owned(String::from("Light"))),
        })
    );
    let expression = ExpressionHandleDescription { kind: "load" };
    assert_eq!(expression.into_erased(), ErasedDescription::Expression(expression));
    assert_eq!("base type".into_erased(), ErasedDescription::Plain("base type"));
    let erased = "base type".into_erased();
    assert_eq!(erased.clone().into_erased(), erased);
    assert_eq!(erased.render(), "base type");
}

#[test]
fn descriptor_holds_handle_and_description() {
    let mut descriptor = HandleDescriptor::new(type_handle(3), "base type");
    assert_eq!(descriptor.handle, type_handle(3));
    assert_eq!(descriptor.description, "base type");
    *descriptor.description_mut() = "member type";
    assert_eq!(descriptor.description, "member type");
    assert_eq!(descriptor.handle, type_handle(3));
}

#[test]
fn descriptor_renders_description_and_handle() {
    let descriptor = HandleDescriptor::new(type_handle(2), "pointer type");
    assert_eq!(descriptor.render(), "pointer type (handle 2)");
    let named = HandleDescriptor::new(
        type_handle(12),
        KindAndMaybeName::from_type("structure").with_name(Some("Light")),
    );
    assert_eq!(named.render(), "structure \"Light\" (handle 12)");
}

#[test]
fn check_dep_accepts_an_earlier_handle() {
    let subject = HandleDescriptor::new(type_handle(3), "pointer type");
    let checked = subject.check_dep(HandleDescriptor::new(type_handle(2), "base type"));
    assert_eq!(checked, Ok(HandleDescriptor::new(type_handle(3), "pointer type")));
}

#[test]
fn check_dep_refuses_the_handle_itself() {
    let subject = HandleDescriptor::new(type_handle(2), "pointer type");
    let error = subject.check_dep(HandleDescriptor::new(type_handle(2), "base type")).unwrap_err();
    assert_eq!(
        error,
        FwdDepError {
            subject: HandleDescriptor::new(Handle::new(2).unwrap(), ErasedDescription::Plain("pointer type")),
            depends_on: HandleDescriptor::new(Handle::new(2).unwrap(), ErasedDescription::Plain("base type")),
        }
    );
    assert_eq!(
        error.render(),
        "pointer type (handle 2) depends on base type (handle 2), which has not been processed yet"
    );
}

#[test]
fn check_dep_refuses_a_later_handle() {
    let subject = HandleDescriptor::new(type_handle(1), ExpressionHandleDescription { kind: "load" });
    let depends_on = HandleDescriptor::new(type_handle(9), ExpressionHandleDescription { kind: "pointee" });
    let error = subject.check_dep(depends_on).unwrap_err();
    assert_eq!(
        error.render(),
        "load expression (handle 1) depends on pointee expression (handle 9), which has not been processed yet"
    );
}

#[test]
fn check_dep_opt_passes_an_absent_dependency() {
    let subject = HandleDescriptor::new(type_handle(1), "math function call");
    let absent: Option<HandleDescriptor<Type, &'static str>> = None;
    assert_eq!(subject.check_dep_opt(absent), Ok(subject));
    let present = Some(HandleDescriptor::new(type_handle(1), "second argument"));
    assert!(subject.check_dep_opt(present).is_err());
    let earlier = Some(HandleDescriptor::new(type_handle(1), "second argument"));
    let later = HandleDescriptor::new(type_handle(2), "math function call");
    assert_eq!(later.check_dep_opt(earlier), Ok(later));
}

#[test]
fn check_valid_for_looks_the_handle_up() {
    let mut types = Arena::new();
    types.append(Type { name: None, inner: TypeInner::Sampler { comparison: false } }, Span::default());
    let present = HandleDescriptor::new(type_handle(1), "base type");
    assert_eq!(present.check_valid_for(&types), Ok(present));
    let absent = HandleDescriptor::new(type_handle(2), "base type");
    assert_eq!(
        absent.check_valid_for(&types),
        Err(InvalidHandleError::Bad(BadHandle { kind: ArenaKind::Types, ordinal: 2 }))
    );
}

#[test]
fn into_erased_keeps_ordinal_and_text() {
    let first = HandleDescriptor::new(type_handle(1), "base type").into_erased();
    assert_eq!(first.handle.ordinal(), 1);
    assert_eq!(first.render(), "base type (handle 1)");
}

#[test]
fn ok_ends_a_chain() {
    assert_eq!(HandleDescriptor::new(type_handle(1), "base type").ok(), Ok(()));
}

#[test]
fn bad_handle_message_names_ordinal_and_arena() {
    let bad = BadHandle { kind: ArenaKind::Constants, ordinal: 5 };
    assert_eq!(bad.render(), "Handle 5 of constants is either not present, or inaccessible yet");
    assert_eq!(InvalidHandleError::Bad(bad).render(), bad.render());
}

#[test]
fn errors_convert_into_invalid_handle_error() {
    let bad = BadHandle { kind: ArenaKind::Types, ordinal: 1 };
    assert_eq!(InvalidHandleError::from(bad), InvalidHandleError::Bad(bad));
    let error = FwdDepError {
        subject: HandleDescriptor::new(Handle::new(1).unwrap(), "a".into_erased()),
        depends_on: HandleDescriptor::new(Handle::new(1).unwrap(), "b".into_erased()),
    };
    let wrapped = InvalidHandleError::from(error.clone());
    assert_eq!(wrapped, InvalidHandleError::ForwardDependency(error.clone()));
    assert_eq!(wrapped.render(), error.render());
}

#[test]
fn written_out_description_is_its_text() {
    let erased = ErasedDescription::Text(String::from("uniform buffer"));
    assert_eq!(erased.render(), "uniform buffer");
    assert_eq!(
        HandleDescriptor::new(type_handle(4), erased).render(),
        "uniform buffer (handle 4)"
    );
}
