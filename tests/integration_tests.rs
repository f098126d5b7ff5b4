use bounded_static_derive::ast::{
    Data, Declaration, FieldType, Fields, GenericParam, Generics, NamedField, RefLifetime, Variant,
};
use bounded_static_derive::common::DeriveError;
use bounded_static_derive::derive_to_static;
use bounded_static_derive::generated::{
    Capability, Construct, ConversionBody, ConversionImpl, FieldInit, Generated, ImplParam,
    MatchArm, Member, Operand, ParamRef, Pattern, TargetArg, WherePredicate,
};

fn s(x: &str) -> String {
    String::from(x)
}

fn strings(xs: &[&str]) -> Vec<String> {
    xs.iter().map(|x| s(x)).collect()
}

fn other(t: &str) -> FieldType {
    FieldType::Other(s(t))
}

fn static_ref(t: &str) -> FieldType {
    FieldType::Reference { lifetime: RefLifetime::Static, referent: s(t) }
}

fn borrowed_ref(l: &str, t: &str) -> FieldType {
    FieldType::Reference { lifetime: RefLifetime::Named(s(l)), referent: s(t) }
}

fn lifetime(name: &str, bounds: &[&str]) -> GenericParam {
    GenericParam::Lifetime { name: s(name), bounds: strings(bounds) }
}

fn type_param(name: &str, bounds: &[&str]) -> GenericParam {
    GenericParam::Type { name: s(name), bounds: strings(bounds), default: None }
}

fn const_param(name: &str, ty: &str) -> GenericParam {
    GenericParam::Const { name: s(name), ty: s(ty), default: None }
}

fn named(fields: &[(&str, FieldType)]) -> Fields {
    Fields::Named(
        fields
            .iter()
            .map(|(n, t)| NamedField { name: s(n), ty: t.clone() })
            .collect(),
    )
}

fn decl(name: &str, params: Vec<GenericParam>, where_clause: &[&str], data: Data) -> Declaration {
    Declaration {
        name: s(name),
        generics: Generics { params, where_clause: strings(where_clause) },
        data,
    }
}

fn derive_ok(d: &Declaration) -> Generated {
    match derive_to_static(d) {
        Ok(g) => g,
        Err(e) => panic!("unexpected rejection: {:?}", e),
    }
}

fn derive_err(d: &Declaration) -> DeriveError {
    match derive_to_static(d) {
        Ok(g) => panic!("unexpected success: {:?}", g),
        Err(e) => e,
    }
}

fn self_init(m: Member, cap: Capability) -> FieldInit {
    FieldInit { member: m.clone(), source: Operand::SelfField(m), capability: cap }
}

fn bound_init(m: Member, cap: Capability) -> FieldInit {
    FieldInit { member: m.clone(), source: Operand::Binding(m), capability: cap }
}

fn named_self_inits(names: &[&str], cap: Capability) -> Vec<FieldInit> {
    names.iter().map(|n| self_init(Member::Named(s(n)), cap)).collect()
}

fn unnamed_self_inits(n: usize, cap: Capability) -> Vec<FieldInit> {
    (0..n).map(|i| self_init(Member::Index(i), cap)).collect()
}

fn record_body(imp: &ConversionImpl) -> &Construct {
    match &imp.body {
        ConversionBody::Record(c) => c,
        ConversionBody::Match(_) => panic!("expected a record body"),
    }
}

fn match_arms(imp: &ConversionImpl) -> &Vec<MatchArm> {
    match &imp.body {
        ConversionBody::Match(arms) => arms,
        ConversionBody::Record(_) => panic!("expected a match body"),
    }
}

fn lifetime_param(name: &str, bounds: &[&str]) -> ImplParam {
    ImplParam::Lifetime { name: s(name), bounds: strings(bounds) }
}

fn bounded_type_param(name: &str, bounds: &[&str], cap: Capability) -> ImplParam {
    ImplParam::Type { name: s(name), bounds: strings(bounds), capability: cap }
}

fn outlives(param: &str, l: &str) -> WherePredicate {
    WherePredicate::Outlives { param: s(param), lifetime: s(l) }
}

fn declared(p: &str) -> WherePredicate {
    WherePredicate::Declared(s(p))
}

fn check_common(imp: &ConversionImpl, name: &str, cap: Capability) {
    assert_eq!(imp.capability, cap);
    assert_eq!(imp.name, name);
}

fn single_lifetime_struct(data: Data) -> Declaration {
    decl("Foo", vec![lifetime("a", &[])], &[], data)
}

fn enum_foo() -> Declaration {
    decl(
        "Foo",
        vec![lifetime("a", &[])],
        &[],
        Data::Enum(vec![
            Variant { name: s("Unit"), fields: Fields::Unit },
            Variant {
                name: s("Named"),
                fields: named(&[("name", other("String")), ("age", other("i8"))]),
            },
            Variant {
                name: s("First"),
                fields: Fields::Unnamed(vec![other("Cow<'a, str>"), other("Cow<'a, str>")]),
            },
            Variant { name: s("Second"), fields: Fields::Unnamed(vec![other("Bar<'a>")]) },
            Variant {
                name: s("Third"),
                fields: Fields::Unnamed(vec![other("i128"), other("bool"), static_ref("str")]),
            },
        ]),
    )
}

fn check_enum_foo(imp: &ConversionImpl, cap: Capability) {
    check_common(imp, "Foo", cap);
    assert_eq!(imp.target_args, vec![TargetArg::StaticLifetime]);
    let arms = match_arms(imp);
    let expected = vec![
        MatchArm { variant: s("Unit"), pattern: Pattern::Unit, construct: Construct::Unit },
        MatchArm {
            variant: s("Named"),
            pattern: Pattern::Named(strings(&["name", "age"])),
            construct: Construct::Named(vec![
                bound_init(Member::Named(s("name")), cap),
                bound_init(Member::Named(s("age")), cap),
            ]),
        },
        MatchArm {
            variant: s("First"),
            pattern: Pattern::Unnamed(vec![0, 1]),
            construct: Construct::Unnamed(vec![
                bound_init(Member::Index(0), cap),
                bound_init(Member::Index(1), cap),
            ]),
        },
        MatchArm {
            variant: s("Second"),
            pattern: Pattern::Unnamed(vec![0]),
            construct: Construct::Unnamed(vec![bound_init(Member::Index(0), cap)]),
        },
        MatchArm {
            variant: s("Third"),
            pattern: Pattern::Unnamed(vec![0, 1, 2]),
            construct: Construct::Unnamed(vec![
                bound_init(Member::Index(0), cap),
                bound_init(Member::Index(1), cap),
                bound_init(Member::Index(2), cap),
            ]),
        },
    ];
    assert_eq!(*arms, expected);
}

#[test]
fn test_struct_named_fields_1() {
    let d = single_lifetime_struct(Data::Struct(named(&[("value", other("Cow<'a, str>"))])));
    let g = derive_ok(&d);
    let imp = &g.to_static;
    check_common(imp, "Foo", Capability::ToStatic);
    assert_eq!(imp.generics.params, vec![lifetime_param("a", &[])]);
    assert_eq!(imp.generics.self_args, vec![ParamRef::Lifetime(s("a"))]);
    assert!(imp.generics.where_clause.is_empty());
    assert_eq!(imp.target_args, vec![TargetArg::StaticLifetime]);
    assert_eq!(
        *record_body(imp),
        Construct::Named(named_self_inits(&["value"], Capability::ToStatic))
    );
}

#[test]
fn test_struct_named_fields_2() {
    let d = decl(
        "Foo",
        vec![lifetime("a", &[]), lifetime("b", &[])],
        &[],
        Data::Struct(named(&[
            ("u8_value", other("u8")),
            ("static_str", static_ref("str")),
            ("owned_str", other("String")),
            ("value", other("Cow<'a, str>")),
            ("bar", other("Vec<Bar<'b>>")),
        ])),
    );
    let g = derive_ok(&d);
    assert_eq!(
        g.to_static.target_args,
        vec![TargetArg::StaticLifetime, TargetArg::StaticLifetime]
    );
    assert_eq!(
        *record_body(&g.to_static),
        Construct::Named(named_self_inits(
            &["u8_value", "static_str", "owned_str", "value", "bar"],
            Capability::ToStatic
        ))
    );
    let bar = single_lifetime_struct(Data::Struct(named(&[
        ("u8_value", other("u8")),
        ("static_str", static_ref("str")),
        ("owned_str", other("String")),
        ("value", other("Cow<'a, str>")),
    ])));
    let gb = derive_ok(&bar);
    assert_eq!(
        *record_body(&gb.to_static),
        Construct::Named(named_self_inits(
            &["u8_value", "static_str", "owned_str", "value"],
            Capability::ToStatic
        ))
    );
}

#[test]
fn test_no_generics_or_lifetimes() {
    let d = decl("Foo", vec![], &[], Data::Struct(Fields::Unnamed(vec![other("u32")])));
    let g = derive_ok(&d);
    let imp = &g.to_static;
    check_common(imp, "Foo", Capability::ToStatic);
    assert!(imp.generics.params.is_empty());
    assert!(imp.generics.self_args.is_empty());
    assert!(imp.generics.where_clause.is_empty());
    assert!(imp.target_args.is_empty());
    assert_eq!(*record_body(imp), Construct::Unnamed(unnamed_self_inits(1, Capability::ToStatic)));
}

#[test]
fn test_struct_named_fields_no_generics() {
    let d = decl(
        "Foo",
        vec![],
        &[],
        Data::Struct(named(&[("foo", other("String")), ("bar", static_ref("str"))])),
    );
    let g = derive_ok(&d);
    assert!(g.to_static.target_args.is_empty());
    assert_eq!(
        *record_body(&g.to_static),
        Construct::Named(named_self_inits(&["foo", "bar"], Capability::ToStatic))
    );
}

#[test]
fn test_struct_unnamed_fields() {
    let d = single_lifetime_struct(Data::Struct(Fields::Unnamed(vec![
        other("String"),
        other("Cow<'a, str>"),
        other("u16"),
        other("Bar<'a>"),
    ])));
    let g = derive_ok(&d);
    assert_eq!(g.to_static.target_args, vec![TargetArg::StaticLifetime]);
    assert_eq!(
        *record_body(&g.to_static),
        Construct::Unnamed(unnamed_self_inits(4, Capability::ToStatic))
    );
}

#[test]
fn test_struct_unnamed_fields_no_generics() {
    let d = decl(
        "Foo",
        vec![],
        &[],
        Data::Struct(Fields::Unnamed(vec![other("String"), static_ref("str")])),
    );
    let g = derive_ok(&d);
    assert_eq!(
        *record_body(&g.to_static),
        Construct::Unnamed(unnamed_self_inits(2, Capability::ToStatic))
    );
}

#[test]
fn test_unit_struct() {
    let d = decl("Foo", vec![], &[], Data::Struct(Fields::Unit));
    let g = derive_ok(&d);
    check_common(&g.to_static, "Foo", Capability::ToStatic);
    assert_eq!(*record_body(&g.to_static), Construct::Unit);
}

#[test]
fn test_struct_complex_lifetimes() {
    let d = decl(
        "Foo",
        vec![
            lifetime("a", &[]),
            lifetime("b", &[]),
            type_param("R", &[]),
            type_param("T", &["'b"]),
        ],
        &["'b: 'a", "R: 'a", "T: 'a"],
        Data::Struct(named(&[
            ("baz", other("T")),
            ("a", other("Cow<'a, str>")),
            ("b", other("Cow<'b, str>")),
            ("r", other("R")),
        ])),
    );
    let g = derive_ok(&d);
    let imp = &g.to_static;
    assert_eq!(
        imp.generics.params,
        vec![
            lifetime_param("a", &[]),
            lifetime_param("b", &[]),
            bounded_type_param("R", &[], Capability::ToStatic),
            bounded_type_param("T", &["'b"], Capability::ToStatic),
        ]
    );
    assert_eq!(
        imp.generics.self_args,
        vec![
            ParamRef::Lifetime(s("a")),
            ParamRef::Lifetime(s("b")),
            ParamRef::Type(s("R")),
            ParamRef::Type(s("T")),
        ]
    );
    assert_eq!(
        imp.generics.where_clause,
        vec![
            outlives("R", "a"),
            outlives("R", "b"),
            outlives("T", "a"),
            outlives("T", "b"),
            declared("'b: 'a"),
            declared("R: 'a"),
            declared("T: 'a"),
        ]
    );
    assert_eq!(
        imp.target_args,
        vec![
            TargetArg::StaticLifetime,
            TargetArg::StaticLifetime,
            TargetArg::Snapshot(s("R")),
            TargetArg::Snapshot(s("T")),
        ]
    );
    assert_eq!(
        *record_body(imp),
        Construct::Named(named_self_inits(&["baz", "a", "b", "r"], Capability::ToStatic))
    );
}

#[test]
fn test_struct_named_fields_into() {
    let d = single_lifetime_struct(Data::Struct(named(&[("value", other("Cow<'a, str>"))])));
    let g = derive_ok(&d);
    let imp = &g.into_static;
    check_common(imp, "Foo", Capability::IntoStatic);
    assert_eq!(imp.target_args, vec![TargetArg::StaticLifetime]);
    assert_eq!(
        *record_body(imp),
        Construct::Named(named_self_inits(&["value"], Capability::IntoStatic))
    );
}

#[test]
fn test_struct_unnamed_fields_into() {
    let d = single_lifetime_struct(Data::Struct(Fields::Unnamed(vec![
        other("String"),
        other("Cow<'a, str>"),
        other("u16"),
        other("Bar<'a>"),
    ])));
    let g = derive_ok(&d);
    check_common(&g.into_static, "Foo", Capability::IntoStatic);
    assert_eq!(
        *record_body(&g.into_static),
        Construct::Unnamed(unnamed_self_inits(4, Capability::IntoStatic))
    );
}

#[test]
fn test_unit_struct_into() {
    let d = decl("Foo", vec![], &[], Data::Struct(Fields::Unit));
    let g = derive_ok(&d);
    check_common(&g.into_static, "Foo", Capability::IntoStatic);
    assert_eq!(*record_body(&g.into_static), Construct::Unit);
}

#[test]
fn test_enum() {
    let g = derive_ok(&enum_foo());
    check_enum_foo(&g.to_static, Capability::ToStatic);
}

#[test]
fn test_enum_into() {
    let g = derive_ok(&enum_foo());
    check_enum_foo(&g.into_static, Capability::IntoStatic);
}

#[test]
fn test_thread_spawn() {
    let foo = single_lifetime_struct(Data::Struct(named(&[
        ("foo", other("Cow<'a, str>")),
        ("bar", other("Vec<Bar<'a>>")),
    ])));
    let bar = decl(
        "Bar",
        vec![lifetime("a", &[])],
        &[],
        Data::Enum(vec![
            Variant { name: s("First"), fields: Fields::Unit },
            Variant { name: s("Second"), fields: Fields::Unnamed(vec![other("Cow<'a, str>")]) },
        ]),
    );
    let gf = derive_ok(&foo);
    assert_eq!(
        *record_body(&gf.into_static),
        Construct::Named(named_self_inits(&["foo", "bar"], Capability::IntoStatic))
    );
    let gb = derive_ok(&bar);
    let arms = match_arms(&gb.into_static);
    assert_eq!(arms.len(), 2);
    assert_eq!(arms[0].variant, "First");
    assert_eq!(arms[1].variant, "Second");
}

fn const_foo(with_bool: bool) -> Declaration {
    let mut params = vec![lifetime("a", &[]), const_param("N", "usize"), const_param("M", "usize")];
    if with_bool {
        params.push(const_param("Q", "bool"));
    }
    decl(
        "Foo",
        params,
        &[],
        Data::Struct(named(&[
            ("value", other("Cow<'a, str>")),
            ("left", other("[usize; N]")),
            ("right", other("[usize; M]")),
        ])),
    )
}

#[test]
fn test_const_generics_struct() {
    let g = derive_ok(&const_foo(false));
    let imp = &g.to_static;
    assert_eq!(
        imp.generics.params,
        vec![
            lifetime_param("a", &[]),
            ImplParam::Const { name: s("N"), ty: s("usize") },
            ImplParam::Const { name: s("M"), ty: s("usize") },
        ]
    );
    assert_eq!(
        imp.target_args,
        vec![TargetArg::StaticLifetime, TargetArg::Const(s("N")), TargetArg::Const(s("M"))]
    );
    assert_eq!(
        *record_body(imp),
        Construct::Named(named_self_inits(&["value", "left", "right"], Capability::ToStatic))
    );
}

#[test]
fn test_const_generics_struct_into() {
    let g = derive_ok(&const_foo(true));
    let imp = &g.into_static;
    assert_eq!(
        imp.target_args,
        vec![
            TargetArg::StaticLifetime,
            TargetArg::Const(s("N")),
            TargetArg::Const(s("M")),
            TargetArg::Const(s("Q")),
        ]
    );
    assert_eq!(imp.generics.params[3], ImplParam::Const { name: s("Q"), ty: s("bool") });
    assert_eq!(
        *record_body(imp),
        Construct::Named(named_self_inits(&["value", "left", "right"], Capability::IntoStatic))
    );
}

#[test]
fn test_generic_bound_1() {
    let d = decl(
        "Baz",
        vec![lifetime("a", &[]), type_param("T", &["Into<String>", "'a"])],
        &[],
        Data::Struct(named(&[("t", other("T")), ("r", other("Cow<'a, str>"))])),
    );
    let g = derive_ok(&d);
    let imp = &g.to_static;
    assert_eq!(
        imp.generics.params[1],
        bounded_type_param("T", &["Into<String>", "'a"], Capability::ToStatic)
    );
    assert_eq!(imp.generics.where_clause, vec![outlives("T", "a")]);
    assert_eq!(
        imp.target_args,
        vec![TargetArg::StaticLifetime, TargetArg::Snapshot(s("T"))]
    );
}

#[test]
fn test_generic_bound_2() {
    let d = decl(
        "Baz",
        vec![type_param("T", &["Foo", "Bar"]), type_param("R", &["Foo"])],
        &[],
        Data::Struct(named(&[("t", other("T")), ("r", other("R"))])),
    );
    let g = derive_ok(&d);
    let imp = &g.to_static;
    assert_eq!(
        imp.generics.params,
        vec![
            bounded_type_param("T", &["Foo", "Bar"], Capability::ToStatic),
            bounded_type_param("R", &["Foo"], Capability::ToStatic),
        ]
    );
    assert!(imp.generics.where_clause.is_empty());
    assert_eq!(
        imp.target_args,
        vec![TargetArg::Snapshot(s("T")), TargetArg::Snapshot(s("R"))]
    );
}

#[test]
fn test_generic_bound_3() {
    let d = decl(
        "Baz",
        vec![lifetime("a", &[]), type_param("T", &["Into<String>"])],
        &[],
        Data::Struct(Fields::Unnamed(vec![other("T"), other("Cow<'a, str>")])),
    );
    let g = derive_ok(&d);
    assert_eq!(
        g.to_static.generics.params[1],
        bounded_type_param("T", &["Into<String>"], Capability::ToStatic)
    );
    assert_eq!(
        *record_body(&g.to_static),
        Construct::Unnamed(unnamed_self_inits(2, Capability::ToStatic))
    );
}

#[test]
fn test_generic_bound_where_1() {
    let d = decl(
        "Baz",
        vec![lifetime("a", &[]), type_param("T", &["Foo"])],
        &["T: Into<String>"],
        Data::Struct(Fields::Unnamed(vec![other("T"), other("Cow<'a, str>")])),
    );
    let g = derive_ok(&d);
    assert_eq!(
        g.to_static.generics.where_clause,
        vec![outlives("T", "a"), declared("T: Into<String>")]
    );
}

#[test]
fn test_generic_bound_where_2() {
    let d = decl(
        "Baz",
        vec![lifetime("a", &[]), type_param("T", &["Foo"])],
        &["T: Into<String> + 'a + Bar"],
        Data::Struct(Fields::Unnamed(vec![other("T"), other("Cow<'a, str>")])),
    );
    let g = derive_ok(&d);
    let imp = &g.into_static;
    assert_eq!(
        imp.generics.params[1],
        bounded_type_param("T", &["Foo"], Capability::IntoStatic)
    );
    assert_eq!(
        imp.generics.where_clause,
        vec![outlives("T", "a"), declared("T: Into<String> + 'a + Bar")]
    );
}
