use archy_core::codegen::{
    has_attribute, is_unit_return, plan_factory, plan_service, read_service_option,
    service_option, to_pascal_case, Argument, AttributePath, DeriveTarget, ImplItem, ImplTarget,
    MacroError, MessageField, Method, OptionTokens, PathSegment, ReturnKind,
};

fn attribute(path: &[&str]) -> AttributePath {
    AttributePath {
        leading_colon: false,
        segments: path
            .iter()
            .map(|ident| PathSegment { ident: ident.to_string(), has_arguments: false })
            .collect(),
    }
}

fn method(name: &str, attributes: &[&str], params: &[&str], output: ReturnKind) -> Method {
    let mut arguments = vec![Argument::Receiver];
    arguments.extend(params.iter().map(|param| Argument::Named(param.to_string())));
    Method {
        name: name.to_string(),
        is_public: true,
        is_async: true,
        attributes: attributes.iter().map(|ident| attribute(&[ident])).collect(),
        arguments,
        output,
    }
}

fn target() -> ImplTarget {
    ImplTarget::Path("Greeter".to_string())
}

#[test]
fn names_become_pascal_case() {
    assert_eq!(to_pascal_case("greet"), "Greet");
    assert_eq!(to_pascal_case("handle_request"), "HandleRequest");
    assert_eq!(to_pascal_case("_private__name_"), "PrivateName");
    assert_eq!(to_pascal_case("get_2nd"), "Get2nd");
    assert_eq!(to_pascal_case("\u{e4}rger_x"), "\u{e4}rgerX");
    assert_eq!(to_pascal_case("__"), "");
}

#[test]
fn unit_returns() {
    assert!(is_unit_return(ReturnKind::Default));
    assert!(is_unit_return(ReturnKind::Tuple(0)));
    assert!(!is_unit_return(ReturnKind::Tuple(2)));
    assert!(!is_unit_return(ReturnKind::Other));
}

#[test]
fn attributes_match_by_single_identifier() {
    let attributes = vec![attribute(&["doc"]), attribute(&["traced"])];
    assert!(has_attribute(&attributes, "traced"));
    assert!(!has_attribute(&attributes, "untraced"));
    assert!(!has_attribute(&vec![attribute(&["archy", "traced"])], "traced"));
    let mut rooted = attribute(&["traced"]);
    rooted.leading_colon = true;
    assert!(!rooted.is_ident("traced"));
    let mut generic = attribute(&["traced"]);
    generic.segments[0].has_arguments = true;
    assert!(!generic.is_ident("traced"));
}

#[test]
fn service_options_are_read() {
    assert!(matches!(read_service_option(""), Ok(false)));
    assert!(matches!(read_service_option("traced"), Ok(true)));
    assert!(matches!(read_service_option(" traced "), Ok(true)));
    match read_service_option("quiet") {
        Err(error) => assert_eq!(error.message(), "expected `traced`, found `quiet`"),
        Ok(_) => panic!("no such option"),
    }
    assert!(matches!(read_service_option("a b"), Err(MacroError::MalformedOption(_))));
    assert!(matches!(read_service_option("1"), Err(MacroError::MalformedOption(_))));
    match service_option(OptionTokens::Malformed("expected identifier".to_string())) {
        Err(error) => assert_eq!(error.message(), "expected identifier"),
        Ok(_) => panic!("no identifier"),
    }
}

#[test]
fn factories_need_named_fields() {
    let fields = vec!["db".to_string(), "payments".to_string()];
    assert_eq!(
        plan_factory(DeriveTarget::NamedFields(fields)).unwrap(),
        vec!["db".to_string(), "payments".to_string()]
    );
    assert_eq!(
        plan_factory(DeriveTarget::OtherStruct).unwrap_err().message(),
        "#[derive(Service)] only supports structs with named fields"
    );
    assert_eq!(
        plan_factory(DeriveTarget::NotStruct).unwrap_err().message(),
        "#[derive(Service)] only supports structs"
    );
}

#[test]
fn methods_with_a_result_reply() {
    let items = vec![ImplItem::Method(method("greet", &[], &["name"], ReturnKind::Other))];
    let plan = plan_service(&target(), &items, false).unwrap();
    assert_eq!(plan.message_enum, "GreeterMsg");
    assert_eq!(plan.methods_struct, "GreeterMethods");
    assert_eq!(plan.methods.len(), 1);
    let greet = &plan.methods[0];
    assert_eq!(greet.item, 0);
    assert_eq!(greet.variant, "Greet");
    assert_eq!(greet.params.len(), 1);
    assert_eq!(greet.params[0].name, "name");
    assert_eq!(greet.params[0].position, 1);
    assert!(greet.replies && !greet.traced);
    assert_eq!(greet.message, vec![MessageField::Param(0), MessageField::Respond]);
}

#[test]
fn methods_without_a_result_are_fire_and_forget() {
    let items = vec![
        ImplItem::Method(method("refresh", &[], &[], ReturnKind::Default)),
        ImplItem::Method(method("store", &["traced"], &["key", "value"], ReturnKind::Tuple(0))),
    ];
    let plan = plan_service(&target(), &items, false).unwrap();
    assert!(plan.methods[0].message.is_empty());
    assert_eq!(
        plan.methods[1].message,
        vec![MessageField::Param(0), MessageField::Param(1), MessageField::Span]
    );
}

#[test]
fn own_attributes_decide_tracing() {
    let items = vec![
        ImplItem::Method(method("a", &["untraced"], &[], ReturnKind::Other)),
        ImplItem::Method(method("b", &[], &[], ReturnKind::Other)),
        ImplItem::Method(method("c", &["traced"], &[], ReturnKind::Other)),
    ];
    let traced = |service: bool| -> Vec<bool> {
        plan_service(&target(), &items, service)
            .unwrap()
            .methods
            .iter()
            .map(|method| method.traced)
            .collect()
    };
    assert_eq!(traced(true), vec![false, true, true]);
    assert_eq!(traced(false), vec![false, false, true]);
}

#[test]
fn only_public_async_methods_with_self_are_offered() {
    let mut hidden = method("hidden", &[], &[], ReturnKind::Other);
    hidden.is_public = false;
    let mut blocking = method("blocking", &[], &[], ReturnKind::Other);
    blocking.is_async = false;
    let mut associated = method("associated", &[], &[], ReturnKind::Other);
    associated.arguments = vec![Argument::Named("x".to_string())];
    let mut bare = method("bare", &[], &[], ReturnKind::Other);
    bare.arguments = vec![];
    let items = vec![
        ImplItem::Method(hidden),
        ImplItem::Other,
        ImplItem::Method(blocking),
        ImplItem::Method(associated),
        ImplItem::Method(bare),
        ImplItem::Method(method("offered", &[], &[], ReturnKind::Other)),
    ];
    let plan = plan_service(&target(), &items, false).unwrap();
    assert_eq!(plan.methods.len(), 1);
    assert_eq!(plan.methods[0].item, 5);
}

#[test]
fn arguments_that_are_patterns_are_left_out() {
    let mut pair = method("pair", &[], &[], ReturnKind::Other);
    pair.arguments.push(Argument::Pattern);
    pair.arguments.push(Argument::Named("rest".to_string()));
    let plan = plan_service(&target(), &vec![ImplItem::Method(pair)], false).unwrap();
    assert_eq!(plan.methods[0].params.len(), 1);
    assert_eq!(plan.methods[0].params[0].position, 2);
}

#[test]
fn conflicting_tracing_is_refused() {
    let items = vec![
        ImplItem::Method(method("fine", &[], &[], ReturnKind::Other)),
        ImplItem::Method(method("both", &["traced", "untraced"], &[], ReturnKind::Other)),
    ];
    let error = plan_service(&target(), &items, false).unwrap_err();
    assert!(matches!(error, MacroError::ConflictingTracing(1)));
    assert_eq!(
        error.message(),
        "method cannot have both #[traced] and #[untraced] attributes"
    );
}

#[test]
fn only_named_types_have_services() {
    let error = plan_service(&ImplTarget::Other, &vec![], false).unwrap_err();
    assert_eq!(
        error.message(),
        "#[service] must be applied to an impl block for a named type"
    );
}
