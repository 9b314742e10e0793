//! The plan of the code that the service macros generate.

use vstd::prelude::*;
use vstd::string::StringExecFns;

use crate::codegen::names::to_pascal_case;
#[allow(unused_imports)]
use crate::codegen::names;

verus! {

/// One segment of a path.
#[derive(Debug)]
pub struct PathSegment {
    pub ident: String,
    /// Whether the segment has arguments, in angle brackets or round ones.
    pub has_arguments: bool,
}

/// The path of an attribute.
#[derive(Debug)]
pub struct AttributePath {
    /// Whether the path starts with `::`.
    pub leading_colon: bool,
    pub segments: Vec<PathSegment>,
}

/// One argument of a method.
#[derive(Debug)]
pub enum Argument {
    /// `self`, in any form.
    Receiver,
    /// An argument that is bound to a name.
    Named(String),
    /// An argument that is taken apart by a pattern.
    Pattern,
}

/// What a method returns.
#[derive(Debug, Clone, Copy)]
pub enum ReturnKind {
    /// No return type is written.
    Default,
    /// A tuple of this many elements.
    Tuple(usize),
    /// Any other type.
    Other,
}

/// A method of the annotated `impl` block.
#[derive(Debug)]
pub struct Method {
    pub name: String,
    /// Whether the method is `pub`, without a restriction.
    pub is_public: bool,
    pub is_async: bool,
    pub attributes: Vec<AttributePath>,
    pub arguments: Vec<Argument>,
    pub output: ReturnKind,
}

/// An item of the annotated `impl` block.
#[derive(Debug)]
pub enum ImplItem {
    Method(Method),
    Other,
}

/// The type that the annotated `impl` block is for.
#[derive(Debug)]
pub enum ImplTarget {
    /// A path, whose last segment has this name.
    Path(String),
    /// Any other type.
    Other,
}

/// What stands in the round brackets of `#[service(..)]`.
#[derive(Debug)]
pub enum OptionTokens {
    /// Nothing.
    Empty,
    /// One identifier.
    Ident(String),
    /// Anything else, with the parser's complaint.
    Malformed(String),
}

/// What `#[derive(Service)]` stands on.
#[derive(Debug)]
pub enum DeriveTarget {
    /// A struct with these named fields.
    NamedFields(Vec<String>),
    /// A struct without named fields.
    OtherStruct,
    /// An enum or a union.
    NotStruct,
}

/// Why a macro refuses what it stands on.
#[derive(Debug)]
pub enum MacroError {
    /// The option of `#[service(..)]` is not `traced`.
    UnknownOption(String),
    /// The option of `#[service(..)]` is no identifier.
    MalformedOption(String),
    /// The `impl` block is not for a named type.
    NotNamedType,
    /// The method at this position has both tracing attributes.
    ConflictingTracing(usize),
    /// The struct has no named fields.
    NotNamedFields,
    /// The type is no struct.
    NotStruct,
}

/// A parameter that a message carries.
#[derive(Debug)]
pub struct Param {
    pub name: String,
    /// The position of the argument in the method's signature.
    pub position: usize,
}

/// A field of a message.
#[derive(Debug, Clone, Copy, PartialEq, Eq, Structural)]
pub enum MessageField {
    /// The parameter with this index.
    Param(usize),
    /// The span of the caller.
    Span,
    /// Where the reply goes.
    Respond,
}

/// What is generated for one method: a message, the arm that handles it, and a client method
/// that sends it.
#[derive(Debug)]
pub struct MethodPlan {
    /// The position of the method among the items of the block.
    pub item: usize,
    /// The name of the message.
    pub variant: String,
    pub params: Vec<Param>,
    /// Whether the handler runs in the span of the caller.
    pub traced: bool,
    /// Whether the client method waits for a reply.
    pub replies: bool,
    /// The fields of the message, in order; a message without any is a unit variant.
    pub message: Vec<MessageField>,
}

/// What is generated for a service.
#[derive(Debug)]
pub struct ServicePlan {
    pub message_enum: String,
    pub methods_struct: String,
    pub methods: Vec<MethodPlan>,
}

/// What a `MethodPlan` holds.
pub struct MethodPlanView {
    pub item: int,
    pub variant: Seq<char>,
    /// The name and the position of each parameter.
    pub params: Seq<(Seq<char>, int)>,
    pub traced: bool,
    pub replies: bool,
    pub message: Seq<MessageField>,
}

impl View for Param {
    type V = (Seq<char>, int);

    open spec fn view(&self) -> (Seq<char>, int) {
        (self.name@, self.position as int)
    }
}

impl View for MethodPlan {
    type V = MethodPlanView;

    open spec fn view(&self) -> MethodPlanView {
        MethodPlanView {
            item: self.item as int,
            variant: self.variant@,
            params: self.params@.map_values(|param: Param| param@),
            traced: self.traced,
            replies: self.replies,
            message: self.message@,
        }
    }
}

impl AttributePath {
    /// Whether the path is the single identifier `name`.
    pub open spec fn is_ident_spec(self, name: Seq<char>) -> bool {
        &&& !self.leading_colon
        &&& self.segments@.len() == 1
        &&& !self.segments@[0].has_arguments
        &&& self.segments@[0].ident@ == name
    }

    /// Whether the path is the single identifier `name`.
    pub fn is_ident(&self, name: &str) -> (is: bool)
        ensures
            is == self.is_ident_spec(name@),
    {
        !self.leading_colon && self.segments.len() == 1 && !self.segments[0].has_arguments
            && self.segments[0].ident == name.to_owned()
    }
}

/// Whether one of `attributes` is `name`.
pub open spec fn bears(attributes: Seq<AttributePath>, name: Seq<char>) -> bool {
    exists|i: int| 0 <= i < attributes.len() && (#[trigger] attributes[i]).is_ident_spec(name)
}

/// Whether one of `attributes` is `name`.
pub fn has_attribute(attributes: &Vec<AttributePath>, name: &str) -> (has: bool)
    ensures
        has == bears(attributes@, name@),
{
    let mut i: usize = 0;
    while i < attributes.len()
        invariant
            i <= attributes@.len(),
            forall|j: int| 0 <= j < i ==> !(#[trigger] attributes@[j]).is_ident_spec(name@),
        decreases attributes@.len() - i,
    {
        if attributes[i].is_ident(name) {
            return true;
        }
        i = i + 1;
    }
    false
}

/// Whether a method returns nothing: no return type, or `()`.
pub open spec fn returns_unit(output: ReturnKind) -> bool {
    match output {
        ReturnKind::Default => true,
        ReturnKind::Tuple(elements) => elements == 0,
        ReturnKind::Other => false,
    }
}

/// Whether a method returns nothing: no return type, or `()`.
pub fn is_unit_return(output: ReturnKind) -> (is: bool)
    ensures
        is == returns_unit(output),
{
    match output {
        ReturnKind::Default => true,
        ReturnKind::Tuple(elements) => elements == 0,
        ReturnKind::Other => false,
    }
}

impl Method {
    /// Whether the service offers this method: it is `pub`, async, and takes `self`.
    pub open spec fn offered(self) -> bool {
        &&& self.is_public
        &&& self.is_async
        &&& self.arguments@.len() > 0
        &&& self.arguments@[0] is Receiver
    }

    /// Whether the method asks for tracing and against it at once.
    pub open spec fn conflicting(self) -> bool {
        bears(self.attributes@, "traced"@) && bears(self.attributes@, "untraced"@)
    }

    /// Whether the method is traced: its own attribute decides, else the service's default.
    pub open spec fn traced(self, service_traced: bool) -> bool {
        if bears(self.attributes@, "untraced"@) {
            false
        } else {
            bears(self.attributes@, "traced"@) || service_traced
        }
    }
}

/// The parameters among `arguments`, with their positions: those behind the first that are bound
/// to a name.
pub open spec fn params_of(arguments: Seq<Argument>) -> Seq<(Seq<char>, int)>
    decreases arguments.len(),
{
    if arguments.len() <= 1 {
        Seq::empty()
    } else {
        let before = params_of(arguments.drop_last());
        match arguments.last() {
            Argument::Named(name) => before.push((name@, arguments.len() - 1)),
            _ => before,
        }
    }
}

/// The fields of a message with that many parameters: the parameters, then the span, then where
/// the reply goes.
pub open spec fn message_fields(params: nat, traced: bool, replies: bool) -> Seq<MessageField> {
    Seq::new(params, |i: int| MessageField::Param(i as usize)) + (if traced {
        seq![MessageField::Span]
    } else {
        Seq::empty()
    }) + (if replies {
        seq![MessageField::Respond]
    } else {
        Seq::empty()
    })
}

/// What is generated for `method`, the item at position `item`.
pub open spec fn method_plan(method: Method, item: int, service_traced: bool) -> MethodPlanView {
    let params = params_of(method.arguments@);
    let traced = method.traced(service_traced);
    let replies = !returns_unit(method.output);
    MethodPlanView {
        item,
        variant: names::pascal_case(method.name@),
        params,
        traced,
        replies,
        message: message_fields(params.len(), traced, replies),
    }
}

/// Whether the service offers `item`.
pub open spec fn offers(item: ImplItem) -> bool {
    item matches ImplItem::Method(method) && method.offered()
}

/// Whether the service offers `item`, which asks for tracing and against it at once.
pub open spec fn conflicts(item: ImplItem) -> bool {
    item matches ImplItem::Method(method) && method.offered() && method.conflicting()
}

/// What is generated for the methods among `items` that the service offers, in their order.
pub open spec fn method_plans(items: Seq<ImplItem>, service_traced: bool) -> Seq<MethodPlanView>
    decreases items.len(),
{
    if items.len() == 0 {
        Seq::empty()
    } else {
        let before = method_plans(items.drop_last(), service_traced);
        match items.last() {
            ImplItem::Method(method) if method.offered() => before.push(
                method_plan(method, items.len() - 1, service_traced),
            ),
            _ => before,
        }
    }
}

impl MacroError {
    /// The text of the error.
    pub open spec fn text(self) -> Seq<char> {
        match self {
            MacroError::UnknownOption(found) => "expected `traced`, found `"@ + found@ + "`"@,
            MacroError::MalformedOption(complaint) => complaint@,
            MacroError::NotNamedType =>
                "#[service] must be applied to an impl block for a named type"@,
            MacroError::ConflictingTracing(_) =>
                "method cannot have both #[traced] and #[untraced] attributes"@,
            MacroError::NotNamedFields =>
                "#[derive(Service)] only supports structs with named fields"@,
            MacroError::NotStruct => "#[derive(Service)] only supports structs"@,
        }
    }

    /// The text of the error.
    pub fn message(&self) -> (message: String)
        ensures
            message@ == self.text(),
    {
        match self {
            MacroError::UnknownOption(found) => String::from_str(
                "expected `traced`, found `",
            ).concat(found.as_str()).concat("`"),
            MacroError::MalformedOption(complaint) => complaint.clone(),
            MacroError::NotNamedType => String::from_str(
                "#[service] must be applied to an impl block for a named type",
            ),
            MacroError::ConflictingTracing(_) => String::from_str(
                "method cannot have both #[traced] and #[untraced] attributes",
            ),
            MacroError::NotNamedFields => String::from_str(
                "#[derive(Service)] only supports structs with named fields",
            ),
            MacroError::NotStruct => String::from_str("#[derive(Service)] only supports structs"),
        }
    }
}

/// Reads the option of `#[service(..)]`: whether the methods are traced by default.
pub fn service_option(tokens: OptionTokens) -> (option: Result<bool, MacroError>)
    ensures
        option == match tokens {
            OptionTokens::Empty => Ok::<bool, MacroError>(false),
            OptionTokens::Ident(name) => if name@ == "traced"@ {
                Ok(true)
            } else {
                Err(MacroError::UnknownOption(name))
            },
            OptionTokens::Malformed(complaint) => Err(MacroError::MalformedOption(complaint)),
        },
{
    match tokens {
        OptionTokens::Empty => Ok(false),
        OptionTokens::Ident(name) => if name == "traced".to_owned() {
            Ok(true)
        } else {
            Err(MacroError::UnknownOption(name))
        },
        OptionTokens::Malformed(complaint) => Err(MacroError::MalformedOption(complaint)),
    }
}

/// Calls `syn::parse_str` for a `syn::Ident`. Nothing is claimed of the result: the lexer behind
/// it is the compiler's in a macro and another one elsewhere, and the two spell some identifiers
/// differently. `parses` says that a result came from here.
#[verifier::external_body]
fn parse_ident(text: &str) -> Result<String, String> {
    match syn::parse_str::<syn::Ident>(text) {
        Ok(ident) => Ok(ident.to_string()),
        Err(error) => Err(error.to_string()),
    }
}

/// Whether `parsed` can be what `syn::parse_str` makes of `text`: an identifier, or a complaint.
pub closed spec fn parses(text: &str, parsed: Result<String, String>) -> bool {
    call_ensures(parse_ident, (text,), parsed)
}

/// The option that an identifier, or a complaint, stands for.
pub open spec fn option_of(parsed: Result<String, String>) -> Result<bool, MacroError> {
    match parsed {
        Ok(name) => if name@ == "traced"@ {
            Ok(true)
        } else {
            Err(MacroError::UnknownOption(name))
        },
        Err(complaint) => Err(MacroError::MalformedOption(complaint)),
    }
}

/// Reads the text in the round brackets of `#[service(..)]`.
pub fn read_service_option(text: &str) -> (option: Result<bool, MacroError>)
    ensures
        text@.len() == 0 ==> option == Ok::<bool, MacroError>(false),
        text@.len() > 0 ==> exists|parsed: Result<String, String>| #[trigger]
            parses(text, parsed) && option == option_of(parsed),
{
    if text.is_empty() {
        return service_option(OptionTokens::Empty);
    }
    let parsed = parse_ident(text);
    assert(parses(text, parsed));
    match parsed {
        Ok(name) => service_option(OptionTokens::Ident(name)),
        Err(complaint) => service_option(OptionTokens::Malformed(complaint)),
    }
}

/// Plans `#[derive(Service)]`: the fields that are each extracted from the application.
pub fn plan_factory(target: DeriveTarget) -> (plan: Result<Vec<String>, MacroError>)
    ensures
        plan == match target {
            DeriveTarget::NamedFields(fields) => Ok::<Vec<String>, MacroError>(fields),
            DeriveTarget::OtherStruct => Err(MacroError::NotNamedFields),
            DeriveTarget::NotStruct => Err(MacroError::NotStruct),
        },
{
    match target {
        DeriveTarget::NamedFields(fields) => Ok(fields),
        DeriveTarget::OtherStruct => Err(MacroError::NotNamedFields),
        DeriveTarget::NotStruct => Err(MacroError::NotStruct),
    }
}

/// Collects the parameters among `arguments`.
fn collect_params(arguments: &Vec<Argument>) -> (params: Vec<Param>)
    ensures
        params@.map_values(|param: Param| param@) == params_of(arguments@),
{
    let mut params: Vec<Param> = Vec::new();
    let mut i: usize = 1;
    if arguments.len() == 0 {
        assert(params@.map_values(|param: Param| param@) =~= params_of(arguments@));
        return params;
    }
    assert(params@.map_values(|param: Param| param@) =~= params_of(arguments@.take(1)));
    while i < arguments.len()
        invariant
            1 <= i <= arguments@.len(),
            params@.map_values(|param: Param| param@) == params_of(arguments@.take(i as int)),
        decreases arguments@.len() - i,
    {
        let ghost before = params@;
        assert(arguments@.take(i + 1).drop_last() =~= arguments@.take(i as int));
        if let Argument::Named(name) = &arguments[i] {
            let param = Param { name: name.clone(), position: i };
            params.push(param);
            assert(params@.map_values(|param: Param| param@) =~= before.map_values(
                |param: Param| param@,
            ).push(param@));
        }
        i = i + 1;
    }
    assert(arguments@.take(arguments@.len() as int) =~= arguments@);
    params
}

/// Lists the fields of a message with that many parameters.
fn list_message_fields(params: usize, traced: bool, replies: bool) -> (fields: Vec<MessageField>)
    ensures
        fields@ == message_fields(params as nat, traced, replies),
{
    let mut fields: Vec<MessageField> = Vec::new();
    let mut i: usize = 0;
    while i < params
        invariant
            i <= params,
            fields@ =~= Seq::new(i as nat, |j: int| MessageField::Param(j as usize)),
        decreases params - i,
    {
        fields.push(MessageField::Param(i));
        i = i + 1;
    }
    if traced {
        fields.push(MessageField::Span);
    }
    if replies {
        fields.push(MessageField::Respond);
    }
    assert(fields@ =~= message_fields(params as nat, traced, replies));
    fields
}

/// Plans what is generated for a service. The first method that asks for tracing and against it
/// at once is refused.
pub fn plan_service(target: &ImplTarget, items: &Vec<ImplItem>, service_traced: bool) -> (plan:
    Result<ServicePlan, MacroError>)
    ensures
        match plan {
            Ok(plan) => {
                &&& target matches ImplTarget::Path(name) && plan.message_enum@ == name@ + "Msg"@
                    && plan.methods_struct@ == name@ + "Methods"@
                &&& forall|i: int| 0 <= i < items@.len() ==> !conflicts(#[trigger] items@[i])
                &&& plan.methods@.map_values(|method: MethodPlan| method@) == method_plans(
                    items@,
                    service_traced,
                )
            },
            Err(MacroError::NotNamedType) => target is Other,
            Err(MacroError::ConflictingTracing(item)) => {
                &&& target is Path
                &&& item < items@.len()
                &&& conflicts(items@[item as int])
                &&& forall|i: int| 0 <= i < item ==> !conflicts(#[trigger] items@[i])
            },
            Err(_) => false,
        },
{
    let name = match target {
        ImplTarget::Path(name) => name,
        ImplTarget::Other => {
            return Err(MacroError::NotNamedType);
        },
    };
    let mut methods: Vec<MethodPlan> = Vec::new();
    let mut i: usize = 0;
    assert(methods@.map_values(|method: MethodPlan| method@) =~= method_plans(
        items@.take(0),
        service_traced,
    ));
    while i < items.len()
        invariant
            i <= items@.len(),
            target is Path,
            forall|j: int| 0 <= j < i ==> !conflicts(#[trigger] items@[j]),
            methods@.map_values(|method: MethodPlan| method@) == method_plans(
                items@.take(i as int),
                service_traced,
            ),
        decreases items@.len() - i,
    {
        let ghost before = methods@;
        assert(items@.take(i + 1).drop_last() =~= items@.take(i as int));
        if let ImplItem::Method(method) = &items[i] {
            let has_self: bool = method.arguments.len() > 0 && matches!(
                method.arguments[0],
                Argument::Receiver
            );
            if method.is_public && method.is_async && has_self {
                let has_traced: bool = has_attribute(&method.attributes, "traced");
                let has_untraced: bool = has_attribute(&method.attributes, "untraced");
                if has_traced && has_untraced {
                    return Err(MacroError::ConflictingTracing(i));
                }
                let traced: bool = !has_untraced && (has_traced || service_traced);
                let replies: bool = !is_unit_return(method.output);
                let params = collect_params(&method.arguments);
                let message = list_message_fields(params.len(), traced, replies);
                let plan = MethodPlan {
                    item: i,
                    variant: to_pascal_case(method.name.as_str()),
                    params,
                    traced,
                    replies,
                    message,
                };
                methods.push(plan);
                assert(methods@.map_values(|method: MethodPlan| method@) =~= before.map_values(
                    |method: MethodPlan| method@,
                ).push(method_plan(*method, i as int, service_traced)));
            }
        }
        i = i + 1;
    }
    assert(items@.take(items@.len() as int) =~= items@);
    Ok(
        ServicePlan {
            message_enum: name.clone().concat("Msg"),
            methods_struct: name.clone().concat("Methods"),
            methods,
        },
    )
}

/// What a method's own attribute says of tracing holds whatever the service's default is.
pub proof fn law_own_tracing_wins(method: Method, service_traced: bool)
    requires
        !method.conflicting(),
    ensures
        bears(method.attributes@, "traced"@) ==> method.traced(service_traced),
        bears(method.attributes@, "untraced"@) ==> !method.traced(service_traced),
        !bears(method.attributes@, "traced"@) && !bears(method.attributes@, "untraced"@)
            ==> method.traced(service_traced) == service_traced,
{
}

/// A message says where its reply goes if and only if its method returns something, carries the
/// caller's span if and only if it is traced, and carries each parameter once.
pub proof fn law_message_carries(params: nat, traced: bool, replies: bool)
    requires
        params <= usize::MAX,
    ensures
        message_fields(params, traced, replies).contains(MessageField::Respond) == replies,
        message_fields(params, traced, replies).contains(MessageField::Span) == traced,
        forall|i: usize|
            (#[trigger] message_fields(params, traced, replies).contains(MessageField::Param(i)))
                == (i < params),
        message_fields(params, traced, replies).no_duplicates(),
{
    let fields = message_fields(params, traced, replies);
    let spans: int = if traced {
        1
    } else {
        0
    };
    assert(traced ==> fields[params as int] == MessageField::Span);
    assert(replies ==> fields[params + spans] == MessageField::Respond);
    assert forall|i: usize| i < params implies #[trigger] fields.contains(
        MessageField::Param(i),
    ) by {
        assert(fields[i as int] == MessageField::Param(i));
    }
}

/// The service offers each method once, in the order of the block, and nothing else.
pub proof fn law_plans_are_the_offered_methods(items: Seq<ImplItem>, service_traced: bool)
    ensures
        forall|k: int|
            0 <= k < method_plans(items, service_traced).len() ==> {
                let item = (#[trigger] method_plans(items, service_traced)[k]).item;
                &&& 0 <= item < items.len()
                &&& offers(items[item])
                &&& method_plans(items, service_traced)[k] == method_plan(
                    items[item]->Method_0,
                    item,
                    service_traced,
                )
            },
        forall|i: int|
            0 <= i < items.len() && offers(#[trigger] items[i]) ==> exists|k: int|
                0 <= k < method_plans(items, service_traced).len() && (#[trigger] method_plans(
                    items,
                    service_traced,
                )[k]).item == i,
        forall|k: int, l: int|
            0 <= k < l < method_plans(items, service_traced).len() ==> (#[trigger] method_plans(
                items,
                service_traced,
            )[k]).item < (#[trigger] method_plans(items, service_traced)[l]).item,
    decreases items.len(),
{
    if items.len() > 0 {
        let front = items.drop_last();
        let plans = method_plans(items, service_traced);
        let earlier = method_plans(front, service_traced);
        law_plans_are_the_offered_methods(front, service_traced);
        assert forall|k: int| 0 <= k < earlier.len() implies #[trigger] plans[k] == earlier[k] && (
        #[trigger] earlier[k]).item < front.len() && items[earlier[k].item]
            == front[earlier[k].item] by {
        }
        assert forall|i: int| 0 <= i < items.len() && offers(#[trigger] items[i]) implies exists|
            k: int,
        | 0 <= k < plans.len() && (#[trigger] plans[k]).item == i by {
            if i < front.len() {
                assert(offers(front[i]));
                let k = choose|k: int|
                    0 <= k < earlier.len() && (#[trigger] earlier[k]).item == i;
                assert(plans[k].item == i);
            } else {
                assert(plans[plans.len() - 1].item == i);
            }
        }
    }
}

/// Whether one of `attributes` is the bare identifier `name`: one segment, with nothing before or
/// behind it.
pub open spec fn marked(attributes: Seq<AttributePath>, name: Seq<char>) -> bool {
    exists|i: int|
        0 <= i < attributes.len() && !(#[trigger] attributes[i]).leading_colon
            && attributes[i].segments@.len() == 1 && attributes[i].segments@[0].ident@ == name
            && !attributes[i].segments@[0].has_arguments
}

/// An attribute is found where it stands as a bare identifier, and nowhere else.
pub proof fn law_attributes_are_found(attributes: Vec<AttributePath>, name: &str, has: bool)
    requires
        call_ensures(has_attribute, (&attributes, name), has),
    ensures
        has <==> marked(attributes@, name@),
{
    lemma_marked(attributes@, name@);
}

proof fn lemma_marked(attributes: Seq<AttributePath>, name: Seq<char>)
    ensures
        bears(attributes, name) <==> marked(attributes, name),
{
    if bears(attributes, name) {
        let i = choose|i: int|
            0 <= i < attributes.len() && (#[trigger] attributes[i]).is_ident_spec(name);
        assert(!attributes[i].leading_colon);
    }
    if marked(attributes, name) {
        let i = choose|i: int|
            0 <= i < attributes.len() && !(#[trigger] attributes[i]).leading_colon
                && attributes[i].segments@.len() == 1 && attributes[i].segments@[0].ident@ == name
                && !attributes[i].segments@[0].has_arguments;
        assert(attributes[i].is_ident_spec(name));
    }
}

/// A method returns nothing where no return type is written, or the empty tuple.
pub proof fn law_unit_returns(output: ReturnKind, is: bool)
    requires
        call_ensures(is_unit_return, (output,), is),
    ensures
        is <==> output is Default || output == ReturnKind::Tuple(0),
{
}

/// Whether `params` are the named arguments behind the first, each with its own name, in the order
/// of the signature.
pub open spec fn are_named_arguments(arguments: Seq<Argument>, params: Seq<Param>) -> bool {
    &&& forall|k: int, l: int|
        0 <= k < l < params.len() ==> (#[trigger] params[k]).position < (
        #[trigger] params[l]).position
    &&& forall|k: int|
        0 <= k < params.len() ==> {
            &&& 1 <= (#[trigger] params[k]).position < arguments.len()
            &&& arguments[params[k].position as int] is Named
            &&& arguments[params[k].position as int]->Named_0@ == params[k].name@
        }
    &&& forall|i: int|
        1 <= i < arguments.len() && (#[trigger] arguments[i]) is Named ==> exists|k: int|
            0 <= k < params.len() && (#[trigger] params[k]).position == i
}

proof fn lemma_named_arguments(arguments: Seq<Argument>, params: Seq<Param>)
    requires
        params.map_values(|param: Param| param@) == params_of(arguments),
    ensures
        are_named_arguments(arguments, params),
{
    let pairs = params_of(arguments);
    lemma_params(arguments);
    assert forall|k: int| 0 <= k < params.len() implies pairs[k] == (
        (#[trigger] params[k]).name@,
        params[k].position as int,
    ) by {
        assert(params.map_values(|param: Param| param@)[k] == params[k]@);
    }
    assert(params.len() == pairs.len());
    assert forall|k: int, l: int| 0 <= k < l < params.len() implies (#[trigger] params[k]).position
        < (#[trigger] params[l]).position by {
        assert(pairs[k].1 < pairs[l].1);
    }
    assert forall|i: int| 1 <= i < arguments.len() && (#[trigger] arguments[i]) is Named implies exists|
        k: int,
    | 0 <= k < params.len() && (#[trigger] params[k]).position == i by {
        let k = choose|k: int| 0 <= k < pairs.len() && (#[trigger] pairs[k]).1 == i;
        assert(params[k].position == i);
    }
}

proof fn lemma_params(arguments: Seq<Argument>)
    ensures
        ({
            let params = params_of(arguments);
            &&& forall|k: int, l: int|
                0 <= k < l < params.len() ==> (#[trigger] params[k]).1 < (#[trigger] params[l]).1
            &&& forall|k: int|
                0 <= k < params.len() ==> {
                    &&& 1 <= (#[trigger] params[k]).1 < arguments.len()
                    &&& arguments[params[k].1] is Named
                    &&& arguments[params[k].1]->Named_0@ == params[k].0
                }
            &&& forall|i: int|
                1 <= i < arguments.len() && (#[trigger] arguments[i]) is Named ==> exists|k: int|
                    0 <= k < params.len() && (#[trigger] params[k]).1 == i
        }),
    decreases arguments.len(),
{
    if arguments.len() > 1 {
        let front = arguments.drop_last();
        let earlier = params_of(front);
        let params = params_of(arguments);
        lemma_params(front);
        assert forall|k: int| 0 <= k < params.len() implies {
            &&& 1 <= (#[trigger] params[k]).1 < arguments.len()
            &&& arguments[params[k].1] is Named
            &&& arguments[params[k].1]->Named_0@ == params[k].0
        } by {
            if k < earlier.len() {
                assert(params[k] == earlier[k]);
                assert(front[earlier[k].1] == arguments[earlier[k].1]);
            }
        }
        assert forall|k: int, l: int| 0 <= k < l < params.len() implies (#[trigger] params[k]).1 < (
        #[trigger] params[l]).1 by {
            assert(params[k] == earlier[k]);
            if l < earlier.len() {
                assert(params[l] == earlier[l]);
            }
        }
        assert forall|i: int|
            1 <= i < arguments.len() && (#[trigger] arguments[i]) is Named implies exists|k: int|
            0 <= k < params.len() && (#[trigger] params[k]).1 == i by {
            if i < front.len() {
                assert(front[i] == arguments[i]);
                let k = choose|k: int|
                    0 <= k < earlier.len() && (#[trigger] earlier[k]).1 == i;
                assert(params[k].1 == i);
            } else {
                assert(params[params.len() - 1].1 == i);
            }
        }
    }
}

/// Whether `fields` are those of a message with that many parameters: each of them in its order,
/// then the span where the method is traced, then where the reply goes where there is one.
pub open spec fn are_message_fields(
    fields: Seq<MessageField>,
    params: nat,
    traced: bool,
    replies: bool,
) -> bool {
    &&& fields.len() == params + (if traced {
        1int
    } else {
        0int
    }) + (if replies {
        1int
    } else {
        0int
    })
    &&& forall|i: int| 0 <= i < params ==> #[trigger] fields[i] == MessageField::Param(i as usize)
    &&& traced ==> fields[params as int] == MessageField::Span
    &&& replies ==> fields.last() == MessageField::Respond
}

/// Whether a service offers `item`: a public async method that takes `self`.
pub open spec fn is_offered(item: ImplItem) -> bool {
    item matches ImplItem::Method(method) && method.is_public && method.is_async
        && method.arguments@.len() > 0 && method.arguments@[0] is Receiver
}

/// Whether `plan` says what is generated for the method that it belongs to.
pub open spec fn plans_method(
    items: Seq<ImplItem>,
    service_traced: bool,
    plan: MethodPlan,
) -> bool {
    &&& 0 <= plan.item < items.len()
    &&& is_offered(items[plan.item as int])
    &&& {
        let method = items[plan.item as int]->Method_0;
        let marked_traced = marked(method.attributes@, "traced"@);
        let marked_untraced = marked(method.attributes@, "untraced"@);
        &&& names::in_pascal_case(method.name@, plan.variant@)
        &&& are_named_arguments(method.arguments@, plan.params@)
        &&& marked_untraced ==> !plan.traced
        &&& marked_traced && !marked_untraced ==> plan.traced
        &&& !marked_traced && !marked_untraced ==> plan.traced == service_traced
        &&& plan.replies <==> !(method.output is Default || method.output == ReturnKind::Tuple(0))
        &&& are_message_fields(plan.message@, plan.params@.len(), plan.traced, plan.replies)
    }
}

proof fn lemma_method_plan(items: Seq<ImplItem>, service_traced: bool, plan: MethodPlan)
    requires
        plan.item < items.len(),
        offers(items[plan.item as int]),
        plan@ == method_plan(items[plan.item as int]->Method_0, plan.item as int, service_traced),
    ensures
        plans_method(items, service_traced, plan),
{
    let method = items[plan.item as int]->Method_0;
    names::lemma_in_pascal_case(method.name@);
    lemma_named_arguments(method.arguments@, plan.params@);
    lemma_marked(method.attributes@, "traced"@);
    lemma_marked(method.attributes@, "untraced"@);
}

/// A service is planned for its public async methods that take `self`: each once, in the order of
/// the block, and each as its signature and its attributes say. The names of what is generated
/// come from the name of the type.
pub proof fn law_service_is_planned_by_its_methods(
    target: ImplTarget,
    items: Vec<ImplItem>,
    service_traced: bool,
    outcome: Result<ServicePlan, MacroError>,
)
    requires
        call_ensures(plan_service, (&target, &items, service_traced), outcome),
        outcome is Ok,
    ensures
        ({
            let plan = outcome->Ok_0;
            &&& target is Path
            &&& plan.message_enum@ == target->Path_0@ + "Msg"@
            &&& plan.methods_struct@ == target->Path_0@ + "Methods"@
            &&& forall|k: int|
                0 <= k < plan.methods@.len() ==> plans_method(
                    items@,
                    service_traced,
                    #[trigger] plan.methods@[k],
                )
            &&& forall|k: int, l: int|
                0 <= k < l < plan.methods@.len() ==> (#[trigger] plan.methods@[k]).item < (
                #[trigger] plan.methods@[l]).item
            &&& forall|i: int|
                0 <= i < items@.len() && is_offered(#[trigger] items@[i]) ==> exists|k: int|
                    0 <= k < plan.methods@.len() && (#[trigger] plan.methods@[k]).item == i
        }),
{
    let plan = outcome->Ok_0;
    let plans = method_plans(items@, service_traced);
    law_plans_are_the_offered_methods(items@, service_traced);
    assert(plan.methods@.map_values(|method: MethodPlan| method@) == plans);
    assert(plan.methods@.len() == plans.len());
    assert forall|k: int| 0 <= k < plan.methods@.len() implies (#[trigger] plan.methods@[k])@
        == plans[k] by {
        assert(plan.methods@.map_values(|method: MethodPlan| method@)[k] == plan.methods@[k]@);
    }
    assert forall|k: int| 0 <= k < plan.methods@.len() implies plans_method(
        items@,
        service_traced,
        #[trigger] plan.methods@[k],
    ) by {
        assert(plan.methods@[k]@ == plans[k]);
        lemma_method_plan(items@, service_traced, plan.methods@[k]);
    }
    assert forall|k: int, l: int| 0 <= k < l < plan.methods@.len() implies (
    #[trigger] plan.methods@[k]).item < (#[trigger] plan.methods@[l]).item by {
        assert(plan.methods@[k]@ == plans[k]);
        assert(plan.methods@[l]@ == plans[l]);
        assert(plans[k].item < plans[l].item);
    }
    assert forall|i: int| 0 <= i < items@.len() && is_offered(#[trigger] items@[i]) implies exists|
        k: int,
    | 0 <= k < plan.methods@.len() && (#[trigger] plan.methods@[k]).item == i by {
        assert(offers(items@[i]));
        let k = choose|k: int| 0 <= k < plans.len() && (#[trigger] plans[k]).item == i;
        assert(plan.methods@[k]@ == plans[k]);
    }
}

/// Whether a service offers `item`, which is marked both `traced` and `untraced`.
pub open spec fn is_marked_both_ways(item: ImplItem) -> bool {
    is_offered(item) && marked(item->Method_0.attributes@, "traced"@) && marked(
        item->Method_0.attributes@,
        "untraced"@,
    )
}

/// A block is refused where it is not for a named type, or else at the first offered method that
/// is marked both `traced` and `untraced`; and for no other reason.
pub proof fn law_service_is_refused(
    target: ImplTarget,
    items: Vec<ImplItem>,
    service_traced: bool,
    outcome: Result<ServicePlan, MacroError>,
)
    requires
        call_ensures(plan_service, (&target, &items, service_traced), outcome),
    ensures
        target is Other <==> outcome is Err && outcome->Err_0 is NotNamedType,
        target is Path ==> (outcome is Ok <==> forall|i: int|
            0 <= i < items@.len() ==> !is_marked_both_ways(#[trigger] items@[i])),
        target is Path && outcome is Err ==> {
            &&& outcome->Err_0 is ConflictingTracing
            &&& outcome->Err_0->ConflictingTracing_0 < items@.len()
            &&& is_marked_both_ways(items@[outcome->Err_0->ConflictingTracing_0 as int])
            &&& forall|i: int|
                0 <= i < outcome->Err_0->ConflictingTracing_0 ==> !is_marked_both_ways(
                    #[trigger] items@[i],
                )
        },
{
    assert forall|i: int| 0 <= i < items@.len() implies is_marked_both_ways(#[trigger] items@[i])
        == conflicts(items@[i]) by {
        if let ImplItem::Method(method) = items@[i] {
            lemma_marked(method.attributes@, "traced"@);
            lemma_marked(method.attributes@, "untraced"@);
        }
    }
    if target is Path && outcome is Err {
        assert(conflicts(items@[outcome->Err_0->ConflictingTracing_0 as int]));
    }
}

/// The option of `#[service(..)]` traces all methods where it is `traced`, none where there is no
/// option, and is refused otherwise.
pub proof fn law_option_is_traced_or_nothing(
    tokens: OptionTokens,
    option: Result<bool, MacroError>,
)
    requires
        call_ensures(service_option, (tokens,), option),
    ensures
        tokens is Empty <==> option == Ok::<bool, MacroError>(false),
        option == Ok::<bool, MacroError>(true) <==> tokens is Ident && tokens->Ident_0@
            == "traced"@,
        tokens is Ident && tokens->Ident_0@ != "traced"@ ==> option
            == Err::<bool, MacroError>(MacroError::UnknownOption(tokens->Ident_0)),
        tokens is Malformed ==> option == Err::<bool, MacroError>(
            MacroError::MalformedOption(tokens->Malformed_0),
        ),
{
}

/// `parses` says of a text that the parser was called with it, and of a result that it came of
/// that call.
proof fn law_relation_is_a_call(text: &str, parsed: Result<String, String>)
    ensures
        parses(text, parsed) <==> call_ensures(parse_ident, (text,), parsed),
{
}

/// The text of the option is read so: nothing traces no method; else the parser decides, and its
/// identifier has to be `traced`.
pub proof fn law_option_is_read(text: &str, option: Result<bool, MacroError>)
    requires
        call_ensures(read_service_option, (text,), option),
    ensures
        text@.len() == 0 ==> option == Ok::<bool, MacroError>(false),
        text@.len() > 0 ==> exists|parsed: Result<String, String>| #[trigger]
            parses(text, parsed) && {
                &&& option == Ok::<bool, MacroError>(true) <==> parsed is Ok && parsed->Ok_0@
                    == "traced"@
                &&& parsed is Ok && parsed->Ok_0@ != "traced"@ ==> option
                    == Err::<bool, MacroError>(MacroError::UnknownOption(parsed->Ok_0))
                &&& parsed is Err ==> option == Err::<bool, MacroError>(
                    MacroError::MalformedOption(parsed->Err_0),
                )
            },
{
    if text@.len() > 0 {
        let parsed = choose|parsed: Result<String, String>| #[trigger]
            parses(text, parsed) && option == option_of(parsed);
        assert(parses(text, parsed));
    }
}

/// A service is created from all its named fields, in their order; anything but a struct with
/// named fields is refused.
pub proof fn law_factory_extracts_each_field(
    target: DeriveTarget,
    plan: Result<Vec<String>, MacroError>,
)
    requires
        call_ensures(plan_factory, (target,), plan),
    ensures
        plan is Ok <==> target is NamedFields,
        plan is Ok ==> plan->Ok_0 == target->NamedFields_0,
        target is OtherStruct ==> plan->Err_0 is NotNamedFields,
        target is NotStruct ==> plan->Err_0 is NotStruct,
{
}

/// Each refusal has a text of its own.
pub proof fn law_macro_error_texts(error: MacroError, message: String)
    requires
        call_ensures(MacroError::message, (&error,), message),
    ensures
        error is UnknownOption ==> message@ == "expected `traced`, found `"@
            + error->UnknownOption_0@ + "`"@,
        error is MalformedOption ==> message@ == error->MalformedOption_0@,
        error is NotNamedType ==> message@
            == "#[service] must be applied to an impl block for a named type"@,
        error is ConflictingTracing ==> message@
            == "method cannot have both #[traced] and #[untraced] attributes"@,
        error is NotNamedFields ==> message@
            == "#[derive(Service)] only supports structs with named fields"@,
        error is NotStruct ==> message@ == "#[derive(Service)] only supports structs"@,
{
}

} // verus!
