//! The interface compiler: from the declared methods of an interface and its
//! naming policy to the binding of each method, which fixes the wire name, the
//! parameters and the return shape of its calls.

use crate::shape::{
    first_type_arg, is_type, match_return_type, text_is, CallKind, Shape, TypeExpr,
};
use vstd::prelude::*;

verus! {

/// Why an interface cannot be compiled.
#[derive(Debug, Clone, Copy, PartialEq, Eq)]
pub enum CompileError {
    /// The interface is configured with a key other than `service` or
    /// `prefix`.
    UnsupportedAttribute,
    /// A method's `rpc` attribute holds a key other than `name`.
    ExpectedName,
    /// A key is not followed by `=` and a string literal.
    ExpectedLiteral,
    /// A method's `rpc` attribute has no argument list.
    ExpectedArguments,
    /// A method declares no return type.
    MissingReturnType,
    /// A method's return type is not `Result<T>`.
    ExpectedResult,
    /// A receiver stands where a typed parameter must.
    MisplacedReceiver,
}

/// One `key = "value"` entry of an attribute.
#[derive(Debug)]
pub struct Meta {
    pub key: String,
    /// The string literal after `=`, where there is one.
    pub value: Option<String>,
}

/// An attribute on a method.
#[derive(Debug)]
pub struct Attr {
    /// The attribute's name, such as `rpc` or `doc`.
    pub path: String,
    /// What stands in its parentheses, where it has any.
    pub args: Option<Vec<Meta>>,
}

/// One parameter of a method as declared.
#[derive(Debug)]
pub enum Input {
    /// `self` in any form.
    Receiver,
    /// A named parameter with its type.
    Typed { name: String, ty: TypeExpr },
}

/// A method as an interface declares it.
#[derive(Debug)]
pub struct MethodDecl {
    pub name: String,
    pub attrs: Vec<Attr>,
    pub inputs: Vec<Input>,
    /// The declared return type, where there is one.
    pub output: Option<TypeExpr>,
}

/// The naming policy of an interface.
#[derive(Debug)]
pub struct RpcConfig {
    pub service: Option<String>,
    pub prefix: Option<String>,
}

/// The mathematical content of an optional string.
pub open spec fn text_of(text: Option<String>) -> Option<Seq<char>> {
    match text {
        Some(t) => Some(t@),
        None => None,
    }
}

/// The mathematical content of an [`RpcConfig`].
pub struct ConfigView {
    pub service: Option<Seq<char>>,
    pub prefix: Option<Seq<char>>,
}

impl View for RpcConfig {
    type V = ConfigView;

    open spec fn view(&self) -> ConfigView {
        ConfigView { service: text_of(self.service), prefix: text_of(self.prefix) }
    }
}

/// The policy after one more entry: `service` and `prefix` take a string
/// literal, and no other key is known.
pub open spec fn config_step(config: ConfigView, meta: Meta) -> Result<ConfigView, CompileError> {
    if meta.key@ == "service"@ {
        match meta.value {
            Some(v) => Ok(ConfigView { service: Some(v@), prefix: config.prefix }),
            None => Err(CompileError::ExpectedLiteral),
        }
    } else if meta.key@ == "prefix"@ {
        match meta.value {
            Some(v) => Ok(ConfigView { service: config.service, prefix: Some(v@) }),
            None => Err(CompileError::ExpectedLiteral),
        }
    } else {
        Err(CompileError::UnsupportedAttribute)
    }
}

/// The policy that a list of entries states: the entries are read in order,
/// a later one replaces an earlier one, and the first bad entry fails.
pub open spec fn config_of(metas: Seq<Meta>) -> Result<ConfigView, CompileError>
    decreases metas.len(),
{
    if metas.len() == 0 {
        Ok(ConfigView { service: None, prefix: None })
    } else {
        match config_of(metas.drop_last()) {
            Ok(config) => config_step(config, metas.last()),
            Err(e) => Err(e),
        }
    }
}

/// The content of a configuration result.
pub open spec fn config_result(result: Result<RpcConfig, CompileError>) -> Result<
    ConfigView,
    CompileError,
> {
    match result {
        Ok(config) => Ok(config@),
        Err(e) => Err(e),
    }
}

/// Reads the naming policy of an interface from its attribute entries.
pub fn parse_rpc_config(attrs: &Vec<Meta>) -> (result: Result<RpcConfig, CompileError>)
    ensures
        config_result(result) == config_of(attrs@),
{
    let mut config = RpcConfig { service: None, prefix: None };
    let mut i: usize = 0;
    assert(attrs@.take(0) =~= Seq::empty());
    while i < attrs.len()
        invariant
            i <= attrs.len(),
            config_of(attrs@.take(i as int)) == Ok::<ConfigView, CompileError>(config@),
        decreases attrs.len() - i,
    {
        let meta = &attrs[i];
        proof {
            let next = attrs@.take(i + 1);
            assert(next.drop_last() =~= attrs@.take(i as int));
            assert(next.last() == attrs@[i as int]);
        }
        let ghost before = config@;
        if text_is(&meta.key, "service") {
            match &meta.value {
                Some(v) => {
                    config.service = Some(v.clone());
                },
                None => {
                    proof {
                        lemma_config_fails(attrs@, i as int + 1);
                    }
                    return Err(CompileError::ExpectedLiteral);
                },
            }
        } else if text_is(&meta.key, "prefix") {
            match &meta.value {
                Some(v) => {
                    config.prefix = Some(v.clone());
                },
                None => {
                    proof {
                        lemma_config_fails(attrs@, i as int + 1);
                    }
                    return Err(CompileError::ExpectedLiteral);
                },
            }
        } else {
            proof {
                lemma_config_fails(attrs@, i as int + 1);
            }
            return Err(CompileError::UnsupportedAttribute);
        }
        i += 1;
    }
    assert(attrs@.take(i as int) =~= attrs@);
    Ok(config)
}

/// Once a prefix of the entries fails, the whole list fails in the same way.
pub proof fn lemma_config_fails(metas: Seq<Meta>, n: int)
    requires
        0 <= n <= metas.len(),
        config_of(metas.take(n)) is Err,
    ensures
        config_of(metas) == config_of(metas.take(n)),
    decreases metas.len() - n,
{
    if n < metas.len() {
        let next = metas.take(n + 1);
        assert(next.drop_last() =~= metas.take(n));
        lemma_config_fails(metas, n + 1);
    } else {
        assert(metas.take(n) =~= metas);
    }
}

/// The name after one more entry of an `rpc` attribute: only `name` is known,
/// and it takes a string literal.
pub open spec fn name_step(meta: Meta) -> Result<Option<Seq<char>>, CompileError> {
    if meta.key@ == "name"@ {
        match meta.value {
            Some(v) => Ok(Some(v@)),
            None => Err(CompileError::ExpectedLiteral),
        }
    } else {
        Err(CompileError::ExpectedName)
    }
}

/// The name that the entries of one `rpc` attribute state, if any: the
/// entries are read in order, and the first bad entry fails.
pub open spec fn attr_name_of(metas: Seq<Meta>) -> Result<Option<Seq<char>>, CompileError>
    decreases metas.len(),
{
    if metas.len() == 0 {
        Ok(None)
    } else {
        match attr_name_of(metas.drop_last()) {
            Ok(_) => name_step(metas.last()),
            Err(e) => Err(e),
        }
    }
}

/// The explicit wire name among a method's attributes: that of the first
/// `rpc` attribute that states one. Other attributes are passed over, and an
/// `rpc` attribute that is malformed fails.
pub open spec fn explicit_name_of(attrs: Seq<Attr>) -> Result<Option<Seq<char>>, CompileError>
    decreases attrs.len(),
{
    if attrs.len() == 0 {
        Ok(None)
    } else if attrs[0].path@ != "rpc"@ {
        explicit_name_of(attrs.drop_first())
    } else {
        match attrs[0].args {
            None => Err(CompileError::ExpectedArguments),
            Some(metas) => match attr_name_of(metas@) {
                Err(e) => Err(e),
                Ok(Some(name)) => Ok(Some(name)),
                Ok(None) => explicit_name_of(attrs.drop_first()),
            },
        }
    }
}

/// The content of an optional-name result.
pub open spec fn name_result(result: Result<Option<String>, CompileError>) -> Result<
    Option<Seq<char>>,
    CompileError,
> {
    match result {
        Ok(name) => Ok(text_of(name)),
        Err(e) => Err(e),
    }
}

/// Once a prefix of the entries fails, the whole list fails in the same way.
pub proof fn lemma_attr_name_fails(metas: Seq<Meta>, n: int)
    requires
        0 <= n <= metas.len(),
        attr_name_of(metas.take(n)) is Err,
    ensures
        attr_name_of(metas) == attr_name_of(metas.take(n)),
    decreases metas.len() - n,
{
    if n < metas.len() {
        let next = metas.take(n + 1);
        assert(next.drop_last() =~= metas.take(n));
        lemma_attr_name_fails(metas, n + 1);
    } else {
        assert(metas.take(n) =~= metas);
    }
}

/// Reads the entries of one `rpc` attribute, see [`attr_name_of`].
pub fn parse_method_attr(metas: &Vec<Meta>) -> (result: Result<Option<String>, CompileError>)
    ensures
        name_result(result) == attr_name_of(metas@),
{
    let mut name: Option<String> = None;
    let mut i: usize = 0;
    assert(metas@.take(0) =~= Seq::empty());
    while i < metas.len()
        invariant
            i <= metas.len(),
            attr_name_of(metas@.take(i as int)) == Ok::<Option<Seq<char>>, CompileError>(
                text_of(name),
            ),
        decreases metas.len() - i,
    {
        let meta = &metas[i];
        proof {
            let next = metas@.take(i + 1);
            assert(next.drop_last() =~= metas@.take(i as int));
            assert(next.last() == metas@[i as int]);
        }
        if text_is(&meta.key, "name") {
            match &meta.value {
                Some(v) => {
                    name = Some(v.clone());
                },
                None => {
                    proof {
                        lemma_attr_name_fails(metas@, i as int + 1);
                    }
                    return Err(CompileError::ExpectedLiteral);
                },
            }
        } else {
            proof {
                lemma_attr_name_fails(metas@, i as int + 1);
            }
            return Err(CompileError::ExpectedName);
        }
        i += 1;
    }
    assert(metas@.take(i as int) =~= metas@);
    Ok(name)
}

/// Looks for an explicit wire name among a method's attributes, see
/// [`explicit_name_of`].
pub fn try_extract_method_name(attrs: &Vec<Attr>) -> (result: Result<
    Option<String>,
    CompileError,
>)
    ensures
        name_result(result) == explicit_name_of(attrs@),
{
    let mut i: usize = 0;
    assert(attrs@.skip(0) =~= attrs@);
    while i < attrs.len()
        invariant
            i <= attrs.len(),
            explicit_name_of(attrs@) == explicit_name_of(attrs@.skip(i as int)),
        decreases attrs.len() - i,
    {
        let attr = &attrs[i];
        proof {
            let rest = attrs@.skip(i as int);
            assert(rest[0] == attrs@[i as int]);
            assert(rest.drop_first() =~= attrs@.skip(i + 1));
        }
        if text_is(&attr.path, "rpc") {
            match &attr.args {
                None => {
                    return Err(CompileError::ExpectedArguments);
                },
                Some(metas) => match parse_method_attr(metas) {
                    Err(e) => {
                        return Err(e);
                    },
                    Ok(Some(name)) => {
                        return Ok(Some(name));
                    },
                    Ok(None) => {},
                },
            }
        }
        i += 1;
    }
    Ok(None)
}

/// The wire name of a method under the three-tier policy: an explicit name
/// wins; else the interface's prefix, an underscore and the declared name;
/// else the declared name as it is.
pub open spec fn wire_name(
    explicit: Option<Seq<char>>,
    prefix: Option<Seq<char>>,
    declared: Seq<char>,
) -> Seq<char> {
    match explicit {
        Some(name) => name,
        None => match prefix {
            Some(p) => p + "_"@ + declared,
            None => declared,
        },
    }
}

/// The wire name of a declared method, or the failure of its attributes.
pub open spec fn wire_name_of(method: MethodDecl, config: ConfigView) -> Result<
    Seq<char>,
    CompileError,
> {
    match explicit_name_of(method.attrs@) {
        Err(e) => Err(e),
        Ok(explicit) => Ok(wire_name(explicit, config.prefix, method.name@)),
    }
}

/// The content of a name result.
pub open spec fn text_result(result: Result<String, CompileError>) -> Result<
    Seq<char>,
    CompileError,
> {
    match result {
        Ok(name) => Ok(name@),
        Err(e) => Err(e),
    }
}

/// Resolves the wire name of a method, see [`wire_name`].
pub fn determine_rpc_name(method: &MethodDecl, config: &RpcConfig) -> (result: Result<
    String,
    CompileError,
>)
    ensures
        text_result(result) == wire_name_of(*method, config@),
{
    match try_extract_method_name(&method.attrs) {
        Err(e) => Err(e),
        Ok(Some(name)) => Ok(name),
        Ok(None) => match &config.prefix {
            Some(prefix) => {
                let mut name = prefix.clone();
                name.append("_");
                name.append(method.name.as_str());
                Ok(name)
            },
            None => Ok(method.name.clone()),
        },
    }
}

/// One parameter of a bound method.
#[derive(Debug)]
pub struct Param {
    pub name: String,
    pub ty: TypeExpr,
}

/// The declared parameters without the receiver, which may only stand first.
pub open spec fn typed_inputs(inputs: Seq<Input>) -> Seq<Input> {
    if inputs.len() > 0 && inputs[0] is Receiver {
        inputs.drop_first()
    } else {
        inputs
    }
}

/// The parameter that a typed input declares.
pub open spec fn param_of(input: Input) -> Param {
    Param { name: input->name, ty: input->ty }
}

/// The parameters of a method in call order, or the failure of a receiver
/// that does not stand first.
pub open spec fn params_of(inputs: Seq<Input>) -> Result<Seq<Param>, CompileError> {
    let typed = typed_inputs(inputs);
    if forall|i: int| 0 <= i < typed.len() ==> typed[i] is Typed {
        Ok(Seq::new(typed.len(), |i: int| param_of(typed[i])))
    } else {
        Err(CompileError::MisplacedReceiver)
    }
}

/// The content of a parameter-list result.
pub open spec fn params_result(result: Result<Vec<Param>, CompileError>) -> Result<
    Seq<Param>,
    CompileError,
> {
    match result {
        Ok(params) => Ok(params@),
        Err(e) => Err(e),
    }
}

/// Collects the parameters of a method, leaving out its receiver.
pub fn extract_args(inputs: Vec<Input>) -> (result: Result<Vec<Param>, CompileError>)
    ensures
        params_result(result) == params_of(inputs@),
{
    let ghost typed = typed_inputs(inputs@);
    let mut rest = inputs;
    let leading_receiver = rest.len() > 0 && match &rest[0] {
        Input::Receiver => true,
        _ => false,
    };
    if leading_receiver {
        let _ = rest.remove(0);
    }
    assert(rest@ =~= typed);
    let mut params: Vec<Param> = Vec::new();
    // Parameters are taken from the back, so that each can be moved out.
    while rest.len() > 0
        invariant
            typed == typed_inputs(inputs@),
            rest@.len() <= typed.len(),
            rest@ == typed.take(rest@.len() as int),
            params@.len() == typed.len() - rest@.len(),
            forall|k: int|
                0 <= k < params@.len() ==> typed[rest@.len() + k] is Typed && #[trigger] params@[k]
                    == param_of(typed[rest@.len() + k]),
        decreases rest@.len(),
    {
        let ghost n = rest@.len() as int;
        let ghost done = params@;
        let input = rest.pop().unwrap();
        assert(input == typed[n - 1]);
        assert(rest@ =~= typed.take(n - 1));
        match input {
            Input::Receiver => {
                assert(!(typed[n - 1] is Typed));
                return Err(CompileError::MisplacedReceiver);
            },
            Input::Typed { name, ty } => {
                params.insert(0, Param { name, ty });
                assert forall|k: int| 0 <= k < params@.len() implies typed[n - 1 + k] is Typed
                    && #[trigger] params@[k] == param_of(typed[n - 1 + k]) by {
                    if k > 0 {
                        assert(params@[k] == done[k - 1]);
                    }
                }
            },
        }
    }
    proof {
        assert forall|i: int| 0 <= i < typed.len() implies typed[i] is Typed by {
            assert(params@[i] == param_of(typed[0 + i]));
        }
        assert forall|i: int| 0 <= i < typed.len() implies params@[i] == param_of(typed[i]) by {
            assert(params@[i] == param_of(typed[0 + i]));
        }
        assert(params@ =~= params_of(inputs@)->Ok_0);
    }
    Ok(params)
}

/// Whether a return type is `Result` of a type.
pub open spec fn is_result(ty: TypeExpr) -> bool {
    ty.is_named("Result"@) && ty.has_type_arg()
}

/// The `T` of a return type `Result<T>`; anything else is refused.
pub fn extract_result_type(ty: &TypeExpr) -> (result: Result<&TypeExpr, CompileError>)
    ensures
        match result {
            Ok(inner) => is_result(*ty) && *inner == ty.type_arg(),
            Err(e) => !is_result(*ty) && e == CompileError::ExpectedResult,
        },
{
    if is_type(ty, "Result") {
        if let Some(inner) = first_type_arg(ty) {
            return Ok(inner);
        }
    }
    Err(CompileError::ExpectedResult)
}

/// How the calls of a method are made: under which name, with which
/// parameters, through which call primitive, and decoded under which shape.
#[derive(Debug)]
pub struct CallPlan {
    pub wire_name: String,
    pub params: Vec<Param>,
    pub kind: CallKind,
    pub shape: Shape,
}

/// The mathematical content of a [`CallPlan`].
pub struct PlanView {
    pub wire_name: Seq<char>,
    pub params: Seq<Param>,
    pub kind: CallKind,
    pub shape: Shape,
}

impl View for CallPlan {
    type V = PlanView;

    open spec fn view(&self) -> PlanView {
        PlanView {
            wire_name: self.wire_name@,
            params: self.params@,
            kind: self.kind,
            shape: self.shape,
        }
    }
}

/// The plan for a method with the given return type, wire name and
/// parameters: the shape is that of the `T` in `Result<T>`, and the call
/// primitive is the one of that shape.
pub open spec fn plan_of(return_type: TypeExpr, name: Seq<char>, params: Seq<Param>) -> Result<
    PlanView,
    CompileError,
> {
    if is_result(return_type) {
        let shape = return_type.type_arg().shape();
        Ok(PlanView { wire_name: name, params, kind: shape.call_kind(), shape })
    } else {
        Err(CompileError::ExpectedResult)
    }
}

/// The content of a plan result.
pub open spec fn plan_result(result: Result<CallPlan, CompileError>) -> Result<
    PlanView,
    CompileError,
> {
    match result {
        Ok(plan) => Ok(plan@),
        Err(e) => Err(e),
    }
}

/// Plans the calls of a method from its return type, see [`plan_of`].
pub fn generate_call_expression(
    return_type: &TypeExpr,
    rpc_name: String,
    args: Vec<Param>,
) -> (result: Result<CallPlan, CompileError>)
    ensures
        plan_result(result) == plan_of(*return_type, rpc_name@, args@),
{
    let inner = match extract_result_type(return_type) {
        Ok(inner) => inner,
        Err(e) => {
            return Err(e);
        },
    };
    let shape = match_return_type(inner);
    let kind = shape.select_call();
    Ok(CallPlan { wire_name: rpc_name, params: args, kind, shape })
}

/// The binding of one declared method.
#[derive(Debug)]
pub struct MethodBinding {
    pub declared_name: String,
    pub call: CallPlan,
}

/// The mathematical content of a [`MethodBinding`].
pub struct BindingView {
    pub declared_name: Seq<char>,
    pub call: PlanView,
}

impl View for MethodBinding {
    type V = BindingView;

    open spec fn view(&self) -> BindingView {
        BindingView { declared_name: self.declared_name@, call: self.call@ }
    }
}

/// The binding of a declared method under a naming policy. The name is
/// resolved first, then the parameters are collected, then the return type is
/// classified; the first of these to fail is the method's failure.
pub open spec fn binding_of(method: MethodDecl, config: ConfigView) -> Result<
    BindingView,
    CompileError,
> {
    match wire_name_of(method, config) {
        Err(e) => Err(e),
        Ok(name) => match params_of(method.inputs@) {
            Err(e) => Err(e),
            Ok(params) => match method.output {
                None => Err(CompileError::MissingReturnType),
                Some(ty) => match plan_of(ty, name, params) {
                    Err(e) => Err(e),
                    Ok(call) => Ok(BindingView { declared_name: method.name@, call }),
                },
            },
        },
    }
}

/// The content of a binding result.
pub open spec fn binding_result(result: Result<MethodBinding, CompileError>) -> Result<
    BindingView,
    CompileError,
> {
    match result {
        Ok(binding) => Ok(binding@),
        Err(e) => Err(e),
    }
}

/// Binds one declared method, see [`binding_of`].
pub fn generate_method_impl(method: MethodDecl, config: &RpcConfig) -> (result: Result<
    MethodBinding,
    CompileError,
>)
    ensures
        binding_result(result) == binding_of(method, config@),
{
    let rpc_name = match determine_rpc_name(&method, config) {
        Ok(name) => name,
        Err(e) => {
            return Err(e);
        },
    };
    let MethodDecl { name, attrs: _, inputs, output } = method;
    let args = match extract_args(inputs) {
        Ok(args) => args,
        Err(e) => {
            return Err(e);
        },
    };
    let return_type = match output {
        Some(ty) => ty,
        None => {
            return Err(CompileError::MissingReturnType);
        },
    };
    match generate_call_expression(&return_type, rpc_name, args) {
        Ok(call) => Ok(MethodBinding { declared_name: name, call }),
        Err(e) => Err(e),
    }
}

/// One item of an interface declaration.
#[derive(Debug)]
pub enum TraitItem {
    /// A method.
    Method(MethodDecl),
    /// Anything else, such as an associated type or constant, which has no
    /// binding.
    Other,
}

/// An interface as declared.
#[derive(Debug)]
pub struct InterfaceDecl {
    pub name: String,
    pub items: Vec<TraitItem>,
}

/// The bindings of an interface.
#[derive(Debug)]
pub struct InterfaceBinding {
    pub name: String,
    pub config: RpcConfig,
    pub methods: Vec<MethodBinding>,
}

/// The bindings of a list, each by its content.
pub open spec fn binding_views(bindings: Seq<MethodBinding>) -> Seq<BindingView> {
    Seq::new(bindings.len(), |i: int| bindings[i]@)
}

/// The bindings of the methods among the items of an interface, in
/// declaration order; the first method that cannot be bound fails the whole.
pub open spec fn bindings_of(items: Seq<TraitItem>, config: ConfigView) -> Result<
    Seq<BindingView>,
    CompileError,
>
    decreases items.len(),
{
    if items.len() == 0 {
        Ok(Seq::empty())
    } else {
        match bindings_of(items.drop_last(), config) {
            Err(e) => Err(e),
            Ok(bound) => match items.last() {
                TraitItem::Other => Ok(bound),
                TraitItem::Method(method) => match binding_of(method, config) {
                    Err(e) => Err(e),
                    Ok(binding) => Ok(bound.push(binding)),
                },
            },
        }
    }
}

/// Once a prefix of the items fails, the whole interface fails in the same
/// way.
pub proof fn lemma_bindings_fail(items: Seq<TraitItem>, config: ConfigView, n: int)
    requires
        0 <= n <= items.len(),
        bindings_of(items.take(n), config) is Err,
    ensures
        bindings_of(items, config) == bindings_of(items.take(n), config),
    decreases items.len() - n,
{
    if n < items.len() {
        let next = items.take(n + 1);
        assert(next.drop_last() =~= items.take(n));
        lemma_bindings_fail(items, config, n + 1);
    } else {
        assert(items.take(n) =~= items);
    }
}

/// What compiling an interface gives: the failure of its configuration, else
/// the bindings of its methods under that configuration.
pub open spec fn interface_of(items: Seq<TraitItem>, attrs: Seq<Meta>) -> Result<
    (ConfigView, Seq<BindingView>),
    CompileError,
> {
    match config_of(attrs) {
        Err(e) => Err(e),
        Ok(config) => match bindings_of(items, config) {
            Err(e) => Err(e),
            Ok(bound) => Ok((config, bound)),
        },
    }
}

/// The content of a compilation result.
pub open spec fn interface_result(result: Result<InterfaceBinding, CompileError>) -> Result<
    (ConfigView, Seq<BindingView>),
    CompileError,
> {
    match result {
        Ok(bound) => Ok((bound.config@, binding_views(bound.methods@))),
        Err(e) => Err(e),
    }
}

/// Compiles an interface: reads its naming policy and binds each of its
/// methods, in declaration order.
pub fn generate_rpc_impl(trait_def: InterfaceDecl, attrs: &Vec<Meta>) -> (result: Result<
    InterfaceBinding,
    CompileError,
>)
    ensures
        interface_result(result) == interface_of(trait_def.items@, attrs@),
        result matches Ok(bound) ==> bound.name == trait_def.name,
{
    let config = match parse_rpc_config(attrs) {
        Ok(config) => config,
        Err(e) => {
            return Err(e);
        },
    };
    let InterfaceDecl { name, items } = trait_def;
    let ghost all = items@;
    let mut rest = items;
    let mut methods: Vec<MethodBinding> = Vec::new();
    assert(all.take(0) =~= Seq::empty());
    assert(binding_views(methods@) =~= Seq::empty());
    while rest.len() > 0
        invariant
            all == trait_def.items@,
            config_of(attrs@) == Ok::<ConfigView, CompileError>(config@),
            rest@.len() <= all.len(),
            rest@ == all.skip(all.len() - rest@.len()),
            bindings_of(all.take(all.len() - rest@.len()), config@) == Ok::<
                Seq<BindingView>,
                CompileError,
            >(binding_views(methods@)),
        decreases rest@.len(),
    {
        let ghost i = all.len() - rest@.len();
        let ghost done = binding_views(methods@);
        let item = rest.remove(0);
        proof {
            assert(item == all[i]);
            assert(rest@ =~= all.skip(i + 1));
            let next = all.take(i + 1);
            assert(next.drop_last() =~= all.take(i));
            assert(next.last() == all[i]);
        }
        match item {
            TraitItem::Other => {},
            TraitItem::Method(method) => match generate_method_impl(method, &config) {
                Ok(binding) => {
                    methods.push(binding);
                    assert(binding_views(methods@) =~= done.push(binding@));
                },
                Err(e) => {
                    proof {
                        lemma_bindings_fail(all, config@, i + 1);
                    }
                    return Err(e);
                },
            },
        }
    }
    assert(all.take(all.len() as int) =~= all);
    Ok(InterfaceBinding { name, config, methods })
}

} // verus!
