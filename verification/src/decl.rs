//! Services declared as a trait: the items of the trait, already read into
//! plain values, are turned into a service descriptor. Type names come
//! printed token by token and are kept as they come.

use vstd::prelude::*;
use vstd::string::StringExecFns;
use crate::descriptor::{Function, FunctionView, Parameter, ParameterView, Service, ServiceView};
use crate::generator::Generator;
use crate::text::{spells, split_words, to_chars, unspace, unspaced, words};

verus! {

/// One argument of a declared method.
#[derive(Debug, Clone, PartialEq, Eq)]
pub enum ArgDecl {
    /// A receiver: `self` in one of its forms.
    Receiver,
    /// A pattern with its type.
    Typed { pat: String, ty: String },
}

/// One item of a declared trait.
#[derive(Debug, Clone, PartialEq, Eq)]
pub enum ItemDecl {
    /// A method: its name, its arguments and its return type, `None` where
    /// none is written.
    Method { name: String, inputs: Vec<ArgDecl>, output: Option<String> },
    /// Anything else: a constant, an associated type, a macro.
    Other,
}

/// A declared trait: its name and its items in declaration order.
#[derive(Debug, Clone, PartialEq, Eq)]
pub struct TraitDecl {
    pub name: String,
    pub items: Vec<ItemDecl>,
}

/// What an `ArgDecl` is, as mathematics.
pub enum ArgDeclView {
    Receiver,
    Typed { pat: Seq<char>, ty: Seq<char> },
}

/// What an `ItemDecl` is, as mathematics.
pub enum ItemDeclView {
    Method { name: Seq<char>, inputs: Seq<ArgDeclView>, output: Option<Seq<char>> },
    Other,
}

/// What a `TraitDecl` is, as mathematics.
pub struct TraitDeclView {
    pub name: Seq<char>,
    pub items: Seq<ItemDeclView>,
}

impl View for ArgDecl {
    type V = ArgDeclView;

    open spec fn view(&self) -> ArgDeclView {
        match self {
            ArgDecl::Receiver => ArgDeclView::Receiver,
            ArgDecl::Typed { pat, ty } => ArgDeclView::Typed { pat: pat@, ty: ty@ },
        }
    }
}

impl View for ItemDecl {
    type V = ItemDeclView;

    open spec fn view(&self) -> ItemDeclView {
        match self {
            ItemDecl::Method { name, inputs, output } => ItemDeclView::Method {
                name: name@,
                inputs: inputs@.map_values(|a: ArgDecl| a@),
                output: match output {
                    Some(ty) => Some(ty@),
                    None => None,
                },
            },
            ItemDecl::Other => ItemDeclView::Other,
        }
    }
}

impl View for TraitDecl {
    type V = TraitDeclView;

    open spec fn view(&self) -> TraitDeclView {
        TraitDeclView { name: self.name@, items: self.items@.map_values(|i: ItemDecl| i@) }
    }
}

/// Why a declared item is no method of a service.
#[derive(Debug, Clone, Copy, PartialEq, Eq, Structural)]
pub enum DeclError {
    /// The item is not a method.
    NotAMethod,
    /// The method has no name.
    Unnamed,
    /// The argument at index `arg` is a receiver. No argument before it has a
    /// defect.
    Receiver { arg: usize },
    /// The argument at index `arg` has no pattern or no type. No argument
    /// before it has a defect.
    BlankArgument { arg: usize },
    /// The return type is written and is nothing.
    BlankOutput,
    /// One of the method's type names is a malformed streaming marker.
    MalformedStream,
}

/// What `DeclError` is with its index as a mathematical integer.
pub enum DeclErrorView {
    NotAMethod,
    Unnamed,
    Receiver { arg: int },
    BlankArgument { arg: int },
    BlankOutput,
    MalformedStream,
}

impl View for DeclError {
    type V = DeclErrorView;

    open spec fn view(&self) -> DeclErrorView {
        match self {
            DeclError::NotAMethod => DeclErrorView::NotAMethod,
            DeclError::Unnamed => DeclErrorView::Unnamed,
            DeclError::Receiver { arg } => DeclErrorView::Receiver { arg: *arg as int },
            DeclError::BlankArgument { arg } => DeclErrorView::BlankArgument { arg: *arg as int },
            DeclError::BlankOutput => DeclErrorView::BlankOutput,
            DeclError::MalformedStream => DeclErrorView::MalformedStream,
        }
    }
}

/// Text is blank when nothing but spaces is in it.
pub open spec fn is_blank(t: Seq<char>) -> bool {
    unspaced(t).len() == 0
}

/// The parameter that the argument at index `arg` declares, or its defect.
pub open spec fn param_of(a: ArgDeclView, arg: int) -> Result<ParameterView, DeclErrorView> {
    match a {
        ArgDeclView::Receiver => Err(DeclErrorView::Receiver { arg }),
        ArgDeclView::Typed { pat, ty } => if is_blank(pat) || is_blank(ty) {
            Err(DeclErrorView::BlankArgument { arg })
        } else {
            Ok(ParameterView { var_name: pat, typ_name: ty })
        },
    }
}

/// The parameters that the arguments declare, or the defect of the first
/// argument that has one.
pub open spec fn params_of(inputs: Seq<ArgDeclView>) -> Result<Seq<ParameterView>, DeclErrorView>
    decreases inputs.len(),
{
    if inputs.len() == 0 {
        Ok(Seq::empty())
    } else {
        match params_of(inputs.drop_last()) {
            Err(e) => Err(e),
            Ok(params) => match param_of(inputs.last(), inputs.len() - 1) {
                Err(e) => Err(e),
                Ok(p) => Ok(params.push(p)),
            },
        }
    }
}

/// The return type that is meant where none is written.
pub open spec fn unit_type() -> Seq<char> {
    "()"@
}

/// The method of a service that a declared item stands for, or why it stands
/// for none. The defects are looked for in the order of `DeclError`.
pub open spec fn function_of(item: ItemDeclView) -> Result<FunctionView, DeclErrorView> {
    match item {
        ItemDeclView::Other => Err(DeclErrorView::NotAMethod),
        ItemDeclView::Method { name, inputs, output } => if is_blank(name) {
            Err(DeclErrorView::Unnamed)
        } else {
            match params_of(inputs) {
                Err(e) => Err(e),
                Ok(params) => {
                    let f = FunctionView {
                        name,
                        inputs: params,
                        output: match output {
                            Some(ty) => ty,
                            None => unit_type(),
                        },
                    };
                    if is_blank(f.output) {
                        Err(DeclErrorView::BlankOutput)
                    } else if f.markers_well_formed() {
                        Ok(f)
                    } else {
                        Err(DeclErrorView::MalformedStream)
                    }
                },
            }
        },
    }
}

/// The methods that the items stand for, or the index of the first item that
/// stands for none, with the reason.
pub open spec fn functions_of(items: Seq<ItemDeclView>) -> Result<
    Seq<FunctionView>,
    (int, DeclErrorView),
>
    decreases items.len(),
{
    if items.len() == 0 {
        Ok(Seq::empty())
    } else {
        match functions_of(items.drop_last()) {
            Err(e) => Err(e),
            Ok(functions) => match function_of(items.last()) {
                Err(e) => Err((items.len() - 1, e)),
                Ok(f) => Ok(functions.push(f)),
            },
        }
    }
}

/// The service that a declared trait stands for: its name, and its methods
/// in declaration order.
pub open spec fn service_of(t: TraitDeclView) -> Result<ServiceView, (int, DeclErrorView)> {
    match functions_of(t.items) {
        Err(e) => Err(e),
        Ok(functions) => Ok(ServiceView { name: t.name, functions }),
    }
}

/// Tests whether nothing but spaces is in `t`.
fn blank(t: &str) -> (b: bool)
    ensures
        b == is_blank(t@),
{
    unspace(&to_chars(t)).len() == 0
}

/// Turns the declared arguments into parameters.
fn read_args(inputs: &Vec<ArgDecl>) -> (res: Result<Vec<Parameter>, DeclError>)
    ensures
        match res {
            Ok(params) => params_of(inputs@.map_values(|a: ArgDecl| a@)) == Ok::<
                Seq<ParameterView>,
                DeclErrorView,
            >(params@.map_values(|p: Parameter| p@)),
            Err(e) => params_of(inputs@.map_values(|a: ArgDecl| a@)) == Err::<
                Seq<ParameterView>,
                DeclErrorView,
            >(e@),
        },
{
    let ghost all = inputs@.map_values(|a: ArgDecl| a@);
    let mut params: Vec<Parameter> = Vec::new();
    assert(params@.map_values(|p: Parameter| p@) =~= Seq::empty());
    let mut i: usize = 0;
    while i < inputs.len()
        invariant
            i <= inputs.len(),
            all == inputs@.map_values(|a: ArgDecl| a@),
            params_of(all.take(i as int)) == Ok::<Seq<ParameterView>, DeclErrorView>(
                params@.map_values(|p: Parameter| p@),
            ),
        decreases inputs.len() - i,
    {
        proof {
            assert(all.take(i + 1).drop_last() =~= all.take(i as int));
        }
        let defect = match &inputs[i] {
            ArgDecl::Receiver => Some(DeclError::Receiver { arg: i }),
            ArgDecl::Typed { pat, ty } => {
                if blank(pat.as_str()) || blank(ty.as_str()) {
                    Some(DeclError::BlankArgument { arg: i })
                } else {
                    let p = Parameter { var_name: pat.clone(), typ_name: ty.clone() };
                    assert(params@.push(p).map_values(|p: Parameter| p@) =~= params@.map_values(
                        |p: Parameter| p@,
                    ).push(p@));
                    params.push(p);
                    None
                }
            },
        };
        match defect {
            Some(e) => {
                proof {
                    lemma_params_of_stays_err(all.take(i + 1), all, e@);
                }
                return Err(e);
            },
            None => {},
        }
        i += 1;
    }
    assert(all.take(all.len() as int) =~= all);
    Ok(params)
}

/// A defect found in a prefix of the arguments is the one found in all of
/// them.
proof fn lemma_params_of_stays_err(
    prefix: Seq<ArgDeclView>,
    all: Seq<ArgDeclView>,
    e: DeclErrorView,
)
    requires
        prefix.len() <= all.len(),
        prefix == all.take(prefix.len() as int),
        params_of(prefix) == Err::<Seq<ParameterView>, DeclErrorView>(e),
    ensures
        params_of(all) == Err::<Seq<ParameterView>, DeclErrorView>(e),
    decreases all.len(),
{
    if prefix.len() < all.len() {
        assert(all.drop_last().take(prefix.len() as int) =~= prefix);
        lemma_params_of_stays_err(prefix, all.drop_last(), e);
    } else {
        assert(prefix =~= all);
    }
}

/// A defect found in a prefix of the items is the one found in all of them.
proof fn lemma_functions_of_stays_err(
    prefix: Seq<ItemDeclView>,
    all: Seq<ItemDeclView>,
    e: (int, DeclErrorView),
)
    requires
        prefix.len() <= all.len(),
        prefix == all.take(prefix.len() as int),
        functions_of(prefix) == Err::<Seq<FunctionView>, (int, DeclErrorView)>(e),
    ensures
        functions_of(all) == Err::<Seq<FunctionView>, (int, DeclErrorView)>(e),
    decreases all.len(),
{
    if prefix.len() < all.len() {
        assert(all.drop_last().take(prefix.len() as int) =~= prefix);
        lemma_functions_of_stays_err(prefix, all.drop_last(), e);
    } else {
        assert(prefix =~= all);
    }
}

/// Turns a declared item into a method of a service. A method without a
/// return type returns `()`.
pub fn parse_func(f: &ItemDecl) -> (res: Result<Function, DeclError>)
    ensures
        match res {
            Ok(fun) => function_of(f@) == Ok::<FunctionView, DeclErrorView>(fun@),
            Err(e) => function_of(f@) == Err::<FunctionView, DeclErrorView>(e@),
        },
{
    match f {
        ItemDecl::Other => Err(DeclError::NotAMethod),
        ItemDecl::Method { name, inputs, output } => {
            if blank(name.as_str()) {
                return Err(DeclError::Unnamed);
            }
            let params = match read_args(inputs) {
                Ok(params) => params,
                Err(e) => {
                    return Err(e);
                },
            };
            let output_ty = match output {
                Some(ty) => ty.clone(),
                None => String::from_str("()"),
            };
            if blank(output_ty.as_str()) {
                return Err(DeclError::BlankOutput);
            }
            let fun = Function { name: name.clone(), inputs: params, output: output_ty };
            if fun.markers_well_formed() {
                Ok(fun)
            } else {
                Err(DeclError::MalformedStream)
            }
        },
    }
}

/// Turns a declared trait into a service descriptor: the trait's name, and
/// one method for each item, in declaration order. Fails at the first item
/// that stands for no method, with that item's index.
pub fn parse_service(t: &TraitDecl) -> (res: Result<Service, (usize, DeclError)>)
    ensures
        match res {
            Ok(svc) => service_of(t@) == Ok::<ServiceView, (int, DeclErrorView)>(svc@),
            Err((item, e)) => service_of(t@) == Err::<ServiceView, (int, DeclErrorView)>(
                (item as int, e@),
            ),
        },
{
    let ghost all = t@.items;
    let mut functions: Vec<Function> = Vec::new();
    assert(functions@.map_values(|f: Function| f@) =~= Seq::empty());
    let mut i: usize = 0;
    while i < t.items.len()
        invariant
            i <= t.items.len(),
            all == t@.items,
            functions_of(all.take(i as int)) == Ok::<Seq<FunctionView>, (int, DeclErrorView)>(
                functions@.map_values(|f: Function| f@),
            ),
        decreases t.items.len() - i,
    {
        proof {
            assert(all.take(i + 1).drop_last() =~= all.take(i as int));
        }
        match parse_func(&t.items[i]) {
            Err(e) => {
                proof {
                    lemma_functions_of_stays_err(all.take(i + 1), all, (i as int, e@));
                }
                return Err((i, e));
            },
            Ok(f) => {
                assert(functions@.push(f).map_values(|f: Function| f@) =~= functions@.map_values(
                    |f: Function| f@,
                ).push(f@));
                functions.push(f);
            },
        }
        i += 1;
    }
    assert(all.take(all.len() as int) =~= all);
    Ok(Service { name: t.name.clone(), functions })
}

/// Every parameter that was accepted has a pattern and a type.
pub proof fn lemma_params_accepted_are_sound(inputs: Seq<ArgDeclView>)
    ensures
        params_of(inputs) matches Ok(params) ==> {
            &&& params.len() == inputs.len()
            &&& forall|i: int|
                0 <= i < params.len() ==> !is_blank((#[trigger] params[i]).var_name) && !is_blank(
                    params[i].typ_name,
                )
        },
    decreases inputs.len(),
{
    if inputs.len() > 0 {
        lemma_params_accepted_are_sound(inputs.drop_last());
    }
}

/// What is accepted is free of the defects that make a declaration
/// unusable: a method that was accepted has a name and a return type, it has
/// one parameter for each argument, each with a pattern and a type, and none
/// of its type names is a malformed streaming marker.
pub proof fn lemma_method_accepted_is_sound(item: ItemDeclView)
    ensures
        function_of(item) matches Ok(f) ==> {
            &&& !is_blank(f.name)
            &&& !is_blank(f.output)
            &&& f.markers_well_formed()
            &&& item matches ItemDeclView::Method { inputs, .. } && f.inputs.len() == inputs.len()
            &&& forall|i: int|
                0 <= i < f.inputs.len() ==> !is_blank((#[trigger] f.inputs[i]).var_name)
                    && !is_blank(f.inputs[i].typ_name)
        },
{
    match item {
        ItemDeclView::Method { inputs, .. } => {
            lemma_params_accepted_are_sound(inputs);
        },
        ItemDeclView::Other => {},
    }
}

/// The generator that the arguments of a service declaration ask for, read
/// word by word: the one for payloads that may cross threads where there is
/// no word, the one for payloads that stay on one thread for `?Send`, written
/// as one word or as the two words `?` and `Send`, and none for anything
/// else.
pub open spec fn generator_of(args: Seq<char>) -> Option<Generator> {
    let found = words(args);
    if found.len() == 0 {
        Some(Generator { no_send: false })
    } else if found.len() == 1 && found[0] == "?Send"@ {
        Some(Generator { no_send: true })
    } else if found.len() == 2 && found[0] == "?"@ && found[1] == "Send"@ {
        Some(Generator { no_send: true })
    } else {
        None
    }
}

/// Reads the arguments of a service declaration, printed token by token.
pub fn parse_args(args: &str) -> (res: Option<Generator>)
    ensures
        res == generator_of(args@),
{
    let found = split_words(&to_chars(args));
    if found.len() == 0 {
        Some(Generator { no_send: false })
    } else if found.len() == 1 {
        if spells(&found[0], "?Send") {
            Some(Generator { no_send: true })
        } else {
            None
        }
    } else if found.len() == 2 {
        if spells(&found[0], "?") && spells(&found[1], "Send") {
            Some(Generator { no_send: true })
        } else {
            None
        }
    } else {
        None
    }
}

} // verus!
