//! The code generator: from a service descriptor to the source text of its
//! request and response envelopes, its capability trait, its client stub and
//! its server adapter. The text is a function of the descriptor and of the
//! thread-affinity marker alone, and follows the declaration order of the
//! methods.

use vstd::prelude::*;
use vstd::string::StringExecFns;
use crate::descriptor::{Function, FunctionView, Parameter, ParameterView, Service, ServiceView};
use crate::text::{join, joined, views};

verus! {

/// The generator. With `no_send` set it emits the shapes for payloads that
/// stay on one thread; without it, those for payloads that may cross threads.
#[derive(Debug, Clone, Copy, PartialEq, Eq, Structural)]
pub struct Generator {
    pub no_send: bool,
}

/// The type names of the parameters, in order.
pub open spec fn typ_names(inputs: Seq<ParameterView>) -> Seq<Seq<char>> {
    Seq::new(inputs.len(), |i: int| inputs[i].typ_name)
}

/// The names of the parameters, in order.
pub open spec fn var_names(inputs: Seq<ParameterView>) -> Seq<Seq<char>> {
    Seq::new(inputs.len(), |i: int| inputs[i].var_name)
}

/// One parameter as it is declared: its name, a colon and its type.
pub open spec fn declaration(p: ParameterView) -> Seq<char> {
    p.var_name + ":"@ + p.typ_name
}

/// The receiver followed by the declarations of the parameters.
pub open spec fn declarations(receiver: Seq<char>, inputs: Seq<ParameterView>) -> Seq<Seq<char>> {
    Seq::new(
        inputs.len() + 1,
        |i: int|
            if i == 0 {
                receiver
            } else {
                declaration(inputs[i - 1])
            },
    )
}

/// The variant of the request envelope for one method: the method's name and
/// the types of its parameters.
pub open spec fn request_variant(f: FunctionView) -> Seq<char> {
    f.name + "("@ + joined(typ_names(f.inputs), ","@) + ")"@
}

/// The variants of the request envelope: one for each method, in declaration
/// order.
pub open spec fn request_variants(svc: ServiceView) -> Seq<Seq<char>> {
    Seq::new(svc.functions.len(), |i: int| request_variant(svc.functions[i]))
}

/// The request envelope.
pub open spec fn request_text(svc: ServiceView) -> Seq<char> {
    "\n        #[allow(non_camel_case_types)]\n        pub enum "@
    + svc.name
    + "Request {\n\t\t"@
    + joined(request_variants(svc), ","@)
    + "\n\t}"@
}

/// The variant of the response envelope for one method: the method's name
/// and its return type.
pub open spec fn response_variant(f: FunctionView) -> Seq<char> {
    f.name + "("@ + f.output + ")"@
}

/// The variants of the response envelope: one for each method, in
/// declaration order.
pub open spec fn response_variants(svc: ServiceView) -> Seq<Seq<char>> {
    Seq::new(svc.functions.len(), |i: int| response_variant(svc.functions[i]))
}

/// The response envelope.
pub open spec fn response_text(svc: ServiceView) -> Seq<char> {
    "\n        #[allow(non_camel_case_types)]\n        pub enum "@
    + svc.name
    + "Response {\n\t\t"@
    + joined(response_variants(svc), ","@)
    + "\n\t}"@
}

/// The client stub's type.
pub open spec fn client_struct_text(svc: ServiceView) -> Seq<char> {
    "\n    #[derive(Clone)]\n\tpub struct "@
    + svc.name
    + "Client<Svc> {\n\t\tsvc: Svc\n\t}\n\t"@
}

/// The server adapter's type.
pub open spec fn server_struct_text(svc: ServiceView) -> Seq<char> {
    "\n\t#[derive(Clone)]\n\tpub struct "@
    + svc.name
    + "Service<App: "@
    + svc.name
    + "> {\n\t\tapp: App\n\t}\n\t"@
}

/// One method of the capability trait. It returns the declared type as it
/// stands.
pub open spec fn trait_method(f: FunctionView) -> Seq<char> {
    "async fn "@
    + f.name
    + "("@
    + joined(declarations("self"@, f.inputs), ","@)
    + ") -> "@
    + f.output
    + ";"@
}

/// The methods of the capability trait, in declaration order.
pub open spec fn trait_methods(svc: ServiceView) -> Seq<Seq<char>> {
    Seq::new(svc.functions.len(), |i: int| trait_method(svc.functions[i]))
}

/// The argument of the `async_trait` attribute.
pub open spec fn trait_marker(no_send: bool) -> Seq<char> {
    if no_send {
        "(?Send)"@
    } else {
        ""@
    }
}

/// The capability trait.
pub open spec fn trait_text(svc: ServiceView, no_send: bool) -> Seq<char> {
    "\n\t\t#[norpc::async_trait"@
    + trait_marker(no_send)
    + "]\n\t\tpub trait "@
    + svc.name
    + ": Clone {\n\t\t\t"@
    + joined(trait_methods(svc), ""@)
    + "\n\t\t}\n\t\t"@
}

/// One method of the client stub: it waits for readiness, sends the method's
/// request variant and unwraps the same method's response variant.
pub open spec fn client_method(svc_name: Seq<char>, f: FunctionView) -> Seq<char> {
    "\n\t\tpub async fn "@
    + f.name
    + "("@
    + joined(declarations("&mut self"@, f.inputs), ","@)
    + ") -> std::result::Result<"@
    + f.output
    + ", Svc::Error> {\n            norpc::poll_fn(|ctx| self.svc.poll_ready(ctx)).await.ok();\n\t\t\tlet rep = self.svc.call("@
    + svc_name
    + "Request::"@
    + f.name
    + "("@
    + joined(var_names(f.inputs), ","@)
    + ")).await?;\n\t\t\tmatch rep {\n\t\t\t\t"@
    + svc_name
    + "Response::"@
    + f.name
    + "(v) => Ok(v),\n                #[allow(unreachable_patterns)]\n\t\t\t\t_ => unreachable!(),\n\t\t\t}\n\t\t}\n\t\t"@
}

/// The methods of the client stub, in declaration order.
pub open spec fn client_methods(svc: ServiceView) -> Seq<Seq<char>> {
    Seq::new(svc.functions.len(), |i: int| client_method(svc.name, svc.functions[i]))
}

/// The client stub's impl.
pub open spec fn client_impl_text(svc: ServiceView) -> Seq<char> {
    "\n\timpl<Svc: norpc::Service<"@
    + svc.name
    + "Request, Response = "@
    + svc.name
    + "Response>> "@
    + svc.name
    + "Client<Svc> {\n\t\tpub fn new(svc: Svc) -> Self {\n\t\t\tSelf { svc }\n\t\t}\n\t\t"@
    + joined(client_methods(svc), ""@)
    + "\n\t}\n\t"@
}

/// One arm of the server adapter's dispatch: it matches the method's request
/// variant, calls the method and wraps what it returns into the same method's
/// response variant.
pub open spec fn server_arm(svc_name: Seq<char>, f: FunctionView) -> Seq<char> {
    "\n\t\t"@
    + svc_name
    + "Request::"@
    + f.name
    + "("@
    + joined(var_names(f.inputs), ","@)
    + ") => {\n\t\t\tlet rep = app."@
    + f.name
    + "("@
    + joined(var_names(f.inputs), ","@)
    + ").await;\n\t\t\tOk("@
    + svc_name
    + "Response::"@
    + f.name
    + "(rep))\n\t\t}\n\t\t"@
}

/// The arms of the server adapter's dispatch, in declaration order.
pub open spec fn server_arms(svc: ServiceView) -> Seq<Seq<char>> {
    Seq::new(svc.functions.len(), |i: int| server_arm(svc.name, svc.functions[i]))
}

/// The bound that the server adapter puts on the capability and on its
/// future.
pub open spec fn adapter_marker(no_send: bool) -> Seq<char> {
    if no_send {
        ""@
    } else {
        "+ Send"@
    }
}

/// The server adapter's impls.
pub open spec fn server_impl_text(svc: ServiceView, no_send: bool) -> Seq<char> {
    "\n\timpl<App: "@
    + svc.name
    + "> "@
    + svc.name
    + "Service<App> {\n\t\tpub fn new(app: App) -> Self {\n\t\t\tSelf { app }\n\t\t}\n\t}\n    impl<App: "@
    + svc.name
    + " + 'static "@
    + adapter_marker(no_send)
    + "> norpc::Service<"@
    + svc.name
    + "Request> for "@
    + svc.name
    + "Service<App> {\n        type Response = "@
    + svc.name
    + "Response;\n        type Error = ();\n        type Future = std::pin::Pin<Box<dyn std::future::Future<Output = std::result::Result<Self::Response, Self::Error>> "@
    + adapter_marker(no_send)
    + ">>;\n        fn poll_ready(\n            &mut self,\n            _: &mut std::task::Context<'_>,\n        ) -> std::task::Poll<std::result::Result<(), Self::Error>> {\n            Ok(()).into()\n        }\n\t\tfn call(&mut self, req: "@
    + svc.name
    + "Request) -> Self::Future {\n\t\t\tlet app = self.app.clone();\n            Box::pin(async move {\n                match req {\n                    "@
    + joined(server_arms(svc), ","@)
    + "\n                }\n            })\n\t\t}\n    }\n\t"@
}

/// All that is generated for one service, in this order: the two envelopes,
/// the capability trait, the client stub and the server adapter.
pub open spec fn generated(svc: ServiceView, no_send: bool) -> Seq<char> {
    request_text(svc) + response_text(svc) + trait_text(svc, no_send) + client_struct_text(svc)
        + client_impl_text(svc) + server_struct_text(svc) + server_impl_text(svc, no_send)
}

/// Collects the type names of the parameters.
fn collect_typ_names(inputs: &Vec<Parameter>) -> (out: Vec<String>)
    ensures
        views(out@) == typ_names(inputs@.map_values(|p: Parameter| p@)),
{
    let ghost all = typ_names(inputs@.map_values(|p: Parameter| p@));
    let mut out: Vec<String> = Vec::new();
    let mut i: usize = 0;
    while i < inputs.len()
        invariant
            i <= inputs.len(),
            all == typ_names(inputs@.map_values(|p: Parameter| p@)),
            out.len() == i,
            views(out@) == all.take(i as int),
        decreases inputs.len() - i,
    {
        let name = inputs[i].typ_name.clone();
        out.push(name);
        i += 1;
    }
    out
}

/// Collects the names of the parameters.
fn collect_var_names(inputs: &Vec<Parameter>) -> (out: Vec<String>)
    ensures
        views(out@) == var_names(inputs@.map_values(|p: Parameter| p@)),
{
    let ghost all = var_names(inputs@.map_values(|p: Parameter| p@));
    let mut out: Vec<String> = Vec::new();
    let mut i: usize = 0;
    while i < inputs.len()
        invariant
            i <= inputs.len(),
            all == var_names(inputs@.map_values(|p: Parameter| p@)),
            out.len() == i,
            views(out@) == all.take(i as int),
        decreases inputs.len() - i,
    {
        let name = inputs[i].var_name.clone();
        out.push(name);
        i += 1;
    }
    out
}

/// Collects the receiver and the declarations of the parameters.
fn collect_declarations(receiver: &str, inputs: &Vec<Parameter>) -> (out: Vec<String>)
    ensures
        views(out@) == declarations(receiver@, inputs@.map_values(|p: Parameter| p@)),
{
    let ghost all = declarations(receiver@, inputs@.map_values(|p: Parameter| p@));
    let mut out: Vec<String> = Vec::new();
    out.push(String::from_str(receiver));
    let mut i: usize = 0;
    while i < inputs.len()
        invariant
            i <= inputs.len(),
            all == declarations(receiver@, inputs@.map_values(|p: Parameter| p@)),
            out.len() == i + 1,
            views(out@) == all.take(i + 1),
        decreases inputs.len() - i,
    {
        let mut decl = inputs[i].var_name.clone();
        decl.append(":");
        decl.append(inputs[i].typ_name.as_str());
        out.push(decl);
        i += 1;
    }
    out
}

impl Generator {
    /// The variants of the request envelope, one for each method, in
    /// declaration order.
    pub fn request_variants(&self, svc: &Service) -> (out: Vec<String>)
        ensures
            views(out@) == request_variants(svc@),
            out.len() == svc.functions.len(),
    {
        let ghost all = request_variants(svc@);
        let mut out: Vec<String> = Vec::new();
        let mut i: usize = 0;
        while i < svc.functions.len()
            invariant
                i <= svc.functions.len(),
                all == request_variants(svc@),
                out.len() == i,
                views(out@) == all.take(i as int),
            decreases svc.functions.len() - i,
        {
            let fun = &svc.functions[i];
            let params = collect_typ_names(&fun.inputs);
            let mut variant = fun.name.clone();
            variant.append("(");
            variant.append(join(&params, ",").as_str());
            variant.append(")");
            out.push(variant);
            i += 1;
        }
        out
    }

    /// The request envelope: an enum with one variant for each method.
    pub fn generate_request(&self, svc: &Service) -> (out: String)
        ensures
            out@ == request_text(svc@),
    {
        let variants = self.request_variants(svc);
        let inner = join(&variants, ",");
        let mut out = String::from_str("\n        #[allow(non_camel_case_types)]\n        pub enum ");
        out.append(svc.name.as_str());
        out.append("Request {\n\t\t");
        out.append(inner.as_str());
        out.append("\n\t}");
        out
    }

    /// The variants of the response envelope, one for each method, in
    /// declaration order.
    pub fn response_variants(&self, svc: &Service) -> (out: Vec<String>)
        ensures
            views(out@) == response_variants(svc@),
            out.len() == svc.functions.len(),
    {
        let ghost all = response_variants(svc@);
        let mut out: Vec<String> = Vec::new();
        let mut i: usize = 0;
        while i < svc.functions.len()
            invariant
                i <= svc.functions.len(),
                all == response_variants(svc@),
                out.len() == i,
                views(out@) == all.take(i as int),
            decreases svc.functions.len() - i,
        {
            let fun = &svc.functions[i];
            let mut variant = fun.name.clone();
            variant.append("(");
            variant.append(fun.output.as_str());
            variant.append(")");
            out.push(variant);
            i += 1;
        }
        out
    }

    /// The response envelope: an enum with one variant for each method.
    pub fn generate_response(&self, svc: &Service) -> (out: String)
        ensures
            out@ == response_text(svc@),
    {
        let variants = self.response_variants(svc);
        let inner = join(&variants, ",");
        let mut out = String::from_str("\n        #[allow(non_camel_case_types)]\n        pub enum ");
        out.append(svc.name.as_str());
        out.append("Response {\n\t\t");
        out.append(inner.as_str());
        out.append("\n\t}");
        out
    }

    /// The client stub's type.
    pub fn generate_client_struct(&self, svc: &Service) -> (out: String)
        ensures
            out@ == client_struct_text(svc@),
    {
        let mut out = String::from_str("\n    #[derive(Clone)]\n\tpub struct ");
        out.append(svc.name.as_str());
        out.append("Client<Svc> {\n\t\tsvc: Svc\n\t}\n\t");
        out
    }

    /// The server adapter's type.
    pub fn generate_server_struct(&self, svc: &Service) -> (out: String)
        ensures
            out@ == server_struct_text(svc@),
    {
        let mut out = String::from_str("\n\t#[derive(Clone)]\n\tpub struct ");
        out.append(svc.name.as_str());
        out.append("Service<App: ");
        out.append(svc.name.as_str());
        out.append("> {\n\t\tapp: App\n\t}\n\t");
        out
    }

    /// The capability trait: one asynchronous method for each method of the
    /// service.
    pub fn generate_trait(&self, svc: &Service) -> (out: String)
        ensures
            out@ == trait_text(svc@, self.no_send),
    {
        let ghost all = trait_methods(svc@);
        let mut methods: Vec<String> = Vec::new();
        let mut i: usize = 0;
        while i < svc.functions.len()
            invariant
                i <= svc.functions.len(),
                all == trait_methods(svc@),
                methods.len() == i,
                views(methods@) == all.take(i as int),
            decreases svc.functions.len() - i,
        {
            let fun = &svc.functions[i];
            let params = join(&collect_declarations("self", &fun.inputs), ",");
            let mut method = String::from_str("async fn ");
            method.append(fun.name.as_str());
            method.append("(");
            method.append(params.as_str());
            method.append(") -> ");
            method.append(fun.output.as_str());
            method.append(";");
            methods.push(method);
            i += 1;
        }
        assert(all.take(all.len() as int) =~= all);
        let inner = join(&methods, "");
        let marker = if self.no_send {
            "(?Send)"
        } else {
            ""
        };
        let mut out = String::from_str("\n\t\t#[norpc::async_trait");
        out.append(marker);
        out.append("]\n\t\tpub trait ");
        out.append(svc.name.as_str());
        out.append(": Clone {\n\t\t\t");
        out.append(inner.as_str());
        out.append("\n\t\t}\n\t\t");
        out
    }

    /// The client stub's impl: its constructor and one method for each method
    /// of the service.
    pub fn generate_client_impl(&self, svc: &Service) -> (out: String)
        ensures
            out@ == client_impl_text(svc@),
    {
        let ghost all = client_methods(svc@);
        let mut methods: Vec<String> = Vec::new();
        let mut i: usize = 0;
        while i < svc.functions.len()
            invariant
                i <= svc.functions.len(),
                all == client_methods(svc@),
                methods.len() == i,
                views(methods@) == all.take(i as int),
            decreases svc.functions.len() - i,
        {
            let fun = &svc.functions[i];
            let params = join(&collect_declarations("&mut self", &fun.inputs), ",");
            let req_params = join(&collect_var_names(&fun.inputs), ",");
            let mut method = String::from_str("\n\t\tpub async fn ");
            method.append(fun.name.as_str());
            method.append("(");
            method.append(params.as_str());
            method.append(") -> std::result::Result<");
            method.append(fun.output.as_str());
            method.append(", Svc::Error> {\n            norpc::poll_fn(|ctx| self.svc.poll_ready(ctx)).await.ok();\n\t\t\tlet rep = self.svc.call(");
            method.append(svc.name.as_str());
            method.append("Request::");
            method.append(fun.name.as_str());
            method.append("(");
            method.append(req_params.as_str());
            method.append(")).await?;\n\t\t\tmatch rep {\n\t\t\t\t");
            method.append(svc.name.as_str());
            method.append("Response::");
            method.append(fun.name.as_str());
            method.append("(v) => Ok(v),\n                #[allow(unreachable_patterns)]\n\t\t\t\t_ => unreachable!(),\n\t\t\t}\n\t\t}\n\t\t");
            methods.push(method);
            i += 1;
        }
        assert(all.take(all.len() as int) =~= all);
        let inner = join(&methods, "");
        let mut out = String::from_str("\n\timpl<Svc: norpc::Service<");
        out.append(svc.name.as_str());
        out.append("Request, Response = ");
        out.append(svc.name.as_str());
        out.append("Response>> ");
        out.append(svc.name.as_str());
        out.append("Client<Svc> {\n\t\tpub fn new(svc: Svc) -> Self {\n\t\t\tSelf { svc }\n\t\t}\n\t\t");
        out.append(inner.as_str());
        out.append("\n\t}\n\t");
        out
    }

    /// The server adapter's impls: its constructor and its dispatch, with one
    /// arm for each method of the service.
    pub fn generate_server_impl(&self, svc: &Service) -> (out: String)
        ensures
            out@ == server_impl_text(svc@, self.no_send),
    {
        let ghost all = server_arms(svc@);
        let mut match_arms: Vec<String> = Vec::new();
        let mut i: usize = 0;
        while i < svc.functions.len()
            invariant
                i <= svc.functions.len(),
                all == server_arms(svc@),
                match_arms.len() == i,
                views(match_arms@) == all.take(i as int),
            decreases svc.functions.len() - i,
        {
            let fun = &svc.functions[i];
            let req_params = join(&collect_var_names(&fun.inputs), ",");
            let mut arm = String::from_str("\n\t\t");
            arm.append(svc.name.as_str());
            arm.append("Request::");
            arm.append(fun.name.as_str());
            arm.append("(");
            arm.append(req_params.as_str());
            arm.append(") => {\n\t\t\tlet rep = app.");
            arm.append(fun.name.as_str());
            arm.append("(");
            arm.append(req_params.as_str());
            arm.append(").await;\n\t\t\tOk(");
            arm.append(svc.name.as_str());
            arm.append("Response::");
            arm.append(fun.name.as_str());
            arm.append("(rep))\n\t\t}\n\t\t");
            match_arms.push(arm);
            i += 1;
        }
        assert(all.take(all.len() as int) =~= all);
        let inner = join(&match_arms, ",");
        let marker = if self.no_send {
            ""
        } else {
            "+ Send"
        };
        let mut out = String::from_str("\n\timpl<App: ");
        out.append(svc.name.as_str());
        out.append("> ");
        out.append(svc.name.as_str());
        out.append("Service<App> {\n\t\tpub fn new(app: App) -> Self {\n\t\t\tSelf { app }\n\t\t}\n\t}\n    impl<App: ");
        out.append(svc.name.as_str());
        out.append(" + 'static ");
        out.append(marker);
        out.append("> norpc::Service<");
        out.append(svc.name.as_str());
        out.append("Request> for ");
        out.append(svc.name.as_str());
        out.append("Service<App> {\n        type Response = ");
        out.append(svc.name.as_str());
        out.append("Response;\n        type Error = ();\n        type Future = std::pin::Pin<Box<dyn std::future::Future<Output = std::result::Result<Self::Response, Self::Error>> ");
        out.append(marker);
        out.append(">>;\n        fn poll_ready(\n            &mut self,\n            _: &mut std::task::Context<'_>,\n        ) -> std::task::Poll<std::result::Result<(), Self::Error>> {\n            Ok(()).into()\n        }\n\t\tfn call(&mut self, req: ");
        out.append(svc.name.as_str());
        out.append("Request) -> Self::Future {\n\t\t\tlet app = self.app.clone();\n            Box::pin(async move {\n                match req {\n                    ");
        out.append(inner.as_str());
        out.append("\n                }\n            })\n\t\t}\n    }\n\t");
        out
    }

    /// All that is generated for one service.
    pub fn generate(&self, svc: &Service) -> (out: String)
        ensures
            out@ == generated(svc@, self.no_send),
    {
        let mut out = self.generate_request(svc);
        out.append(self.generate_response(svc).as_str());
        out.append(self.generate_trait(svc).as_str());
        out.append(self.generate_client_struct(svc).as_str());
        out.append(self.generate_client_impl(svc).as_str());
        out.append(self.generate_server_struct(svc).as_str());
        out.append(self.generate_server_impl(svc).as_str());
        out
    }
}

/// Whether `text` is spelled as a variant for the method `f`: the method's
/// name and an opening bracket, then the rest.
pub open spec fn is_variant_of(text: Seq<char>, f: FunctionView) -> bool {
    &&& text.len() > f.name.len()
    &&& text.subrange(0, f.name.len() as int) == f.name
    &&& text[f.name.len() as int] == '('
}

/// One variant for each method, in declaration order: for a service with N
/// methods the request envelope and the response envelope have N variants
/// each, and the variant at each place is the one of the method at that
/// place, spelled with that method's name.
pub proof fn lemma_one_variant_per_method(svc: ServiceView)
    ensures
        request_variants(svc).len() == svc.functions.len(),
        response_variants(svc).len() == svc.functions.len(),
        forall|i: int|
            0 <= i < svc.functions.len() ==> {
                &&& #[trigger] request_variants(svc)[i] == request_variant(svc.functions[i])
                &&& is_variant_of(request_variants(svc)[i], svc.functions[i])
            },
        forall|i: int|
            0 <= i < svc.functions.len() ==> {
                &&& #[trigger] response_variants(svc)[i] == response_variant(svc.functions[i])
                &&& is_variant_of(response_variants(svc)[i], svc.functions[i])
            },
{
    reveal_strlit("(");
    assert forall|i: int| 0 <= i < svc.functions.len() implies is_variant_of(
        #[trigger] request_variants(svc)[i],
        svc.functions[i],
    ) by {
        let f = svc.functions[i];
        let text = request_variant(f);
        assert(text.subrange(0, f.name.len() as int) =~= f.name);
    }
    assert forall|i: int| 0 <= i < svc.functions.len() implies is_variant_of(
        #[trigger] response_variants(svc)[i],
        svc.functions[i],
    ) by {
        let f = svc.functions[i];
        let text = response_variant(f);
        assert(text.subrange(0, f.name.len() as int) =~= f.name);
    }
}

/// The same order everywhere: the methods of the capability trait, the
/// methods of the client stub and the arms of the server adapter are as many
/// as the methods of the service, and each stands at its method's place.
pub proof fn lemma_generated_parts_follow_methods(svc: ServiceView)
    ensures
        trait_methods(svc).len() == svc.functions.len(),
        client_methods(svc).len() == svc.functions.len(),
        server_arms(svc).len() == svc.functions.len(),
        forall|i: int|
            0 <= i < svc.functions.len() ==> {
                &&& #[trigger] trait_methods(svc)[i] == trait_method(svc.functions[i])
                &&& client_methods(svc)[i] == client_method(svc.name, svc.functions[i])
                &&& server_arms(svc)[i] == server_arm(svc.name, svc.functions[i])
            },
{
}

} // verus!
