use norpc::compiler::{compile, compile_compact, generate};
use norpc::descriptor::{Function, Parameter, Service};
use norpc::generator::Generator;
use norpc::parser::ParseError;
use norpc::text::to_chars;

fn param(var_name: &str, typ_name: &str) -> Parameter {
    Parameter { var_name: var_name.to_owned(), typ_name: typ_name.to_owned() }
}

fn function(name: &str, inputs: Vec<Parameter>, output: &str) -> Function {
    Function { name: name.to_owned(), inputs, output: output.to_owned() }
}

fn kvstore() -> Service {
    Service {
        name: "KVStore".to_owned(),
        functions: vec![
            function("read", vec![param("id", "u64")], "Option<String>"),
            function("write", vec![param("id", "u64"), param("s", "String")], "()"),
            function("noop", vec![], "()"),
        ],
    }
}

const SEND: Generator = Generator { no_send: false };
const LOCAL: Generator = Generator { no_send: true };

#[test]
fn request_envelope_has_one_variant_for_each_method() {
    let svc = kvstore();
    assert_eq!(
        SEND.request_variants(&svc),
        vec!["read(u64)".to_owned(), "write(u64,String)".to_owned(), "noop()".to_owned()]
    );
    assert_eq!(
        SEND.generate_request(&svc),
        "
        #[allow(non_camel_case_types)]
        pub enum KVStoreRequest {
\t\tread(u64),write(u64,String),noop()
\t}"
    );
}

#[test]
fn response_envelope_has_one_variant_for_each_method() {
    let svc = kvstore();
    assert_eq!(
        SEND.response_variants(&svc),
        vec!["read(Option<String>)".to_owned(), "write(())".to_owned(), "noop(())".to_owned()]
    );
    assert_eq!(
        SEND.generate_response(&svc),
        "
        #[allow(non_camel_case_types)]
        pub enum KVStoreResponse {
\t\tread(Option<String>),write(()),noop(())
\t}"
    );
}

#[test]
fn envelopes_do_not_depend_on_the_marker() {
    let svc = kvstore();
    assert_eq!(SEND.generate_request(&svc), LOCAL.generate_request(&svc));
    assert_eq!(SEND.generate_response(&svc), LOCAL.generate_response(&svc));
    assert_eq!(SEND.generate_client_struct(&svc), LOCAL.generate_client_struct(&svc));
    assert_eq!(SEND.generate_client_impl(&svc), LOCAL.generate_client_impl(&svc));
    assert_eq!(SEND.generate_server_struct(&svc), LOCAL.generate_server_struct(&svc));
}

#[test]
fn client_and_server_types() {
    let svc = kvstore();
    assert_eq!(
        SEND.generate_client_struct(&svc),
        "\n    #[derive(Clone)]\n\tpub struct KVStoreClient<Svc> {\n\t\tsvc: Svc\n\t}\n\t"
    );
    assert_eq!(
        SEND.generate_server_struct(&svc),
        "\n\t#[derive(Clone)]\n\tpub struct KVStoreService<App: KVStore> {\n\t\tapp: App\n\t}\n\t"
    );
}

#[test]
fn trait_returns_the_declared_types() {
    let svc = kvstore();
    let methods = "async fn read(self,id:u64) -> Option<String>;\
                   async fn write(self,id:u64,s:String) -> ();\
                   async fn noop(self) -> ();";
    assert_eq!(
        SEND.generate_trait(&svc),
        format!(
            "\n\t\t#[norpc::async_trait]\n\t\tpub trait KVStore: Clone {{\n\t\t\t{}\n\t\t}}\n\t\t",
            methods
        )
    );
    assert_eq!(
        LOCAL.generate_trait(&svc),
        format!(
            "\n\t\t#[norpc::async_trait(?Send)]\n\t\tpub trait KVStore: Clone {{\n\t\t\t{}\n\t\t}}\n\t\t",
            methods
        )
    );
}

/// One method of the client stub, written out from its parts.
fn expected_client_method(svc: &str, name: &str, params: &str, output: &str, args: &str) -> String {
    format!(
        "
\t\tpub async fn {fun_name}({params}) -> std::result::Result<{output}, Svc::Error> {{
            norpc::poll_fn(|ctx| self.svc.poll_ready(ctx)).await.ok();
\t\t\tlet rep = self.svc.call({svc_name}Request::{fun_name}({req_params})).await?;
\t\t\tmatch rep {{
\t\t\t\t{svc_name}Response::{fun_name}(v) => Ok(v),
                #[allow(unreachable_patterns)]
\t\t\t\t_ => unreachable!(),
\t\t\t}}
\t\t}}
\t\t",
        svc_name = svc,
        fun_name = name,
        params = params,
        output = output,
        req_params = args,
    )
}

#[test]
fn client_stub_sends_a_variant_and_unwraps_the_same() {
    let svc = kvstore();
    let methods = format!(
        "{}{}{}",
        expected_client_method("KVStore", "read", "&mut self,id:u64", "Option<String>", "id"),
        expected_client_method("KVStore", "write", "&mut self,id:u64,s:String", "()", "id,s"),
        expected_client_method("KVStore", "noop", "&mut self", "()", ""),
    );
    assert_eq!(
        SEND.generate_client_impl(&svc),
        format!(
            "
\timpl<Svc: norpc::Service<KVStoreRequest, Response = KVStoreResponse>> KVStoreClient<Svc> {{
\t\tpub fn new(svc: Svc) -> Self {{
\t\t\tSelf {{ svc }}
\t\t}}
\t\t{}
\t}}
\t",
            methods
        )
    );
}

/// One arm of the server adapter, written out from its parts.
fn expected_arm(svc: &str, name: &str, args: &str) -> String {
    format!(
        "
\t\t{svc_name}Request::{fun_name}({req_params}) => {{
\t\t\tlet rep = app.{fun_name}({req_params}).await;
\t\t\tOk({svc_name}Response::{fun_name}(rep))
\t\t}}
\t\t",
        svc_name = svc,
        fun_name = name,
        req_params = args,
    )
}

/// The impls of the server adapter, written out from their parts.
fn expected_server_impl(svc: &str, arms: &str, marker: &str) -> String {
    format!(
        "
\timpl<App: {svc_name}> {svc_name}Service<App> {{
\t\tpub fn new(app: App) -> Self {{
\t\t\tSelf {{ app }}
\t\t}}
\t}}
    impl<App: {svc_name} + 'static {no_send}> norpc::Service<{svc_name}Request> for {svc_name}Service<App> {{
        type Response = {svc_name}Response;
        type Error = ();
        type Future = std::pin::Pin<Box<dyn std::future::Future<Output = std::result::Result<Self::Response, Self::Error>> {no_send}>>;
        fn poll_ready(
            &mut self,
            _: &mut std::task::Context<'_>,
        ) -> std::task::Poll<std::result::Result<(), Self::Error>> {{
            Ok(()).into()
        }}
\t\tfn call(&mut self, req: {svc_name}Request) -> Self::Future {{
\t\t\tlet app = self.app.clone();
            Box::pin(async move {{
                match req {{
                    {arms}
                }}
            }})
\t\t}}
    }}
\t",
        svc_name = svc,
        arms = arms,
        no_send = marker,
    )
}

#[test]
fn server_adapter_dispatches_in_declaration_order() {
    let svc = kvstore();
    let arms = format!(
        "{},{},{}",
        expected_arm("KVStore", "read", "id"),
        expected_arm("KVStore", "write", "id,s"),
        expected_arm("KVStore", "noop", ""),
    );
    assert_eq!(SEND.generate_server_impl(&svc), expected_server_impl("KVStore", &arms, "+ Send"));
    assert_eq!(LOCAL.generate_server_impl(&svc), expected_server_impl("KVStore", &arms, ""));
}

#[test]
fn generate_puts_the_parts_in_a_fixed_order() {
    let svc = kvstore();
    for g in [SEND, LOCAL] {
        let all = g.generate(&svc);
        let parts = [
            g.generate_request(&svc),
            g.generate_response(&svc),
            g.generate_trait(&svc),
            g.generate_client_struct(&svc),
            g.generate_client_impl(&svc),
            g.generate_server_struct(&svc),
            g.generate_server_impl(&svc),
        ];
        assert_eq!(all, parts.concat());
    }
}

#[test]
fn generation_is_deterministic() {
    let svc = kvstore();
    assert_eq!(SEND.generate(&svc), SEND.generate(&svc.clone()));
}

#[test]
fn a_service_without_methods_has_empty_envelopes() {
    let svc = Service { name: "Nil".to_owned(), functions: vec![] };
    assert_eq!(SEND.request_variants(&svc), Vec::<String>::new());
    assert_eq!(
        SEND.generate_request(&svc),
        "\n        #[allow(non_camel_case_types)]\n        pub enum NilRequest {\n\t\t\n\t}"
    );
}

#[test]
fn compile_drops_white_space_and_generates_each_service() {
    let text = "
        service KVStore {
            fn read(id: u64) -> Option<String>;
            fn write(id: u64, s: String) -> ();
            fn noop() -> ();
        }
        service Nop { fn nop() -> (); }
    ";
    let nop = Service { name: "Nop".to_owned(), functions: vec![function("nop", vec![], "()")] };
    let expected = format!("{}{}", SEND.generate(&kvstore()), SEND.generate(&nop));
    assert_eq!(compile(text), Ok(expected.clone()));
    assert_eq!(generate(&vec![kvstore(), nop]), expected);
    // Tabs, line ends and spaces in odd places are white space all the same.
    assert_eq!(
        compile("ser vice\tNop{f n\u{a0}nop()\r\n-\u{3000}>();}"),
        Ok(SEND.generate(&Service {
            name: "Nop".to_owned(),
            functions: vec![function("nop", vec![], "()")]
        }))
    );
}

#[test]
fn compile_fails_with_no_output() {
    assert_eq!(compile(""), Err(ParseError { at: 0 }));
    assert_eq!(compile("   \n"), Err(ParseError { at: 0 }));
    assert_eq!(compile("service A { fn f() -> (); } trailing"), Err(ParseError { at: 20 }));
    assert_eq!(compile("service A { fn f(x: ) -> (); }"), Err(ParseError { at: 0 }));
    assert_eq!(compile("service A { fn f() -> Stream; }"), Err(ParseError { at: 0 }));
    assert_eq!(compile_compact(&to_chars("service A{fnf()->();}")), Err(ParseError { at: 0 }));
}
