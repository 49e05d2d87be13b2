//! From the text of a service description to generated source text.

use vstd::prelude::*;
use vstd::string::StringExecFns;
use crate::descriptor::{Service, ServiceView, service_views};
use crate::generator::{Generator, generated};
use crate::parser::{ParseError, file_of, parse};
use crate::text::{strip_whitespace, without_whitespace};

verus! {

/// What is generated for the services, one after another.
pub open spec fn generated_all(services: Seq<ServiceView>, no_send: bool) -> Seq<char>
    decreases services.len(),
{
    if services.len() == 0 {
        Seq::empty()
    } else {
        generated_all(services.drop_last(), no_send) + generated(services.last(), no_send)
    }
}

/// What a description without white space compiles to: the text generated
/// for its services, or the position at which reading it stopped.
pub open spec fn compiled(s: Seq<char>) -> Result<Seq<char>, int> {
    match file_of(s) {
        Ok(services) => Ok(generated_all(services, false)),
        Err(at) => Err(at),
    }
}

/// Generates the source text for each service, in order.
pub fn generate(services: &Vec<Service>) -> (out: String)
    ensures
        out@ == generated_all(service_views(services@), false),
{
    let ghost all = service_views(services@);
    let generator = Generator { no_send: false };
    let mut out = String::new();
    let mut i: usize = 0;
    while i < services.len()
        invariant
            i <= services.len(),
            all == service_views(services@),
            generator.no_send == false,
            out@ == generated_all(all.take(i as int), false),
        decreases services.len() - i,
    {
        proof {
            assert(all.take(i + 1).drop_last() =~= all.take(i as int));
        }
        let text = generator.generate(&services[i]);
        out.append(text.as_str());
        i += 1;
    }
    assert(all.take(all.len() as int) =~= all);
    out
}

/// Compiles a description in which no white space is left.
pub fn compile_compact(input: &Vec<char>) -> (res: Result<String, ParseError>)
    ensures
        match res {
            Ok(code) => compiled(input@) == Ok::<Seq<char>, int>(code@),
            Err(e) => compiled(input@) == Err::<Seq<char>, int>(e.at as int),
        },
{
    match parse(input) {
        Ok(services) => Ok(generate(&services)),
        Err(e) => Err(e),
    }
}

/// Compiles a service description: white space is dropped wherever it
/// stands, the rest is read as one or more services, and the source text for
/// each is generated, in order. A text that is no description gives an error
/// and no output; the position in it counts the characters that are not
/// white space.
pub fn compile(s: &str) -> (res: Result<String, ParseError>)
    ensures
        match res {
            Ok(code) => compiled(without_whitespace(s@)) == Ok::<Seq<char>, int>(code@),
            Err(e) => compiled(without_whitespace(s@)) == Err::<Seq<char>, int>(e.at as int),
        },
{
    let input = strip_whitespace(s);
    compile_compact(&input)
}

} // verus!
