//! The service descriptor: a named, ordered list of methods, each with its
//! ordered parameters and its return type. Type names are kept as text.

use vstd::prelude::*;
use crate::text::{matches_at, to_chars, unspace, unspaced};

verus! {

/// One parameter of a method: its name and the name of its type.
#[derive(Debug, Clone, PartialEq, Eq)]
pub struct Parameter {
    pub var_name: String,
    pub typ_name: String,
}

/// One method of a service.
#[derive(Debug, Clone, PartialEq, Eq)]
pub struct Function {
    pub name: String,
    pub inputs: Vec<Parameter>,
    pub output: String,
}

/// A service: its name and its methods in declaration order.
#[derive(Debug, Clone, PartialEq, Eq)]
pub struct Service {
    pub name: String,
    pub functions: Vec<Function>,
}

/// What a `Parameter` is, as mathematics.
pub struct ParameterView {
    pub var_name: Seq<char>,
    pub typ_name: Seq<char>,
}

/// What a `Function` is, as mathematics.
pub struct FunctionView {
    pub name: Seq<char>,
    pub inputs: Seq<ParameterView>,
    pub output: Seq<char>,
}

/// What a `Service` is, as mathematics.
pub struct ServiceView {
    pub name: Seq<char>,
    pub functions: Seq<FunctionView>,
}

impl View for Parameter {
    type V = ParameterView;

    open spec fn view(&self) -> ParameterView {
        ParameterView { var_name: self.var_name@, typ_name: self.typ_name@ }
    }
}

impl View for Function {
    type V = FunctionView;

    open spec fn view(&self) -> FunctionView {
        FunctionView {
            name: self.name@,
            inputs: self.inputs@.map_values(|p: Parameter| p@),
            output: self.output@,
        }
    }
}

impl View for Service {
    type V = ServiceView;

    open spec fn view(&self) -> ServiceView {
        ServiceView {
            name: self.name@,
            functions: self.functions@.map_values(|f: Function| f@),
        }
    }
}

/// The views of a sequence of services.
pub open spec fn service_views(services: Seq<Service>) -> Seq<ServiceView> {
    services.map_values(|s: Service| s@)
}

/// The word that opens a streaming marker.
pub open spec fn stream_word() -> Seq<char> {
    seq!['S', 't', 'r', 'e', 'a', 'm']
}

/// Text without spaces spells a stream of `T` when it reads `Stream<T>` with
/// `T` not empty.
pub open spec fn spells_stream(t: Seq<char>) -> bool {
    &&& t.len() > 8
    &&& t.subrange(0, 6) == stream_word()
    &&& t[6] == '<'
    &&& t.last() == '>'
}

/// Text without spaces spells a malformed streaming marker when it opens
/// like one and is none: the bare word `Stream`, or `Stream<` without an item
/// or without the closing bracket.
pub open spec fn spells_malformed_stream(t: Seq<char>) -> bool {
    &&& t.len() >= 6
    &&& t.subrange(0, 6) == stream_word()
    &&& (t.len() == 6 || t[6] == '<')
    &&& !spells_stream(t)
}

/// A type name marks a stream of `T` when, spaces between its tokens aside,
/// it reads `Stream<T>`.
pub open spec fn is_stream_type(t: Seq<char>) -> bool {
    spells_stream(unspaced(t))
}

/// A type name is a malformed streaming marker when, spaces between its
/// tokens aside, it opens like a marker and is none.
pub open spec fn is_malformed_stream_type(t: Seq<char>) -> bool {
    spells_malformed_stream(unspaced(t))
}

impl FunctionView {
    /// The method takes a stream: one of its parameters is a stream of `T`.
    pub open spec fn client_streaming(self) -> bool {
        exists|i: int| 0 <= i < self.inputs.len() && is_stream_type(#[trigger] self.inputs[i].typ_name)
    }

    /// The method returns a stream.
    pub open spec fn server_streaming(self) -> bool {
        is_stream_type(self.output)
    }

    /// No parameter type and no return type is a malformed streaming marker.
    pub open spec fn markers_well_formed(self) -> bool {
        &&& !is_malformed_stream_type(self.output)
        &&& forall|i: int|
            0 <= i < self.inputs.len() ==> !is_malformed_stream_type(
                #[trigger] self.inputs[i].typ_name,
            )
    }
}

/// How a type name reads as a streaming marker.
#[derive(Debug, Clone, Copy, PartialEq, Eq, Structural)]
pub enum Marker {
    /// Not a marker: the name of a plain type.
    Plain,
    /// A stream of some item type.
    Stream,
    /// Opens like a marker and is none.
    Malformed,
}

/// The marker that the type name `t` spells.
pub open spec fn marker_of(t: Seq<char>) -> Marker {
    if is_stream_type(t) {
        Marker::Stream
    } else if is_malformed_stream_type(t) {
        Marker::Malformed
    } else {
        Marker::Plain
    }
}

/// The marker that text without spaces spells.
pub open spec fn spelled_marker(t: Seq<char>) -> Marker {
    if spells_stream(t) {
        Marker::Stream
    } else if spells_malformed_stream(t) {
        Marker::Malformed
    } else {
        Marker::Plain
    }
}

/// Classifies text in which no space is left.
fn classify_compact(t: &Vec<char>) -> (m: Marker)
    ensures
        m == spelled_marker(t@),
{
    proof {
        reveal_strlit("Stream");
        assert("Stream"@ =~= stream_word());
    }
    if !matches_at(t, 0, "Stream") {
        return Marker::Plain;
    }
    assert(t@.subrange(0, 6) == stream_word());
    if t.len() == 6 {
        return Marker::Malformed;
    }
    if t[6] != '<' {
        return Marker::Plain;
    }
    if t.len() > 8 && t[t.len() - 1] == '>' {
        Marker::Stream
    } else {
        Marker::Malformed
    }
}

/// Classifies a type name.
pub fn classify(t: &str) -> (m: Marker)
    ensures
        m == marker_of(t@),
{
    let chars = to_chars(t);
    classify_compact(&unspace(&chars))
}

impl Function {
    /// Whether the method takes a stream.
    pub fn client_streaming(&self) -> (b: bool)
        ensures
            b == self@.client_streaming(),
    {
        let mut i: usize = 0;
        while i < self.inputs.len()
            invariant
                i <= self.inputs.len(),
                forall|j: int| 0 <= j < i ==> !is_stream_type(#[trigger] self@.inputs[j].typ_name),
            decreases self.inputs.len() - i,
        {
            match classify(self.inputs[i].typ_name.as_str()) {
                Marker::Stream => {
                    assert(is_stream_type(self@.inputs[i as int].typ_name));
                    return true;
                },
                _ => {},
            }
            i += 1;
        }
        false
    }

    /// Whether the method returns a stream.
    pub fn server_streaming(&self) -> (b: bool)
        ensures
            b == self@.server_streaming(),
    {
        match classify(self.output.as_str()) {
            Marker::Stream => true,
            _ => false,
        }
    }

    /// Whether none of the method's type names is a malformed streaming
    /// marker.
    pub fn markers_well_formed(&self) -> (b: bool)
        ensures
            b == self@.markers_well_formed(),
    {
        match classify(self.output.as_str()) {
            Marker::Malformed => {
                return false;
            },
            _ => {},
        }
        let mut i: usize = 0;
        while i < self.inputs.len()
            invariant
                i <= self.inputs.len(),
                !is_malformed_stream_type(self@.output),
                forall|j: int|
                    0 <= j < i ==> !is_malformed_stream_type(#[trigger] self@.inputs[j].typ_name),
            decreases self.inputs.len() - i,
        {
            match classify(self.inputs[i].typ_name.as_str()) {
                Marker::Malformed => {
                    assert(is_malformed_stream_type(self@.inputs[i as int].typ_name));
                    return false;
                },
                _ => {},
            }
            i += 1;
        }
        true
    }
}

} // verus!
