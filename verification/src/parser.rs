//! The grammar of service descriptions, read from text without white space:
//!
//! ```text
//! File      = Service+
//! Service   = "service" TypeIdent "{" Function+ "}"
//! Function  = "fn" VarName "(" [Parameter ("," Parameter)*] ")" "->" TypeName ";"
//! Parameter = VarName ":" TypeName
//! TypeName  = "[" TypeName ("," TypeName)* "]"
//!           | "(" [TypeName ("," TypeName)*] ")"
//!           | TypeIdent "<" TypeName ("," TypeName)* ">"
//!           | TypeIdent
//! TypeIdent = one or more of a-z A-Z 0-9 _
//! VarName   = one or more of a-z 0-9 _
//! ```
//!
//! Alternatives are tried in the order written and a repetition takes as many
//! items as it can. Each parser works on the characters of the input and a
//! position, and returns the position behind what it read.

use vstd::prelude::*;
use vstd::string::StringExecFns;
use crate::descriptor::{
    Function, FunctionView, Parameter, ParameterView, Service, ServiceView, service_views,
};
use crate::text::{has_at, join, joined, matches_at, push_char, views};

verus! {

/// The characters of names: lower-case letters, digits and `_`, and the
/// upper-case letters where `upper` is set.
pub open spec fn is_name_char(c: char, upper: bool) -> bool {
    ||| 'a' <= c <= 'z'
    ||| '0' <= c <= '9'
    ||| c == '_'
    ||| (upper && 'A' <= c <= 'Z')
}

/// The end of the longest run of name characters that starts at `pos`.
pub open spec fn run_end(s: Seq<char>, pos: int, upper: bool) -> int
    decreases s.len() - pos,
{
    if 0 <= pos < s.len() && is_name_char(s[pos], upper) {
        run_end(s, pos + 1, upper)
    } else {
        pos
    }
}

/// The end of the name at `pos`: a run of at least one name character.
pub open spec fn name_end(s: Seq<char>, pos: int, upper: bool) -> Option<int> {
    let end = run_end(s, pos, upper);
    if end > pos {
        Some(end)
    } else {
        None
    }
}

/// Whether the character `c` stands in `s` at position `pos`.
pub open spec fn char_at(s: Seq<char>, pos: int, c: char) -> bool {
    0 <= pos < s.len() && s[pos] == c
}

/// The end of the type name at `pos`, if one stands there.
pub open spec fn typename_end(s: Seq<char>, pos: int) -> Option<int>
    decreases s.len() - pos, 0int,
{
    if !(0 <= pos < s.len()) {
        None
    } else if s[pos] == '[' {
        match typename_list_end(s, pos + 1) {
            Some(end) => if char_at(s, end, ']') {
                Some(end + 1)
            } else {
                None
            },
            None => None,
        }
    } else if s[pos] == '(' {
        let end = match typename_list_end(s, pos + 1) {
            Some(end) => end,
            None => pos + 1,
        };
        if char_at(s, end, ')') {
            Some(end + 1)
        } else {
            None
        }
    } else {
        match name_end(s, pos, true) {
            None => None,
            Some(head) => if char_at(s, head, '<') {
                match typename_list_end(s, head + 1) {
                    Some(end) => if char_at(s, end, '>') {
                        Some(end + 1)
                    } else {
                        Some(head)
                    },
                    None => Some(head),
                }
            } else {
                Some(head)
            },
        }
    }
}

/// The end of the list of one or more type names, separated by commas, that
/// starts at `pos`.
pub open spec fn typename_list_end(s: Seq<char>, pos: int) -> Option<int>
    decreases s.len() - pos, 1int,
{
    match typename_end(s, pos) {
        Some(end) => if pos < end <= s.len() {
            Some(typename_list_rest(s, end))
        } else {
            None
        },
        None => None,
    }
}

/// The end of a list of type names of which the items up to `pos` are read:
/// behind the last `,` and type name that follow one another from `pos`.
pub open spec fn typename_list_rest(s: Seq<char>, pos: int) -> int
    decreases s.len() - pos, 2int,
{
    if char_at(s, pos, ',') {
        match typename_end(s, pos + 1) {
            Some(end) => if pos < end <= s.len() {
                typename_list_rest(s, end)
            } else {
                pos
            },
            None => pos,
        }
    } else {
        pos
    }
}

/// The separator of lists.
pub open spec fn comma() -> Seq<char> {
    seq![',']
}

fn name_char(c: char, upper: bool) -> (b: bool)
    ensures
        b == is_name_char(c, upper),
{
    (c >= 'a' && c <= 'z') || (c >= '0' && c <= '9') || c == '_' || (upper && c >= 'A' && c
        <= 'Z')
}

/// Reads the longest run of name characters at `pos`.
fn scan_run(input: &Vec<char>, pos: usize, upper: bool) -> (end: usize)
    requires
        pos <= input.len(),
    ensures
        end == run_end(input@, pos as int, upper),
        pos <= end <= input.len(),
{
    let mut end: usize = pos;
    while end < input.len() && name_char(input[end], upper)
        invariant
            pos <= end <= input.len(),
            run_end(input@, pos as int, upper) == run_end(input@, end as int, upper),
        decreases input.len() - end,
    {
        end += 1;
    }
    end
}

/// Whether the character `c` stands in `input` at position `pos`.
fn is_at(input: &Vec<char>, pos: usize, c: char) -> (b: bool)
    ensures
        b == char_at(input@, pos as int, c),
{
    pos < input.len() && input[pos] == c
}

/// Reads an identifier of a type: letters, digits and `_`.
pub fn parse_typeident(input: &Vec<char>, pos: usize) -> (res: Option<(usize, String)>)
    ensures
        match res {
            Some((end, name)) => {
                &&& name_end(input@, pos as int, true) == Some(end as int)
                &&& pos < end <= input.len()
                &&& name@ == input@.subrange(pos as int, end as int)
            },
            None => name_end(input@, pos as int, true) is None,
        },
{
    parse_name(input, pos, true)
}

/// Reads the name of a variable or a method: lower-case letters, digits and
/// `_`.
pub fn parse_varname(input: &Vec<char>, pos: usize) -> (res: Option<(usize, String)>)
    ensures
        match res {
            Some((end, name)) => {
                &&& name_end(input@, pos as int, false) == Some(end as int)
                &&& pos < end <= input.len()
                &&& name@ == input@.subrange(pos as int, end as int)
            },
            None => name_end(input@, pos as int, false) is None,
        },
{
    parse_name(input, pos, false)
}

fn parse_name(input: &Vec<char>, pos: usize, upper: bool) -> (res: Option<(usize, String)>)
    ensures
        match res {
            Some((end, name)) => {
                &&& name_end(input@, pos as int, upper) == Some(end as int)
                &&& pos < end <= input.len()
                &&& name@ == input@.subrange(pos as int, end as int)
            },
            None => name_end(input@, pos as int, upper) is None,
        },
{
    if pos >= input.len() {
        return None;
    }
    let end = scan_run(input, pos, upper);
    if end > pos {
        Some((end, crate::text::string_of(input, pos, end)))
    } else {
        None
    }
}

/// Writes `open`, the parts joined by commas, and `close`.
fn bracketed(head: String, open: char, parts: &Vec<String>, close: char) -> (out: String)
    ensures
        out@ == head@.push(open) + joined(views(parts@), comma()).push(close),
{
    proof {
        reveal_strlit(",");
        assert(","@ =~= comma());
    }
    let mut out = head;
    push_char(&mut out, open);
    let inner = join(parts, ",");
    out.append(inner.as_str());
    push_char(&mut out, close);
    out
}

/// Reads a type name: an array, a tuple, a generic composite or an
/// identifier, tried in this order. The name returned is the text read.
pub fn parse_typename(input: &Vec<char>, pos: usize) -> (res: Option<(usize, String)>)
    ensures
        match res {
            Some((end, name)) => {
                &&& typename_end(input@, pos as int) == Some(end as int)
                &&& pos < end <= input.len()
                &&& name@ == input@.subrange(pos as int, end as int)
            },
            None => typename_end(input@, pos as int) is None,
        },
    decreases input.len() - pos, 0int,
{
    if pos >= input.len() {
        return None;
    }
    let first = input[pos];
    if first == '[' {
        match parse_typename_list(input, pos + 1) {
            Some((end, parts)) => {
                if is_at(input, end, ']') {
                    let out = bracketed(String::new(), '[', &parts, ']');
                    Some((end + 1, out))
                } else {
                    None
                }
            },
            None => None,
        }
    } else if first == '(' {
        let (end, parts) = match parse_typename_list(input, pos + 1) {
            Some(found) => found,
            None => (pos + 1, Vec::new()),
        };
        if is_at(input, end, ')') {
            let out = bracketed(String::new(), '(', &parts, ')');
            Some((end + 1, out))
        } else {
            None
        }
    } else {
        match parse_typeident(input, pos) {
            None => None,
            Some((head, name)) => {
                if is_at(input, head, '<') {
                    match parse_typename_list(input, head + 1) {
                        Some((end, parts)) => {
                            if is_at(input, end, '>') {
                                let out = bracketed(name, '<', &parts, '>');
                                return Some((end + 1, out));
                            }
                        },
                        None => {},
                    }
                }
                Some((head, name))
            },
        }
    }
}

/// Reads one or more type names separated by commas. The parts returned,
/// joined by commas, are the text read.
fn parse_typename_list(input: &Vec<char>, pos: usize) -> (res: Option<(usize, Vec<String>)>)
    requires
        pos <= input.len(),
    ensures
        match res {
            Some((end, parts)) => {
                &&& typename_list_end(input@, pos as int) == Some(end as int)
                &&& pos < end <= input.len()
                &&& joined(views(parts@), comma()) == input@.subrange(pos as int, end as int)
            },
            None => typename_list_end(input@, pos as int) is None,
        },
    decreases input.len() - pos, 1int,
{
    let ghost s = input@;
    let (first_end, first) = match parse_typename(input, pos) {
        Some(found) => found,
        None => {
            return None;
        },
    };
    let mut parts: Vec<String> = Vec::new();
    parts.push(first);
    let mut end: usize = first_end;
    let mut more: bool = true;
    while more
        invariant
            s == input@,
            pos < end <= input.len(),
            typename_list_rest(s, first_end as int) == typename_list_rest(s, end as int),
            !more ==> typename_list_rest(s, end as int) == end,
            joined(views(parts@), comma()) == s.subrange(pos as int, end as int),
        decreases input.len() - end + (if more { 1int } else { 0int }),
    {
        more = false;
        if is_at(input, end, ',') {
            match parse_typename(input, end + 1) {
                Some((next, part)) => {
                    proof {
                        crate::text::lemma_joined_push(views(parts@), comma(), part@);
                        assert(views(parts@.push(part)) =~= views(parts@).push(part@));
                    }
                    parts.push(part);
                    end = next;
                    more = true;
                },
                None => {},
            }
        }
    }
    Some((end, parts))
}

/// The parameter at `pos` and its end, if one stands there.
pub open spec fn param_at(s: Seq<char>, pos: int) -> Option<(int, ParameterView)> {
    match name_end(s, pos, false) {
        Some(colon) => if char_at(s, colon, ':') {
            match typename_end(s, colon + 1) {
                Some(end) => Some(
                    (
                        end,
                        ParameterView {
                            var_name: s.subrange(pos, colon),
                            typ_name: s.subrange(colon + 1, end),
                        },
                    ),
                ),
                None => None,
            }
        } else {
            None
        },
        None => None,
    }
}

/// The parameters `acc` followed by those that stand, each behind a comma,
/// from `pos` on; and the end of the last.
pub open spec fn params_rest(s: Seq<char>, pos: int, acc: Seq<ParameterView>) -> (
    int,
    Seq<ParameterView>,
)
    decreases s.len() - pos,
{
    if char_at(s, pos, ',') {
        match param_at(s, pos + 1) {
            Some((end, p)) => if pos < end <= s.len() {
                params_rest(s, end, acc.push(p))
            } else {
                (pos, acc)
            },
            None => (pos, acc),
        }
    } else {
        (pos, acc)
    }
}

/// The list of parameters at `pos`, which may be empty, and its end.
pub open spec fn params_at(s: Seq<char>, pos: int) -> (int, Seq<ParameterView>) {
    match param_at(s, pos) {
        Some((end, p)) => if pos < end <= s.len() {
            params_rest(s, end, seq![p])
        } else {
            (pos, Seq::empty())
        },
        None => (pos, Seq::empty()),
    }
}

/// The word that opens a method.
pub open spec fn fn_word() -> Seq<char> {
    seq!['f', 'n']
}

/// The arrow before a return type.
pub open spec fn arrow() -> Seq<char> {
    seq!['-', '>']
}

/// The word that opens a service.
pub open spec fn service_word() -> Seq<char> {
    seq!['s', 'e', 'r', 'v', 'i', 'c', 'e']
}

/// The method at `pos` and its end, if one stands there. A method one of
/// whose type names is a malformed streaming marker is none.
pub open spec fn function_at(s: Seq<char>, pos: int) -> Option<(int, FunctionView)> {
    if !has_at(s, pos, fn_word()) {
        None
    } else {
        match name_end(s, pos + 2, false) {
            None => None,
            Some(open) => {
                let (close, inputs) = params_at(s, open + 1);
                if !(char_at(s, open, '(') && char_at(s, close, ')') && has_at(
                    s,
                    close + 1,
                    arrow(),
                )) {
                    None
                } else {
                    match typename_end(s, close + 3) {
                        None => None,
                        Some(semi) => {
                            let f = FunctionView {
                                name: s.subrange(pos + 2, open),
                                inputs,
                                output: s.subrange(close + 3, semi),
                            };
                            if char_at(s, semi, ';') && f.markers_well_formed() {
                                Some((semi + 1, f))
                            } else {
                                None
                            }
                        },
                    }
                }
            },
        }
    }
}

/// The methods `acc` followed by those that stand one behind another from
/// `pos` on; and the end of the last.
pub open spec fn functions_rest(s: Seq<char>, pos: int, acc: Seq<FunctionView>) -> (
    int,
    Seq<FunctionView>,
)
    decreases s.len() - pos,
{
    match function_at(s, pos) {
        Some((end, f)) => if pos < end <= s.len() {
            functions_rest(s, end, acc.push(f))
        } else {
            (pos, acc)
        },
        None => (pos, acc),
    }
}

/// The block of one or more methods in braces at `pos`, and its end.
pub open spec fn functions_at(s: Seq<char>, pos: int) -> Option<(int, Seq<FunctionView>)> {
    if !char_at(s, pos, '{') {
        None
    } else {
        let (end, functions) = functions_rest(s, pos + 1, Seq::empty());
        if functions.len() > 0 && char_at(s, end, '}') {
            Some((end + 1, functions))
        } else {
            None
        }
    }
}

/// The service at `pos` and its end, if one stands there.
pub open spec fn service_at(s: Seq<char>, pos: int) -> Option<(int, ServiceView)> {
    if !has_at(s, pos, service_word()) {
        None
    } else {
        match name_end(s, pos + 7, true) {
            None => None,
            Some(brace) => match functions_at(s, brace) {
                None => None,
                Some((end, functions)) => Some(
                    (end, ServiceView { name: s.subrange(pos + 7, brace), functions }),
                ),
            },
        }
    }
}

/// The services `acc` followed by those that stand one behind another from
/// `pos` on; and the end of the last.
pub open spec fn services_rest(s: Seq<char>, pos: int, acc: Seq<ServiceView>) -> (
    int,
    Seq<ServiceView>,
)
    decreases s.len() - pos,
{
    match service_at(s, pos) {
        Some((end, svc)) => if pos < end <= s.len() {
            services_rest(s, end, acc.push(svc))
        } else {
            (pos, acc)
        },
        None => (pos, acc),
    }
}

/// The services that a whole text spells: one or more, with nothing behind
/// the last. `Err` holds the position at which reading stopped.
pub open spec fn file_of(s: Seq<char>) -> Result<Seq<ServiceView>, int> {
    let (end, services) = services_rest(s, 0, Seq::empty());
    if services.len() > 0 && end == s.len() {
        Ok(services)
    } else {
        Err(end)
    }
}

/// Reads a parameter: a name, a colon and a type name.
pub fn parse_param(input: &Vec<char>, pos: usize) -> (res: Option<(usize, Parameter)>)
    ensures
        match res {
            Some((end, p)) => {
                &&& param_at(input@, pos as int) == Some((end as int, p@))
                &&& pos < end <= input.len()
            },
            None => param_at(input@, pos as int) is None,
        },
{
    let (colon, var_name) = match parse_varname(input, pos) {
        Some(found) => found,
        None => {
            return None;
        },
    };
    if !is_at(input, colon, ':') {
        return None;
    }
    match parse_typename(input, colon + 1) {
        Some((end, typ_name)) => Some((end, Parameter { var_name, typ_name })),
        None => None,
    }
}

/// Reads a list of parameters separated by commas, which may be empty.
fn parse_params(input: &Vec<char>, pos: usize) -> (res: (usize, Vec<Parameter>))
    requires
        pos <= input.len(),
    ensures
        params_at(input@, pos as int) == (res.0 as int, res.1@.map_values(|p: Parameter| p@)),
        pos <= res.0 <= input.len(),
{
    let ghost s = input@;
    let ghost view_of = |p: Parameter| p@;
    let mut params: Vec<Parameter> = Vec::new();
    let (first_end, first) = match parse_param(input, pos) {
        Some(found) => found,
        None => {
            return (pos, params);
        },
    };
    params.push(first);
    assert(params@.map_values(view_of) =~= seq![first@]);
    let mut end: usize = first_end;
    let mut more: bool = true;
    while more
        invariant
            s == input@,
            view_of == (|p: Parameter| p@),
            pos < end <= input.len(),
            params_at(s, pos as int) == params_rest(s, end as int, params@.map_values(view_of)),
            !more ==> params_rest(s, end as int, params@.map_values(view_of)) == (
                end as int,
                params@.map_values(view_of),
            ),
        decreases input.len() - end + (if more { 1int } else { 0int }),
    {
        more = false;
        if is_at(input, end, ',') {
            match parse_param(input, end + 1) {
                Some((next, p)) => {
                    assert(params@.push(p).map_values(view_of) =~= params@.map_values(
                        view_of,
                    ).push(p@));
                    params.push(p);
                    end = next;
                    more = true;
                },
                None => {},
            }
        }
    }
    (end, params)
}

/// Reads a method: `fn`, its name, its parameters in round brackets, `->`,
/// its return type and a semicolon.
pub fn parse_function(input: &Vec<char>, pos: usize) -> (res: Option<(usize, Function)>)
    ensures
        match res {
            Some((end, f)) => {
                &&& function_at(input@, pos as int) == Some((end as int, f@))
                &&& pos < end <= input.len()
            },
            None => function_at(input@, pos as int) is None,
        },
{
    proof {
        reveal_strlit("fn");
        reveal_strlit("->");
        assert("fn"@ =~= fn_word());
        assert("->"@ =~= arrow());
    }
    if !matches_at(input, pos, "fn") {
        return None;
    }
    assert(pos + 2 <= input.len());
    let (open, name) = match parse_varname(input, pos + 2) {
        Some(found) => found,
        None => {
            return None;
        },
    };
    if !is_at(input, open, '(') {
        return None;
    }
    let (close, inputs) = parse_params(input, open + 1);
    if !is_at(input, close, ')') {
        return None;
    }
    if !matches_at(input, close + 1, "->") {
        return None;
    }
    let (semi, output) = match parse_typename(input, close + 3) {
        Some(found) => found,
        None => {
            return None;
        },
    };
    if !is_at(input, semi, ';') {
        return None;
    }
    let f = Function { name, inputs, output };
    if f.markers_well_formed() {
        Some((semi + 1, f))
    } else {
        None
    }
}

/// Reads a block of one or more methods in braces.
pub fn parse_functions(input: &Vec<char>, pos: usize) -> (res: Option<(usize, Vec<Function>)>)
    ensures
        match res {
            Some((end, fs)) => {
                &&& functions_at(input@, pos as int) == Some(
                    (end as int, fs@.map_values(|f: Function| f@)),
                )
                &&& pos < end <= input.len()
            },
            None => functions_at(input@, pos as int) is None,
        },
{
    let ghost s = input@;
    let ghost view_of = |f: Function| f@;
    if !is_at(input, pos, '{') {
        return None;
    }
    assert(pos < input.len());
    let mut functions: Vec<Function> = Vec::new();
    assert(functions@.map_values(view_of) =~= Seq::empty());
    let mut end: usize = pos + 1;
    let mut more: bool = true;
    while more
        invariant
            s == input@,
            view_of == (|f: Function| f@),
            pos < end <= input.len(),
            functions_rest(s, pos + 1, Seq::empty()) == functions_rest(
                s,
                end as int,
                functions@.map_values(view_of),
            ),
            !more ==> functions_rest(s, end as int, functions@.map_values(view_of)) == (
                end as int,
                functions@.map_values(view_of),
            ),
        decreases input.len() - end + (if more { 1int } else { 0int }),
    {
        more = false;
        match parse_function(input, end) {
            Some((next, f)) => {
                assert(functions@.push(f).map_values(view_of) =~= functions@.map_values(
                    view_of,
                ).push(f@));
                functions.push(f);
                end = next;
                more = true;
            },
            None => {},
        }
    }
    if functions.len() > 0 && is_at(input, end, '}') {
        Some((end + 1, functions))
    } else {
        None
    }
}

/// Reads a service: `service`, its name and its block of methods.
pub fn parse_service(input: &Vec<char>, pos: usize) -> (res: Option<(usize, Service)>)
    ensures
        match res {
            Some((end, svc)) => {
                &&& service_at(input@, pos as int) == Some((end as int, svc@))
                &&& pos < end <= input.len()
            },
            None => service_at(input@, pos as int) is None,
        },
{
    proof {
        reveal_strlit("service");
        assert("service"@ =~= service_word());
    }
    if !matches_at(input, pos, "service") {
        return None;
    }
    assert(pos + 7 <= input.len());
    let (brace, name) = match parse_typeident(input, pos + 7) {
        Some(found) => found,
        None => {
            return None;
        },
    };
    match parse_functions(input, brace) {
        Some((end, functions)) => Some((end, Service { name, functions })),
        None => None,
    }
}

/// Why a text is no service description: reading stopped at position `at`,
/// before the end of the text or before the first service was complete.
#[derive(Debug, Clone, Copy, PartialEq, Eq, Structural)]
pub struct ParseError {
    pub at: usize,
}

/// Reads a whole text: one or more services and nothing else.
pub fn parse(input: &Vec<char>) -> (res: Result<Vec<Service>, ParseError>)
    ensures
        match res {
            Ok(services) => file_of(input@) == Ok::<Seq<ServiceView>, int>(
                service_views(services@),
            ),
            Err(e) => file_of(input@) == Err::<Seq<ServiceView>, int>(e.at as int),
        },
{
    let ghost s = input@;
    let ghost view_of = |svc: Service| svc@;
    let mut services: Vec<Service> = Vec::new();
    assert(services@.map_values(view_of) =~= Seq::empty());
    let mut end: usize = 0;
    let mut more: bool = true;
    while more
        invariant
            s == input@,
            view_of == (|svc: Service| svc@),
            end <= input.len(),
            services_rest(s, 0, Seq::empty()) == services_rest(
                s,
                end as int,
                services@.map_values(view_of),
            ),
            !more ==> services_rest(s, end as int, services@.map_values(view_of)) == (
                end as int,
                services@.map_values(view_of),
            ),
        decreases input.len() - end + (if more { 1int } else { 0int }),
    {
        more = false;
        match parse_service(input, end) {
            Some((next, svc)) => {
                assert(services@.push(svc).map_values(view_of) =~= services@.map_values(
                    view_of,
                ).push(svc@));
                services.push(svc);
                end = next;
                more = true;
            },
            None => {},
        }
    }
    if services.len() > 0 && end == input.len() {
        Ok(services)
    } else {
        Err(ParseError { at: end })
    }
}

/// A run of name characters ends at or behind its start, inside the text.
pub proof fn lemma_run_stays_inside(s: Seq<char>, pos: int, upper: bool)
    requires
        0 <= pos <= s.len(),
    ensures
        pos <= run_end(s, pos, upper) <= s.len(),
    decreases s.len() - pos,
{
    if pos < s.len() && is_name_char(s[pos], upper) {
        lemma_run_stays_inside(s, pos + 1, upper);
    }
}

/// Reading a type name makes progress and stays inside the text; so does
/// reading a list of type names, and what follows a list ends at or behind
/// its start.
pub proof fn lemma_typename_makes_progress(s: Seq<char>, pos: int)
    requires
        0 <= pos <= s.len(),
    ensures
        typename_end(s, pos) matches Some(end) ==> pos < end <= s.len(),
        typename_list_end(s, pos) matches Some(end) ==> pos < end <= s.len(),
        pos <= typename_list_rest(s, pos) <= s.len(),
    decreases s.len() - pos,
{
    if pos < s.len() {
        lemma_typename_makes_progress(s, pos + 1);
        lemma_run_stays_inside(s, pos, true);
        match name_end(s, pos, true) {
            Some(head) => {
                if head < s.len() {
                    lemma_typename_makes_progress(s, head + 1);
                }
            },
            None => {},
        }
        match typename_end(s, pos + 1) {
            Some(end) => {
                if pos < end <= s.len() {
                    lemma_typename_makes_progress(s, end);
                }
            },
            None => {},
        }
    }
    match typename_end(s, pos) {
        Some(end) => {
            if pos < end <= s.len() {
                lemma_typename_makes_progress(s, end);
            }
        },
        None => {},
    }
}

/// A list of parameters ends at or behind its start, inside the text.
pub proof fn lemma_params_stay_inside(s: Seq<char>, pos: int, acc: Seq<ParameterView>)
    requires
        0 <= pos <= s.len(),
    ensures
        pos <= params_rest(s, pos, acc).0 <= s.len(),
        pos <= params_at(s, pos).0 <= s.len(),
    decreases s.len() - pos,
{
    if char_at(s, pos, ',') {
        match param_at(s, pos + 1) {
            Some((end, p)) => {
                if pos < end <= s.len() {
                    lemma_params_stay_inside(s, end, acc.push(p));
                }
            },
            None => {},
        }
    }
    match param_at(s, pos) {
        Some((end, p)) => {
            if pos < end <= s.len() {
                lemma_params_stay_inside(s, end, seq![p]);
            }
        },
        None => {},
    }
}

/// A parameter has a name and a type.
pub open spec fn param_is_named(p: ParameterView) -> bool {
    p.var_name.len() > 0 && p.typ_name.len() > 0
}

/// Every parameter of a list that is read on has a name and a type, where
/// those read before have.
pub proof fn lemma_params_rest_are_named(s: Seq<char>, pos: int, acc: Seq<ParameterView>)
    requires
        0 <= pos <= s.len(),
        forall|i: int| 0 <= i < acc.len() ==> param_is_named(#[trigger] acc[i]),
    ensures
        forall|i: int|
            0 <= i < params_rest(s, pos, acc).1.len() ==> param_is_named(
                #[trigger] params_rest(s, pos, acc).1[i],
            ),
    decreases s.len() - pos,
{
    let out = params_rest(s, pos, acc).1;
    if char_at(s, pos, ',') {
        lemma_param_is_named(s, pos + 1);
        match param_at(s, pos + 1) {
            Some((end, p)) => {
                if pos < end <= s.len() {
                    let more = acc.push(p);
                    assert forall|i: int| 0 <= i < more.len() implies param_is_named(
                        #[trigger] more[i],
                    ) by {}
                    lemma_params_rest_are_named(s, end, more);
                    assert(out == params_rest(s, end, more).1);
                }
            },
            None => {},
        }
    }
    assert forall|i: int| 0 <= i < out.len() implies param_is_named(#[trigger] out[i]) by {}
}

/// Every parameter of a list that was read has a name and a type.
pub proof fn lemma_params_are_named(s: Seq<char>, pos: int)
    requires
        0 <= pos <= s.len(),
    ensures
        forall|i: int|
            0 <= i < params_at(s, pos).1.len() ==> param_is_named(#[trigger] params_at(s, pos).1[i]),
{
    lemma_param_is_named(s, pos);
    match param_at(s, pos) {
        Some((end, p)) => {
            if pos < end <= s.len() {
                lemma_params_rest_are_named(s, end, seq![p]);
            }
        },
        None => {},
    }
}

/// A parameter that was read has a name and a type.
pub proof fn lemma_param_is_named(s: Seq<char>, pos: int)
    requires
        0 <= pos <= s.len(),
    ensures
        param_at(s, pos) matches Some((_, p)) ==> param_is_named(p),
{
    lemma_run_stays_inside(s, pos, false);
    match name_end(s, pos, false) {
        Some(colon) => {
            if colon < s.len() {
                lemma_typename_makes_progress(s, colon + 1);
            }
        },
        None => {},
    }
}

/// What is read is free of the defects that make a description unusable: a
/// method that was read has a name and a return type, each of its parameters
/// has a name and a type, and none of its type names is a malformed streaming
/// marker.
pub proof fn lemma_method_read_is_sound(s: Seq<char>, pos: int)
    requires
        0 <= pos <= s.len(),
    ensures
        function_at(s, pos) matches Some((_, f)) ==> {
            &&& f.name.len() > 0
            &&& f.output.len() > 0
            &&& f.markers_well_formed()
            &&& forall|i: int| 0 <= i < f.inputs.len() ==> param_is_named(#[trigger] f.inputs[i])
        },
{
    if has_at(s, pos, fn_word()) {
        lemma_run_stays_inside(s, pos + 2, false);
        match name_end(s, pos + 2, false) {
            Some(open) => {
                if open < s.len() {
                    lemma_params_stay_inside(s, open + 1, Seq::empty());
                    lemma_params_are_named(s, open + 1);
                    let (close, _) = params_at(s, open + 1);
                    if has_at(s, close + 1, arrow()) {
                        lemma_typename_makes_progress(s, close + 3);
                    }
                }
            },
            None => {},
        }
    }
}

} // verus!
