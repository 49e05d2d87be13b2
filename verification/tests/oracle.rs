//! The grammar written a second time, with the combinators of `nom`, and
//! held against the library's parsers on many inputs.

use nom::branch::alt;
use nom::bytes::complete::{is_a, tag};
use nom::multi::{many1, separated_list0, separated_list1};
use nom::sequence::{delimited, pair, preceded, separated_pair, terminated, tuple};
use nom::IResult;
use norpc::descriptor::{Function, Parameter};
use norpc::parser::{
    parse_function, parse_functions, parse_param, parse_typeident, parse_typename, parse_varname,
};
use norpc::text::to_chars;

fn nom_typeident(s: &str) -> IResult<&str, String> {
    let ident = is_a("abcdefghijklmnopqrstuvwxyzABCDEFGHIJKLMNOPQRSTUVWXYZ0123456789_");
    nom::combinator::map(ident, |x: &str| x.to_owned())(s)
}

fn nom_typename(s: &str) -> IResult<&str, String> {
    let array = delimited(tag("["), separated_list1(tag(","), nom_typename), tag("]"));
    let array = nom::combinator::map(array, |xs| format!("[{}]", xs.join(",")));
    let tuple = delimited(tag("("), separated_list0(tag(","), nom_typename), tag(")"));
    let tuple = nom::combinator::map(tuple, |xs| format!("({})", xs.join(",")));
    let composite = pair(
        nom_typeident,
        delimited(tag("<"), separated_list1(tag(","), nom_typename), tag(">")),
    );
    let composite = nom::combinator::map(composite, |(a, xs)| format!("{}<{}>", a, xs.join(",")));
    alt((array, tuple, composite, nom_typeident))(s)
}

fn nom_varname(s: &str) -> IResult<&str, String> {
    let p = is_a("abcdefghijklmnopqrstuvwxyz0123456789_");
    nom::combinator::map(p, |x: &str| x.to_owned())(s)
}

fn nom_param(s: &str) -> IResult<&str, Parameter> {
    let p = separated_pair(nom_varname, tag(":"), nom_typename);
    nom::combinator::map(p, |(x, y)| Parameter { var_name: x, typ_name: y })(s)
}

fn nom_function(s: &str) -> IResult<&str, Function> {
    let name = preceded(tag("fn"), nom_varname);
    let params = delimited(tag("("), separated_list0(tag(","), nom_param), tag(")"));
    let output = preceded(tag("->"), nom_typename);
    nom::combinator::map(terminated(tuple((name, params, output)), tag(";")), |(x, y, z)| Function {
        name: x,
        inputs: y,
        output: z,
    })(s)
}

fn nom_functions(s: &str) -> IResult<&str, Vec<Function>> {
    delimited(tag("{"), many1(nom_function), tag("}"))(s)
}

/// What the combinators say of `s`: the value and the number of characters
/// read.
fn expected<T>(p: fn(&str) -> IResult<&str, T>, s: &str) -> Option<(usize, T)> {
    match p(s) {
        Ok((rest, value)) => Some((s.chars().count() - rest.chars().count(), value)),
        Err(_) => None,
    }
}

fn agree<T: PartialEq + std::fmt::Debug>(
    ours: fn(&Vec<char>, usize) -> Option<(usize, T)>,
    theirs: fn(&str) -> IResult<&str, T>,
    s: &str,
) {
    assert_eq!(ours(&to_chars(s), 0), expected(theirs, s), "on {:?}", s);
}

/// Every string over `alphabet` of at most `len` characters.
fn strings(alphabet: &[char], len: usize) -> Vec<String> {
    let mut all = vec![String::new()];
    let mut last = vec![String::new()];
    for _ in 0..len {
        let mut next = Vec::new();
        for s in &last {
            for c in alphabet {
                let mut t = s.clone();
                t.push(*c);
                next.push(t);
            }
        }
        all.extend(next.iter().cloned());
        last = next;
    }
    all
}

/// `s` with one character left out, doubled or replaced, at every place.
fn mutations(s: &str, alphabet: &[char]) -> Vec<String> {
    let chars: Vec<char> = s.chars().collect();
    let mut all = vec![s.to_owned()];
    for i in 0..chars.len() {
        let mut without = chars.clone();
        without.remove(i);
        all.push(without.iter().collect());
        let mut doubled = chars.clone();
        doubled.insert(i, chars[i]);
        all.push(doubled.iter().collect());
        for c in alphabet {
            let mut replaced = chars.clone();
            replaced[i] = *c;
            all.push(replaced.iter().collect());
        }
    }
    all
}

#[test]
fn names_agree_with_the_combinators() {
    for s in strings(&['a', 'z', 'A', 'Z', '0', '9', '_', '-', '{', '\u{e9}'], 4) {
        agree(parse_typeident, nom_typeident, &s);
        agree(parse_varname, nom_varname, &s);
    }
}

#[test]
fn type_names_agree_with_the_combinators() {
    for s in strings(&['a', 'B', '<', '>', '(', ')', '[', ']', ','], 5) {
        agree(parse_typename, nom_typename, &s);
    }
    for sample in ["HashSet<((),Vec<u8>)>", "[u8,(a,B_2),C<d,[e]>]", "((),(()),[x])"] {
        for s in mutations(sample, &['<', '>', '(', ')', '[', ']', ',', 'x', ' ']) {
            agree(parse_typename, nom_typename, &s);
        }
    }
}

#[test]
fn parameters_agree_with_the_combinators() {
    for s in strings(&['a', 'B', ':', '<', '>', ','], 5) {
        agree(parse_param, nom_param, &s);
    }
    for s in mutations("n_n:HashSet<(u64,u8)>", &[':', '<', ',', 'X', '0']) {
        agree(parse_param, nom_param, &s);
    }
}

#[test]
fn functions_agree_with_the_combinators() {
    let alphabet = ['f', 'n', '(', ')', '-', '>', ';', ':', ',', 'A', '{', '}'];
    for sample in [
        "fnadd(s:String)->i32;",
        "fnwrite(id:u64,s:String)->();",
        "fnf()->[u8];fng()->u8;",
        "fnfn(fn:fn)->fn;",
    ] {
        for s in mutations(sample, &alphabet) {
            agree(parse_function, nom_function, &s);
        }
    }
    for sample in ["{fnadd(s:String)->i32;}", "{fnadd(s:String)->i32;fnadd(s:String)->();}x"] {
        for s in mutations(sample, &alphabet) {
            agree(parse_functions, nom_functions, &s);
        }
    }
}
