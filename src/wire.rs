//! The JSON text of a tool descriptor, as the model's endpoint reads it, and
//! the reading of that text back into a descriptor.
use vstd::prelude::*;
use vstd::std_specs::iter::IteratorSpec;
use vstd::string::*;
use crate::tool::{
    names, property_type_name, property_view, Function, Parameter, Properties, Property, PropertyType,
    Tool,
};

verus! {

pub open spec fn is_control(c: char) -> bool {
    (c as u32) < 32
}

/// The lower-case hexadecimal digit of a value below 16.
pub open spec fn hex_digit(n: u32) -> char {
    if n < 10 {
        ((48 + n) as u8) as char
    } else {
        ((87 + n) as u8) as char
    }
}

pub open spec fn is_hex(c: char) -> bool {
    ('0' <= c && c <= '9') || ('a' <= c && c <= 'f')
}

pub open spec fn hex_value(c: char) -> u32 {
    if c <= '9' {
        ((c as u32) - 48) as u32
    } else {
        ((c as u32) - 87) as u32
    }
}

/// How one character is written inside a JSON string: quote and backslash
/// are escaped, control characters are written as `\u00XX`.
pub open spec fn escape_char(c: char) -> Seq<char> {
    if c == '"' {
        seq!['\\', '"']
    } else if c == '\\' {
        seq!['\\', '\\']
    } else if is_control(c) {
        seq!['\\', 'u', '0', '0', hex_digit((c as u32) / 16), hex_digit((c as u32) % 16)]
    } else {
        seq![c]
    }
}

pub open spec fn escaped(s: Seq<char>) -> Seq<char>
    decreases s.len(),
{
    if s.len() == 0 {
        Seq::empty()
    } else {
        escape_char(s[0]) + escaped(s.drop_first())
    }
}

/// A JSON string literal for `s`, followed by `rest`.
pub open spec fn quoted_then(s: Seq<char>, rest: Seq<char>) -> Seq<char> {
    seq!['"'] + (escaped(s) + (seq!['"'] + rest))
}

/// The length of the escape at the start of `inp`.
pub open spec fn escape_len(inp: Seq<char>) -> int {
    if inp.len() >= 2 && inp[1] == 'u' {
        6
    } else {
        2
    }
}

/// The character that the escape at the start of `inp` stands for, if it is
/// one that this writer produces.
pub open spec fn unescape(inp: Seq<char>) -> Option<char> {
    if inp.len() >= 2 && inp[1] == '"' {
        Some('"')
    } else if inp.len() >= 2 && inp[1] == '\\' {
        Some('\\')
    } else if inp.len() >= 6 && inp[1] == 'u' && inp[2] == '0' && inp[3] == '0' && (inp[4] == '0'
        || inp[4] == '1') && is_hex(inp[5]) {
        Some(((hex_value(inp[4]) * 16 + hex_value(inp[5])) as u8) as char)
    } else {
        None
    }
}

pub open spec fn prepend(s: Seq<char>, r: Option<(Seq<char>, Seq<char>)>) -> Option<(Seq<char>, Seq<char>)> {
    match r {
        Some((t, rest)) => Some((s + t, rest)),
        None => None,
    }
}

/// Reads the inside of a string literal up to its closing quote: the text,
/// and what follows the quote.
pub open spec fn parse_body(inp: Seq<char>) -> Option<(Seq<char>, Seq<char>)>
    decreases inp.len(),
{
    if inp.len() == 0 {
        None
    } else if inp[0] == '"' {
        Some((Seq::empty(), inp.drop_first()))
    } else if inp[0] == '\\' {
        match unescape(inp) {
            Some(c) => if escape_len(inp) <= inp.len() {
                prepend(seq![c], parse_body(inp.skip(escape_len(inp))))
            } else {
                None
            },
            None => None,
        }
    } else if is_control(inp[0]) {
        None
    } else {
        prepend(seq![inp[0]], parse_body(inp.drop_first()))
    }
}

/// Reads a string literal: the text, and what follows it.
pub open spec fn parse_string(inp: Seq<char>) -> Option<(Seq<char>, Seq<char>)> {
    if inp.len() > 0 && inp[0] == '"' {
        parse_body(inp.drop_first())
    } else {
        None
    }
}

proof fn lemma_hex_round_trip(n: u32)
    requires
        n < 16,
    ensures
        is_hex(hex_digit(n)),
        hex_value(hex_digit(n)) == n,
        n < 2 ==> hex_digit(n) == '0' || hex_digit(n) == '1',
{
}

proof fn lemma_escape_read(c: char, rest: Seq<char>)
    ensures
        parse_body(escape_char(c) + rest) == prepend(seq![c], parse_body(rest)),
{
    let inp = escape_char(c) + rest;
    if c == '"' || c == '\\' {
        assert(inp.skip(2) =~= rest);
    } else if is_control(c) {
        let v = c as u32;
        lemma_hex_round_trip(v / 16);
        lemma_hex_round_trip(v % 16);
        assert(inp[4] == hex_digit(v / 16));
        assert(inp[5] == hex_digit(v % 16));
        assert((((v / 16) * 16 + v % 16) as u8) as char == c);
        assert(inp.skip(6) =~= rest);
    } else {
        assert(inp.drop_first() =~= rest);
    }
}

/// Reading the escaped text of `s` up to the closing quote gives `s` back.
pub proof fn lemma_body_round_trip(s: Seq<char>, rest: Seq<char>)
    ensures
        parse_body(escaped(s) + (seq!['"'] + rest)) == Some((s, rest)),
    decreases s.len(),
{
    if s.len() == 0 {
        assert(escaped(s) + (seq!['"'] + rest) =~= seq!['"'] + rest);
        assert((seq!['"'] + rest).drop_first() =~= rest);
    } else {
        let tail = escaped(s.drop_first()) + (seq!['"'] + rest);
        assert(escaped(s) + (seq!['"'] + rest) =~= escape_char(s[0]) + tail);
        lemma_escape_read(s[0], tail);
        lemma_body_round_trip(s.drop_first(), rest);
        assert(seq![s[0]] + s.drop_first() =~= s);
    }
}

/// Reading a string literal written for `s` gives `s` back, and what follows.
pub proof fn lemma_string_round_trip(s: Seq<char>, rest: Seq<char>)
    ensures
        parse_string(quoted_then(s, rest)) == Some((s, rest)),
{
    assert(quoted_then(s, rest).drop_first() =~= escaped(s) + (seq!['"'] + rest));
    lemma_body_round_trip(s, rest);
}

/// Relies on `String::push`: the character goes at the end.
#[verifier::external_body]
fn push_char(s: &mut String, c: char)
    ensures
        final(s)@ == old(s)@.push(c),
{
    s.push(c);
}

fn hex(n: u32) -> (r: char)
    requires
        n < 16,
    ensures
        r == hex_digit(n),
{
    if n < 10 {
        ((48 + n) as u8) as char
    } else {
        ((87 + n) as u8) as char
    }
}

proof fn lemma_escaped_push(s: Seq<char>, c: char)
    ensures
        escaped(s.push(c)) == escaped(s) + escape_char(c),
    decreases s.len(),
{
    if s.len() == 0 {
        assert(s.push(c).drop_first() =~= Seq::<char>::empty());
        assert(escaped(s.push(c)) == escape_char(c) + escaped(Seq::<char>::empty()));
        assert(escape_char(c) + Seq::<char>::empty() =~= escape_char(c));
        assert(escaped(s) + escape_char(c) =~= escape_char(c));
    } else {
        lemma_escaped_push(s.drop_first(), c);
        assert(s.push(c).drop_first() =~= s.drop_first().push(c));
        assert(escaped(s.push(c)) =~= escaped(s) + escape_char(c));
    }
}

/// The characters of a text, one by one.
pub fn chars_of(s: &str) -> (r: Vec<char>)
    ensures
        r@ == s@,
{
    broadcast use vstd::string::axiom_spec_iter, vstd::string::next_postcondition;

    let mut it = s.chars();
    let mut r: Vec<char> = Vec::new();
    loop
        invariant
            it.obeys_prophetic_iter_laws(),
            it.decrease() is Some,
            r@ + it.remaining() == s@,
        ensures
            r@ == s@,
        decreases it.decrease()->0,
    {
        match it.next() {
            Some(c) => {
                proof {
                    assert(r@.push(c) + it.remaining() =~= s@);
                }
                r.push(c);
            },
            None => {
                proof {
                    assert(r@ =~= s@);
                }
                break;
            },
        }
    }
    r
}

/// Appends the string literal for `s`.
pub fn write_string(out: &mut String, s: &str)
    ensures
        final(out)@ == old(out)@ + quoted_then(s@, Seq::empty()),
{
    let chars = chars_of(s);
    let ghost start = out@;
    push_char(out, '"');
    let mut i: usize = 0;
    while i < chars.len()
        invariant
            chars@ == s@,
            i <= chars@.len(),
            out@ == start + seq!['"'] + escaped(chars@.take(i as int)),
        decreases chars@.len() - i,
    {
        let c = chars[i];
        proof {
            lemma_escaped_push(chars@.take(i as int), c);
            assert(chars@.take(i + 1) =~= chars@.take(i as int).push(c));
        }
        let ghost before = out@;
        if c == '"' {
            push_char(out, '\\');
            push_char(out, '"');
        } else if c == '\\' {
            push_char(out, '\\');
            push_char(out, '\\');
        } else if (c as u32) < 32 {
            let v = c as u32;
            push_char(out, '\\');
            push_char(out, 'u');
            push_char(out, '0');
            push_char(out, '0');
            push_char(out, hex(v / 16));
            push_char(out, hex(v % 16));
        } else {
            push_char(out, c);
        }
        proof {
            assert(out@ =~= before + escape_char(c));
            assert(out@ =~= start + seq!['"'] + escaped(chars@.take(i + 1)));
        }
        i = i + 1;
    }
    push_char(out, '"');
    proof {
        assert(chars@.take(chars@.len() as int) =~= s@);
        assert(out@ =~= start + quoted_then(s@, Seq::empty()));
    }
}

/// Reads a string literal that starts at `p`: its text and the position after it.
pub fn read_string(inp: &Vec<char>, p: usize) -> (r: Option<(String, usize)>)
    requires
        p <= inp@.len(),
    ensures
        match r {
            Some((s, q)) => p < q <= inp@.len() && parse_string(inp@.skip(p as int)) == Some(
                (s@, inp@.skip(q as int)),
            ),
            None => parse_string(inp@.skip(p as int)) is None,
        },
{
    if p >= inp.len() || inp[p] != '"' {
        return None;
    }
    let start = p + 1;
    proof {
        assert(inp@.skip(p as int).drop_first() =~= inp@.skip(start as int));
    }
    let mut out = String::new();
    let mut i: usize = start;
    while i < inp.len()
        invariant
            start <= i <= inp@.len(),
            p < start,
            parse_string(inp@.skip(p as int)) == parse_body(inp@.skip(start as int)),
            parse_body(inp@.skip(start as int)) == prepend(out@, parse_body(inp@.skip(i as int))),
        decreases inp@.len() - i,
    {
        let c = inp[i];
        let ghost here = inp@.skip(i as int);
        if c == '"' {
            proof {
                assert(here.drop_first() =~= inp@.skip(i + 1));
                assert(out@ + Seq::<char>::empty() =~= out@);
            }
            return Some((out, i + 1));
        } else if c == '\\' {
            if i + 1 >= inp.len() {
                return None;
            }
            let d = inp[i + 1];
            let (e, k): (char, usize) = if d == '"' {
                ('"', 2)
            } else if d == '\\' {
                ('\\', 2)
            } else if d == 'u' && inp.len() - i > 5 && inp[i + 2] == '0' && inp[i + 3] == '0' && (
            inp[i + 4] == '0' || inp[i + 4] == '1') && (('0' <= inp[i + 5] && inp[i + 5] <= '9')
                || ('a' <= inp[i + 5] && inp[i + 5] <= 'f')) {
                let h: u32 = if inp[i + 4] == '0' {
                    0
                } else {
                    1
                };
                let l: u32 = if inp[i + 5] <= '9' {
                    (inp[i + 5] as u32) - 48
                } else {
                    (inp[i + 5] as u32) - 87
                };
                (((h * 16 + l) as u8) as char, 6)
            } else {
                return None;
            };
            proof {
                assert(unescape(here) == Some(e));
                assert(escape_len(here) == k);
                assert(here.skip(k as int) =~= inp@.skip(i + k));
                assert(out@ + (seq![e] + Seq::<char>::empty()) =~= out@.push(e));
                assert forall|t: Seq<char>| out@ + (seq![e] + t) == out@.push(e) + t by {
                    assert(out@ + (seq![e] + t) =~= out@.push(e) + t);
                }
            }
            push_char(&mut out, e);
            i = i + k;
        } else if (c as u32) < 32 {
            return None;
        } else {
            proof {
                assert(here.drop_first() =~= inp@.skip(i + 1));
                assert forall|t: Seq<char>| out@ + (seq![c] + t) == out@.push(c) + t by {
                    assert(out@ + (seq![c] + t) =~= out@.push(c) + t);
                }
            }
            push_char(&mut out, c);
            i = i + 1;
        }
    }
    None
}


/// What a tool descriptor holds: its type tag, name, description, the type
/// tag of its parameters, the declared arguments in order, and the names of
/// the required ones.
pub type ToolValue = (
    Seq<char>,
    Seq<char>,
    Seq<char>,
    Seq<char>,
    Seq<(Seq<char>, (PropertyType, Seq<char>))>,
    Seq<Seq<char>>,
);

pub open spec fn tool_value(t: Tool) -> ToolValue {
    (
        t.tool_type@,
        t.function.name@,
        t.function.description@,
        t.function.parameters.parameter_type@,
        t.function.parameters.properties@,
        names(t.function.parameters.required),
    )
}

/// What follows the literal `lit` at the start of `inp`.
pub open spec fn after(lit: Seq<char>, inp: Seq<char>) -> Option<Seq<char>> {
    if lit.len() <= inp.len() && inp.take(lit.len() as int) == lit {
        Some(inp.skip(lit.len() as int))
    } else {
        None
    }
}

/// The property type that a wire name stands for.
pub open spec fn type_named(s: Seq<char>) -> Option<PropertyType> {
    if s == "string"@ {
        Some(PropertyType::String)
    } else if s == "boolean"@ {
        Some(PropertyType::Boolean)
    } else {
        None
    }
}

/// One declared argument as a JSON member, then `rest`.
pub open spec fn entry_then(e: (Seq<char>, (PropertyType, Seq<char>)), rest: Seq<char>) -> Seq<char> {
    quoted_then(
        e.0,
        ":{\"type\":"@ + quoted_then(
            property_type_name(e.1.0),
            ",\"description\":"@ + quoted_then(e.1.1, "}"@ + rest),
        ),
    )
}

/// The members after the first, each after a comma, then `}` and `rest`.
pub open spec fn more_entries_then(
    es: Seq<(Seq<char>, (PropertyType, Seq<char>))>,
    rest: Seq<char>,
) -> Seq<char>
    decreases es.len(),
{
    if es.len() == 0 {
        "}"@ + rest
    } else {
        ","@ + entry_then(es[0], more_entries_then(es.drop_first(), rest))
    }
}

/// The members of the properties object (after its `{`), its `}`, then `rest`.
pub open spec fn entries_then(
    es: Seq<(Seq<char>, (PropertyType, Seq<char>))>,
    rest: Seq<char>,
) -> Seq<char> {
    if es.len() == 0 {
        "}"@ + rest
    } else {
        entry_then(es[0], more_entries_then(es.drop_first(), rest))
    }
}

/// The names after the first, each after a comma, then `]` and `rest`.
pub open spec fn more_names_then(ns: Seq<Seq<char>>, rest: Seq<char>) -> Seq<char>
    decreases ns.len(),
{
    if ns.len() == 0 {
        "]"@ + rest
    } else {
        ","@ + quoted_then(ns[0], more_names_then(ns.drop_first(), rest))
    }
}

/// The items of the required array (after its `[`), its `]`, then `rest`.
pub open spec fn names_then(ns: Seq<Seq<char>>, rest: Seq<char>) -> Seq<char> {
    if ns.len() == 0 {
        "]"@ + rest
    } else {
        quoted_then(ns[0], more_names_then(ns.drop_first(), rest))
    }
}

/// The JSON text of a tool descriptor, in the function-calling schema.
pub open spec fn tool_json(v: ToolValue) -> Seq<char> {
    "{\"type\":"@ + quoted_then(
        v.0,
        ",\"function\":{\"name\":"@ + quoted_then(
            v.1,
            ",\"description\":"@ + quoted_then(
                v.2,
                ",\"parameters\":{\"type\":"@ + quoted_then(
                    v.3,
                    ",\"properties\":{"@ + entries_then(
                        v.4,
                        ",\"required\":["@ + names_then(v.5, "}}}"@),
                    ),
                ),
            ),
        ),
    )
}

pub open spec fn parse_entry(inp: Seq<char>) -> Option<((Seq<char>, (PropertyType, Seq<char>)), Seq<char>)> {
    match parse_string(inp) {
        None => None,
        Some((k, r1)) => match after(":{\"type\":"@, r1) {
            None => None,
            Some(r2) => match parse_string(r2) {
                None => None,
                Some((tn, r3)) => match type_named(tn) {
                    None => None,
                    Some(ty) => match after(",\"description\":"@, r3) {
                        None => None,
                        Some(r4) => match parse_string(r4) {
                            None => None,
                            Some((d, r5)) => match after("}"@, r5) {
                                None => None,
                                Some(r6) => Some(((k, (ty, d)), r6)),
                            },
                        },
                    },
                },
            },
        },
    }
}

/// Reads members after the first: a comma and a member, again and again, up to `}`.
pub open spec fn parse_more_entries(inp: Seq<char>) -> Option<(Seq<(Seq<char>, (PropertyType, Seq<char>))>, Seq<char>)>
    decreases inp.len(),
{
    if inp.len() > 0 && inp[0] == '}' {
        Some((Seq::empty(), inp.drop_first()))
    } else if inp.len() > 0 && inp[0] == ',' {
        match parse_entry(inp.drop_first()) {
            None => None,
            Some((e, r)) => if r.len() < inp.len() {
                match parse_more_entries(r) {
                    None => None,
                    Some((es, r2)) => Some((seq![e] + es, r2)),
                }
            } else {
                None
            },
        }
    } else {
        None
    }
}

/// Reads the members of the properties object after its `{`.
pub open spec fn parse_entries(inp: Seq<char>) -> Option<(Seq<(Seq<char>, (PropertyType, Seq<char>))>, Seq<char>)> {
    if inp.len() > 0 && inp[0] == '}' {
        Some((Seq::empty(), inp.drop_first()))
    } else {
        match parse_entry(inp) {
            None => None,
            Some((e, r)) => match parse_more_entries(r) {
                None => None,
                Some((es, r2)) => Some((seq![e] + es, r2)),
            },
        }
    }
}

pub open spec fn parse_more_names(inp: Seq<char>) -> Option<(Seq<Seq<char>>, Seq<char>)>
    decreases inp.len(),
{
    if inp.len() > 0 && inp[0] == ']' {
        Some((Seq::empty(), inp.drop_first()))
    } else if inp.len() > 0 && inp[0] == ',' {
        match parse_string(inp.drop_first()) {
            None => None,
            Some((n, r)) => if r.len() < inp.len() {
                match parse_more_names(r) {
                    None => None,
                    Some((ns, r2)) => Some((seq![n] + ns, r2)),
                }
            } else {
                None
            },
        }
    } else {
        None
    }
}

pub open spec fn parse_names(inp: Seq<char>) -> Option<(Seq<Seq<char>>, Seq<char>)> {
    if inp.len() > 0 && inp[0] == ']' {
        Some((Seq::empty(), inp.drop_first()))
    } else {
        match parse_string(inp) {
            None => None,
            Some((n, r)) => match parse_more_names(r) {
                None => None,
                Some((ns, r2)) => Some((seq![n] + ns, r2)),
            },
        }
    }
}

/// Reads the JSON text of a tool descriptor; nothing may follow it.
pub open spec fn parse_tool(inp: Seq<char>) -> Option<ToolValue> {
    match after("{\"type\":"@, inp) {
        None => None,
        Some(r0) => match parse_string(r0) {
            None => None,
            Some((a, r1)) => match after(",\"function\":{\"name\":"@, r1) {
                None => None,
                Some(r2) => match parse_string(r2) {
                    None => None,
                    Some((b, r3)) => match after(",\"description\":"@, r3) {
                        None => None,
                        Some(r4) => match parse_string(r4) {
                            None => None,
                            Some((c, r5)) => match after(",\"parameters\":{\"type\":"@, r5) {
                                None => None,
                                Some(r6) => match parse_string(r6) {
                                    None => None,
                                    Some((d, r7)) => match after(",\"properties\":{"@, r7) {
                                        None => None,
                                        Some(r8) => match parse_entries(r8) {
                                            None => None,
                                            Some((es, r9)) => match after(",\"required\":["@, r9) {
                                                None => None,
                                                Some(r10) => match parse_names(r10) {
                                                    None => None,
                                                    Some((ns, r11)) => if r11 == "}}}"@ {
                                                        Some((a, b, c, d, es, ns))
                                                    } else {
                                                        None
                                                    },
                                                },
                                            },
                                        },
                                    },
                                },
                            },
                        },
                    },
                },
            },
        },
    }
}

proof fn lemma_after(lit: Seq<char>, rest: Seq<char>)
    ensures
        after(lit, lit + rest) == Some(rest),
{
    assert((lit + rest).take(lit.len() as int) =~= lit);
    assert((lit + rest).skip(lit.len() as int) =~= rest);
}

proof fn lemma_type_round_trip(t: PropertyType)
    ensures
        type_named(property_type_name(t)) == Some(t),
{
    reveal_strlit("string");
    reveal_strlit("boolean");
    assert("boolean"@.len() == 7);
    assert("string"@.len() == 6);
    assert("boolean"@ != "string"@);
}

proof fn lemma_entry_round_trip(e: (Seq<char>, (PropertyType, Seq<char>)), rest: Seq<char>)
    ensures
        parse_entry(entry_then(e, rest)) == Some((e, rest)),
{
    let r5 = "}"@ + rest;
    let r4 = quoted_then(e.1.1, r5);
    let r3 = ",\"description\":"@ + r4;
    let r2 = quoted_then(property_type_name(e.1.0), r3);
    let r1 = ":{\"type\":"@ + r2;
    lemma_string_round_trip(e.0, r1);
    lemma_after(":{\"type\":"@, r2);
    lemma_string_round_trip(property_type_name(e.1.0), r3);
    lemma_type_round_trip(e.1.0);
    lemma_after(",\"description\":"@, r4);
    lemma_string_round_trip(e.1.1, r5);
    lemma_after("}"@, rest);
}

proof fn lemma_more_entries_round_trip(es: Seq<(Seq<char>, (PropertyType, Seq<char>))>, rest: Seq<char>)
    ensures
        parse_more_entries(more_entries_then(es, rest)) == Some((es, rest)),
    decreases es.len(),
{
    reveal_strlit("}");
    reveal_strlit(",");
    let inp = more_entries_then(es, rest);
    if es.len() == 0 {
        assert(inp.drop_first() =~= rest);
        assert(es =~= Seq::<(Seq<char>, (PropertyType, Seq<char>))>::empty());
    } else {
        let tail = more_entries_then(es.drop_first(), rest);
        assert(inp.drop_first() =~= entry_then(es[0], tail));
        lemma_entry_round_trip(es[0], tail);
        lemma_more_entries_round_trip(es.drop_first(), rest);
        assert(seq![es[0]] + es.drop_first() =~= es);
    }
}

proof fn lemma_entries_round_trip(es: Seq<(Seq<char>, (PropertyType, Seq<char>))>, rest: Seq<char>)
    ensures
        parse_entries(entries_then(es, rest)) == Some((es, rest)),
{
    reveal_strlit("}");
    let inp = entries_then(es, rest);
    if es.len() == 0 {
        assert(inp.drop_first() =~= rest);
        assert(es =~= Seq::<(Seq<char>, (PropertyType, Seq<char>))>::empty());
    } else {
        let tail = more_entries_then(es.drop_first(), rest);
        lemma_entry_round_trip(es[0], tail);
        lemma_more_entries_round_trip(es.drop_first(), rest);
        assert(seq![es[0]] + es.drop_first() =~= es);
    }
}

proof fn lemma_more_names_round_trip(ns: Seq<Seq<char>>, rest: Seq<char>)
    ensures
        parse_more_names(more_names_then(ns, rest)) == Some((ns, rest)),
    decreases ns.len(),
{
    reveal_strlit("]");
    reveal_strlit(",");
    let inp = more_names_then(ns, rest);
    if ns.len() == 0 {
        assert(inp.drop_first() =~= rest);
        assert(ns =~= Seq::<Seq<char>>::empty());
    } else {
        let tail = more_names_then(ns.drop_first(), rest);
        assert(inp.drop_first() =~= quoted_then(ns[0], tail));
        lemma_string_round_trip(ns[0], tail);
        lemma_more_names_round_trip(ns.drop_first(), rest);
        assert(seq![ns[0]] + ns.drop_first() =~= ns);
    }
}

proof fn lemma_names_round_trip(ns: Seq<Seq<char>>, rest: Seq<char>)
    ensures
        parse_names(names_then(ns, rest)) == Some((ns, rest)),
{
    reveal_strlit("]");
    let inp = names_then(ns, rest);
    if ns.len() == 0 {
        assert(inp.drop_first() =~= rest);
        assert(ns =~= Seq::<Seq<char>>::empty());
    } else {
        let tail = more_names_then(ns.drop_first(), rest);
        lemma_string_round_trip(ns[0], tail);
        lemma_more_names_round_trip(ns.drop_first(), rest);
        assert(seq![ns[0]] + ns.drop_first() =~= ns);
    }
}

/// Reading the JSON text of any tool descriptor gives back the same
/// descriptor, with its declared arguments in the same order.
pub proof fn lemma_tool_round_trip(v: ToolValue)
    ensures
        parse_tool(tool_json(v)) == Some(v),
{
    let r10 = names_then(v.5, "}}}"@);
    let r9 = ",\"required\":["@ + r10;
    let r8 = entries_then(v.4, r9);
    let r7 = ",\"properties\":{"@ + r8;
    let r6 = quoted_then(v.3, r7);
    let r5 = ",\"parameters\":{\"type\":"@ + r6;
    let r4 = quoted_then(v.2, r5);
    let r3 = ",\"description\":"@ + r4;
    let r2 = quoted_then(v.1, r3);
    let r1 = ",\"function\":{\"name\":"@ + r2;
    let r0 = quoted_then(v.0, r1);
    lemma_after("{\"type\":"@, r0);
    lemma_string_round_trip(v.0, r1);
    lemma_after(",\"function\":{\"name\":"@, r2);
    lemma_string_round_trip(v.1, r3);
    lemma_after(",\"description\":"@, r4);
    lemma_string_round_trip(v.2, r5);
    lemma_after(",\"parameters\":{\"type\":"@, r6);
    lemma_string_round_trip(v.3, r7);
    lemma_after(",\"properties\":{"@, r8);
    lemma_entries_round_trip(v.4, r9);
    lemma_after(",\"required\":["@, r10);
    lemma_names_round_trip(v.5, "}}}"@);
}


proof fn lemma_quoted_split(s: Seq<char>, rest: Seq<char>)
    ensures
        quoted_then(s, rest) == quoted_then(s, Seq::empty()) + rest,
{
    assert(quoted_then(s, rest) =~= quoted_then(s, Seq::empty()) + rest);
}

proof fn lemma_entry_split(e: (Seq<char>, (PropertyType, Seq<char>)), rest: Seq<char>)
    ensures
        entry_then(e, rest) == entry_then(e, Seq::empty()) + rest,
{
    let t = property_type_name(e.1.0);
    lemma_quoted_split(e.1.1, "}"@ + rest);
    lemma_quoted_split(e.1.1, "}"@ + Seq::empty());
    lemma_quoted_split(t, ",\"description\":"@ + quoted_then(e.1.1, "}"@ + rest));
    lemma_quoted_split(t, ",\"description\":"@ + quoted_then(e.1.1, "}"@ + Seq::empty()));
    lemma_quoted_split(
        e.0,
        ":{\"type\":"@ + quoted_then(t, ",\"description\":"@ + quoted_then(e.1.1, "}"@ + rest)),
    );
    lemma_quoted_split(
        e.0,
        ":{\"type\":"@ + quoted_then(
            t,
            ",\"description\":"@ + quoted_then(e.1.1, "}"@ + Seq::empty()),
        ),
    );
    assert(entry_then(e, rest) =~= entry_then(e, Seq::empty()) + rest);
}

proof fn lemma_more_entries_split(es: Seq<(Seq<char>, (PropertyType, Seq<char>))>, rest: Seq<char>)
    ensures
        more_entries_then(es, rest) == more_entries_then(es, Seq::empty()) + rest,
    decreases es.len(),
{
    if es.len() == 0 {
        assert(more_entries_then(es, rest) =~= more_entries_then(es, Seq::empty()) + rest);
    } else {
        lemma_more_entries_split(es.drop_first(), rest);
        let a = more_entries_then(es.drop_first(), rest);
        let b = more_entries_then(es.drop_first(), Seq::empty());
        lemma_entry_split(es[0], a);
        lemma_entry_split(es[0], b);
        assert(more_entries_then(es, rest) =~= more_entries_then(es, Seq::empty()) + rest);
    }
}

proof fn lemma_more_names_split(ns: Seq<Seq<char>>, rest: Seq<char>)
    ensures
        more_names_then(ns, rest) == more_names_then(ns, Seq::empty()) + rest,
    decreases ns.len(),
{
    if ns.len() == 0 {
        assert(more_names_then(ns, rest) =~= more_names_then(ns, Seq::empty()) + rest);
    } else {
        lemma_more_names_split(ns.drop_first(), rest);
        let a = more_names_then(ns.drop_first(), rest);
        let b = more_names_then(ns.drop_first(), Seq::empty());
        lemma_quoted_split(ns[0], a);
        lemma_quoted_split(ns[0], b);
        assert(more_names_then(ns, rest) =~= more_names_then(ns, Seq::empty()) + rest);
    }
}

/// Appends one declared argument as a JSON member.
fn write_entry(out: &mut String, name: &String, p: &Property)
    ensures
        final(out)@ == old(out)@ + entry_then((name@, property_view(*p)), Seq::empty()),
{
    let ghost start = out@;
    write_string(out, name.as_str());
    out.append(":{\"type\":");
    write_string(out, p.property_type.name());
    out.append(",\"description\":");
    write_string(out, p.description.as_str());
    out.append("}");
    proof {
        let e = (name@, property_view(*p));
        lemma_entry_split(e, Seq::empty());
        lemma_quoted_split(e.1.1, "}"@ + Seq::empty());
        lemma_quoted_split(
            property_type_name(e.1.0),
            ",\"description\":"@ + quoted_then(e.1.1, "}"@ + Seq::empty()),
        );
        lemma_quoted_split(
            e.0,
            ":{\"type\":"@ + quoted_then(
                property_type_name(e.1.0),
                ",\"description\":"@ + quoted_then(e.1.1, "}"@ + Seq::empty()),
            ),
        );
        assert(out@ =~= start + entry_then(e, Seq::empty()));
    }
}

/// Appends the members of a properties object and its closing brace.
fn write_entries(out: &mut String, props: &Properties)
    ensures
        final(out)@ == old(out)@ + entries_then(props@, Seq::empty()),
{
    let entries = props.entries();
    let ghost es = props@;
    let ghost start = out@;
    if entries.len() == 0 {
        out.append("}");
        return ;
    }
    write_entry(out, &entries[0].0, &entries[0].1);
    proof {
        assert(es[0] == (entries@[0].0@, property_view(entries@[0].1)));
        lemma_entry_split(es[0], more_entries_then(es.drop_first(), Seq::empty()));
        assert(es.skip(1) =~= es.drop_first());
    }
    let mut i: usize = 1;
    while i < entries.len()
        invariant
            1 <= i <= entries@.len(),
            es == props@,
            entries@.map_values(|e: (String, Property)| (e.0@, property_view(e.1))) == es,
            out@ + more_entries_then(es.skip(i as int), Seq::empty()) == start + entries_then(
                es,
                Seq::empty(),
            ),
        decreases entries@.len() - i,
    {
        let ghost before = out@;
        out.append(",");
        write_entry(out, &entries[i].0, &entries[i].1);
        proof {
            let rest = es.skip(i as int);
            assert(rest[0] == es[i as int]);
            assert(rest.drop_first() =~= es.skip(i + 1));
            lemma_entry_split(rest[0], more_entries_then(rest.drop_first(), Seq::empty()));
            assert(more_entries_then(rest, Seq::empty()) =~= ","@ + entry_then(
                rest[0],
                Seq::empty(),
            ) + more_entries_then(es.skip(i + 1), Seq::empty()));
            assert(out@ + more_entries_then(es.skip(i + 1), Seq::empty()) =~= before
                + more_entries_then(rest, Seq::empty()));
        }
        i = i + 1;
    }
    out.append("}");
    proof {
        assert(es.skip(i as int) =~= Seq::<(Seq<char>, (PropertyType, Seq<char>))>::empty());
    }
}

/// Appends the items of the required array and its closing bracket.
fn write_names(out: &mut String, v: &Vec<String>)
    ensures
        final(out)@ == old(out)@ + names_then(names(*v), Seq::empty()),
{
    let ghost ns = names(*v);
    let ghost start = out@;
    if v.len() == 0 {
        out.append("]");
        return ;
    }
    write_string(out, v[0].as_str());
    proof {
        assert(ns[0] == v@[0]@);
        lemma_quoted_split(ns[0], more_names_then(ns.drop_first(), Seq::empty()));
        assert(ns.skip(1) =~= ns.drop_first());
    }
    let mut i: usize = 1;
    while i < v.len()
        invariant
            1 <= i <= v@.len(),
            ns == names(*v),
            out@ + more_names_then(ns.skip(i as int), Seq::empty()) == start + names_then(
                ns,
                Seq::empty(),
            ),
        decreases v@.len() - i,
    {
        let ghost before = out@;
        out.append(",");
        write_string(out, v[i].as_str());
        proof {
            let rest = ns.skip(i as int);
            assert(rest[0] == v@[i as int]@);
            assert(rest.drop_first() =~= ns.skip(i + 1));
            lemma_quoted_split(rest[0], more_names_then(rest.drop_first(), Seq::empty()));
            assert(more_names_then(rest, Seq::empty()) =~= ","@ + quoted_then(
                rest[0],
                Seq::empty(),
            ) + more_names_then(ns.skip(i + 1), Seq::empty()));
            assert(out@ + more_names_then(ns.skip(i + 1), Seq::empty()) =~= before
                + more_names_then(rest, Seq::empty()));
        }
        i = i + 1;
    }
    out.append("]");
    proof {
        assert(ns.skip(i as int) =~= Seq::<Seq<char>>::empty());
    }
}


proof fn lemma_entries_split(es: Seq<(Seq<char>, (PropertyType, Seq<char>))>, rest: Seq<char>)
    ensures
        entries_then(es, rest) == entries_then(es, Seq::empty()) + rest,
{
    if es.len() == 0 {
        assert(entries_then(es, rest) =~= entries_then(es, Seq::empty()) + rest);
    } else {
        lemma_more_entries_split(es.drop_first(), rest);
        lemma_entry_split(es[0], more_entries_then(es.drop_first(), rest));
        lemma_entry_split(es[0], more_entries_then(es.drop_first(), Seq::empty()));
        assert(entries_then(es, rest) =~= entries_then(es, Seq::empty()) + rest);
    }
}

proof fn lemma_names_split(ns: Seq<Seq<char>>, rest: Seq<char>)
    ensures
        names_then(ns, rest) == names_then(ns, Seq::empty()) + rest,
{
    if ns.len() == 0 {
        assert(names_then(ns, rest) =~= names_then(ns, Seq::empty()) + rest);
    } else {
        lemma_more_names_split(ns.drop_first(), rest);
        lemma_quoted_split(ns[0], more_names_then(ns.drop_first(), rest));
        lemma_quoted_split(ns[0], more_names_then(ns.drop_first(), Seq::empty()));
        assert(names_then(ns, rest) =~= names_then(ns, Seq::empty()) + rest);
    }
}

proof fn lemma_step(before: Seq<char>, piece: Seq<char>, after: Seq<char>, rest: Seq<char>)
    requires
        after == before + piece,
    ensures
        after + rest == before + (piece + rest),
{
    assert(after + rest =~= before + (piece + rest));
}

impl Tool {
    /// The descriptor as JSON text in the function-calling schema, with the
    /// declared arguments in their order.
    pub fn to_json(&self) -> (r: String)
        ensures
            r@ == tool_json(tool_value(*self)),
    {
        let ghost v = tool_value(*self);
        let ghost r10 = names_then(v.5, "}}}"@);
        let ghost r9 = ",\"required\":["@ + r10;
        let ghost r8 = entries_then(v.4, r9);
        let ghost r7 = ",\"properties\":{"@ + r8;
        let ghost r6 = quoted_then(v.3, r7);
        let ghost r5 = ",\"parameters\":{\"type\":"@ + r6;
        let ghost r4 = quoted_then(v.2, r5);
        let ghost r3 = ",\"description\":"@ + r4;
        let ghost r2 = quoted_then(v.1, r3);
        let ghost r1 = ",\"function\":{\"name\":"@ + r2;
        let ghost r0 = quoted_then(v.0, r1);
        let params = &self.function.parameters;
        let mut out = String::new();
        let ghost o = out@;
        out.append("{\"type\":");
        proof {
            lemma_step(o, "{\"type\":"@, out@, r0);
            assert(o + tool_json(v) =~= tool_json(v));
        }
        let ghost o = out@;
        write_string(&mut out, self.tool_type.as_str());
        proof {
            lemma_quoted_split(v.0, r1);
            lemma_step(o, quoted_then(v.0, Seq::empty()), out@, r1);
        }
        let ghost o = out@;
        out.append(",\"function\":{\"name\":");
        proof {
            lemma_step(o, ",\"function\":{\"name\":"@, out@, r2);
        }
        let ghost o = out@;
        write_string(&mut out, self.function.name.as_str());
        proof {
            lemma_quoted_split(v.1, r3);
            lemma_step(o, quoted_then(v.1, Seq::empty()), out@, r3);
        }
        let ghost o = out@;
        out.append(",\"description\":");
        proof {
            lemma_step(o, ",\"description\":"@, out@, r4);
        }
        let ghost o = out@;
        write_string(&mut out, self.function.description.as_str());
        proof {
            lemma_quoted_split(v.2, r5);
            lemma_step(o, quoted_then(v.2, Seq::empty()), out@, r5);
        }
        let ghost o = out@;
        out.append(",\"parameters\":{\"type\":");
        proof {
            lemma_step(o, ",\"parameters\":{\"type\":"@, out@, r6);
        }
        let ghost o = out@;
        write_string(&mut out, params.parameter_type.as_str());
        proof {
            lemma_quoted_split(v.3, r7);
            lemma_step(o, quoted_then(v.3, Seq::empty()), out@, r7);
        }
        let ghost o = out@;
        out.append(",\"properties\":{");
        proof {
            lemma_step(o, ",\"properties\":{"@, out@, r8);
        }
        let ghost o = out@;
        write_entries(&mut out, &params.properties);
        proof {
            lemma_entries_split(v.4, r9);
            lemma_step(o, entries_then(v.4, Seq::empty()), out@, r9);
        }
        let ghost o = out@;
        out.append(",\"required\":[");
        proof {
            lemma_step(o, ",\"required\":["@, out@, r10);
        }
        let ghost o = out@;
        write_names(&mut out, &params.required);
        proof {
            lemma_names_split(v.5, "}}}"@);
            lemma_step(o, names_then(v.5, Seq::empty()), out@, "}}}"@);
        }
        let ghost o = out@;
        out.append("}}}");
        proof {
            assert(out@ =~= o + "}}}"@);
        }
        out
    }
}

/// Reads the literal `lit` at `p`: the position after it.
fn expect(inp: &Vec<char>, p: usize, lit: &str) -> (r: Option<usize>)
    requires
        p <= inp@.len(),
    ensures
        match r {
            Some(q) => p <= q <= inp@.len() && q - p == lit@.len() && after(lit@, inp@.skip(p as int))
                == Some(inp@.skip(q as int)),
            None => after(lit@, inp@.skip(p as int)) is None,
        },
{
    let l = chars_of(lit);
    if inp.len() - p < l.len() {
        return None;
    }
    let mut i: usize = 0;
    while i < l.len()
        invariant
            l@ == lit@,
            p <= inp@.len(),
            inp@.len() <= usize::MAX,
            p + l@.len() <= inp@.len(),
            i <= l@.len(),
            forall|j: int| 0 <= j < i ==> inp@[p + j] == l@[j],
        decreases l@.len() - i,
    {
        if inp[p + i] != l[i] {
            proof {
                assert(inp@.skip(p as int).take(l@.len() as int)[i as int] != lit@[i as int]);
            }
            return None;
        }
        i = i + 1;
    }
    proof {
        assert(inp@.skip(p as int).take(l@.len() as int) =~= lit@);
        assert(inp@.skip(p as int).skip(l@.len() as int) =~= inp@.skip(p + l@.len()));
    }
    Some(p + l.len())
}

/// Reads one declared argument at `p`.
fn read_entry(inp: &Vec<char>, p: usize) -> (r: Option<((String, Property), usize)>)
    requires
        p <= inp@.len(),
    ensures
        match r {
            Some((e, q)) => p < q <= inp@.len() && parse_entry(inp@.skip(p as int)) == Some(
                ((e.0@, property_view(e.1)), inp@.skip(q as int)),
            ),
            None => parse_entry(inp@.skip(p as int)) is None,
        },
{
    let (key, q1) = match read_string(inp, p) {
        Some(x) => x,
        None => return None,
    };
    let q2 = match expect(inp, q1, ":{\"type\":") {
        Some(q) => q,
        None => return None,
    };
    let (tag, q3) = match read_string(inp, q2) {
        Some(x) => x,
        None => return None,
    };
    let property_type = if tag == String::from_str("string") {
        PropertyType::String
    } else if tag == String::from_str("boolean") {
        PropertyType::Boolean
    } else {
        return None;
    };
    let q4 = match expect(inp, q3, ",\"description\":") {
        Some(q) => q,
        None => return None,
    };
    let (description, q5) = match read_string(inp, q4) {
        Some(x) => x,
        None => return None,
    };
    let q6 = match expect(inp, q5, "}") {
        Some(q) => q,
        None => return None,
    };
    Some(((key, Property { property_type, description }), q6))
}

pub open spec fn cons_all<T>(acc: Seq<T>, r: Option<(Seq<T>, Seq<char>)>) -> Option<(Seq<T>, Seq<char>)> {
    match r {
        Some((xs, rest)) => Some((acc + xs, rest)),
        None => None,
    }
}

pub open spec fn entry_views(v: Vec<(String, Property)>) -> Seq<(Seq<char>, (PropertyType, Seq<char>))> {
    v@.map_values(|e: (String, Property)| (e.0@, property_view(e.1)))
}

/// Reads the members of a properties object after its `{`, and its `}`.
fn read_entries(inp: &Vec<char>, p: usize) -> (r: Option<(Vec<(String, Property)>, usize)>)
    requires
        p <= inp@.len(),
    ensures
        match r {
            Some((v, q)) => p < q <= inp@.len() && parse_entries(inp@.skip(p as int)) == Some(
                (entry_views(v), inp@.skip(q as int)),
            ),
            None => parse_entries(inp@.skip(p as int)) is None,
        },
{
    let mut v: Vec<(String, Property)> = Vec::new();
    if p < inp.len() && inp[p] == '}' {
        proof {
            assert(inp@.skip(p as int).drop_first() =~= inp@.skip(p + 1));
            assert(entry_views(v) =~= Seq::<(Seq<char>, (PropertyType, Seq<char>))>::empty());
        }
        return Some((v, p + 1));
    }
    let (first, q) = match read_entry(inp, p) {
        Some(x) => x,
        None => return None,
    };
    v.push(first);
    proof {
        assert(entry_views(v) =~= seq![(v@[0].0@, property_view(v@[0].1))]);
    }
    let mut i: usize = q;
    while i < inp.len()
        invariant
            p < i <= inp@.len(),
            parse_entries(inp@.skip(p as int)) == cons_all(
                entry_views(v),
                parse_more_entries(inp@.skip(i as int)),
            ),
        decreases inp@.len() - i,
    {
        let ghost here = inp@.skip(i as int);
        if inp[i] == '}' {
            proof {
                assert(here.drop_first() =~= inp@.skip(i + 1));
                assert(entry_views(v) + Seq::<(Seq<char>, (PropertyType, Seq<char>))>::empty()
                    =~= entry_views(v));
            }
            return Some((v, i + 1));
        } else if inp[i] == ',' {
            proof {
                assert(here.drop_first() =~= inp@.skip(i + 1));
            }
            let (e, q) = match read_entry(inp, i + 1) {
                Some(x) => x,
                None => return None,
            };
            let ghost before = entry_views(v);
            let ghost ev = (e.0@, property_view(e.1));
            v.push(e);
            proof {
                assert(entry_views(v) =~= before.push(ev));
                assert forall|t: Seq<(Seq<char>, (PropertyType, Seq<char>))>|
                    before + (seq![ev] + t) == #[trigger] (before.push(ev) + t) by {
                    assert(before + (seq![ev] + t) =~= before.push(ev) + t);
                }
            }
            i = q;
        } else {
            return None;
        }
    }
    proof {
        assert(inp@.skip(i as int).len() == 0);
    }
    None
}

/// Reads the items of the required array after its `[`, and its `]`.
fn read_names(inp: &Vec<char>, p: usize) -> (r: Option<(Vec<String>, usize)>)
    requires
        p <= inp@.len(),
    ensures
        match r {
            Some((v, q)) => p < q <= inp@.len() && parse_names(inp@.skip(p as int)) == Some(
                (names(v), inp@.skip(q as int)),
            ),
            None => parse_names(inp@.skip(p as int)) is None,
        },
{
    let mut v: Vec<String> = Vec::new();
    if p < inp.len() && inp[p] == ']' {
        proof {
            assert(inp@.skip(p as int).drop_first() =~= inp@.skip(p + 1));
            assert(names(v) =~= Seq::<Seq<char>>::empty());
        }
        return Some((v, p + 1));
    }
    let (first, q) = match read_string(inp, p) {
        Some(x) => x,
        None => return None,
    };
    v.push(first);
    proof {
        assert(names(v) =~= seq![v@[0]@]);
    }
    let mut i: usize = q;
    while i < inp.len()
        invariant
            p < i <= inp@.len(),
            parse_names(inp@.skip(p as int)) == cons_all(names(v), parse_more_names(inp@.skip(i as int))),
        decreases inp@.len() - i,
    {
        let ghost here = inp@.skip(i as int);
        if inp[i] == ']' {
            proof {
                assert(here.drop_first() =~= inp@.skip(i + 1));
                assert(names(v) + Seq::<Seq<char>>::empty() =~= names(v));
            }
            return Some((v, i + 1));
        } else if inp[i] == ',' {
            proof {
                assert(here.drop_first() =~= inp@.skip(i + 1));
            }
            let (n, q) = match read_string(inp, i + 1) {
                Some(x) => x,
                None => return None,
            };
            let ghost before = names(v);
            let ghost nv = n@;
            v.push(n);
            proof {
                assert(names(v) =~= before.push(nv));
                assert forall|t: Seq<Seq<char>>| before + (seq![nv] + t) == #[trigger] (before.push(nv) + t) by {
                    assert(before + (seq![nv] + t) =~= before.push(nv) + t);
                }
            }
            i = q;
        } else {
            return None;
        }
    }
    proof {
        assert(inp@.skip(i as int).len() == 0);
    }
    None
}

proof fn lemma_whole(lit: Seq<char>, r: Seq<char>)
    ensures
        (r == lit) <==> (after(lit, r) == Some(Seq::<char>::empty())),
{
    if r == lit {
        assert(r.take(lit.len() as int) =~= lit);
        assert(r.skip(lit.len() as int) =~= Seq::<char>::empty());
    }
    if after(lit, r) == Some(Seq::<char>::empty()) {
        assert(r =~= r.take(lit.len() as int) + r.skip(lit.len() as int));
        assert(r =~= lit);
    }
}

impl Tool {
    /// Reads a descriptor from JSON text written as `to_json` writes it;
    /// any other text gives `None`.
    pub fn from_json(text: &str) -> (r: Option<Tool>)
        ensures
            match r {
                Some(t) => parse_tool(text@) == Some(tool_value(t)),
                None => parse_tool(text@) is None,
            },
    {
        let inp = chars_of(text);
        proof {
            assert(inp@.skip(0) =~= text@);
        }
        let q0 = match expect(&inp, 0, "{\"type\":") {
            Some(q) => q,
            None => return None,
        };
        let (tool_type, q1) = match read_string(&inp, q0) {
            Some(x) => x,
            None => return None,
        };
        let q2 = match expect(&inp, q1, ",\"function\":{\"name\":") {
            Some(q) => q,
            None => return None,
        };
        let (name, q3) = match read_string(&inp, q2) {
            Some(x) => x,
            None => return None,
        };
        let q4 = match expect(&inp, q3, ",\"description\":") {
            Some(q) => q,
            None => return None,
        };
        let (description, q5) = match read_string(&inp, q4) {
            Some(x) => x,
            None => return None,
        };
        let q6 = match expect(&inp, q5, ",\"parameters\":{\"type\":") {
            Some(q) => q,
            None => return None,
        };
        let (parameter_type, q7) = match read_string(&inp, q6) {
            Some(x) => x,
            None => return None,
        };
        let q8 = match expect(&inp, q7, ",\"properties\":{") {
            Some(q) => q,
            None => return None,
        };
        let (entries, q9) = match read_entries(&inp, q8) {
            Some(x) => x,
            None => return None,
        };
        let q10 = match expect(&inp, q9, ",\"required\":[") {
            Some(q) => q,
            None => return None,
        };
        let (required, q11) = match read_names(&inp, q10) {
            Some(x) => x,
            None => return None,
        };
        proof {
            lemma_whole("}}}"@, inp@.skip(q11 as int));
        }
        match expect(&inp, q11, "}}}") {
            Some(q) => if q != inp.len() {
                proof {
                    assert(inp@.skip(q as int).len() > 0);
                }
                return None;
            },
            None => return None,
        }
        proof {
            assert(inp@.skip(inp@.len() as int) =~= Seq::<char>::empty());
        }
        let properties = Properties::from_entries(entries);
        Some(
            Tool {
                tool_type,
                function: Function {
                    name,
                    description,
                    parameters: Parameter { parameter_type, properties, required },
                },
            },
        )
    }
}

} // verus!
