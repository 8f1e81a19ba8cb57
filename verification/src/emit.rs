//! Serializes a document value to pretty-printed source text.
//!
//! The emitter distinguishes quoted string values from bare code
//! references (`Json::Raw`), so a generated configuration source file
//! can hold an identifier where a plain serializer could only place a
//! quoted string.

use vstd::prelude::*;

use crate::json::{Json, JsonV};
use crate::text::{push_char, push_str};

verus! {

broadcast use vstd::std_specs::vec::axiom_vec_index_decreases;

/// The character for a single hexadecimal digit.
pub open spec fn hex_char(d: nat) -> char {
    if d == 0 {
        '0'
    } else if d == 1 {
        '1'
    } else if d == 2 {
        '2'
    } else if d == 3 {
        '3'
    } else if d == 4 {
        '4'
    } else if d == 5 {
        '5'
    } else if d == 6 {
        '6'
    } else if d == 7 {
        '7'
    } else if d == 8 {
        '8'
    } else if d == 9 {
        '9'
    } else if d == 10 {
        'a'
    } else if d == 11 {
        'b'
    } else if d == 12 {
        'c'
    } else if d == 13 {
        'd'
    } else if d == 14 {
        'e'
    } else {
        'f'
    }
}

/// The character for a single decimal digit.
pub open spec fn digit_char(d: nat) -> char {
    hex_char(d % 10)
}

/// The decimal numeral of `n`, most significant digit first.
pub open spec fn dec_rep(n: nat) -> Seq<char>
    decreases n,
{
    if n < 10 {
        seq![digit_char(n)]
    } else {
        dec_rep(n / 10) + seq![digit_char(n % 10)]
    }
}

/// How one character appears inside a quoted JSON string.
pub open spec fn escape_char(c: char) -> Seq<char> {
    if c == '"' {
        seq!['\\', '"']
    } else if c == '\\' {
        seq!['\\', '\\']
    } else if c == '\n' {
        seq!['\\', 'n']
    } else if c == '\r' {
        seq!['\\', 'r']
    } else if c == '\t' {
        seq!['\\', 't']
    } else if (c as u32) < 32 {
        seq!['\\', 'u', '0', '0', hex_char((c as u32) as nat / 16), hex_char(
            (c as u32) as nat % 16,
        )]
    } else {
        seq![c]
    }
}

/// How a whole character sequence appears inside a quoted JSON string.
pub open spec fn escape(s: Seq<char>) -> Seq<char>
    decreases s,
{
    if s.len() == 0 {
        Seq::empty()
    } else {
        escape_char(s[0]) + escape(s.drop_first())
    }
}

/// The text of a document value.  `pad` is the indentation already in
/// force on the line where the value starts; nested lines grow by two
/// spaces.
pub open spec fn render(v: JsonV, pad: Seq<char>) -> Seq<char>
    decreases v, 0int,
{
    match v {
        JsonV::Null => "null"@,
        JsonV::Bool(b) => if b {
            "true"@
        } else {
            "false"@
        },
        JsonV::Num(n) => dec_rep(n as nat),
        JsonV::Str(s) => seq!['"'] + escape(s) + seq!['"'],
        JsonV::Raw(s) => s,
        JsonV::Arr(items) => if items.len() == 0 {
            "[]"@
        } else {
            "[\n"@ + render_items(items, pad + "  "@) + "\n"@ + pad + "]"@
        },
        JsonV::Obj(entries) => if entries.len() == 0 {
            "{}"@
        } else {
            "{\n"@ + render_entries(entries, pad + "  "@) + "\n"@ + pad + "}"@
        },
    }
}

/// One array element on its own line.
pub open spec fn render_item(v: JsonV, pad: Seq<char>) -> Seq<char>
    decreases v, 1int,
{
    pad + render(v, pad)
}

/// The lines of a non-empty array body, separated by commas.
pub open spec fn render_items(items: Seq<JsonV>, pad: Seq<char>) -> Seq<char>
    decreases items, 2int,
{
    if items.len() == 0 {
        Seq::empty()
    } else if items.len() == 1 {
        render_item(items[0], pad)
    } else {
        render_item(items[0], pad) + ",\n"@ + render_items(items.drop_first(), pad)
    }
}

/// One object entry on its own line.
pub open spec fn render_entry(e: (Seq<char>, JsonV), pad: Seq<char>) -> Seq<char>
    decreases e, 1int,
{
    pad + seq!['"'] + escape(e.0) + "\": "@ + render(e.1, pad)
}

/// The lines of a non-empty object body, separated by commas.
pub open spec fn render_entries(entries: Seq<(Seq<char>, JsonV)>, pad: Seq<char>) -> Seq<char>
    decreases entries, 2int,
{
    if entries.len() == 0 {
        Seq::empty()
    } else if entries.len() == 1 {
        render_entry(entries[0], pad)
    } else {
        render_entry(entries[0], pad) + ",\n"@ + render_entries(entries.drop_first(), pad)
    }
}

/// Appending an element renders as the body so far, a separator when
/// one is owed, and the element's own line.
proof fn lemma_render_items_snoc(items: Seq<JsonV>, x: JsonV, pad: Seq<char>)
    ensures
        render_items(items.push(x), pad) == if items.len() == 0 {
            render_item(x, pad)
        } else {
            render_items(items, pad) + ",\n"@ + render_item(x, pad)
        },
    decreases items,
{
    let p = items.push(x);
    if items.len() == 0 {
        assert(p.len() == 1);
        assert(p[0] == x);
    } else {
        assert(p[0] == items[0]);
        assert(p.drop_first() =~= items.drop_first().push(x));
        lemma_render_items_snoc(items.drop_first(), x, pad);
        if items.len() == 1 {
            assert(render_items(p, pad) == render_item(p[0], pad) + ",\n"@ + render_items(
                p.drop_first(),
                pad,
            ));
            assert(render_items(p.drop_first(), pad) == render_item(x, pad));
        } else {
            assert(render_items(items, pad) + ",\n"@ + render_item(x, pad) =~= render_item(
                items[0],
                pad,
            ) + ",\n"@ + (render_items(items.drop_first(), pad) + ",\n"@ + render_item(x, pad)));
        }
    }
}

/// Appending an entry renders as the body so far, a separator when one
/// is owed, and the entry's own line.
proof fn lemma_render_entries_snoc(
    entries: Seq<(Seq<char>, JsonV)>,
    x: (Seq<char>, JsonV),
    pad: Seq<char>,
)
    ensures
        render_entries(entries.push(x), pad) == if entries.len() == 0 {
            render_entry(x, pad)
        } else {
            render_entries(entries, pad) + ",\n"@ + render_entry(x, pad)
        },
    decreases entries,
{
    let p = entries.push(x);
    if entries.len() == 0 {
        assert(p.len() == 1);
        assert(p[0] == x);
    } else {
        assert(p[0] == entries[0]);
        assert(p.drop_first() =~= entries.drop_first().push(x));
        lemma_render_entries_snoc(entries.drop_first(), x, pad);
        if entries.len() == 1 {
            assert(render_entries(p.drop_first(), pad) == render_entry(x, pad));
        } else {
            assert(render_entries(entries, pad) + ",\n"@ + render_entry(x, pad) =~= render_entry(
                entries[0],
                pad,
            ) + ",\n"@ + (render_entries(entries.drop_first(), pad) + ",\n"@ + render_entry(
                x,
                pad,
            )));
        }
    }
}

/// Escaping distributes over appending one character.
proof fn lemma_escape_snoc(s: Seq<char>, c: char)
    ensures
        escape(s.push(c)) == escape(s) + escape_char(c),
    decreases s,
{
    let p = s.push(c);
    if s.len() == 0 {
        assert(p.drop_first() =~= Seq::<char>::empty());
        assert(escape(Seq::<char>::empty()) == Seq::<char>::empty());
        assert(escape(p) =~= escape_char(c));
        assert(escape(s) + escape_char(c) =~= escape_char(c));
    } else {
        assert(p[0] == s[0]);
        assert(p.drop_first() =~= s.drop_first().push(c));
        lemma_escape_snoc(s.drop_first(), c);
        assert(escape(p) == escape_char(s[0]) + (escape(s.drop_first()) + escape_char(c)));
        assert(escape_char(s[0]) + (escape(s.drop_first()) + escape_char(c)) =~= (escape_char(
            s[0],
        ) + escape(s.drop_first())) + escape_char(c));
    }
}

fn hex_char_exec(d: u32) -> (r: char)
    requires
        d < 16,
    ensures
        r == hex_char(d as nat),
{
    match d {
        0 => '0',
        1 => '1',
        2 => '2',
        3 => '3',
        4 => '4',
        5 => '5',
        6 => '6',
        7 => '7',
        8 => '8',
        9 => '9',
        10 => 'a',
        11 => 'b',
        12 => 'c',
        13 => 'd',
        14 => 'e',
        _ => 'f',
    }
}

/// Appends the escaped form of one string-literal character.
fn write_escaped_char(c: char, out: &mut String)
    ensures
        final(out)@ == old(out)@ + escape_char(c),
{
    if c == '"' {
        push_str(out, "\\\"");
        proof {
            reveal_strlit("\\\"");
            assert(old(out)@ + "\\\""@ =~= old(out)@ + escape_char(c));
        }
    } else if c == '\\' {
        push_str(out, "\\\\");
        proof {
            reveal_strlit("\\\\");
            assert(old(out)@ + "\\\\"@ =~= old(out)@ + escape_char(c));
        }
    } else if c == '\n' {
        push_str(out, "\\n");
        proof {
            reveal_strlit("\\n");
            assert(old(out)@ + "\\n"@ =~= old(out)@ + escape_char(c));
        }
    } else if c == '\r' {
        push_str(out, "\\r");
        proof {
            reveal_strlit("\\r");
            assert(old(out)@ + "\\r"@ =~= old(out)@ + escape_char(c));
        }
    } else if c == '\t' {
        push_str(out, "\\t");
        proof {
            reveal_strlit("\\t");
            assert(old(out)@ + "\\t"@ =~= old(out)@ + escape_char(c));
        }
    } else if (c as u32) < 32 {
        let u = c as u32;
        push_str(out, "\\u00");
        push_char(out, hex_char_exec(u / 16));
        push_char(out, hex_char_exec(u % 16));
        proof {
            reveal_strlit("\\u00");
            assert(old(out)@ + "\\u00"@ + seq![hex_char((u / 16) as nat)] + seq![hex_char(
                (u % 16) as nat,
            )] =~= old(out)@ + escape_char(c));
        }
    } else {
        push_char(out, c);
        proof {
            assert(old(out)@.push(c) =~= old(out)@ + escape_char(c));
        }
    }
}

/// Appends the escaped form of a whole string literal's content.
fn write_escaped(s: &str, out: &mut String)
    ensures
        final(out)@ == old(out)@ + escape(s@),
{
    let n = s.unicode_len();
    for i in 0..n
        invariant
            n == s@.len(),
            out@ == old(out)@ + escape(s@.take(i as int)),
    {
        let c = s.get_char(i);
        write_escaped_char(c, out);
        proof {
            assert(s@.take(i + 1) =~= s@.take(i as int).push(c));
            lemma_escape_snoc(s@.take(i as int), c);
            assert(old(out)@ + escape(s@.take(i as int)) + escape_char(c) =~= old(out)@ + (escape(
                s@.take(i as int),
            ) + escape_char(c)));
        }
    }
    proof {
        assert(s@.take(n as int) =~= s@);
    }
}

/// Appends the decimal numeral of `n`.
fn write_num(n: u64, out: &mut String)
    ensures
        final(out)@ == old(out)@ + dec_rep(n as nat),
    decreases n,
{
    if n >= 10 {
        proof {
            assert(n / 10 < n) by (nonlinear_arith)
                requires
                    n >= 10,
            ;
        }
        write_num(n / 10, out);
        push_char(out, hex_char_exec((n % 10) as u32));
        proof {
            assert((n % 10) as u32 % 10 == n as nat % 10);
            assert(old(out)@ + dec_rep((n / 10) as nat) + seq![digit_char(n as nat % 10)]
                =~= old(out)@ + dec_rep(n as nat));
        }
    } else {
        push_char(out, hex_char_exec((n % 10) as u32));
        proof {
            assert(old(out)@.push(digit_char(n as nat)) =~= old(out)@ + dec_rep(n as nat));
        }
    }
}

/// Appends the text of a document value.
fn write_json(j: &Json, pad: &str, out: &mut String)
    ensures
        final(out)@ == old(out)@ + render(j@, pad@),
    decreases *j,
{
    match j {
        Json::Null => {
            push_str(out, "null");
        },
        Json::Bool(b) => {
            if *b {
                push_str(out, "true");
            } else {
                push_str(out, "false");
            }
        },
        Json::Num(n) => {
            write_num(*n, out);
        },
        Json::Str(s) => {
            push_char(out, '"');
            write_escaped(s.as_str(), out);
            push_char(out, '"');
            proof {
                assert(old(out)@.push('"') + escape(s@) + seq!['"'] =~= old(out)@ + (seq!['"']
                    + escape(s@) + seq!['"']));
            }
        },
        Json::Raw(s) => {
            push_str(out, s.as_str());
        },
        Json::Arr(items) => {
            if items.len() == 0 {
                push_str(out, "[]");
            } else {
                let mut cp = pad.to_owned();
                push_str(&mut cp, "  ");
                push_str(out, "[\n");
                write_array_body(items, cp.as_str(), out);
                push_str(out, "\n");
                push_str(out, pad);
                push_str(out, "]");
                proof {
                    crate::json::lemma_view_items(items@);
                    assert(old(out)@ + "[\n"@ + render_items(crate::json::view_items(items@), pad@
                        + "  "@) + "\n"@ + pad@ + "]"@ =~= old(out)@ + render(j@, pad@));
                }
            }
        },
        Json::Obj(entries) => {
            if entries.len() == 0 {
                push_str(out, "{}");
            } else {
                let mut cp = pad.to_owned();
                push_str(&mut cp, "  ");
                push_str(out, "{\n");
                write_obj_body(entries, cp.as_str(), out);
                push_str(out, "\n");
                push_str(out, pad);
                push_str(out, "}");
                proof {
                    crate::json::lemma_view_entries(entries@);
                    assert(old(out)@ + "{\n"@ + render_entries(
                        crate::json::view_entries(entries@),
                        pad@ + "  "@,
                    ) + "\n"@ + pad@ + "}"@ =~= old(out)@ + render(j@, pad@));
                }
            }
        },
    }
}

/// Appends the comma-separated lines of a non-empty array body.
fn write_array_body(items: &Vec<Json>, pad: &str, out: &mut String)
    requires
        items@.len() > 0,
    ensures
        final(out)@ == old(out)@ + render_items(crate::json::view_items(items@), pad@),
    decreases *items,
{
    proof {
        crate::json::lemma_view_items(items@);
    }
    let ghost vs = crate::json::view_items(items@);
    let n = items.len();
    for i in 0..n
        invariant
            n == items@.len(),
            vs == crate::json::view_items(items@),
            vs.len() == n,
            forall|k: int| 0 <= k < n ==> vs[k] == items@[k]@,
            out@ == old(out)@ + render_items(vs.take(i as int), pad@),
        decreases n - i,
    {
        if i > 0 {
            push_str(out, ",\n");
        }
        push_str(out, pad);
        write_json(&items[i], pad, out);
        proof {
            assert(vs.take(i + 1) =~= vs.take(i as int).push(vs[i as int]));
            lemma_render_items_snoc(vs.take(i as int), vs[i as int], pad@);
            if i > 0 {
                assert(out@ =~= old(out)@ + render_items(vs.take(i + 1), pad@));
            } else {
                assert(vs.take(0) =~= Seq::<JsonV>::empty());
                assert(out@ =~= old(out)@ + render_items(vs.take(i + 1), pad@));
            }
        }
    }
    proof {
        assert(vs.take(n as int) =~= vs);
    }
}

/// Appends the comma-separated lines of a non-empty object body.
fn write_obj_body(entries: &Vec<(String, Json)>, pad: &str, out: &mut String)
    requires
        entries@.len() > 0,
    ensures
        final(out)@ == old(out)@ + render_entries(crate::json::view_entries(entries@), pad@),
    decreases *entries,
{
    proof {
        crate::json::lemma_view_entries(entries@);
    }
    let ghost vs = crate::json::view_entries(entries@);
    let n = entries.len();
    for i in 0..n
        invariant
            n == entries@.len(),
            vs == crate::json::view_entries(entries@),
            vs.len() == n,
            forall|k: int| 0 <= k < n ==> vs[k] == ((#[trigger] entries@[k]).0@, entries@[k].1@),
            out@ == old(out)@ + render_entries(vs.take(i as int), pad@),
        decreases n - i,
    {
        if i > 0 {
            push_str(out, ",\n");
        }
        push_str(out, pad);
        push_char(out, '"');
        write_escaped(entries[i].0.as_str(), out);
        push_str(out, "\": ");
        write_json(&entries[i].1, pad, out);
        proof {
            assert(vs.take(i + 1) =~= vs.take(i as int).push(vs[i as int]));
            lemma_render_entries_snoc(vs.take(i as int), vs[i as int], pad@);
            assert(render_entry(vs[i as int], pad@) =~= pad@ + seq!['"'] + escape(
                entries@[i as int].0@,
            ) + "\": "@ + render(entries@[i as int].1@, pad@));
            if i > 0 {
                assert(out@ =~= old(out)@ + render_entries(vs.take(i + 1), pad@));
            } else {
                assert(vs.take(0) =~= Seq::<(Seq<char>, JsonV)>::empty());
                assert(out@ =~= old(out)@ + render_entries(vs.take(i + 1), pad@));
            }
        }
    }
    proof {
        assert(vs.take(n as int) =~= vs);
    }
}

impl Json {
    /// The pretty-printed text of the document, two-space indented.
    pub fn to_pretty_string(&self) -> (r: String)
        ensures
            r@ == render(self@, Seq::<char>::empty()),
    {
        let mut out = String::new();
        write_json(self, "", &mut out);
        proof {
            reveal_strlit("");
            assert(Seq::<char>::empty() + render(self@, ""@) =~= render(
                self@,
                Seq::<char>::empty(),
            ));
        }
        out
    }
}

} // verus!
