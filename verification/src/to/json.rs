//! The JSON writer: a recursive renderer producing tab-indented text, and an
//! inline mode that strips the indentation characters, specified character by
//! character.
use crate::text::chars_to_string;
use crate::value::{Value, ValueModel};
use crate::value_key::key_chars;
use vstd::prelude::*;

verus! {

/// The JSON output format: indented with tabs and newlines, or inline.
pub enum JsonMode {
    Indented,
    Inline,
}

/// A run of tab characters.
pub open spec fn tabs_model(n: nat) -> Seq<char>
    decreases n,
{
    if n == 0 {
        Seq::empty()
    } else {
        tabs_model((n - 1) as nat).push('\t')
    }
}

/// The writer's string escaping from a position on: a backslash goes in
/// before every quote whose preceding character is not already a backslash;
/// nothing else is escaped.
pub open spec fn escape_at(s: Seq<char>, i: int) -> Seq<char>
    decreases s.len() - i,
{
    if i < 0 || i >= s.len() {
        Seq::empty()
    } else if s[i] == '"' && (i == 0 || s[i - 1] != '\\') {
        seq!['\\', '"'] + escape_at(s, i + 1)
    } else {
        seq![s[i]] + escape_at(s, i + 1)
    }
}

/// The writer's string escaping.
pub open spec fn escape(s: Seq<char>) -> Seq<char> {
    escape_at(s, 0)
}

/// The indented JSON text of a value at a nesting depth.
pub open spec fn render(m: ValueModel, depth: nat) -> Seq<char>
    decreases m,
{
    match m {
        ValueModel::Text(s) => seq!['"'] + escape(s) + seq!['"'],
        ValueModel::Num(n) => n.chars_of(),
        ValueModel::Flag(b) => if b {
            seq!['t', 'r', 'u', 'e']
        } else {
            seq!['f', 'a', 'l', 's', 'e']
        },
        ValueModel::Nothing => seq!['n', 'u', 'l', 'l'],
        ValueModel::Missing => seq!['u', 'n', 'd', 'e', 'f', 'i', 'n', 'e', 'd'],
        ValueModel::Moment(d) => seq!['"'] + crate::datetime::dt_display_chars(d) + seq!['"'],
        ValueModel::List(items) => seq!['[', '\n', '\t'] + tabs_model(depth) + render_items(
            items,
            depth,
        ) + seq!['\n'] + tabs_model(depth) + seq![']'],
        ValueModel::Record(o) => seq!['{'] + render_entries(o.entries, depth) + seq!['\n']
            + tabs_model(depth) + seq!['}'],
    }
}

/// The items of an array, rendered one deeper and joined by a comma, a line
/// break and the indentation.
pub open spec fn render_items(items: Seq<ValueModel>, depth: nat) -> Seq<char>
    decreases items,
{
    if items.len() == 0 {
        Seq::empty()
    } else if items.len() == 1 {
        render(items[0], depth + 1)
    } else {
        render_items(items.drop_last(), depth) + seq![',', '\n', '\t'] + tabs_model(depth)
            + render(items.last(), depth + 1)
    }
}

/// One object entry: a line break, the indentation, the quoted key, a colon
/// and the value one deeper.
pub open spec fn render_entry(
    entry: (crate::value_key::KeyModel, ValueModel),
    depth: nat,
) -> Seq<char>
    decreases entry,
{
    seq!['\n', '\t'] + tabs_model(depth) + seq!['"'] + key_chars(entry.0) + seq!['"', ':', ' ']
        + render(entry.1, depth + 1)
}

/// The entries of an object, joined by commas.
pub open spec fn render_entries(
    entries: Seq<(crate::value_key::KeyModel, ValueModel)>,
    depth: nat,
) -> Seq<char>
    decreases entries,
{
    if entries.len() == 0 {
        Seq::empty()
    } else if entries.len() == 1 {
        render_entry(entries[0], depth)
    } else {
        render_entries(entries.drop_last(), depth) + seq![','] + render_entry(
            entries.last(),
            depth,
        )
    }
}

/// The inline form: the indented text with every newline and tab removed,
/// wherever it stands.
pub open spec fn inline_chars(s: Seq<char>) -> Seq<char>
    decreases s.len(),
{
    if s.len() == 0 {
        Seq::empty()
    } else if s.last() == '\n' || s.last() == '\t' {
        inline_chars(s.drop_last())
    } else {
        inline_chars(s.drop_last()).push(s.last())
    }
}

/// Appends one vector of characters to another.
pub fn push_chars(out: &mut Vec<char>, add: &Vec<char>)
    ensures
        final(out)@ == old(out)@ + add@,
{
    let ghost out0 = out@;
    let mut i: usize = 0;
    while i < add.len()
        invariant
            0 <= i <= add@.len(),
            out@ == out0 + add@.subrange(0, i as int),
        decreases add@.len() - i,
    {
        out.push(add[i]);
        assert(out@ =~= out0 + add@.subrange(0, i + 1int));
        i = i + 1;
    }
    assert(out@ =~= out0 + add@);
}

/// Appends a string's characters.
pub fn push_text(out: &mut Vec<char>, add: &str)
    ensures
        final(out)@ == old(out)@ + add@,
{
    let chars = crate::text::str_to_chars(add);
    push_chars(out, &chars);
}

/// Appends the escaped form of a text, as `escape` describes.
fn push_escaped(out: &mut Vec<char>, s: &Vec<char>)
    ensures
        final(out)@ == old(out)@ + escape(s@),
{
    let ghost out0 = out@;
    let mut i: usize = 0;
    while i < s.len()
        invariant
            0 <= i <= s@.len(),
            out0 + escape(s@) == out@ + escape_at(s@, i as int),
        decreases s@.len() - i,
    {
        let c = s[i];
        let ghost before = out@;
        if c == '"' && (i == 0 || s[i - 1] != '\\') {
            out.push('\\');
            out.push('"');
            proof {
                assert(out@ =~= before + seq!['\\', '"']);
                assert(escape_at(s@, i as int) == seq!['\\', '"'] + escape_at(s@, i + 1int));
                assert(out@ + escape_at(s@, i + 1int) =~= before + escape_at(s@, i as int));
            }
        } else {
            out.push(c);
            proof {
                assert(out@ =~= before + seq![c]);
                assert(escape_at(s@, i as int) == seq![c] + escape_at(s@, i + 1int));
                assert(out@ + escape_at(s@, i + 1int) =~= before + escape_at(s@, i as int));
            }
        }
        i = i + 1;
    }
    assert(escape_at(s@, s@.len() as int) =~= Seq::<char>::empty());
    assert(out@ =~= out@ + escape_at(s@, s@.len() as int));
}

/// Renders a value as indented JSON characters.
pub fn render_value(v: &Value, indent: &Vec<char>) -> (r: Vec<char>)
    requires
        indent@ == tabs_model(indent@.len() as nat),
    ensures
        r@ == render(v@, indent@.len() as nat),
    decreases *v,
{
    broadcast use crate::value::lemma_array_model_len, crate::value::lemma_array_model_index,
        crate::value::lemma_entries_model_len, crate::value::lemma_entries_model_index;

    let mut out: Vec<char> = Vec::new();
    match v {
        Value::String(s) => {
            let chars = crate::text::str_to_chars(s.value.as_str());
            out.push('"');
            push_escaped(&mut out, &chars);
            out.push('"');
            assert(out@ =~= render(v@, indent@.len() as nat));
        },
        Value::Number(n) => {
            let text = n.as_string();
            push_text(&mut out, text.as_str());
            assert(out@ =~= render(v@, indent@.len() as nat));
        },
        Value::Boolean(b) => {
            if *b {
                out.push('t');
                out.push('r');
                out.push('u');
                out.push('e');
            } else {
                out.push('f');
                out.push('a');
                out.push('l');
                out.push('s');
                out.push('e');
            }
            assert(out@ =~= render(v@, indent@.len() as nat));
        },
        Value::Null => {
            out.push('n');
            out.push('u');
            out.push('l');
            out.push('l');
            assert(out@ =~= render(v@, indent@.len() as nat));
        },
        Value::Undefined => {
            out.push('u');
            out.push('n');
            out.push('d');
            out.push('e');
            out.push('f');
            out.push('i');
            out.push('n');
            out.push('e');
            out.push('d');
            assert(out@ =~= render(v@, indent@.len() as nat));
        },
        Value::DateTime(d) => {
            out.push('"');
            let chars = d.display_chars();
            push_chars(&mut out, &chars);
            out.push('"');
            assert(out@ =~= render(v@, indent@.len() as nat));
        },
        Value::Array(a) => {
            out.push('[');
            out.push('\n');
            out.push('\t');
            push_chars(&mut out, indent);
            let items_chars = render_list(&a.values, indent);
            push_chars(&mut out, &items_chars);
            out.push('\n');
            push_chars(&mut out, indent);
            out.push(']');
            assert(out@ =~= render(v@, indent@.len() as nat));
        },
        Value::Object(o) => {
            out.push('{');
            let entries_chars = render_record(&o.entries, indent);
            push_chars(&mut out, &entries_chars);
            out.push('\n');
            push_chars(&mut out, indent);
            out.push('}');
            assert(out@ =~= render(v@, indent@.len() as nat));
        },
    }
    out
}


/// Renders the items of an array, joined as `render_items` describes.
fn render_list(values: &Vec<Value>, indent: &Vec<char>) -> (r: Vec<char>)
    requires
        indent@ == tabs_model(indent@.len() as nat),
    ensures
        r@ == render_items(crate::value::array_model(values@), indent@.len() as nat),
    decreases *values,
{
    broadcast use crate::value::lemma_array_model_len, crate::value::lemma_array_model_index;

    let ghost items = crate::value::array_model(values@);
    let mut out: Vec<char> = Vec::new();
    assert(items.take(0) =~= Seq::<ValueModel>::empty());
    let mut deeper = indent.clone();
    deeper.push('\t');
    assert(deeper@ =~= tabs_model(indent@.len() + 1));
    let mut i: usize = 0;
    while i < values.len()
        invariant
            0 <= i <= values@.len(),
            items == crate::value::array_model(values@),
            items.len() == values@.len(),
            forall|m: int|
                0 <= m < values@.len() ==> #[trigger] items[m] == crate::value::value_model(
                    values@[m],
                ),
            deeper@ == tabs_model(indent@.len() + 1),
            deeper@.len() == indent@.len() + 1,
            indent@ == tabs_model(indent@.len() as nat),
            out@ == render_items(items.take(i as int), indent@.len() as nat),
        decreases values@.len() - i,
    {
        if i > 0 {
            out.push(',');
            out.push('\n');
            out.push('\t');
            push_chars(&mut out, indent);
        }
        let piece = render_value(&values[i], &deeper);
        push_chars(&mut out, &piece);
        proof {
            let pre = items.take(i as int);
            let now = items.take(i + 1int);
            assert(now.drop_last() =~= pre);
            assert(now.last() == items[i as int]);
            if i == 0 {
                assert(now.len() == 1);
                assert(out@ =~= render_items(now, indent@.len() as nat));
            } else {
                assert(out@ =~= render_items(pre, indent@.len() as nat) + seq![',', '\n', '\t']
                    + tabs_model(indent@.len() as nat) + render(
                    items[i as int],
                    indent@.len() as nat + 1,
                ));
            }
        }
        i = i + 1;
    }
    proof {
        assert(items.take(items.len() as int) =~= items);
    }
    out
}

/// Renders the entries of an object, joined as `render_entries` describes.
fn render_record(entries: &Vec<(crate::value_key::ValueKey, Value)>, indent: &Vec<char>) -> (r:
    Vec<char>)
    requires
        indent@ == tabs_model(indent@.len() as nat),
    ensures
        r@ == render_entries(crate::value::entries_model(entries@), indent@.len() as nat),
    decreases *entries,
{
    broadcast use crate::value::lemma_entries_model_len, crate::value::lemma_entries_model_index;

    let ghost ems = crate::value::entries_model(entries@);
    let mut out: Vec<char> = Vec::new();
    assert(ems.take(0) =~= Seq::<(crate::value_key::KeyModel, ValueModel)>::empty());
    let mut deeper = indent.clone();
    deeper.push('\t');
    assert(deeper@ =~= tabs_model(indent@.len() + 1));
    let mut i: usize = 0;
    while i < entries.len()
        invariant
            0 <= i <= entries@.len(),
            ems == crate::value::entries_model(entries@),
            ems.len() == entries@.len(),
            forall|m: int|
                0 <= m < entries@.len() ==> #[trigger] ems[m] == (
                    entries@[m].0@,
                    crate::value::value_model(entries@[m].1),
                ),
            deeper@ == tabs_model(indent@.len() + 1),
            deeper@.len() == indent@.len() + 1,
            indent@ == tabs_model(indent@.len() as nat),
            out@ == render_entries(ems.take(i as int), indent@.len() as nat),
        decreases entries@.len() - i,
    {
        if i > 0 {
            out.push(',');
        }
        let ghost before = out@;
        out.push('\n');
        out.push('\t');
        push_chars(&mut out, indent);
        out.push('"');
        let key_text = entries[i].0.as_string_b();
        push_text(&mut out, key_text.value.as_str());
        out.push('"');
        out.push(':');
        out.push(' ');
        let piece = render_value(&entries[i].1, &deeper);
        push_chars(&mut out, &piece);
        proof {
            let pre = ems.take(i as int);
            let now = ems.take(i + 1int);
            assert(now.drop_last() =~= pre);
            assert(now.last() == ems[i as int]);
            assert(out@ =~= before + render_entry(ems[i as int], indent@.len() as nat));
            if i == 0 {
                assert(out@ =~= render_entries(now, indent@.len() as nat));
            } else {
                assert(out@ =~= render_entries(pre, indent@.len() as nat) + seq![',']
                    + render_entry(ems[i as int], indent@.len() as nat));
            }
        }
        i = i + 1;
    }
    proof {
        assert(ems.take(ems.len() as int) =~= ems);
    }
    out
}

/// Removes every newline and tab, as `inline_chars` describes.
pub fn strip_inline(s: &Vec<char>) -> (r: Vec<char>)
    ensures
        r@ == inline_chars(s@),
{
    let mut out: Vec<char> = Vec::new();
    let mut i: usize = 0;
    while i < s.len()
        invariant
            0 <= i <= s@.len(),
            out@ == inline_chars(s@.take(i as int)),
        decreases s@.len() - i,
    {
        let c = s[i];
        proof {
            assert(s@.take(i + 1int).drop_last() =~= s@.take(i as int));
            assert(s@.take(i + 1int).last() == c);
        }
        if c != '\n' && c != '\t' {
            out.push(c);
        }
        i = i + 1;
    }
    proof {
        assert(s@.take(s@.len() as int) =~= s@);
    }
    out
}

impl Value {
    /// The JSON text of the value: indented, or inline with the indentation
    /// characters removed.
    pub fn to_json(&self, mode: JsonMode) -> (r: String)
        ensures
            match mode {
                JsonMode::Indented => r@ == render(self@, 0),
                JsonMode::Inline => r@ == inline_chars(render(self@, 0)),
            },
    {
        let indent: Vec<char> = Vec::new();
        assert(indent@ =~= tabs_model(0));
        let chars = render_value(self, &indent);
        match mode {
            JsonMode::Indented => chars_to_string(&chars),
            JsonMode::Inline => {
                let stripped = strip_inline(&chars);
                chars_to_string(&stripped)
            },
        }
    }

    /// A run of tab characters for a nesting depth.
    pub fn tabs(total: i32) -> (r: String)
        requires
            total >= 0,
        ensures
            r@ == tabs_model(total as nat),
    {
        let mut out: Vec<char> = Vec::new();
        let mut i: i32 = 0;
        while i < total
            invariant
                0 <= i <= total,
                out@ == tabs_model(i as nat),
            decreases total - i,
        {
            out.push('\t');
            i = i + 1;
        }
        chars_to_string(&out)
    }
}

} // verus!
