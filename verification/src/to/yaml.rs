//! The YAML writer: a recursive, two-space-indented emitter.
use crate::text::chars_to_string;
use crate::to::json::push_chars;
use crate::value::{Value, ValueModel};
use crate::value_key::key_chars;
use vstd::prelude::*;

verus! {

/// A run of space characters.
pub open spec fn spaces_model(n: nat) -> Seq<char>
    decreases n,
{
    if n == 0 {
        Seq::empty()
    } else {
        spaces_model((n - 1) as nat).push(' ')
    }
}

/// The YAML text of a value at an indentation width: scalars on one prefixed
/// line, sequences as dashed blocks, maps as key lines over deeper blocks.
pub open spec fn yaml_chars(m: ValueModel, indent: nat) -> Seq<char>
    decreases m,
{
    match m {
        ValueModel::Nothing => seq![' ', 'n', 'u', 'l', 'l', '\n'],
        ValueModel::Flag(b) => if b {
            seq![' ', 't', 'r', 'u', 'e', '\n']
        } else {
            seq![' ', 'f', 'a', 'l', 's', 'e', '\n']
        },
        ValueModel::Num(n) => seq![' '] + n.chars_of() + seq!['\n'],
        ValueModel::Text(s) => seq![' ', '"'] + s + seq!['"', '\n'],
        ValueModel::Missing => seq![' ', '~', '\n'],
        ValueModel::Moment(d) => seq![' '] + crate::datetime::dt_display_chars(d) + seq!['\n'],
        ValueModel::List(items) => seq!['\n'] + yaml_items(items, indent),
        ValueModel::Record(o) => {
            if indent > 0 {
                seq!['\n'] + yaml_entries(o.entries, indent)
            } else {
                yaml_entries(o.entries, indent)
            }
        },
    }
}

/// The items of a sequence: each a dash line, two deeper.
pub open spec fn yaml_items(items: Seq<ValueModel>, indent: nat) -> Seq<char>
    decreases items,
{
    if items.len() == 0 {
        Seq::empty()
    } else {
        yaml_items(items.drop_last(), indent) + seq![' ', '-'] + yaml_chars(
            items.last(),
            indent + 2,
        )
    }
}

/// The entries of a map: the indentation, the key, a colon and the value two
/// deeper.
pub open spec fn yaml_entries(
    entries: Seq<(crate::value_key::KeyModel, ValueModel)>,
    indent: nat,
) -> Seq<char>
    decreases entries,
{
    if entries.len() == 0 {
        Seq::empty()
    } else {
        yaml_entries(entries.drop_last(), indent) + spaces_model(indent) + key_chars(
            entries.last().0,
        ) + seq![':'] + yaml_chars(entries.last().1, indent + 2)
    }
}

/// Renders a value as YAML characters; the prefix carries the indentation.
fn yaml_value(v: &Value, prefix: &Vec<char>) -> (r: Vec<char>)
    requires
        prefix@ == spaces_model(prefix@.len() as nat),
    ensures
        r@ == yaml_chars(v@, prefix@.len() as nat),
    decreases *v,
{
    broadcast use crate::value::lemma_array_model_len, crate::value::lemma_array_model_index,
        crate::value::lemma_entries_model_len, crate::value::lemma_entries_model_index;

    let mut out: Vec<char> = Vec::new();
    match v {
        Value::Null => {
            out.push(' ');
            out.push('n');
            out.push('u');
            out.push('l');
            out.push('l');
            out.push('\n');
            assert(out@ =~= yaml_chars(v@, prefix@.len() as nat));
        },
        Value::Boolean(b) => {
            out.push(' ');
            if *b {
                out.push('t');
                out.push('r');
                out.push('u');
                out.push('e');
            } else {
                out.push('f');
                out.push('a');
                out.push('l');
                out.push('s');
                out.push('e');
            }
            out.push('\n');
            assert(out@ =~= yaml_chars(v@, prefix@.len() as nat));
        },
        Value::Number(n) => {
            out.push(' ');
            let text = n.as_string();
            crate::to::json::push_text(&mut out, text.as_str());
            out.push('\n');
            assert(out@ =~= yaml_chars(v@, prefix@.len() as nat));
        },
        Value::String(s) => {
            out.push(' ');
            out.push('"');
            crate::to::json::push_text(&mut out, s.value.as_str());
            out.push('"');
            out.push('\n');
            assert(out@ =~= yaml_chars(v@, prefix@.len() as nat));
        },
        Value::Undefined => {
            out.push(' ');
            out.push('~');
            out.push('\n');
            assert(out@ =~= yaml_chars(v@, prefix@.len() as nat));
        },
        Value::DateTime(d) => {
            out.push(' ');
            let chars = d.display_chars();
            push_chars(&mut out, &chars);
            out.push('\n');
            assert(out@ =~= yaml_chars(v@, prefix@.len() as nat));
        },
        Value::Array(a) => {
            out.push('\n');
            let items_chars = yaml_list(&a.values, prefix);
            push_chars(&mut out, &items_chars);
            assert(out@ =~= yaml_chars(v@, prefix@.len() as nat));
        },
        Value::Object(o) => {
            if prefix.len() > 0 {
                out.push('\n');
            }
            let entries_chars = yaml_record(&o.entries, prefix);
            push_chars(&mut out, &entries_chars);
            assert(out@ =~= yaml_chars(v@, prefix@.len() as nat));
        },
    }
    out
}


/// Renders the items of a sequence, as `yaml_items` describes.
fn yaml_list(values: &Vec<Value>, prefix: &Vec<char>) -> (r: Vec<char>)
    requires
        prefix@ == spaces_model(prefix@.len() as nat),
    ensures
        r@ == yaml_items(crate::value::array_model(values@), prefix@.len() as nat),
    decreases *values,
{
    broadcast use crate::value::lemma_array_model_len, crate::value::lemma_array_model_index;

    let ghost items = crate::value::array_model(values@);
    let mut out: Vec<char> = Vec::new();
    assert(items.take(0) =~= Seq::<ValueModel>::empty());
    let mut deeper = prefix.clone();
    deeper.push(' ');
    proof {
        assert(deeper@ =~= spaces_model(prefix@.len() + 1));
    }
    deeper.push(' ');
    assert(deeper@ =~= spaces_model(prefix@.len() + 2));
    let mut i: usize = 0;
    while i < values.len()
        invariant
            0 <= i <= values@.len(),
            items == crate::value::array_model(values@),
            items.len() == values@.len(),
            forall|m: int|
                0 <= m < values@.len() ==> #[trigger] items[m] == crate::value::value_model(
                    values@[m],
                ),
            deeper@ == spaces_model(prefix@.len() + 2),
            deeper@.len() == prefix@.len() + 2,
            prefix@ == spaces_model(prefix@.len() as nat),
            out@ == yaml_items(items.take(i as int), prefix@.len() as nat),
        decreases values@.len() - i,
    {
        out.push(' ');
        out.push('-');
        let piece = yaml_value(&values[i], &deeper);
        push_chars(&mut out, &piece);
        proof {
            let pre = items.take(i as int);
            let now = items.take(i + 1int);
            assert(now.drop_last() =~= pre);
            assert(now.last() == items[i as int]);
            assert(out@ =~= yaml_items(pre, prefix@.len() as nat) + seq![' ', '-'] + yaml_chars(
                items[i as int],
                prefix@.len() as nat + 2,
            ));
        }
        i = i + 1;
    }
    proof {
        assert(items.take(items.len() as int) =~= items);
    }
    out
}

/// Renders the entries of a map, as `yaml_entries` describes.
fn yaml_record(entries: &Vec<(crate::value_key::ValueKey, Value)>, prefix: &Vec<char>) -> (r: Vec<
    char,
>)
    requires
        prefix@ == spaces_model(prefix@.len() as nat),
    ensures
        r@ == yaml_entries(crate::value::entries_model(entries@), prefix@.len() as nat),
    decreases *entries,
{
    broadcast use crate::value::lemma_entries_model_len, crate::value::lemma_entries_model_index;

    let ghost ems = crate::value::entries_model(entries@);
    let mut out: Vec<char> = Vec::new();
    assert(ems.take(0) =~= Seq::<(crate::value_key::KeyModel, ValueModel)>::empty());
    let mut deeper = prefix.clone();
    deeper.push(' ');
    proof {
        assert(deeper@ =~= spaces_model(prefix@.len() + 1));
    }
    deeper.push(' ');
    assert(deeper@ =~= spaces_model(prefix@.len() + 2));
    let mut i: usize = 0;
    while i < entries.len()
        invariant
            0 <= i <= entries@.len(),
            ems == crate::value::entries_model(entries@),
            ems.len() == entries@.len(),
            forall|m: int|
                0 <= m < entries@.len() ==> #[trigger] ems[m] == (
                    entries@[m].0@,
                    crate::value::value_model(entries@[m].1),
                ),
            deeper@ == spaces_model(prefix@.len() + 2),
            deeper@.len() == prefix@.len() + 2,
            prefix@ == spaces_model(prefix@.len() as nat),
            out@ == yaml_entries(ems.take(i as int), prefix@.len() as nat),
        decreases entries@.len() - i,
    {
        push_chars(&mut out, prefix);
        let key_text = entries[i].0.as_string_b();
        crate::to::json::push_text(&mut out, key_text.value.as_str());
        out.push(':');
        let piece = yaml_value(&entries[i].1, &deeper);
        push_chars(&mut out, &piece);
        proof {
            let pre = ems.take(i as int);
            let now = ems.take(i + 1int);
            assert(now.drop_last() =~= pre);
            assert(now.last() == ems[i as int]);
            assert(out@ =~= yaml_entries(pre, prefix@.len() as nat) + spaces_model(
                prefix@.len() as nat,
            ) + crate::value_key::key_chars(ems[i as int].0) + seq![':'] + yaml_chars(
                ems[i as int].1,
                prefix@.len() as nat + 2,
            ));
        }
        i = i + 1;
    }
    proof {
        assert(ems.take(ems.len() as int) =~= ems);
    }
    out
}

impl Value {
    /// The YAML text of the value at an indentation width.
    pub fn to_yaml_with_indent(&self, indent: usize) -> (r: String)
        ensures
            r@ == yaml_chars(self@, indent as nat),
    {
        let mut prefix: Vec<char> = Vec::new();
        assert(prefix@ =~= spaces_model(0));
        let mut i: usize = 0;
        while i < indent
            invariant
                0 <= i <= indent,
                prefix@ == spaces_model(i as nat),
                prefix@.len() == i,
            decreases indent - i,
        {
            prefix.push(' ');
            assert(prefix@ =~= spaces_model(i as nat + 1));
            i = i + 1;
        }
        let chars = yaml_value(self, &prefix);
        chars_to_string(&chars)
    }

    /// The YAML text of the value.
    pub fn to_yaml(&self) -> (r: String)
        ensures
            r@ == yaml_chars(self@, 0),
    {
        self.to_yaml_with_indent(0)
    }
}

} // verus!
