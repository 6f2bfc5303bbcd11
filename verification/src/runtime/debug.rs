//! How values are shown for debugging.

use vstd::prelude::*;
use vstd::string::*;
use crate::list::List;
use crate::runtime::value::{Field, Key, KeyView, Value};
use crate::text::{append_decimal, append_signed, decimal, signed};

verus! {

/// How a string is written in quotes.
pub uninterp spec fn quoted(text: Seq<char>) -> Seq<char>;

/// How a character is written in quotes.
pub uninterp spec fn quoted_char(c: char) -> Seq<char>;

/// Write a string in quotes, which is what the `Debug` of [`str`] writes: it
/// depends on the string alone.
#[verifier::external_body]
fn str_debug(text: &str) -> (r: String)
    ensures
        r@ == quoted(text@),
{
    format!("{:?}", text)
}

/// Write a character in quotes, which is what the `Debug` of [`char`] writes:
/// it depends on the character alone.
#[verifier::external_body]
fn char_debug(c: char) -> (r: String)
    ensures
        r@ == quoted_char(c),
{
    format!("{:?}", c)
}

/// Append a string in quotes to a text.
pub fn append_quoted(s: &str, text: &mut String)
    ensures
        final(text)@ == old(text)@ + quoted(s@),
{
    text.append(str_debug(s).as_str());
}

/// How a value is shown.
pub open spec fn shown(value: Value) -> Seq<char>
    decreases value,
{
    match value {
        Value::Unit => "()"@,
        Value::Bool(x) => if x {
            "true"@
        } else {
            "false"@
        },
        Value::Byte(x) => decimal(x as nat),
        Value::Char(x) => quoted_char(x),
        Value::Integer(x) => signed(x as int),
        Value::Float(x) => x.text@,
        Value::String(x) => quoted(x@),
        Value::Vec(x) => "["@ + shown_list(x) + "]"@,
        Value::Tuple(x) => "("@ + shown_list(x) + tuple_end(x@.len()),
        Value::Object(x) => "{"@ + shown_fields(x) + "}"@,
        Value::Option(None) => "None"@,
        Value::Option(Some(x)) => "Some("@ + shown(*x) + ")"@,
        Value::Iterator(it) => it.name@,
    }
}

/// How values are shown, with a comma between them.
pub open spec fn shown_list(values: List<Value>) -> Seq<char>
    decreases values,
{
    match values {
        List::Nil => Seq::empty(),
        List::Cons(head, tail) => if *tail is Nil {
            shown(*head)
        } else {
            shown(*head) + ", "@ + shown_list(*tail)
        },
    }
}

/// How the fields of an object are shown, with a comma between them.
pub open spec fn shown_fields(fields: List<Field>) -> Seq<char>
    decreases fields,
{
    match fields {
        List::Nil => Seq::empty(),
        List::Cons(head, tail) => {
            let field = quoted(head.name@) + ": "@ + shown(head.value);
            if *tail is Nil {
                field
            } else {
                field + ", "@ + shown_fields(*tail)
            }
        },
    }
}

/// What closes a tuple: a comma comes first if it is of one value.
pub open spec fn tuple_end(n: nat) -> Seq<char> {
    if n == 1 {
        ",)"@
    } else {
        ")"@
    }
}

/// How a key is shown.
pub open spec fn shown_key(key: KeyView) -> Seq<char>
    decreases key,
{
    match key {
        KeyView::Unit => "()"@,
        KeyView::Bool(x) => if x {
            "true"@
        } else {
            "false"@
        },
        KeyView::Byte(x) => decimal(x as nat),
        KeyView::Char(x) => quoted_char(x),
        KeyView::Integer(x) => signed(x as int),
        KeyView::String(x) => quoted(x),
        KeyView::Vec(x) => "["@ + shown_keys(x) + "]"@,
        KeyView::Tuple(x) => "("@ + shown_keys(x) + tuple_end(x@.len()),
        KeyView::Option(None) => "None"@,
        KeyView::Option(Some(x)) => "Some("@ + shown_key(*x) + ")"@,
    }
}

/// How keys are shown, with a comma between them.
pub open spec fn shown_keys(keys: List<KeyView>) -> Seq<char>
    decreases keys,
{
    match keys {
        List::Nil => Seq::empty(),
        List::Cons(head, tail) => if *tail is Nil {
            shown_key(*head)
        } else {
            shown_key(*head) + ", "@ + shown_keys(*tail)
        },
    }
}

/// Append a boolean to a text.
fn append_bool(x: bool, text: &mut String)
    ensures
        final(text)@ == old(text)@ + (if x {
            "true"@
        } else {
            "false"@
        }),
{
    if x {
        text.append("true");
    } else {
        text.append("false");
    }
}

/// Append what closes a tuple to a text.
fn append_tuple_end(single: bool, text: &mut String)
    ensures
        final(text)@ == old(text)@ + (if single {
            ",)"@
        } else {
            ")"@
        }),
{
    if single {
        text.append(",)");
    } else {
        text.append(")");
    }
}

/// Test if a list holds exactly one element.
fn is_single<T>(list: &List<T>) -> (r: bool)
    ensures
        r == (list@.len() == 1),
{
    proof {
        reveal_with_fuel(crate::list::elements, 2);
    }
    match list {
        List::Cons(_, tail) => tail.is_empty(),
        _ => false,
    }
}

impl Value {
    /// Append the value to a text.
    pub fn append_debug(&self, text: &mut String)
        ensures
            final(text)@ == old(text)@ + shown(*self),
        decreases self,
    {
        match self {
            Value::Unit => text.append("()"),
            Value::Bool(x) => append_bool(*x, text),
            Value::Byte(x) => append_decimal(*x as u128, text),
            Value::Char(x) => text.append(char_debug(*x).as_str()),
            Value::Integer(x) => append_signed(*x, text),
            Value::Float(x) => text.append(x.text.as_str()),
            Value::String(x) => append_quoted(x.as_str(), text),
            Value::Vec(x) => {
                text.append("[");
                append_values(x, text);
                text.append("]");
            },
            Value::Tuple(x) => {
                text.append("(");
                append_values(x, text);
                append_tuple_end(is_single(x), text);
            },
            Value::Object(x) => {
                text.append("{");
                append_fields(x, text);
                text.append("}");
            },
            Value::Option(None) => text.append("None"),
            Value::Option(Some(x)) => {
                text.append("Some(");
                x.append_debug(text);
                text.append(")");
            },
            Value::Iterator(it) => text.append(it.name),
        }
        assert(text@ =~= old(text)@ + shown(*self));
    }
}

/// Append values to a text, with a comma between them.
fn append_values(values: &List<Value>, text: &mut String)
    ensures
        final(text)@ == old(text)@ + shown_list(*values),
    decreases values,
{
    if let List::Cons(head, tail) = values {
        head.append_debug(text);
        if !tail.is_empty() {
            text.append(", ");
            append_values(tail, text);
        }
    }
    assert(text@ =~= old(text)@ + shown_list(*values));
}

/// Append the fields of an object to a text, with a comma between them.
fn append_fields(fields: &List<Field>, text: &mut String)
    ensures
        final(text)@ == old(text)@ + shown_fields(*fields),
    decreases fields,
{
    if let List::Cons(head, tail) = fields {
        append_quoted(head.name.as_str(), text);
        text.append(": ");
        head.value.append_debug(text);
        if !tail.is_empty() {
            text.append(", ");
            append_fields(tail, text);
        }
    }
    assert(text@ =~= old(text)@ + shown_fields(*fields));
}

impl Key {
    /// Append the key to a text.
    pub fn append_debug(&self, text: &mut String)
        ensures
            final(text)@ == old(text)@ + shown_key(self@),
        decreases self,
    {
        match self {
            Key::Unit => text.append("()"),
            Key::Bool(x) => append_bool(*x, text),
            Key::Byte(x) => append_decimal(*x as u128, text),
            Key::Char(x) => text.append(char_debug(*x).as_str()),
            Key::Integer(x) => append_signed(*x, text),
            Key::String(x) => append_quoted(x.as_str(), text),
            Key::Vec(x) => {
                text.append("[");
                append_keys(x, text);
                text.append("]");
            },
            Key::Tuple(x) => {
                proof {
                    lemma_keys_len(*x);
                }
                text.append("(");
                append_keys(x, text);
                append_tuple_end(is_single(x), text);
            },
            Key::Option(None) => text.append("None"),
            Key::Option(Some(x)) => {
                text.append("Some(");
                x.append_debug(text);
                text.append(")");
            },
        }
        assert(text@ =~= old(text)@ + shown_key(self@));
    }
}

/// Append keys to a text, with a comma between them.
fn append_keys(keys: &List<Key>, text: &mut String)
    ensures
        final(text)@ == old(text)@ + shown_keys(crate::runtime::value::keys_view(*keys)),
    decreases keys,
{
    if let List::Cons(head, tail) = keys {
        head.append_debug(text);
        if !tail.is_empty() {
            text.append(", ");
            append_keys(tail, text);
        }
    }
    assert(text@ =~= old(text)@ + shown_keys(crate::runtime::value::keys_view(*keys)));
}

/// The mathematical values of keys are as many as the keys.
proof fn lemma_keys_len(keys: List<Key>)
    ensures
        crate::runtime::value::keys_view(keys)@.len() == keys@.len(),
    decreases keys,
{
    if let List::Cons(_, tail) = keys {
        lemma_keys_len(*tail);
    }
}

} // verus!
