//! Laws of how values are shown.

use vstd::prelude::*;
use crate::list::List;
use crate::runtime::debug::{
    quoted, quoted_char, shown, shown_fields, shown_key, shown_keys, shown_list,
};
use crate::runtime::value::{key_of, keys_of, Field, Value};
use crate::text::{decimal, signed};
use crate::text_laws::{joined, lemma_joined};

verus! {

/// Texts with a comma and a space between any two of them.
pub open spec fn listed(n: nat, part: spec_fn(int) -> Seq<char>) -> Seq<char> {
    joined(
        n,
        |i: int|
            if i == 0 {
                part(i)
            } else {
                seq![',', ' '] + part(i)
            },
    )
}

/// A text in front of others.
proof fn lemma_listed_first(n: nat, part: spec_fn(int) -> Seq<char>)
    requires
        n > 0,
    ensures
        n == 1 ==> listed(n, part) == part(0),
        n > 1 ==> listed(n, part) == part(0) + seq![',', ' '] + listed(
            (n - 1) as nat,
            |i: int| part(i + 1),
        ),
    decreases n,
{
    let next = |i: int| part(i + 1);
    let f = |i: int|
        if i == 0 {
            part(i)
        } else {
            seq![',', ' '] + part(i)
        };
    let g = |i: int|
        if i == 0 {
            next(i)
        } else {
            seq![',', ' '] + next(i)
        };
    let m = (n - 1) as nat;
    lemma_joined(m, f);
    if n == 1 {
        lemma_joined(0, f);
        assert(joined(1, f) =~= part(0));
    } else {
        lemma_listed_first(m, part);
        lemma_joined((n - 2) as nat, g);
        if n == 2 {
            lemma_joined(0, g);
            assert(joined(1, g) =~= part(1));
            assert(joined(n, f) =~= part(0) + seq![',', ' '] + joined(1, g));
        } else {
            assert(joined(n, f) =~= part(0) + seq![',', ' '] + joined(m, g));
        }
    }
}

/// The values of a list are shown in order, with commas between them.
proof fn lemma_shown_list(values: List<Value>)
    ensures
        shown_list(values) == listed(values@.len(), |i: int| shown(values@[i])),
    decreases values,
{
    reveal_strlit(", ");
    let part = |i: int| shown(values@[i]);
    match values {
        List::Nil => {
            lemma_joined(
                0,
                |i: int|
                    if i == 0 {
                        part(i)
                    } else {
                        seq![',', ' '] + part(i)
                    },
            );
        },
        List::Cons(head, tail) => {
            lemma_shown_list(*tail);
            assert(values@ =~= seq![*head] + tail@);
            lemma_listed_first(values@.len(), part);
            let next = |i: int| part(i + 1);
            let rest = |i: int| shown(tail@[i]);
            let n = tail@.len();
            lemma_listed_same(n, next, rest);
            assert(", "@ =~= seq![',', ' ']);
            if *tail is Nil {
                assert(values@.len() == 1);
            } else {
                assert(tail@.len() > 0);
            }
        },
    }
}

/// The same texts are listed alike.
proof fn lemma_listed_same(n: nat, a: spec_fn(int) -> Seq<char>, b: spec_fn(int) -> Seq<char>)
    requires
        forall|i: int| 0 <= i < n ==> #[trigger] a(i) == b(i),
    ensures
        listed(n, a) == listed(n, b),
{
    let f = |i: int|
        if i == 0 {
            a(i)
        } else {
            seq![',', ' '] + a(i)
        };
    let g = |i: int|
        if i == 0 {
            b(i)
        } else {
            seq![',', ' '] + b(i)
        };
    assert forall|i: int| 0 <= i < n implies #[trigger] Seq::new(n, f)[i] == Seq::new(n, g)[i] by {
        assert(a(i) == b(i));
    }
    assert(Seq::new(n, f) =~= Seq::new(n, g));
}

/// The fields of an object are shown in order, with commas between them. Each one
/// is its name in quotes and its value.
proof fn lemma_shown_fields(fields: List<Field>)
    ensures
        shown_fields(fields) == listed(
            fields@.len(),
            |i: int| quoted(fields@[i].name@) + ": "@ + shown(fields@[i].value),
        ),
    decreases fields,
{
    reveal_strlit(", ");
    let part = |i: int| quoted(fields@[i].name@) + ": "@ + shown(fields@[i].value);
    match fields {
        List::Nil => {
            lemma_joined(
                0,
                |i: int|
                    if i == 0 {
                        part(i)
                    } else {
                        seq![',', ' '] + part(i)
                    },
            );
        },
        List::Cons(head, tail) => {
            lemma_shown_fields(*tail);
            assert(fields@ =~= seq![*head] + tail@);
            lemma_listed_first(fields@.len(), part);
            let next = |i: int| part(i + 1);
            let rest = |i: int| quoted(tail@[i].name@) + ": "@ + shown(tail@[i].value);
            lemma_listed_same(tail@.len(), next, rest);
            assert(", "@ =~= seq![',', ' ']);
            if *tail is Nil {
                assert(fields@.len() == 1);
            } else {
                assert(tail@.len() > 0);
            }
        },
    }
}

/// Vectors, tuples and objects show all that is in them, in order, in brackets of
/// their own. A tuple of one value has a comma behind it.
pub proof fn lemma_shown_nested(values: List<Value>, fields: List<Field>)
    ensures
        shown(Value::Vec(values)) == "["@ + listed(values@.len(), |i: int| shown(values@[i]))
            + "]"@,
        shown(Value::Tuple(values)) == "("@ + listed(values@.len(), |i: int| shown(values@[i])) + (
        if values@.len() == 1 {
            ",)"@
        } else {
            ")"@
        }),
        shown(Value::Object(fields)) == "{"@ + listed(
            fields@.len(),
            |i: int| quoted(fields@[i].name@) + ": "@ + shown(fields@[i].value),
        ) + "}"@,
{
    lemma_shown_list(values);
    lemma_shown_fields(fields);
}

/// Plain values are shown as they are written in a source.
pub proof fn lemma_shown_plain(value: Value)
    ensures
        match value {
            Value::Unit => shown(value) == "()"@,
            Value::Bool(true) => shown(value) == "true"@,
            Value::Bool(false) => shown(value) == "false"@,
            Value::Byte(x) => shown(value) == decimal(x as nat),
            Value::Char(x) => shown(value) == quoted_char(x),
            Value::Integer(x) => shown(value) == signed(x as int),
            Value::Float(x) => shown(value) == x.text@,
            Value::String(x) => shown(value) == quoted(x@),
            Value::Option(None) => shown(value) == "None"@,
            Value::Option(Some(x)) => shown(value) == "Some("@ + shown(*x) + ")"@,
            Value::Iterator(it) => shown(value) == it.name@,
            _ => true,
        },
{
}

/// A value that can be a key is shown as the key is.
pub proof fn lemma_shown_key(value: Value)
    requires
        key_of(value) is Ok,
    ensures
        shown(value) == shown_key(key_of(value)->Ok_0),
    decreases value,
{
    match value {
        Value::Vec(values) => lemma_shown_keys(values),
        Value::Tuple(values) => lemma_shown_keys(values),
        Value::Option(Some(value)) => lemma_shown_key(*value),
        _ => {},
    }
}

/// Values that can be keys are shown as the keys are, and there are as many.
proof fn lemma_shown_keys(values: List<Value>)
    requires
        keys_of(values) is Ok,
    ensures
        shown_list(values) == shown_keys(keys_of(values)->Ok_0),
        values@.len() == keys_of(values)->Ok_0@.len(),
        values is Nil == keys_of(values)->Ok_0 is Nil,
    decreases values,
{
    if let List::Cons(head, tail) = values {
        lemma_shown_key(*head);
        lemma_shown_keys(*tail);
    }
}

} // verus!
