//! Laws of values.

use vstd::arithmetic::power2::{lemma_pow2_adds, lemma_pow2_pos, lemma_pow2_strictly_increases, pow2};
use vstd::prelude::*;
use crate::ast::{Float, SIGN_BIT};
use crate::list::List;
use crate::runtime::value::{
    compared, field_pair, fields_compared, is_nan, iterated, key_of, keys_of, list_compared,
    pair_of, value_type, Field, KeyView, Number, Value, ValueIterator, VmError,
};

verus! {

/// What the bits of a floating point number stand for.
pub enum NumberView {
    /// Something that is not a number.
    NotANumber,
    /// A number that is larger than all others, or smaller.
    Infinite {
        /// Whether it is the smaller one.
        negative: bool,
    },
    /// A number, as a multiple of the smallest one above zero.
    Finite(int),
}

/// Whether the sign bit of a number is set.
pub open spec fn is_negative(x: Float) -> bool {
    x.bits / 0x8000_0000_0000_0000 == 1
}

/// The exponent of a number, which is made of eleven bits.
pub open spec fn exponent(x: Float) -> nat {
    ((x.bits / 0x10_0000_0000_0000) % 0x800) as nat
}

/// The mantissa of a number, which is made of the last 52 bits.
pub open spec fn mantissa(x: Float) -> nat {
    (x.bits % 0x10_0000_0000_0000) as nat
}

/// The absolute value of a finite number, as a multiple of the smallest one above
/// zero. There is a leading one in front of the mantissa, unless the exponent is
/// zero.
pub open spec fn magnitude(x: Float) -> nat {
    if exponent(x) == 0 {
        mantissa(x)
    } else {
        (0x10_0000_0000_0000 + mantissa(x)) * pow2((exponent(x) - 1) as nat)
    }
}

/// What the bits of a floating point number stand for.
pub open spec fn number_view(x: Float) -> NumberView {
    if exponent(x) == 0x7ff {
        if mantissa(x) == 0 {
            NumberView::Infinite { negative: is_negative(x) }
        } else {
            NumberView::NotANumber
        }
    } else if is_negative(x) {
        NumberView::Finite(-magnitude(x))
    } else {
        NumberView::Finite(magnitude(x) as int)
    }
}

/// The bits of a number are its sign, its exponent and its mantissa.
proof fn lemma_bits(x: Float)
    ensures
        x.bits == (if is_negative(x) {
            0x8000_0000_0000_0000int
        } else {
            0
        }) + exponent(x) * 0x10_0000_0000_0000 + mantissa(x),
        x.bits % 0x8000_0000_0000_0000 == exponent(x) * 0x10_0000_0000_0000 + mantissa(x),
        exponent(x) < 0x800,
        mantissa(x) < 0x10_0000_0000_0000,
{
}

/// A number is below all numbers of the next exponent, and not below those of its
/// own with the mantissa zero.
proof fn lemma_magnitude(x: Float)
    ensures
        magnitude(x) < 0x10_0000_0000_0000 * pow2(exponent(x)),
        exponent(x) > 0 ==> magnitude(x) >= 0x10_0000_0000_0000 * pow2((exponent(x) - 1) as nat),
        magnitude(x) == 0 <==> exponent(x) == 0 && mantissa(x) == 0,
{
    lemma_bits(x);
    vstd::arithmetic::power2::lemma2_to64();
    let m = mantissa(x);
    let e = exponent(x);
    if e > 0 {
        let p = pow2((e - 1) as nat);
        lemma_pow2_pos((e - 1) as nat);
        lemma_pow2_adds(1, (e - 1) as nat);
        assert(pow2(e) == 2 * p);
        assert((0x10_0000_0000_0000 + m) * p < 0x10_0000_0000_0000 * (2 * p)) by (nonlinear_arith)
            requires
                m < 0x10_0000_0000_0000,
                p > 0,
        ;
        assert((0x10_0000_0000_0000 + m) * p >= 0x10_0000_0000_0000 * p) by (nonlinear_arith)
            requires
                m >= 0,
                p > 0,
        ;
    } else {
        assert(pow2(0) == 1);
    }
}

/// Two numbers with the same absolute value have the same exponent and mantissa.
proof fn lemma_magnitude_injective(a: Float, b: Float)
    requires
        magnitude(a) == magnitude(b),
    ensures
        exponent(a) == exponent(b),
        mantissa(a) == mantissa(b),
{
    lemma_magnitude(a);
    lemma_magnitude(b);
    let e = exponent(a);
    let f = exponent(b);
    if e < f {
        lemma_magnitude_less(a, b);
    } else if f < e {
        lemma_magnitude_less(b, a);
    } else if e > 0 {
        let p = pow2((e - 1) as nat);
        let m = mantissa(a);
        let n = mantissa(b);
        lemma_pow2_pos((e - 1) as nat);
        assert(m == n) by (nonlinear_arith)
            requires
                (0x10_0000_0000_0000 + m) * p == (0x10_0000_0000_0000 + n) * p,
                p > 0,
        ;
    }
}

/// The number with the lower exponent has the lower absolute value.
proof fn lemma_magnitude_less(a: Float, b: Float)
    requires
        exponent(a) < exponent(b),
    ensures
        magnitude(a) < magnitude(b),
{
    lemma_magnitude(a);
    lemma_magnitude(b);
    let e = exponent(a);
    let f = (exponent(b) - 1) as nat;
    if e < f {
        lemma_pow2_strictly_increases(e, f);
    }
}

/// A number is not a number exactly if its bits do not stand for one.
pub proof fn lemma_nan(x: Float)
    ensures
        is_nan(x) <==> number_view(x) is NotANumber,
{
    lemma_bits(x);
}

/// Two numbers stand for the same one exactly if they have the same bits, or both
/// are zero.
proof fn lemma_number_view(a: Float, b: Float)
    requires
        !(number_view(a) is NotANumber),
        !(number_view(b) is NotANumber),
    ensures
        number_view(a) == number_view(b) <==> a.bits == b.bits || (a.bits % 0x8000_0000_0000_0000
            == 0 && b.bits % 0x8000_0000_0000_0000 == 0),
{
    lemma_bits(a);
    lemma_bits(b);
    lemma_magnitude(a);
    lemma_magnitude(b);
    if number_view(a) == number_view(b) && number_view(a) is Finite {
        if is_negative(a) == is_negative(b) {
            lemma_magnitude_injective(a, b);
        }
    }
}

/// Two floating point numbers are equal exactly if they are numbers and their
/// bits stand for the same one. If it is `total`, then it is an error if one of
/// them is not a number.
pub proof fn lemma_float_compared(x: Number, y: Number, total: bool)
    ensures
        ({
            let a = number_view(x.value);
            let b = number_view(y.value);
            let r = compared(Value::Float(x), Value::Float(y), total);
            if a is NotANumber || b is NotANumber {
                r == if total {
                    Err(VmError::IllegalFloatComparison { lhs: x.value, rhs: y.value })
                } else {
                    Ok::<bool, VmError>(false)
                }
            } else {
                r == Ok::<bool, VmError>(a == b)
            }
        }),
{
    lemma_nan(x.value);
    lemma_nan(y.value);
    if !is_nan(x.value) && !is_nan(y.value) {
        lemma_number_view(x.value, y.value);
    }
}

/// Numbers of different signs are equal only if both are zero.
pub proof fn lemma_float_signs(x: Number, y: Number, total: bool)
    requires
        is_negative(x.value) != is_negative(y.value),
        compared(Value::Float(x), Value::Float(y), total) == Ok::<bool, VmError>(true),
    ensures
        number_view(x.value) == NumberView::Finite(0),
        number_view(y.value) == NumberView::Finite(0),
{
    lemma_float_compared(x, y, total);
}

/// Flipping the sign of a number negates it. What is not a number stays that.
pub proof fn lemma_negated(x: Float)
    ensures
        match number_view(x) {
            NumberView::NotANumber => number_view(x.negated()) is NotANumber,
            NumberView::Infinite { negative } => number_view(x.negated())
                == (NumberView::Infinite { negative: !negative }),
            NumberView::Finite(n) => number_view(x.negated()) == NumberView::Finite(-n),
        },
        x.negated().negated() == x,
{
    let b = x.bits;
    let c = x.negated().bits;
    assert(SIGN_BIT == 0x8000_0000_0000_0000u64);
    assert(c == b ^ 0x8000_0000_0000_0000u64);
    assert(c / 0x8000_0000_0000_0000 != b / 0x8000_0000_0000_0000 && c % 0x8000_0000_0000_0000 == b
        % 0x8000_0000_0000_0000 && c ^ 0x8000_0000_0000_0000u64 == b) by (bit_vector)
        requires
            c == b ^ 0x8000_0000_0000_0000u64,
    ;
    lemma_bits(x);
    lemma_bits(x.negated());
}

/// Plain values of one type are equal exactly if they are the same.
pub proof fn lemma_plain_compared(a: Value, b: Value, total: bool)
    ensures
        a is Unit && b is Unit ==> compared(a, b, total) == Ok::<bool, VmError>(true),
        a matches Value::Bool(x) ==> b matches Value::Bool(y) ==> compared(a, b, total) == Ok::<
            bool,
            VmError,
        >(x == y),
        a matches Value::Byte(x) ==> b matches Value::Byte(y) ==> compared(a, b, total) == Ok::<
            bool,
            VmError,
        >(x == y),
        a matches Value::Char(x) ==> b matches Value::Char(y) ==> compared(a, b, total) == Ok::<
            bool,
            VmError,
        >(x == y),
        a matches Value::Integer(x) ==> b matches Value::Integer(y) ==> compared(a, b, total)
            == Ok::<bool, VmError>(x == y),
        a matches Value::String(x) ==> b matches Value::String(y) ==> compared(a, b, total) == Ok::<
            bool,
            VmError,
        >(x@ == y@),
{
}

/// Test if two values are of the same kind.
pub open spec fn same_kind(a: Value, b: Value) -> bool {
    match a {
        Value::Unit => b is Unit,
        Value::Bool(_) => b is Bool,
        Value::Byte(_) => b is Byte,
        Value::Char(_) => b is Char,
        Value::Integer(_) => b is Integer,
        Value::Float(_) => b is Float,
        Value::String(_) => b is String,
        Value::Vec(_) => b is Vec,
        Value::Tuple(_) => b is Tuple,
        Value::Object(_) => b is Object,
        Value::Option(_) => b is Option,
        Value::Iterator(_) => b is Iterator,
    }
}

/// Values of different kinds cannot be compared, and neither can iterators. The
/// error has the types of both.
pub proof fn lemma_not_comparable(a: Value, b: Value, total: bool)
    requires
        !same_kind(a, b) || a is Iterator,
    ensures
        compared(a, b, total) == Err::<bool, VmError>(
            VmError::UnsupportedBinaryOperation {
                op: "==",
                lhs: value_type(a),
                rhs: value_type(b),
            },
        ),
{
}

/// Two values have the same type exactly if they are of the same kind. The unit
/// value is a tuple.
pub proof fn lemma_value_type(a: Value, b: Value)
    ensures
        value_type(a).hash == value_type(b).hash <==> same_kind(a, b) || (a is Unit && b is Tuple)
            || (a is Tuple && b is Unit),
        value_type(a) == value_type(b) <==> value_type(a).hash == value_type(b).hash,
{
}

/// What is decided by the values of two lists: up to the first ones that are not
/// equal, it is what comparing them gives, and else whether the lists have the
/// same length.
pub open spec fn decided_at(
    a: Seq<Value>,
    b: Seq<Value>,
    total: bool,
    k: int,
    r: Result<bool, VmError>,
) -> bool {
    &&& 0 <= k <= a.len()
    &&& k <= b.len()
    &&& forall|j: int|
        0 <= j < k ==> compared(#[trigger] a[j], b[j], total) == Ok::<bool, VmError>(true)
    &&& if k < a.len() && k < b.len() {
        r != Ok::<bool, VmError>(true) && r == compared(a[k], b[k], total)
    } else {
        r == Ok::<bool, VmError>(a.len() == b.len())
    }
}

/// Comparing lists is decided by the first values that are not equal.
pub proof fn lemma_list_compared(a: List<Value>, b: List<Value>, total: bool)
    ensures
        exists|k: int| #[trigger] decided_at(a@, b@, total, k, list_compared(a, b, total)),
    decreases a,
{
    let r = list_compared(a, b, total);
    match (a, b) {
        (List::Cons(x, xs), List::Cons(y, ys)) => {
            assert(a@ =~= seq![*x] + xs@);
            assert(b@ =~= seq![*y] + ys@);
            if compared(*x, *y, total) == Ok::<bool, VmError>(true) {
                lemma_list_compared(*xs, *ys, total);
                let k = choose|k: int| #[trigger] decided_at(xs@, ys@, total, k, r);
                assert forall|j: int| 0 <= j < k + 1 implies compared(
                    #[trigger] a@[j],
                    b@[j],
                    total,
                ) == Ok::<bool, VmError>(true) by {
                    if j > 0 {
                        assert(a@[j] == xs@[j - 1]);
                        assert(b@[j] == ys@[j - 1]);
                    }
                }
                if k < xs@.len() && k < ys@.len() {
                    assert(a@[k + 1] == xs@[k] && b@[k + 1] == ys@[k]);
                }
                assert(decided_at(a@, b@, total, k + 1, r));
            } else {
                assert(decided_at(a@, b@, total, 0, r));
            }
        },
        _ => {
            assert(decided_at(a@, b@, total, 0, r));
        },
    }
}

/// Two lists are equal exactly if they have the same length and equal values in
/// the same places.
pub proof fn lemma_list_equal(a: List<Value>, b: List<Value>, total: bool)
    ensures
        list_compared(a, b, total) == Ok::<bool, VmError>(true) <==> a@.len() == b@.len() && (
        forall|i: int|
            0 <= i < a@.len() ==> compared(#[trigger] a@[i], b@[i], total) == Ok::<bool, VmError>(
                true,
            )),
{
    lemma_list_compared(a, b, total);
    let r = list_compared(a, b, total);
    let k = choose|k: int| #[trigger] decided_at(a@, b@, total, k, r);
    if k < a@.len() && k < b@.len() {
        assert(compared(a@[k], b@[k], total) != Ok::<bool, VmError>(true));
    }
}

/// Vectors and tuples are compared by the lists of their values.
pub proof fn lemma_sequence_compared(a: List<Value>, b: List<Value>, total: bool)
    ensures
        exists|k: int| #[trigger]
            decided_at(a@, b@, total, k, compared(Value::Vec(a), Value::Vec(b), total)),
        exists|k: int| #[trigger]
            decided_at(a@, b@, total, k, compared(Value::Tuple(a), Value::Tuple(b), total)),
{
    lemma_list_compared(a, b, total);
}

/// Two objects are equal exactly if they have the same fields in the same places,
/// with equal values.
pub proof fn lemma_object_equal(a: List<Field>, b: List<Field>, total: bool)
    ensures
        compared(Value::Object(a), Value::Object(b), total) == Ok::<bool, VmError>(true)
            <==> a@.len() == b@.len() && (forall|i: int|
            0 <= i < a@.len() ==> (#[trigger] a@[i]).name@ == b@[i].name@ && compared(
                a@[i].value,
                b@[i].value,
                total,
            ) == Ok::<bool, VmError>(true)),
{
    lemma_fields_equal(a, b, total);
}

/// The fields of two objects are equal exactly if they are in the same places,
/// with equal values.
proof fn lemma_fields_equal(a: List<Field>, b: List<Field>, total: bool)
    ensures
        fields_compared(a, b, total) == Ok::<bool, VmError>(true) <==> a@.len() == b@.len() && (
        forall|i: int|
            0 <= i < a@.len() ==> (#[trigger] a@[i]).name@ == b@[i].name@ && compared(
                a@[i].value,
                b@[i].value,
                total,
            ) == Ok::<bool, VmError>(true)),
    decreases a,
{
    if let (List::Cons(x, xs), List::Cons(y, ys)) = (a, b) {
        assert(a@ =~= seq![*x] + xs@);
        assert(b@ =~= seq![*y] + ys@);
        lemma_fields_equal(*xs, *ys, total);
        let equal = x.name@ == y.name@ && compared(x.value, y.value, total) == Ok::<bool, VmError>(
            true,
        );
        if fields_compared(a, b, total) == Ok::<bool, VmError>(true) {
            assert forall|i: int| 0 <= i < a@.len() implies (#[trigger] a@[i]).name@ == b@[i].name@
                && compared(a@[i].value, b@[i].value, total) == Ok::<bool, VmError>(true) by {
                if i > 0 {
                    assert(a@[i] == xs@[i - 1]);
                    assert(b@[i] == ys@[i - 1]);
                }
            }
        } else {
            assert forall|i: int|
                a@.len() == b@.len() && equal && 0 <= i < xs@.len() && !((
                #[trigger] xs@[i]).name@ == ys@[i].name@ && compared(
                    xs@[i].value,
                    ys@[i].value,
                    total,
                ) == Ok::<bool, VmError>(true)) implies !(a@[i + 1].name@ == b@[i + 1].name@
                && compared(a@[i + 1].value, b@[i + 1].value, total) == Ok::<bool, VmError>(
                true,
            )) by {
                assert(a@[i + 1] == xs@[i]);
                assert(b@[i + 1] == ys@[i]);
            }
            assert(a@[0] == *x && b@[0] == *y);
        }
    }
}

/// Optional values are equal exactly if both are missing, or both are there and
/// equal.
pub proof fn lemma_option_compared(a: Option<Box<Value>>, b: Option<Box<Value>>, total: bool)
    ensures
        compared(Value::Option(a), Value::Option(b), total) == (if a is Some && b is Some {
            compared(*a->0, *b->0, total)
        } else {
            Ok(a is None && b is None)
        }),
{
}

/// Test if a value is made of nothing but units, booleans, bytes, characters,
/// integers and strings.
pub open spec fn is_plain(value: Value) -> bool
    decreases value,
{
    match value {
        Value::Float(_) => false,
        Value::Object(_) => false,
        Value::Iterator(_) => false,
        Value::Vec(values) => are_plain(values),
        Value::Tuple(values) => are_plain(values),
        Value::Option(Some(value)) => is_plain(*value),
        _ => true,
    }
}

/// Test if all values of a list are made of nothing but these.
pub open spec fn are_plain(values: List<Value>) -> bool
    decreases values,
{
    match values {
        List::Nil => true,
        List::Cons(head, tail) => is_plain(*head) && are_plain(*tail),
    }
}

/// A value can be a key exactly if there is no floating point number, object or
/// iterator in it.
pub proof fn lemma_key_supported(value: Value)
    ensures
        key_of(value) is Ok <==> is_plain(value),
        key_of(value) matches Err(e) ==> e is KeyNotSupported,
    decreases value,
{
    match value {
        Value::Vec(values) => lemma_keys_supported(values),
        Value::Tuple(values) => lemma_keys_supported(values),
        Value::Option(Some(value)) => lemma_key_supported(*value),
        _ => {},
    }
}

/// Values can be keys exactly if each of them can.
proof fn lemma_keys_supported(values: List<Value>)
    ensures
        keys_of(values) is Ok <==> are_plain(values),
        keys_of(values) matches Err(e) ==> e is KeyNotSupported,
    decreases values,
{
    if let List::Cons(head, tail) = values {
        lemma_key_supported(*head);
        lemma_keys_supported(*tail);
    }
}

/// Iterating over a vector gives its values in order, and over an object a pair
/// for each field in order, which is the name of the field and its value.
pub proof fn lemma_iterated(values: List<Value>, fields: List<Field>)
    ensures
        iterated(Value::Vec(values)) matches Ok(items) && items.len() == values@.len() && (forall|
            i: int,
        |
            0 <= i < items.len() ==> #[trigger] items[i] == Ok::<Value, VmError>(values@[i])),
        iterated(Value::Object(fields)) matches Ok(items) && items.len() == fields@.len() && (
        forall|i: int|
            0 <= i < items.len() ==> (#[trigger] items[i]) is Ok && pair_of(items[i]->Ok_0) == Ok::<
                (KeyView, Value),
                VmError,
            >((KeyView::String(fields@[i].name@), fields@[i].value))),
{
    let items = iterated(Value::Object(fields))->Ok_0;
    assert forall|i: int| 0 <= i < items.len() implies (#[trigger] items[i]) is Ok && pair_of(
        items[i]->Ok_0,
    ) == Ok::<(KeyView, Value), VmError>(
        (KeyView::String(fields@[i].name@), fields@[i].value),
    ) by {
        lemma_field_pair(fields@[i]);
    }
}

/// The pair of a field is its name and its value.
proof fn lemma_field_pair(field: Field)
    ensures
        pair_of(field_pair(field)) == Ok::<(KeyView, Value), VmError>(
            (KeyView::String(field.name@), field.value),
        ),
{
    reveal_with_fuel(crate::list::elements, 3);
}

/// Iterating over an iterator gives what it gives, and over anything else but a
/// vector or an object is an error with the type of the value.
pub proof fn lemma_iterated_other(value: Value, it: ValueIterator)
    ensures
        iterated(Value::Iterator(Box::new(it))) == Ok::<Seq<Result<Value, VmError>>, VmError>(
            it.items@,
        ),
        !(value is Vec || value is Object || value is Iterator) ==> iterated(value) == Err::<
            Seq<Result<Value, VmError>>,
            VmError,
        >(
            VmError::MissingProtocolFunction {
                protocol: "INTO_ITER",
                instance: value_type(value),
            },
        ),
{
}

/// A tuple of two is a pair exactly if its first value can be a key. A tuple of
/// another length is an error with that length, and so is what is not a tuple.
pub proof fn lemma_pair(values: List<Value>, value: Value)
    ensures
        values@.len() == 2 && is_plain(values@[0]) ==> pair_of(Value::Tuple(values)) is Ok
            && key_of(values@[0]) == Ok::<KeyView, VmError>(
            pair_of(Value::Tuple(values))->Ok_0.0,
        ) && pair_of(Value::Tuple(values))->Ok_0.1 == values@[1],
        values@.len() == 2 && !is_plain(values@[0]) ==> pair_of(Value::Tuple(values)) is Err
            && pair_of(Value::Tuple(values))->Err_0 is KeyNotSupported,
        values@.len() != 2 && values@.len() <= usize::MAX ==> pair_of(Value::Tuple(values)) == Err::<
            (KeyView, Value),
            VmError,
        >(VmError::ExpectedTupleLength { actual: values@.len() as usize, expected: 2 }),
        pair_of(Value::Unit) == Err::<(KeyView, Value), VmError>(
            VmError::ExpectedTupleLength { actual: 0, expected: 2 },
        ),
        !(value is Tuple || value is Unit) ==> pair_of(value) == Err::<(KeyView, Value), VmError>(
            VmError::Expected { expected: value_type(Value::Unit), actual: value_type(value) },
        ),
{
    if values@.len() == 2 {
        lemma_key_supported(values@[0]);
    }
}

} // verus!
