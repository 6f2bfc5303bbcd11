//! Laws of texts.

use vstd::prelude::*;
use crate::text::{
    before, before_from, decimal, left_aligned, lines, lines_from, repeated, signed, zero_padded,
};

verus! {

/// What the parts with the numbers 0 to `n - 1` are, one behind the other.
pub open spec fn joined<A>(n: nat, part: spec_fn(int) -> Seq<A>) -> Seq<A> {
    Seq::new(n, part).flatten()
}

/// Test if a part stands somewhere in a sequence.
pub open spec fn holds<A>(all: Seq<A>, part: Seq<A>) -> bool {
    exists|i: int| 0 <= i <= all.len() - part.len() && #[trigger] all.subrange(
        i,
        i + part.len(),
    ) == part
}

/// The parts with the numbers 0 to `n` are those before `n` and the last one.
pub proof fn lemma_joined<A>(n: nat, part: spec_fn(int) -> Seq<A>)
    ensures
        joined(0, part) == Seq::<A>::empty(),
        joined(n + 1, part) == joined(n, part) + part(n as int),
{
    let all = Seq::new(n + 1, part);
    all.lemma_flatten_and_flatten_alt_are_equivalent();
    assert(all.drop_last() =~= Seq::new(n, part));
    all.drop_last().lemma_flatten_and_flatten_alt_are_equivalent();
}

/// What parts are joined to holds every part.
pub proof fn lemma_joined_holds<A>(n: nat, part: spec_fn(int) -> Seq<A>, i: int)
    requires
        0 <= i < n,
    ensures
        holds(joined(n, part), part(i)),
    decreases n,
{
    let m = (n - 1) as nat;
    lemma_joined(m, part);
    if i < m {
        lemma_joined_holds(m, part, i);
        lemma_holds(Seq::empty(), joined(m, part), part(m as int), part(i));
        assert(Seq::<A>::empty() + joined(m, part) + part(m as int) =~= joined(n, part));
    } else {
        lemma_holds_itself(part(i));
        lemma_holds(joined(m, part), part(i), Seq::empty(), part(i));
        assert(joined(m, part) + part(i) + Seq::<A>::empty() =~= joined(n, part));
    }
}

/// A sequence holds itself.
pub proof fn lemma_holds_itself<A>(part: Seq<A>)
    ensures
        holds(part, part),
{
    let i: int = 0;
    assert(part.subrange(i, i + part.len()) =~= part);
}

/// What a sequence holds is held by what it stands in.
pub proof fn lemma_holds<A>(front: Seq<A>, all: Seq<A>, back: Seq<A>, part: Seq<A>)
    requires
        holds(all, part),
    ensures
        holds(front + all + back, part),
{
    let i = choose|i: int|
        0 <= i <= all.len() - part.len() && #[trigger] all.subrange(i, i + part.len()) == part;
    let k = front.len() + i;
    assert((front + all + back).subrange(k, k + part.len()) =~= all.subrange(i, i + part.len()));
}

/// The number that decimal digits stand for.
pub open spec fn number_of(digits: Seq<char>) -> int
    decreases digits.len(),
{
    if digits.len() == 0 {
        0
    } else {
        10 * number_of(digits.drop_last()) + (digits.last() as int - '0' as int)
    }
}

/// Test if all characters of a text are decimal digits.
pub open spec fn are_digits(text: Seq<char>) -> bool {
    forall|i: int| 0 <= i < text.len() ==> '0' <= #[trigger] text[i] <= '9'
}

/// A number is written as decimal digits that stand for it. There is at least
/// one, and only zero starts with a zero.
pub proof fn lemma_decimal(n: nat)
    ensures
        are_digits(decimal(n)),
        decimal(n).len() > 0,
        number_of(decimal(n)) == n,
        decimal(n)[0] == '0' <==> n == 0,
        n < 10 ==> decimal(n).len() == 1,
    decreases n,
{
    if n < 10 {
        assert(decimal(n).drop_last() =~= Seq::empty());
        assert(number_of(Seq::<char>::empty()) == 0);
    } else {
        lemma_decimal(n / 10);
        assert(decimal(n).drop_last() =~= decimal(n / 10));
    }
}

/// Two numbers are never written alike.
pub proof fn lemma_decimal_injective(a: nat, b: nat)
    requires
        decimal(a) == decimal(b),
    ensures
        a == b,
{
    lemma_decimal(a);
    lemma_decimal(b);
}

/// A number that is not negative is written as digits, and a negative one as a
/// minus and the digits of its absolute value.
pub proof fn lemma_signed(n: int)
    ensures
        n >= 0 ==> are_digits(signed(n)) && number_of(signed(n)) == n,
        n < 0 ==> signed(n).len() > 1 && signed(n)[0] == '-' && are_digits(signed(n).skip(1))
            && number_of(signed(n).skip(1)) == -n,
{
    if n < 0 {
        reveal_strlit("-");
        lemma_decimal((-n) as nat);
        assert(signed(n).skip(1) =~= decimal((-n) as nat));
    } else {
        lemma_decimal(n as nat);
    }
}

/// Zeros in front do not change the number that digits stand for.
proof fn lemma_zeros(n: nat, digits: Seq<char>)
    ensures
        number_of(repeated('0', n) + digits) == number_of(digits),
    decreases digits.len(), n,
{
    let all = repeated('0', n) + digits;
    if digits.len() > 0 {
        lemma_zeros(n, digits.drop_last());
        assert(all.drop_last() =~= repeated('0', n) + digits.drop_last());
    } else if n > 0 {
        lemma_zeros((n - 1) as nat, digits);
        assert(all.drop_last() =~= repeated('0', (n - 1) as nat) + digits);
    } else {
        assert(all =~= digits);
    }
}

/// A number with zeros in front is made of digits that stand for it. It is as
/// long as the width, unless the number itself is longer.
pub proof fn lemma_zero_padded(n: nat, width: nat)
    ensures
        are_digits(zero_padded(n, width)),
        number_of(zero_padded(n, width)) == n,
        decimal(n).len() <= width ==> zero_padded(n, width).len() == width,
        decimal(n).len() >= width ==> zero_padded(n, width) == decimal(n),
{
    lemma_decimal(n);
    let digits = decimal(n);
    let zeros = (zero_padded(n, width).len() - digits.len()) as nat;
    assert(zero_padded(n, width) =~= repeated('0', zeros) + digits);
    lemma_zeros(zeros, digits);
}

/// A number with spaces behind it is its digits and then only spaces. It is as
/// long as the width, unless the number itself is longer.
pub proof fn lemma_left_aligned(n: nat, width: nat)
    ensures
        left_aligned(n, width).len() >= decimal(n).len(),
        left_aligned(n, width).take(decimal(n).len() as int) == decimal(n),
        forall|i: int|
            decimal(n).len() <= i < left_aligned(n, width).len() ==> #[trigger] left_aligned(
                n,
                width,
            )[i] == ' ',
        decimal(n).len() <= width ==> left_aligned(n, width).len() == width,
        decimal(n).len() >= width ==> left_aligned(n, width) == decimal(n),
{
    assert(left_aligned(n, width).take(decimal(n).len() as int) =~= decimal(n));
}

/// Texts with a newline between any two of them.
pub open spec fn separated(parts: Seq<Seq<char>>) -> Seq<char>
    decreases parts.len(),
{
    if parts.len() == 0 {
        Seq::empty()
    } else if parts.len() == 1 {
        parts[0]
    } else {
        parts[0] + seq!['\n'] + separated(parts.skip(1))
    }
}

/// The lines from `start` on have no newlines in them, and give what is from
/// `start` on if newlines are put between them.
proof fn lemma_lines_from(text: Seq<char>, start: int, i: int)
    requires
        0 <= start <= i <= text.len(),
        forall|j: int| start <= j < i ==> text[j] != '\n',
    ensures
        lines_from(text, start, i).len() > 0,
        separated(lines_from(text, start, i)) == text.skip(start),
        forall|k: int|
            0 <= k < lines_from(text, start, i).len() ==> !(#[trigger] lines_from(
                text,
                start,
                i,
            )[k]).contains('\n'),
    decreases text.len() - i,
{
    let all = lines_from(text, start, i);
    if i >= text.len() {
        assert(text.subrange(start, text.len() as int) =~= text.skip(start));
    } else if text[i] == '\n' {
        lemma_lines_from(text, i + 1, i + 1);
        let rest = lines_from(text, i + 1, i + 1);
        assert(all.skip(1) =~= rest);
        assert(all[0] == text.subrange(start, i));
        assert(text.skip(start) =~= text.subrange(start, i) + seq!['\n'] + text.skip(i + 1));
        assert forall|k: int| 0 <= k < all.len() implies !(#[trigger] all[k]).contains('\n') by {
            if k > 0 {
                assert(all[k] == rest[k - 1]);
            }
        }
    } else {
        lemma_lines_from(text, start, i + 1);
    }
}

/// No line of a text has a newline in it, and the lines with newlines between
/// them are the text. An empty text has no lines.
pub proof fn lemma_lines(text: Seq<char>)
    ensures
        separated(lines(text)) == text,
        lines(text).len() == 0 <==> text.len() == 0,
        forall|k: int| 0 <= k < lines(text).len() ==> !(#[trigger] lines(text)[k]).contains('\n'),
{
    if text.len() > 0 {
        lemma_lines_from(text, 0, 0);
        assert(text.skip(0) =~= text);
    }
}

/// Test if two texts are alike before an index, where the first one ends or has
/// the lower character.
pub open spec fn lower_at(a: Seq<char>, b: Seq<char>, k: int) -> bool {
    &&& 0 <= k < b.len()
    &&& k <= a.len()
    &&& forall|j: int| 0 <= j < k ==> #[trigger] a[j] == b[j]
    &&& k == a.len() || a[k] < b[k]
}

/// A text is before another one from `i` on exactly if the first index where
/// they are different makes it so.
proof fn lemma_before_from(a: Seq<char>, b: Seq<char>, i: int)
    requires
        0 <= i <= a.len(),
        i <= b.len(),
        forall|j: int| 0 <= j < i ==> a[j] == b[j],
    ensures
        before_from(a, b, i) <==> exists|k: int| #[trigger] lower_at(a, b, k),
    decreases b.len() - i,
{
    if i < b.len() && i < a.len() && a[i] == b[i] {
        lemma_before_from(a, b, i + 1);
    } else if i < b.len() && (i >= a.len() || a[i] < b[i]) {
        assert(lower_at(a, b, i));
    } else {
        assert forall|k: int| !#[trigger] lower_at(a, b, k) by {
            if lower_at(a, b, k) {
                if k < i {
                    assert(a[k] == b[k]);
                } else if k > i {
                    assert(a[i] == b[i]);
                }
            }
        }
    }
}

/// A text is before another one exactly if at the first index where they are
/// different it ends or has the lower character.
pub proof fn lemma_before_first(a: Seq<char>, b: Seq<char>)
    ensures
        before(a, b) <==> exists|k: int| #[trigger] lower_at(a, b, k),
{
    lemma_before_from(a, b, 0);
}

} // verus!
