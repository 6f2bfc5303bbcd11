//! Texts as sequences of characters.

use vstd::prelude::*;
use vstd::string::*;

verus! {

/// Test if `a` is before `b` in the order of their characters, from index `i`
/// on. A text is before every longer one that starts with it.
pub open spec fn before_from(a: Seq<char>, b: Seq<char>, i: int) -> bool
    decreases b.len() - i,
{
    if i < 0 || i >= b.len() {
        false
    } else if i >= a.len() {
        true
    } else if a[i] != b[i] {
        a[i] < b[i]
    } else {
        before_from(a, b, i + 1)
    }
}

/// Test if `a` is before `b` in the order of their characters.
pub open spec fn before(a: Seq<char>, b: Seq<char>) -> bool {
    before_from(a, b, 0)
}

/// The index of the first name from `i` on which `name` is before.
pub open spec fn insertion_index(names: Seq<String>, name: String, i: int) -> int
    decreases names.len() - i,
{
    if i < 0 || i >= names.len() {
        names.len() as int
    } else if before(name@, names[i]@) {
        i
    } else {
        insertion_index(names, name, i + 1)
    }
}

/// The names with `name` put in front of the first one that it is before.
pub open spec fn inserted(names: Seq<String>, name: String) -> Seq<String> {
    names.insert(insertion_index(names, name, 0), name)
}

/// The first `n` names put in order, one after the other.
pub open spec fn sorted(names: Seq<String>, n: nat) -> Seq<String>
    decreases n,
{
    if n == 0 {
        Seq::empty()
    } else {
        inserted(sorted(names, (n - 1) as nat), names[n - 1])
    }
}

/// Test if every name stands behind all that are before it.
pub open spec fn is_sorted(names: Seq<String>) -> bool {
    forall|i: int, j: int| 0 <= i < j < names.len() ==> !before(names[j]@, names[i]@)
}

/// No text is before itself, nor before one that is before it.
pub proof fn lemma_before_asymmetric(a: Seq<char>, b: Seq<char>, i: int)
    requires
        before_from(a, b, i),
    ensures
        !before_from(b, a, i),
    decreases b.len() - i,
{
    if i < a.len() && a[i] == b[i] {
        lemma_before_asymmetric(a, b, i + 1);
    }
}

/// A text is before all that those behind it are before.
pub proof fn lemma_before_transitive(a: Seq<char>, b: Seq<char>, c: Seq<char>, i: int)
    requires
        before_from(a, b, i),
        before_from(b, c, i),
    ensures
        before_from(a, c, i),
    decreases c.len() - i,
{
    if i < a.len() && a[i] == b[i] && b[i] == c[i] {
        lemma_before_transitive(a, b, c, i + 1);
    }
}

/// The insertion index is the first one whose name `name` is before.
proof fn lemma_insertion_index(names: Seq<String>, name: String, i: int)
    requires
        0 <= i <= names.len(),
    ensures
        i <= insertion_index(names, name, i) <= names.len(),
        forall|j: int|
            i <= j < insertion_index(names, name, i) ==> !before(name@, #[trigger] names[j]@),
        insertion_index(names, name, i) < names.len() ==> before(
            name@,
            names[insertion_index(names, name, i)]@,
        ),
    decreases names.len() - i,
{
    if i < names.len() && !before(name@, names[i]@) {
        lemma_insertion_index(names, name, i + 1);
    }
}

/// Inserting a name keeps sorted names sorted.
proof fn lemma_inserted_sorted(names: Seq<String>, name: String)
    requires
        is_sorted(names),
    ensures
        is_sorted(inserted(names, name)),
        inserted(names, name).to_multiset() =~= names.to_multiset().insert(name),
{
    lemma_insertion_index(names, name, 0);
    let p = insertion_index(names, name, 0);
    let all = inserted(names, name);
    assert forall|i: int, j: int| 0 <= i < j < all.len() implies !before(all[j]@, all[i]@) by {
        if j == p {
            assert(all[i] == names[i] && all[j] == name);
            assert(!before(name@, names[i]@));
        } else if i == p {
            assert(all[j] == names[j - 1]);
            if before(names[j - 1]@, name@) {
                if j - 1 == p {
                    lemma_before_asymmetric(name@, names[p]@, 0);
                } else {
                    lemma_before_transitive(names[j - 1]@, name@, names[p]@, 0);
                    assert(!before(names[j - 1]@, names[p]@));
                }
            }
        } else {
            let x = if i < p { i } else { i - 1 };
            let y = if j < p { j } else { j - 1 };
            assert(all[i] == names[x] && all[j] == names[y]);
            assert(!before(names[y]@, names[x]@));
        }
    }
    all.to_multiset_ensures();
    assert(all.remove(p) =~= names);
    assert(all[p] == name);
    assert(all.contains(name));
    assert(all.to_multiset() =~= all.to_multiset().remove(name).insert(name));
}

/// Sorting puts names in order, and neither adds nor drops any.
pub proof fn lemma_sorted(names: Seq<String>, n: nat)
    requires
        n <= names.len(),
    ensures
        is_sorted(sorted(names, n)),
        sorted(names, n).to_multiset() =~= names.take(n as int).to_multiset(),
    decreases n,
{
    if n == 0 {
        assert(names.take(0) =~= Seq::<String>::empty());
    } else {
        lemma_sorted(names, (n - 1) as nat);
        lemma_inserted_sorted(sorted(names, (n - 1) as nat), names[n - 1]);
        assert(names.take(n as int) =~= names.take(n - 1).push(names[n - 1]));
        names.take(n - 1).to_multiset_ensures();
    }
}

/// The characters of a text.
pub fn to_chars(text: &str) -> (chars: Vec<char>)
    ensures
        chars@ == text@,
{
    let mut chars: Vec<char> = Vec::new();

    for c in it: text.chars()
        invariant
            it.seq() == text@,
            chars@ =~= text@.take(it.index() as int),
    {
        chars.push(c);
    }

    chars
}

/// Test if `a` is before `b` in the order of their characters.
pub fn is_before(a: &str, b: &str) -> (r: bool)
    ensures
        r == before(a@, b@),
{
    let left: Vec<char> = to_chars(a);
    let right: Vec<char> = to_chars(b);
    let mut i: usize = 0;

    while i < right.len()
        invariant
            left@ == a@,
            right@ == b@,
            i <= right@.len(),
            i <= left@.len(),
            before(a@, b@) == before_from(a@, b@, i as int),
        decreases right@.len() - i,
    {
        if i >= left.len() {
            return true;
        }

        if left[i] != right[i] {
            return left[i] < right[i];
        }

        i += 1;
    }

    false
}

/// Put names in order.
pub fn sort(names: Vec<String>) -> (r: Vec<String>)
    ensures
        r@ == sorted(names@, names@.len()),
{
    let mut r: Vec<String> = Vec::new();
    let mut n: usize = 0;

    while n < names.len()
        invariant
            n <= names@.len(),
            r@ == sorted(names@, n as nat),
        decreases names@.len() - n,
    {
        let mut i: usize = 0;

        while i < r.len() && !is_before(names[n].as_str(), r[i].as_str())
            invariant
                n < names@.len(),
                i <= r@.len(),
                insertion_index(r@, names@[n as int], 0) == insertion_index(
                    r@,
                    names@[n as int],
                    i as int,
                ),
            decreases r@.len() - i,
        {
            i += 1;
        }

        r.insert(i, names[n].clone());
        n += 1;
    }

    r
}

/// Whether Unicode gives a character the property `Uppercase`.
pub uninterp spec fn uppercase(c: char) -> bool;

/// Test if a character is in upper case, which is the result of
/// [`char::is_uppercase`]: it depends on the character alone.
#[verifier::external_body]
fn char_is_uppercase(c: char) -> (r: bool)
    ensures
        r == uppercase(c),
{
    c.is_uppercase()
}

/// Test if the first character of a text is in upper case.
pub open spec fn capitalized(text: Seq<char>) -> bool {
    text.len() > 0 && uppercase(text[0])
}

/// Test if the first character of a text is in upper case.
pub fn is_capitalized(text: &str) -> (r: bool)
    ensures
        r == capitalized(text@),
{
    let chars: Vec<char> = to_chars(text);

    if chars.len() == 0 {
        return false;
    }

    char_is_uppercase(chars[0])
}

/// A decimal digit.
pub open spec fn digit(d: nat) -> char {
    ('0' as int + d) as char
}

/// A number in decimal digits, without leading zeros.
pub open spec fn decimal(n: nat) -> Seq<char>
    decreases n,
{
    if n < 10 {
        seq![digit(n)]
    } else {
        decimal(n / 10).push(digit(n % 10))
    }
}

/// Append a decimal digit to a text.
fn append_digit(d: u128, text: &mut String)
    requires
        d < 10,
    ensures
        final(text)@ == old(text)@.push(digit(d as nat)),
{
    proof {
        reveal_strlit("0");
        reveal_strlit("1");
        reveal_strlit("2");
        reveal_strlit("3");
        reveal_strlit("4");
        reveal_strlit("5");
        reveal_strlit("6");
        reveal_strlit("7");
        reveal_strlit("8");
        reveal_strlit("9");
    }
    let s = match d {
        0 => "0",
        1 => "1",
        2 => "2",
        3 => "3",
        4 => "4",
        5 => "5",
        6 => "6",
        7 => "7",
        8 => "8",
        _ => "9",
    };
    assert(s@ =~= seq![digit(d as nat)]);
    text.append(s);
    assert(text@ =~= old(text)@.push(digit(d as nat)));
}

/// Append a number in decimal digits to a text.
pub fn append_decimal(n: u128, text: &mut String)
    ensures
        final(text)@ == old(text)@ + decimal(n as nat),
    decreases n,
{
    if n < 10 {
        append_digit(n, text);
    } else {
        append_decimal(n / 10, text);
        append_digit(n % 10, text);
    }
    assert(text@ =~= old(text)@ + decimal(n as nat));
}

/// An integer in decimal digits, with a minus in front if it is negative.
pub open spec fn signed(n: int) -> Seq<char> {
    if n < 0 {
        "-"@ + decimal((-n) as nat)
    } else {
        decimal(n as nat)
    }
}

/// Append an integer in decimal digits to a text.
pub fn append_signed(n: i64, text: &mut String)
    ensures
        final(text)@ == old(text)@ + signed(n as int),
{
    if n < 0 {
        text.append("-");
        append_decimal((-(n as i128)) as u128, text);
    } else {
        append_decimal(n as u128, text);
    }
    assert(text@ =~= old(text)@ + signed(n as int));
}

/// The lines of a text. The line that is being read starts at `start`, and it
/// has been read up to `i`.
pub open spec fn lines_from(text: Seq<char>, start: int, i: int) -> Seq<Seq<char>>
    decreases text.len() - i,
{
    if i < 0 || i >= text.len() {
        seq![text.subrange(start, text.len() as int)]
    } else if text[i] == '\n' {
        seq![text.subrange(start, i)] + lines_from(text, i + 1, i + 1)
    } else {
        lines_from(text, start, i + 1)
    }
}

/// The lines of a text, which are none if it is empty.
pub open spec fn lines(text: Seq<char>) -> Seq<Seq<char>> {
    if text.len() == 0 {
        Seq::empty()
    } else {
        lines_from(text, 0, 0)
    }
}

/// The texts of strings.
pub open spec fn texts(strings: Seq<String>) -> Seq<Seq<char>> {
    strings.map_values(|s: String| s@)
}

/// Split a text into its lines.
pub fn split_lines(text: &str) -> (r: Vec<String>)
    ensures
        texts(r@) == lines(text@),
{
    let chars: Vec<char> = to_chars(text);
    let mut r: Vec<String> = Vec::new();
    let mut start: usize = 0;
    let mut i: usize = 0;

    if chars.len() == 0 {
        assert(texts(r@) =~= lines(text@));
        return r;
    }

    assert(texts(r@) + lines_from(text@, 0, 0) =~= lines(text@));
    while i < chars.len()
        invariant
            chars@ == text@,
            start <= i <= chars@.len(),
            texts(r@) + lines_from(text@, start as int, i as int) == lines(text@),
        decreases chars@.len() - i,
    {
        if chars[i] == '\n' {
            let ghost before = r@;
            r.push(text.substring_char(start, i).to_owned());
            assert(texts(r@) =~= texts(before).push(text@.subrange(start as int, i as int)));
            start = i + 1;
            let ghost rest = lines_from(text@, start as int, start as int);
            assert(texts(r@) + rest =~= texts(before) + (seq![texts(r@).last()] + rest));
        }
        i += 1;
    }

    let ghost before = r@;
    r.push(text.substring_char(start, chars.len()).to_owned());
    assert(texts(r@) =~= texts(before) + lines_from(text@, start as int, i as int));
    r
}

/// A character repeated a number of times.
pub open spec fn repeated(c: char, n: nat) -> Seq<char> {
    Seq::new(n, |i: int| c)
}

/// How many characters a text of a length lacks to be as long as the width.
pub open spec fn padding(width: nat, len: nat) -> nat {
    if len < width {
        (width - len) as nat
    } else {
        0
    }
}

/// A number in decimal digits, with zeros in front up to a width.
pub open spec fn zero_padded(n: nat, width: nat) -> Seq<char> {
    repeated('0', padding(width, decimal(n).len())) + decimal(n)
}

/// A number in decimal digits, with spaces behind up to a width.
pub open spec fn left_aligned(n: nat, width: nat) -> Seq<char> {
    decimal(n) + repeated(' ', padding(width, decimal(n).len()))
}

/// Append the text of one character a number of times to a text.
pub fn append_repeated(one: &str, n: usize, text: &mut String)
    requires
        one@.len() == 1,
    ensures
        final(text)@ == old(text)@ + repeated(one@[0], n as nat),
{
    let mut i: usize = 0;
    assert(text@ =~= old(text)@ + repeated(one@[0], 0));

    while i < n
        invariant
            i <= n,
            one@.len() == 1,
            text@ == old(text)@ + repeated(one@[0], i as nat),
        decreases n - i,
    {
        text.append(one);
        i += 1;
        assert(text@ =~= old(text)@ + repeated(one@[0], i as nat));
    }
}

/// How many characters a text lacks to be as long as the width.
fn missing(text: &str, width: usize) -> (n: usize)
    ensures
        n == padding(width as nat, text@.len()),
{
    let len: usize = text.unicode_len();
    if len < width {
        width - len
    } else {
        0
    }
}

/// Append a number in decimal digits, with zeros in front up to a width.
pub fn append_zero_padded(n: u128, width: usize, text: &mut String)
    ensures
        final(text)@ == old(text)@ + zero_padded(n as nat, width as nat),
{
    proof {
        reveal_strlit("0");
    }
    let mut digits = String::new();
    append_decimal(n, &mut digits);
    assert(digits@ =~= decimal(n as nat));
    append_repeated("0", missing(digits.as_str(), width), text);
    text.append(digits.as_str());
    assert(text@ =~= old(text)@ + zero_padded(n as nat, width as nat));
}

/// Append a number in decimal digits, with spaces behind up to a width.
pub fn append_left_aligned(n: u128, width: usize, text: &mut String)
    ensures
        final(text)@ == old(text)@ + left_aligned(n as nat, width as nat),
{
    proof {
        reveal_strlit(" ");
    }
    let mut digits = String::new();
    append_decimal(n, &mut digits);
    assert(digits@ =~= decimal(n as nat));
    text.append(digits.as_str());
    append_repeated(" ", missing(digits.as_str(), width), text);
    assert(text@ =~= old(text)@ + left_aligned(n as nat, width as nat));
}

} // verus!
