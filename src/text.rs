//! Character-level helpers shared by the parsers and the renderers.
use vstd::prelude::*;
use vstd::string::*;

verus! {

pub open spec fn is_digit(c: char) -> bool {
    '0' <= c && c <= '9'
}

/// The value of one decimal digit character.
pub open spec fn digit_value(c: char) -> int {
    c as int - '0' as int
}

/// A non-empty run of decimal digits.
pub open spec fn is_number(s: Seq<char>) -> bool {
    &&& s.len() > 0
    &&& forall|i: int| 0 <= i < s.len() ==> is_digit(#[trigger] s[i])
}

/// The value of a run of decimal digits, most significant first.
pub open spec fn number_value(s: Seq<char>) -> int
    decreases s.len(),
{
    if s.len() == 0 {
        0
    } else {
        10 * number_value(s.drop_last()) + digit_value(s.last())
    }
}

/// The character of a digit in `0..10`.
pub open spec fn digit_char(d: int) -> char {
    if d == 0 { '0' }
    else if d == 1 { '1' }
    else if d == 2 { '2' }
    else if d == 3 { '3' }
    else if d == 4 { '4' }
    else if d == 5 { '5' }
    else if d == 6 { '6' }
    else if d == 7 { '7' }
    else if d == 8 { '8' }
    else { '9' }
}

/// Decimal digits of a natural number, without leading zeros.
pub open spec fn natural_text(n: nat) -> Seq<char>
    decreases n,
{
    if n < 10 {
        seq![digit_char(n as int)]
    } else {
        natural_text(n / 10).push(digit_char((n % 10) as int))
    }
}

/// Decimal rendering of an integer, with a leading `-` when it is negative.
pub open spec fn decimal(n: int) -> Seq<char> {
    if n < 0 {
        seq!['-'] + natural_text((-n) as nat)
    } else {
        natural_text(n as nat)
    }
}

/// Joins addends into a sum: each addend after the first is preceded by `+`
/// unless it already starts with `-`.
pub open spec fn sum_text(items: Seq<Seq<char>>) -> Seq<char>
    decreases items.len(),
{
    if items.len() == 0 {
        seq![]
    } else {
        let prev = sum_text(items.drop_last());
        let last = items.last();
        if items.len() > 1 && !starts_with_minus(last) {
            prev + seq!['+'] + last
        } else {
            prev + last
        }
    }
}

pub open spec fn starts_with_minus(s: Seq<char>) -> bool {
    s.len() > 0 && s[0] == '-'
}

/// Relies on `String`'s `FromIterator<&char>`: the string holds exactly the given characters, in order.
#[verifier::external_body]
pub(crate) fn string_of_chars(v: &Vec<char>) -> (r: String)
    ensures
        r@ == v@,
{
    String::from_iter(v.iter())
}

/// The characters of a string slice, in order.
pub fn chars_of(s: &str) -> (r: Vec<char>)
    ensures
        r@ == s@,
{
    let n = s.unicode_len();
    let mut r: Vec<char> = Vec::new();
    let mut i: usize = 0;
    while i < n
        invariant
            n == s@.len(),
            i <= n,
            r@ == s@.take(i as int),
        decreases n - i,
    {
        let c = s.get_char(i);
        r.push(c);
        i = i + 1;
        assert(r@ =~= s@.take(i as int));
    }
    assert(r@ =~= s@);
    r
}

proof fn lemma_number_step(s: Seq<char>, i: int)
    requires
        0 <= i < s.len(),
    ensures
        number_value(s.take(i + 1)) == 10 * number_value(s.take(i)) + digit_value(s[i]),
{
    assert(s.take(i + 1).drop_last() =~= s.take(i));
}

/// Reads `v[lo..hi]` as a decimal number no larger than `max`.
/// Returns `None` when the range is empty, holds a non-digit, or its value exceeds `max`.
pub fn read_number(v: &Vec<char>, lo: usize, hi: usize, max: u32) -> (r: Option<u32>)
    requires
        lo <= hi <= v@.len(),
    ensures
        r == (if is_number(v@.subrange(lo as int, hi as int)) && number_value(
            v@.subrange(lo as int, hi as int),
        ) <= max {
            Some(number_value(v@.subrange(lo as int, hi as int)) as u32)
        } else {
            None::<u32>
        }),
        r matches Some(x) ==> x <= max && x as int == number_value(v@.subrange(lo as int, hi as int)),
{
    let ghost s = v@.subrange(lo as int, hi as int);
    if lo == hi {
        return None;
    }
    let mut acc: u64 = 0;
    let mut over = false;
    let mut i: usize = lo;
    while i < hi
        invariant
            lo <= i <= hi <= v@.len(),
            s == v@.subrange(lo as int, hi as int),
            forall|j: int| 0 <= j < i - lo ==> is_digit(#[trigger] s[j]),
            !over ==> acc == number_value(s.take(i - lo)) && acc <= max,
            over ==> number_value(s.take(i - lo)) > max,
            number_value(s.take(i - lo)) >= 0,
        decreases hi - i,
    {
        let c = v[i];
        if !('0' <= c && c <= '9') {
            assert(!is_digit(s[i - lo]));
            return None;
        }
        proof {
            lemma_number_step(s, i - lo);
        }
        if !over {
            let d = (c as u32 - '0' as u32) as u64;
            acc = acc * 10 + d;
            if acc > max as u64 {
                over = true;
            }
        }
        i = i + 1;
    }
    assert(s.take(hi - lo) =~= s);
    if over {
        None
    } else {
        Some(acc as u32)
    }
}

fn digit_to_char(d: u32) -> (c: char)
    requires
        d < 10,
    ensures
        c == digit_char(d as int),
{
    if d == 0 { '0' }
    else if d == 1 { '1' }
    else if d == 2 { '2' }
    else if d == 3 { '3' }
    else if d == 4 { '4' }
    else if d == 5 { '5' }
    else if d == 6 { '6' }
    else if d == 7 { '7' }
    else if d == 8 { '8' }
    else { '9' }
}

fn push_natural(n: u32, out: &mut Vec<char>)
    ensures
        final(out)@ == old(out)@ + natural_text(n as nat),
    decreases n,
{
    if n < 10 {
        out.push(digit_to_char(n));
    } else {
        push_natural(n / 10, out);
        out.push(digit_to_char(n % 10));
    }
}

/// Appends the decimal rendering of `n`.
pub fn push_decimal(n: i32, out: &mut Vec<char>)
    ensures
        final(out)@ == old(out)@ + decimal(n as int),
{
    if n < 0 {
        out.push('-');
        let m: u32 = (-(n as i64)) as u32;
        push_natural(m, out);
    } else {
        push_natural(n as u32, out);
    }
}

/// Appends `item` as the next addend of a sum whose text so far is `out`,
/// made of `items`; `first` tells whether there are none yet.
pub(crate) fn push_addend(
    out: &mut Vec<char>,
    item: &Vec<char>,
    first: bool,
    Ghost(items): Ghost<Seq<Seq<char>>>,
)
    requires
        old(out)@ == sum_text(items),
        first == (items.len() == 0),
    ensures
        final(out)@ == sum_text(items.push(item@)),
{
    assert(items.push(item@).drop_last() =~= items);
    if !first && !(item.len() > 0 && item[0] == '-') {
        out.push('+');
    }
    let mut i: usize = 0;
    let ghost start = out@;
    while i < item.len()
        invariant
            i <= item@.len(),
            out@ == start + item@.take(i as int),
        decreases item@.len() - i,
    {
        out.push(item[i]);
        i = i + 1;
        assert(out@ =~= start + item@.take(i as int));
    }
    assert(item@.take(item@.len() as int) =~= item@);
}


/// Joins the strings as a sum: `+` between neighbours, except before one that
/// starts with `-`.
pub fn write_string_sum(strings: &Vec<String>) -> (r: String)
    ensures
        r@ == sum_text(strings@.map_values(|s: String| s@)),
{
    let ghost texts = strings@.map_values(|s: String| s@);
    let mut out: Vec<char> = Vec::new();
    let mut i: usize = 0;
    while i < strings.len()
        invariant
            i <= strings@.len(),
            texts == strings@.map_values(|s: String| s@),
            out@ == sum_text(texts.take(i as int)),
        decreases strings@.len() - i,
    {
        let item = chars_of(strings[i].as_str());
        assert(item@ == texts[i as int]);
        push_addend(&mut out, &item, i == 0, Ghost(texts.take(i as int)));
        assert(texts.take(i as int).push(item@) =~= texts.take(i + 1));
        i = i + 1;
    }
    assert(texts.take(strings@.len() as int) =~= texts);
    string_of_chars(&out)
}

} // verus!
