//! Properties that relate the library's operations to one another.
use vstd::prelude::*;

use crate::attack::{attack_from, has_question, question_run, strip_spaces};
use crate::check::check_from;
use crate::damage::{abs, damage_from, rolled, rolled_all, DamagePart};
use crate::modifier::{part_detail, part_score, parts_score, values_sum, OutcomePart};
use crate::text::{decimal, digit_char, is_digit, natural_text, sum_text};
use crate::{Score, Sides};

verus! {

/// The lowest total that a term can roll.
pub open spec fn part_low(p: DamagePart) -> int {
    match p {
        DamagePart::Dice(n, s) => if s > 0 {
            n as int
        } else {
            -(n as int) * abs(s as int)
        },
        DamagePart::Modifier(m) => m as int,
    }
}

/// The highest total that a term can roll.
pub open spec fn part_high(p: DamagePart) -> int {
    match p {
        DamagePart::Dice(n, s) => if s > 0 {
            (n as int) * (s as int)
        } else {
            -(n as int)
        },
        DamagePart::Modifier(m) => m as int,
    }
}

/// The lowest total that a sequence of terms can roll: the modifiers plus the
/// least each dice group can contribute.
pub open spec fn total_low(ps: Seq<DamagePart>) -> int
    decreases ps.len(),
{
    if ps.len() == 0 {
        0
    } else {
        total_low(ps.drop_last()) + part_low(ps.last())
    }
}

/// The highest total that a sequence of terms can roll: the modifiers plus the
/// most each dice group can contribute.
pub open spec fn total_high(ps: Seq<DamagePart>) -> int
    decreases ps.len(),
{
    if ps.len() == 0 {
        0
    } else {
        total_high(ps.drop_last()) + part_high(ps.last())
    }
}

proof fn lemma_values_bounds(v: Seq<Score>, f: int)
    requires
        forall|i: int| 0 <= i < v.len() ==> 1 <= #[trigger] v[i] <= f,
    ensures
        v.len() <= values_sum(v) <= v.len() * f,
    decreases v.len(),
{
    if v.len() > 0 {
        let w = v.drop_last();
        assert forall|i: int| 0 <= i < w.len() implies 1 <= #[trigger] w[i] <= f by {
            assert(w[i] == v[i]);
        }
        lemma_values_bounds(w, f);
        let k = w.len() as int;
        assert(k * f + f == (k + 1) * f) by (nonlinear_arith);
    }
}

proof fn lemma_part_bounds(p: DamagePart, o: OutcomePart)
    requires
        rolled(p, o),
    ensures
        part_low(p) <= part_score(o) <= part_high(p),
{
    match p {
        DamagePart::Dice(n, s) => {
            match o {
                OutcomePart::Dice(_, v) => {
                    lemma_values_bounds(v@, abs(s as int));
                    let k = n as int;
                    let f = abs(s as int);
                    assert(-k * f == -(k * f)) by (nonlinear_arith);
                },
                OutcomePart::Modifier(_) => {},
            }
        },
        DamagePart::Modifier(_) => {},
    }
}

/// Every roll of a damage expression scores no less than the sum of its
/// modifiers and the least each dice group can show, and no more than the sum
/// of its modifiers and the most each dice group can show.
pub proof fn lemma_roll_within_bounds(ps: Seq<DamagePart>, os: Seq<OutcomePart>)
    requires
        rolled_all(ps, os),
    ensures
        total_low(ps) <= parts_score(os) <= total_high(ps),
    decreases ps.len(),
{
    if ps.len() > 0 {
        let qs = ps.drop_last();
        let rs = os.drop_last();
        assert forall|i: int| 0 <= i < qs.len() implies rolled(#[trigger] qs[i], rs[i]) by {
            assert(qs[i] == ps[i] && rs[i] == os[i]);
        }
        lemma_roll_within_bounds(qs, rs);
        assert(rolled(ps[ps.len() - 1], os[os.len() - 1]));
        lemma_part_bounds(ps.last(), os.last());
    }
}

/// How many times `c` occurs in `s`.
pub open spec fn count_of(s: Seq<char>, c: char) -> nat
    decreases s.len(),
{
    if s.len() == 0 {
        0
    } else {
        count_of(s.drop_last(), c) + if s.last() == c {
            1nat
        } else {
            0nat
        }
    }
}

proof fn lemma_count_concat(a: Seq<char>, b: Seq<char>, c: char)
    ensures
        count_of(a + b, c) == count_of(a, c) + count_of(b, c),
    decreases b.len(),
{
    if b.len() == 0 {
        assert(a + b =~= a);
    } else {
        assert((a + b).drop_last() =~= a + b.drop_last());
        lemma_count_concat(a, b.drop_last(), c);
    }
}

proof fn lemma_count_absent(s: Seq<char>, c: char)
    requires
        forall|i: int| 0 <= i < s.len() ==> s[i] != c,
    ensures
        count_of(s, c) == 0,
    decreases s.len(),
{
    if s.len() > 0 {
        let t = s.drop_last();
        assert forall|i: int| 0 <= i < t.len() implies t[i] != c by {
            assert(t[i] == s[i]);
        }
        lemma_count_absent(t, c);
    }
}

proof fn lemma_natural_digits(n: nat)
    ensures
        natural_text(n).len() > 0,
        forall|i: int| 0 <= i < natural_text(n).len() ==> is_digit(#[trigger] natural_text(n)[i]),
    decreases n,
{
    if n >= 10 {
        lemma_natural_digits(n / 10);
        let d = (n % 10) as int;
        assert(is_digit(digit_char(d)));
        assert forall|i: int| 0 <= i < natural_text(n).len() implies is_digit(
            #[trigger] natural_text(n)[i],
        ) by {
            if i < natural_text(n / 10).len() {
                assert(natural_text(n)[i] == natural_text(n / 10)[i]);
            }
        }
    } else {
        assert(is_digit(digit_char(n as int)));
    }
}

/// Joining non-empty addends that hold no `+` and do not start with `-` puts
/// exactly one `+` between neighbours.
proof fn lemma_sum_text_plus(texts: Seq<Seq<char>>, c: char)
    requires
        forall|i: int| 0 <= i < texts.len() ==> (#[trigger] texts[i]).len() > 0 && texts[i][0] != '-'
            && count_of(texts[i], '+') == 0 && count_of(texts[i], c) == 0,
        c != '+',
    ensures
        count_of(sum_text(texts), c) == 0,
        texts.len() > 0 ==> count_of(sum_text(texts), '+') == texts.len() - 1,
        texts.len() == 0 ==> sum_text(texts).len() == 0,
    decreases texts.len(),
{
    if texts.len() > 0 {
        let prev = texts.drop_last();
        assert forall|i: int| 0 <= i < prev.len() implies (#[trigger] prev[i]).len() > 0 && prev[i][0]
            != '-' && count_of(prev[i], '+') == 0 && count_of(prev[i], c) == 0 by {
            assert(prev[i] == texts[i]);
        }
        lemma_sum_text_plus(prev, c);
        let last = texts.last();
        assert(last == texts[texts.len() - 1]);
        if texts.len() > 1 {
            lemma_count_concat(sum_text(prev) + seq!['+'], last, '+');
            lemma_count_concat(sum_text(prev), seq!['+'], '+');
            lemma_count_concat(sum_text(prev) + seq!['+'], last, c);
            lemma_count_concat(sum_text(prev), seq!['+'], c);
            let one = seq!['+'];
            assert(one.drop_last() =~= Seq::<char>::empty());
            assert(count_of(Seq::<char>::empty(), '+') == 0);
            assert(count_of(Seq::<char>::empty(), c) == 0);
            assert(one.last() == '+');
            assert(count_of(one, '+') == 1);
            assert(count_of(one, c) == 0);
        } else {
            lemma_count_concat(sum_text(prev), last, '+');
            lemma_count_concat(sum_text(prev), last, c);
        }
    }
}

proof fn lemma_decimal_positive(x: Score, c: char)
    requires
        x >= 1,
        !is_digit(c),
    ensures
        decimal(x as int).len() > 0,
        decimal(x as int)[0] != '-',
        count_of(decimal(x as int), c) == 0,
{
    lemma_natural_digits(x as nat);
    lemma_count_absent(decimal(x as int), c);
}

/// The detailed text of a group of rolled dice (all values at least 1) is one
/// pair of brackets, after a `-` when the sides are negative, holding one
/// addend per die with a `+` between each two; its score is the sum of the
/// values, negated when the sides are negative.
pub proof fn lemma_dice_detail(sides: Sides, values: Vec<Score>)
    requires
        forall|i: int| 0 <= i < values@.len() ==> #[trigger] values@[i] >= 1,
    ensures
        ({
            let d = part_detail(OutcomePart::Dice(sides, values));
            let inner = sum_text(values@.map_values(|x: Score| decimal(x as int)));
            &&& d == (if sides < 0 {
                seq!['-']
            } else {
                Seq::<char>::empty()
            }) + seq!['['] + inner + seq![']']
            &&& count_of(inner, '[') == 0
            &&& count_of(inner, ']') == 0
            &&& values@.len() > 0 ==> count_of(inner, '+') == values@.len() - 1
            &&& values@.len() == 0 ==> inner.len() == 0
        }),
        part_score(OutcomePart::Dice(sides, values)) == if sides < 0 {
            -values_sum(values@)
        } else {
            values_sum(values@)
        },
{
    let texts = values@.map_values(|x: Score| decimal(x as int));
    assert forall|i: int| 0 <= i < texts.len() implies (#[trigger] texts[i]).len() > 0 && texts[i][0]
        != '-' && count_of(texts[i], '+') == 0 && count_of(texts[i], '[') == 0 by {
        lemma_decimal_positive(values@[i], '+');
        lemma_decimal_positive(values@[i], '[');
    }
    lemma_sum_text_plus(texts, '[');
    assert forall|i: int| 0 <= i < texts.len() implies (#[trigger] texts[i]).len() > 0 && texts[i][0]
        != '-' && count_of(texts[i], '+') == 0 && count_of(texts[i], ']') == 0 by {
        lemma_decimal_positive(values@[i], '+');
        lemma_decimal_positive(values@[i], ']');
    }
    lemma_sum_text_plus(texts, ']');
    let inner = sum_text(texts);
    if sides < 0 {
        assert(part_detail(OutcomePart::Dice(sides, values)) =~= seq!['-'] + seq!['['] + inner + seq![']']);
    } else {
        assert(part_detail(OutcomePart::Dice(sides, values)) =~= Seq::<char>::empty() + seq!['['] + inner
            + seq![']']);
    }
}


proof fn lemma_question_run(s: Seq<char>)
    ensures
        question_run(s) <= s.len(),
        forall|i: int| 0 <= i < question_run(s) ==> s[i] != '?',
        question_run(s) < s.len() ==> s[question_run(s) as int] == '?',
    decreases s.len(),
{
    if s.len() > 0 && s[0] != '?' {
        let t = s.drop_first();
        lemma_question_run(t);
        assert forall|i: int| 0 <= i < question_run(s) implies s[i] != '?' by {
            if i > 0 {
                assert(s[i] == t[i - 1]);
            }
        }
    }
}

/// `s` holds two or more `?`.
pub open spec fn two_questions(s: Seq<char>) -> bool {
    exists|i: int, j: int| 0 <= i < j < s.len() && s[i] == '?' && s[j] == '?'
}

/// Attack text is rejected when it is empty, when it holds no `?`, when it
/// holds two or more, and when the check before the `?` or the damage after it
/// does not parse.
pub proof fn lemma_attack_rejects(s: Seq<char>)
    requires
        s.len() == 0 || !has_question(s) || two_questions(s) || ({
            let q = question_run(s) as int;
            q < s.len() && (check_from(s.take(q)) is None || damage_from(strip_spaces(s.skip(q + 1))) is None)
        }),
    ensures
        attack_from(s) is None,
{
    lemma_question_run(s);
    let q = question_run(s) as int;
    if !has_question(s) {
        if q < s.len() {
            assert(s[q] == '?');
        }
    }
    if two_questions(s) {
        let (i, j) = choose|i: int, j: int| 0 <= i < j < s.len() && s[i] == '?' && s[j] == '?';
        assert(q <= i);
        let right = s.skip(q + 1);
        assert(right[j - q - 1] == '?');
        assert(has_question(right));
    }
}

} // verus!
