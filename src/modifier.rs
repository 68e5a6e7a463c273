//! Rolled values: one evaluated term of a sum, and a sequence of them.
use vstd::prelude::*;

use crate::text::{decimal, push_addend, push_decimal, string_of_chars, sum_text};
use crate::{DisplayRoll, Score, Sides};

verus! {

/// The evaluated counterpart of one term of a roll expression.
#[derive(Clone, Debug, PartialEq)]
pub enum OutcomePart {
    /// The values rolled for a group of dice with the given sides, one per die.
    /// For `3d6` rolling 4, 2 and 1 this is `Dice(6, vec![4, 2, 1])`.
    Dice(Sides, Vec<Score>),
    /// A constant modifier.
    Modifier(Score),
}

pub open spec fn in_score_range(x: int) -> bool {
    i32::MIN <= x <= i32::MAX
}

/// The sum of a sequence of rolled values.
pub open spec fn values_sum(v: Seq<Score>) -> int
    decreases v.len(),
{
    if v.len() == 0 {
        0
    } else {
        values_sum(v.drop_last()) + v.last()
    }
}

/// What one term contributes to a total: dice with negative sides count against it.
pub open spec fn part_score(p: OutcomePart) -> int {
    match p {
        OutcomePart::Dice(sides, v) => if sides < 0 {
            -values_sum(v@)
        } else {
            values_sum(v@)
        },
        OutcomePart::Modifier(m) => m as int,
    }
}

/// The total of a sequence of terms.
pub open spec fn parts_score(ps: Seq<OutcomePart>) -> int
    decreases ps.len(),
{
    if ps.len() == 0 {
        0
    } else {
        parts_score(ps.drop_last()) + part_score(ps.last())
    }
}

/// Every running total met while scoring the term stays within `Score`.
pub open spec fn part_fits(p: OutcomePart) -> bool {
    match p {
        OutcomePart::Dice(_, v) => {
            &&& forall|i: int| 0 <= i <= v@.len() ==> in_score_range(#[trigger] values_sum(v@.take(i)))
            &&& in_score_range(part_score(p))
        },
        OutcomePart::Modifier(_) => true,
    }
}

/// Every running total met while scoring the terms stays within `Score`.
pub open spec fn parts_fit(ps: Seq<OutcomePart>) -> bool {
    &&& forall|i: int| 0 <= i < ps.len() ==> part_fits(#[trigger] ps[i])
    &&& forall|i: int| 0 <= i <= ps.len() ==> in_score_range(#[trigger] parts_score(ps.take(i)))
}

/// The detailed text of one term: dice as `[v1+v2+...]`, prefixed with `-` when
/// their sides are negative; a modifier as its signed decimal.
pub open spec fn part_detail(p: OutcomePart) -> Seq<char> {
    match p {
        OutcomePart::Dice(sides, v) => {
            let inner = seq!['['] + sum_text(v@.map_values(|x: Score| decimal(x as int))) + seq![
                ']',
            ];
            if sides < 0 {
                seq!['-'] + inner
            } else {
                inner
            }
        },
        OutcomePart::Modifier(m) => decimal(m as int),
    }
}

/// The detailed text of a sequence of terms, joined as a sum.
pub open spec fn parts_detail(ps: Seq<OutcomePart>) -> Seq<char> {
    sum_text(ps.map_values(|p: OutcomePart| part_detail(p)))
}

proof fn lemma_values_step(v: Seq<Score>, i: int)
    requires
        0 <= i < v.len(),
    ensures
        values_sum(v.take(i + 1)) == values_sum(v.take(i)) + v[i],
{
    assert(v.take(i + 1).drop_last() =~= v.take(i));
}

proof fn lemma_parts_step(ps: Seq<OutcomePart>, i: int)
    requires
        0 <= i < ps.len(),
    ensures
        parts_score(ps.take(i + 1)) == parts_score(ps.take(i)) + part_score(ps[i]),
{
    assert(ps.take(i + 1).drop_last() =~= ps.take(i));
}

impl OutcomePart {
    /// The score of this term: the signed sum of its dice, or the modifier.
    pub fn score(&self) -> (r: Score)
        requires
            part_fits(*self),
        ensures
            r == part_score(*self),
    {
        match self {
            OutcomePart::Dice(sides, v) => {
                let mut sum: Score = 0;
                let mut i: usize = 0;
                while i < v.len()
                    invariant
                        i <= v@.len(),
                        part_fits(*self),
                        *self == OutcomePart::Dice(*sides, *v),
                        sum == values_sum(v@.take(i as int)),
                    decreases v@.len() - i,
                {
                    proof {
                        lemma_values_step(v@, i as int);
                        assert(in_score_range(values_sum(v@.take(i + 1))));
                    }
                    sum = sum + v[i];
                    i = i + 1;
                }
                assert(v@.take(v@.len() as int) =~= v@);
                if *sides < 0 {
                    -sum
                } else {
                    sum
                }
            },
            OutcomePart::Modifier(m) => *m,
        }
    }

    pub(crate) fn push_detail(&self, out: &mut Vec<char>)
        ensures
            final(out)@ == old(out)@ + part_detail(*self),
    {
        match self {
            OutcomePart::Dice(sides, v) => {
                let ghost start = out@;
                let ghost texts = v@.map_values(|x: Score| decimal(x as int));
                if *sides < 0 {
                    out.push('-');
                }
                out.push('[');
                let ghost open = out@;
                let mut inner: Vec<char> = Vec::new();
                let mut i: usize = 0;
                while i < v.len()
                    invariant
                        i <= v@.len(),
                        texts == v@.map_values(|x: Score| decimal(x as int)),
                        inner@ == sum_text(texts.take(i as int)),
                    decreases v@.len() - i,
                {
                    let mut item: Vec<char> = Vec::new();
                    push_decimal(v[i], &mut item);
                    assert(item@ =~= texts[i as int]);
                    push_addend(&mut inner, &item, i == 0, Ghost(texts.take(i as int)));
                    assert(texts.take(i as int).push(item@) =~= texts.take(i + 1));
                    i = i + 1;
                }
                assert(texts.take(v@.len() as int) =~= texts);
                let mut j: usize = 0;
                while j < inner.len()
                    invariant
                        j <= inner@.len(),
                        out@ == open + inner@.take(j as int),
                    decreases inner@.len() - j,
                {
                    out.push(inner[j]);
                    j = j + 1;
                    assert(out@ =~= open + inner@.take(j as int));
                }
                out.push(']');
                assert(inner@.take(inner@.len() as int) =~= inner@);
                assert(out@ =~= start + part_detail(*self));
            },
            OutcomePart::Modifier(m) => {
                push_decimal(*m, out);
            },
        }
    }

}

impl DisplayRoll for OutcomePart {
    open spec fn summary_defined(&self) -> bool {
        part_fits(*self)
    }

    open spec fn summary(&self) -> Seq<char> {
        decimal(part_score(*self))
    }

    open spec fn detail(&self) -> Seq<char> {
        part_detail(*self)
    }

    fn summary_ready(&self) -> (r: bool) {
        checked_part_score(self).is_some()
    }

    /// The score of this term as decimal text.
    fn display_score(&self) -> (r: String) {
        let mut out: Vec<char> = Vec::new();
        push_decimal(self.score(), &mut out);
        assert(out@ =~= decimal(part_score(*self)));
        string_of_chars(&out)
    }

    /// The detailed text of this term, e.g. `[4+1+6]`, `-[3]` or `-2`.
    fn display_parts(&self) -> (r: String) {
        let mut out: Vec<char> = Vec::new();
        self.push_detail(&mut out);
        assert(out@ =~= part_detail(*self));
        string_of_chars(&out)
    }
}

/// A sequence of evaluated terms, summed for a score.
#[derive(Clone, Debug, PartialEq)]
pub struct ModifiersOutcome {
    pub scores: Vec<OutcomePart>,
}

/// Appends the detailed text of `ps`, joined as a sum.
pub(crate) fn push_parts_detail(ps: &Vec<OutcomePart>, out: &mut Vec<char>)
    ensures
        final(out)@ == old(out)@ + parts_detail(ps@),
{
    let ghost texts = ps@.map_values(|p: OutcomePart| part_detail(p));
    let ghost start = out@;
    let mut inner: Vec<char> = Vec::new();
    let mut i: usize = 0;
    while i < ps.len()
        invariant
            i <= ps@.len(),
            texts == ps@.map_values(|p: OutcomePart| part_detail(p)),
            inner@ == sum_text(texts.take(i as int)),
        decreases ps@.len() - i,
    {
        let mut item: Vec<char> = Vec::new();
        ps[i].push_detail(&mut item);
        assert(item@ =~= texts[i as int]);
        push_addend(&mut inner, &item, i == 0, Ghost(texts.take(i as int)));
        assert(texts.take(i as int).push(item@) =~= texts.take(i + 1));
        i = i + 1;
    }
    assert(texts.take(ps@.len() as int) =~= texts);
    let mut j: usize = 0;
    while j < inner.len()
        invariant
            j <= inner@.len(),
            out@ == start + inner@.take(j as int),
        decreases inner@.len() - j,
    {
        out.push(inner[j]);
        j = j + 1;
        assert(out@ =~= start + inner@.take(j as int));
    }
    assert(inner@.take(inner@.len() as int) =~= inner@);
}

/// The sum of the scores of `ps`.
pub(crate) fn score_parts(ps: &Vec<OutcomePart>) -> (r: Score)
    requires
        parts_fit(ps@),
    ensures
        r == parts_score(ps@),
{
    let mut sum: Score = 0;
    let mut i: usize = 0;
    while i < ps.len()
        invariant
            i <= ps@.len(),
            parts_fit(ps@),
            sum == parts_score(ps@.take(i as int)),
        decreases ps@.len() - i,
    {
        proof {
            lemma_parts_step(ps@, i as int);
            assert(in_score_range(parts_score(ps@.take(i + 1))));
            assert(part_fits(ps@[i as int]));
        }
        let s = ps[i].score();
        sum = sum + s;
        i = i + 1;
    }
    assert(ps@.take(ps@.len() as int) =~= ps@);
    sum
}


/// The score of `p`, or `None` when a running total would leave `Score`.
pub fn checked_part_score(p: &OutcomePart) -> (r: Option<Score>)
    ensures
        r == (if part_fits(*p) {
            Some(part_score(*p) as Score)
        } else {
            None::<Score>
        }),
{
    match p {
        OutcomePart::Dice(sides, v) => {
            let mut sum: Score = 0;
            let mut i: usize = 0;
            assert(values_sum(v@.take(0)) == 0) by {
                assert(v@.take(0) =~= Seq::<Score>::empty());
            }
            while i < v.len()
                invariant
                    i <= v@.len(),
                    *p == OutcomePart::Dice(*sides, *v),
                    sum == values_sum(v@.take(i as int)),
                    forall|j: int| 0 <= j <= i ==> in_score_range(#[trigger] values_sum(v@.take(j))),
                decreases v@.len() - i,
            {
                proof {
                    lemma_values_step(v@, i as int);
                }
                let next: i64 = sum as i64 + v[i] as i64;
                if next < i32::MIN as i64 || next > i32::MAX as i64 {
                    assert(!in_score_range(values_sum(v@.take(i + 1))));
                    return None;
                }
                sum = next as Score;
                i = i + 1;
            }
            assert(v@.take(v@.len() as int) =~= v@);
            if *sides < 0 {
                if sum == i32::MIN {
                    None
                } else {
                    Some(-sum)
                }
            } else {
                Some(sum)
            }
        },
        OutcomePart::Modifier(m) => Some(*m),
    }
}

/// The total of `ps`, or `None` when a running total would leave `Score`.
pub fn checked_parts_score(ps: &Vec<OutcomePart>) -> (r: Option<Score>)
    ensures
        r == (if parts_fit(ps@) {
            Some(parts_score(ps@) as Score)
        } else {
            None::<Score>
        }),
        r matches Some(x) ==> x as int == parts_score(ps@),
{
    let mut sum: Score = 0;
    let mut i: usize = 0;
    assert(parts_score(ps@.take(0)) == 0) by {
        assert(ps@.take(0) =~= Seq::<OutcomePart>::empty());
    }
    while i < ps.len()
        invariant
            i <= ps@.len(),
            sum == parts_score(ps@.take(i as int)),
            forall|j: int| 0 <= j < i ==> part_fits(#[trigger] ps@[j]),
            forall|j: int| 0 <= j <= i ==> in_score_range(#[trigger] parts_score(ps@.take(j))),
        decreases ps@.len() - i,
    {
        proof {
            lemma_parts_step(ps@, i as int);
        }
        match checked_part_score(&ps[i]) {
            None => {
                return None;
            },
            Some(x) => {
                let next: i64 = sum as i64 + x as i64;
                if next < i32::MIN as i64 || next > i32::MAX as i64 {
                    assert(!in_score_range(parts_score(ps@.take(i + 1))));
                    return None;
                }
                sum = next as Score;
            },
        }
        i = i + 1;
    }
    assert(ps@.take(ps@.len() as int) =~= ps@);
    Some(sum)
}

impl ModifiersOutcome {
    pub fn new(scores: Vec<OutcomePart>) -> (r: ModifiersOutcome)
        ensures
            r.scores@ == scores@,
    {
        ModifiersOutcome { scores }
    }

    /// The total of all terms.
    pub fn score(&self) -> (r: Score)
        requires
            parts_fit(self.scores@),
        ensures
            r == parts_score(self.scores@),
    {
        score_parts(&self.scores)
    }

    /// The terms, in order.
    pub fn into_inner(self) -> (r: Vec<OutcomePart>)
        ensures
            r@ == self.scores@,
    {
        self.scores
    }
}

impl From<Vec<OutcomePart>> for ModifiersOutcome {
    fn from(scores: Vec<OutcomePart>) -> (r: ModifiersOutcome) {
        ModifiersOutcome { scores }
    }
}

impl vstd::std_specs::convert::FromSpecImpl<Vec<OutcomePart>> for ModifiersOutcome {
    open spec fn obeys_from_spec() -> bool {
        true
    }

    open spec fn from_spec(scores: Vec<OutcomePart>) -> ModifiersOutcome {
        ModifiersOutcome { scores }
    }
}

} // verus!
