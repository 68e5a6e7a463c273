//! Damage expressions: a sum of dice groups and constant modifiers.
use vstd::prelude::*;

use crate::error::ParseError;
use crate::modifier::{
    checked_parts_score, parts_detail, parts_fit, parts_score, push_parts_detail, ModifiersOutcome,
    OutcomePart,
};
use crate::random::gen_range_u32;
use crate::text::{
    chars_of, decimal, is_digit, is_number, number_value, push_decimal, read_number,
    starts_with_minus, string_of_chars,
};
use crate::{DisplayRoll, RollExpression, Score, Sides};

verus! {

/// One term of a damage expression, before it is rolled.
#[derive(PartialEq, Eq, Structural, Debug, Clone, Copy)]
pub enum DamagePart {
    /// `count` dice with the given sides: `Dice(2, 8)` is `2d8`, `Dice(1, -4)` is `-1d4`.
    Dice(u32, Sides),
    /// A constant added to the total.
    Modifier(Score),
}

/// Length of the run of digits that `s` starts with.
pub open spec fn digit_run(s: Seq<char>) -> nat
    decreases s.len(),
{
    if s.len() > 0 && is_digit(s[0]) {
        1 + digit_run(s.drop_first())
    } else {
        0
    }
}

pub open spec fn is_sign(c: char) -> bool {
    c == '+' || c == '-'
}

/// Length of the longest prefix of `s` that holds no `+` or `-`.
pub open spec fn unsigned_run(s: Seq<char>) -> nat
    decreases s.len(),
{
    if s.len() > 0 && !is_sign(s[0]) {
        1 + unsigned_run(s.drop_first())
    } else {
        0
    }
}

pub open spec fn signed(neg: bool, v: int) -> int {
    if neg {
        -v
    } else {
        v
    }
}

/// The term that `s` spells, if any: `-?N` is a modifier, `-?NdM` is `N` dice of
/// `M` sides, subtracted when `-` leads. `N` must fit `u32`, `M` must lie in
/// `1..=i32::MAX`, and a modifier's magnitude must fit `i32`.
pub open spec fn part_from(s: Seq<char>) -> Option<DamagePart> {
    let neg = starts_with_minus(s);
    let body = if neg {
        s.drop_first()
    } else {
        s
    };
    let k = digit_run(body) as int;
    if k == body.len() {
        if is_number(body) && number_value(body) <= i32::MAX {
            Some(DamagePart::Modifier(signed(neg, number_value(body)) as i32))
        } else {
            None
        }
    } else if body[k] == 'd' {
        let count = body.take(k);
        let sides = body.skip(k + 1);
        if is_number(count) && is_number(sides) && number_value(count) <= u32::MAX && 1
            <= number_value(sides) <= i32::MAX {
            Some(DamagePart::Dice(number_value(count) as u32, signed(neg, number_value(sides)) as i32))
        } else {
            None
        }
    } else {
        None
    }
}

pub proof fn lemma_unsigned_run_bound(s: Seq<char>)
    ensures
        unsigned_run(s) <= s.len(),
    decreases s.len(),
{
    if s.len() > 0 && !is_sign(s[0]) {
        lemma_unsigned_run_bound(s.drop_first());
    }
}

/// Where the term that starts `t` ends: at the next `+` or `-` after its first
/// character, or at the end of `t`.
pub open spec fn term_end(t: Seq<char>) -> int {
    1 + unsigned_run(t.drop_first()) as int
}

/// The terms of a damage expression. Each term runs up to the next `+` or `-`;
/// a `-` belongs to the term it starts, a `+` only separates. The empty text has
/// no terms; any term that is not a valid `part_from` rejects the whole text.
pub open spec fn damage_from(t: Seq<char>) -> Option<Seq<DamagePart>>
    decreases t.len(),
{
    if t.len() == 0 {
        Some(seq![])
    } else {
        let end = term_end(t);
        match part_from(t.take(end)) {
            None => None,
            Some(p) => {
                proof {
                    lemma_unsigned_run_bound(t.drop_first());
                }
                let rest = t.skip(end);
                let next = if rest.len() > 0 && rest[0] == '+' {
                    rest.drop_first()
                } else {
                    rest
                };
                match damage_from(next) {
                    None => None,
                    Some(ps) => Some(seq![p] + ps),
                }
            },
        }
    }
}

/// `acc` followed by the terms of `o`, or `None` when `o` is.
pub open spec fn after(acc: Seq<DamagePart>, o: Option<Seq<DamagePart>>) -> Option<Seq<DamagePart>> {
    match o {
        None => None,
        Some(ps) => Some(acc + ps),
    }
}

/// Sides are never zero, and their magnitude fits `Sides`.
pub open spec fn part_well_formed(p: DamagePart) -> bool {
    match p {
        DamagePart::Dice(_, sides) => sides != 0 && sides != i32::MIN,
        DamagePart::Modifier(_) => true,
    }
}

pub open spec fn parts_well_formed(ps: Seq<DamagePart>) -> bool {
    forall|i: int| 0 <= i < ps.len() ==> part_well_formed(#[trigger] ps[i])
}

pub open spec fn abs(x: int) -> int {
    if x < 0 {
        -x
    } else {
        x
    }
}

/// `o` is a possible result of rolling `p`: one value in `1..=|sides|` per die,
/// or the modifier unchanged.
pub open spec fn rolled(p: DamagePart, o: OutcomePart) -> bool {
    match p {
        DamagePart::Dice(count, sides) => match o {
            OutcomePart::Dice(s, v) => {
                &&& s == sides
                &&& v@.len() == count
                &&& forall|i: int| 0 <= i < v@.len() ==> 1 <= #[trigger] v@[i] <= abs(sides as int)
            },
            OutcomePart::Modifier(_) => false,
        },
        DamagePart::Modifier(m) => match o {
            OutcomePart::Modifier(x) => x == m,
            OutcomePart::Dice(_, _) => false,
        },
    }
}

/// Term by term, `os` is a possible result of rolling `ps`.
pub open spec fn rolled_all(ps: Seq<DamagePart>, os: Seq<OutcomePart>) -> bool {
    &&& os.len() == ps.len()
    &&& forall|i: int| 0 <= i < ps.len() ==> rolled(#[trigger] ps[i], os[i])
}

/// The terms rolled on a critical hit: each dice group with positive sides twice,
/// side by side; every other term once.
pub open spec fn crit_parts(ps: Seq<DamagePart>) -> Seq<DamagePart>
    decreases ps.len(),
{
    if ps.len() == 0 {
        seq![]
    } else {
        let p = ps.last();
        let doubled = match p {
            DamagePart::Dice(_, sides) => sides > 0,
            DamagePart::Modifier(_) => false,
        };
        if doubled {
            crit_parts(ps.drop_last()) + seq![p, p]
        } else {
            crit_parts(ps.drop_last()) + seq![p]
        }
    }
}

/// An error naming `v[lo..hi]`.
pub(crate) fn error_at(v: &Vec<char>, lo: usize, hi: usize) -> (r: ParseError)
    requires
        lo <= hi <= v@.len(),
    ensures
        r.details@ == v@.subrange(lo as int, hi as int),
{
    let mut out: Vec<char> = Vec::new();
    let mut i: usize = lo;
    while i < hi
        invariant
            lo <= i <= hi <= v@.len(),
            out@ == v@.subrange(lo as int, i as int),
        decreases hi - i,
    {
        out.push(v[i]);
        i = i + 1;
        assert(out@ =~= v@.subrange(lo as int, i as int));
    }
    ParseError { details: string_of_chars(&out) }
}

/// Parses `v[lo..hi]` as a single term.
pub(crate) fn parse_part(v: &Vec<char>, lo: usize, hi: usize) -> (r: Option<DamagePart>)
    requires
        lo <= hi <= v@.len(),
    ensures
        r == part_from(v@.subrange(lo as int, hi as int)),
        r matches Some(p) ==> part_well_formed(p),
{
    let ghost s = v@.subrange(lo as int, hi as int);
    let neg = lo < hi && v[lo] == '-';
    let start: usize = if neg { lo + 1 } else { lo };
    let ghost body = if neg { s.drop_first() } else { s };
    assert(body =~= v@.subrange(start as int, hi as int));
    let mut k: usize = start;
    while k < hi && '0' <= v[k] && v[k] <= '9'
        invariant
            start <= k <= hi <= v@.len(),
            body == v@.subrange(start as int, hi as int),
            digit_run(body) == (k - start) + digit_run(v@.subrange(k as int, hi as int)),
        decreases hi - k,
    {
        assert(v@.subrange(k as int, hi as int).drop_first() =~= v@.subrange(k + 1, hi as int));
        k = k + 1;
    }
    assert(digit_run(v@.subrange(k as int, hi as int)) == 0);
    if k == hi {
        match read_number(v, start, hi, 2147483647) {
            Some(m) => {
                let m = m as i32;
                Some(DamagePart::Modifier(if neg { -m } else { m }))
            },
            None => None,
        }
    } else if v[k] == 'd' {
        assert(body.take(k - start) =~= v@.subrange(start as int, k as int));
        assert(body.skip(k - start + 1) =~= v@.subrange(k + 1, hi as int));
        let count = read_number(v, start, k, 4294967295);
        let sides = read_number(v, k + 1, hi, 2147483647);
        match (count, sides) {
            (Some(c), Some(f)) => {
                if f == 0 {
                    None
                } else {
                    let f = f as i32;
                    Some(DamagePart::Dice(c, if neg { -f } else { f }))
                }
            },
            _ => None,
        }
    } else {
        None
    }
}

/// Parses `v[lo..]` as a damage expression.
pub(crate) fn parse_damage(v: &Vec<char>, lo: usize) -> (r: Result<Vec<DamagePart>, ParseError>)
    requires
        lo <= v@.len(),
    ensures
        match r {
            Ok(ps) => damage_from(v@.skip(lo as int)) == Some(ps@) && parts_well_formed(ps@),
            Err(_) => damage_from(v@.skip(lo as int)) is None,
        },
{
    let n = v.len();
    let mut result: Vec<DamagePart> = Vec::new();
    let mut i: usize = lo;
    assert(result@ + Seq::<DamagePart>::empty() =~= result@);
    while i < n
        invariant
            n == v@.len(),
            lo <= i <= n,
            damage_from(v@.skip(lo as int)) == after(result@, damage_from(v@.skip(i as int))),
            parts_well_formed(result@),
        decreases n - i,
    {
        let ghost t = v@.skip(i as int);
        let mut end: usize = i + 1;
        assert(t.drop_first() =~= v@.skip(end as int));
        while end < n && v[end] != '+' && v[end] != '-'
            invariant
                i < end <= n,
                n == v@.len(),
                unsigned_run(t.drop_first()) == (end - (i + 1)) + unsigned_run(v@.skip(end as int)),
            decreases n - end,
        {
            assert(v@.skip(end as int).drop_first() =~= v@.skip(end + 1));
            end = end + 1;
        }
        assert(unsigned_run(v@.skip(end as int)) == 0);
        assert(t.take(end - i) =~= v@.subrange(i as int, end as int));
        assert(t.skip(end - i) =~= v@.skip(end as int));
        match parse_part(v, i, end) {
            None => {
                return Err(error_at(v, i, end));
            },
            Some(p) => {
                let ghost old_result = result@;
                result.push(p);
                if end < n && v[end] == '+' {
                    assert(v@.skip(end as int).drop_first() =~= v@.skip(end + 1));
                    i = end + 1;
                } else {
                    i = end;
                }
                assert(old_result + seq![p] =~= result@);
                assert forall|ps: Seq<DamagePart>| old_result + (seq![p] + ps) =~= result@ + ps by {}
                assert(parts_well_formed(result@)) by {
                    assert forall|j: int| 0 <= j < result@.len() implies part_well_formed(
                        #[trigger] result@[j],
                    ) by {
                        if j < old_result.len() {
                            assert(result@[j] == old_result[j]);
                        }
                    }
                }
            },
        }
    }
    assert(v@.skip(n as int) =~= Seq::<char>::empty());
    assert(result@ + Seq::<DamagePart>::empty() =~= result@);
    Ok(result)
}


/// A damage expression: terms summed in order.
#[derive(PartialEq, Debug, Clone)]
pub struct Damage(pub Vec<DamagePart>);

impl DamagePart {
    /// Parses one term, e.g. `2d8`, `-1d4`, `3` or `-2`.
    pub fn from_text(s: &str) -> (r: Result<DamagePart, ParseError>)
        ensures
            match r {
                Ok(p) => part_from(s@) == Some(p) && part_well_formed(p),
                Err(e) => part_from(s@) is None && e.details@ == s@,
            },
    {
        let v = chars_of(s);
        assert(v@.subrange(0, v@.len() as int) =~= v@);
        match parse_part(&v, 0, v.len()) {
            Some(p) => Ok(p),
            None => Err(error_at(&v, 0, v.len())),
        }
    }
}

impl RollExpression for DamagePart {
    type Outcome = OutcomePart;

    open spec fn well_formed(&self) -> bool {
        part_well_formed(*self)
    }

    fn new(expression: &str) -> (r: Result<DamagePart, ParseError>)
        ensures
            match r {
                Ok(p) => part_from(expression@) == Some(p) && p.well_formed(),
                Err(e) => part_from(expression@) is None && e.details@ == expression@,
            },
    {
        DamagePart::from_text(expression)
    }

    /// One value in `1..=|sides|` per die, or the modifier unchanged.
    fn roll(&self) -> (r: OutcomePart)
        ensures
            rolled(*self, r),
    {
        match self {
            DamagePart::Dice(count, sides) => {
                assert(self.well_formed());
                assert(part_well_formed(*self));
                let faces: u32 = if *sides < 0 {
                    (-(*sides as i64)) as u32
                } else {
                    *sides as u32
                };
                let mut values: Vec<Score> = Vec::new();
                let mut i: u32 = 0;
                while i < *count
                    invariant
                        i <= *count,
                        faces as int == abs(*sides as int),
                        1 <= faces <= i32::MAX,
                        values@.len() == i,
                        forall|j: int| 0 <= j < values@.len() ==> 1 <= #[trigger] values@[j] <= faces,
                    decreases *count - i,
                {
                    let x = gen_range_u32(1, faces + 1);
                    values.push(x as i32);
                    i = i + 1;
                }
                OutcomePart::Dice(*sides, values)
            },
            DamagePart::Modifier(m) => OutcomePart::Modifier(*m),
        }
    }
}

impl Damage {
    /// Rolls as a critical hit: each dice group with positive sides is rolled
    /// twice, as two adjacent groups; modifiers and subtracted dice count once.
    pub fn crit_roll(&self) -> (r: DamageOutcome)
        requires
            self.well_formed(),
        ensures
            rolled_all(crit_parts(self.0@), r.parts()),
    {
        let ghost ps = self.0@;
        let mut result: Vec<OutcomePart> = Vec::new();
        let mut i: usize = 0;
        while i < self.0.len()
            invariant
                ps == self.0@,
                i <= ps.len(),
                parts_well_formed(ps),
                rolled_all(crit_parts(ps.take(i as int)), result@),
            decreases ps.len() - i,
        {
            let part = &self.0[i];
            assert(ps.take(i + 1).drop_last() =~= ps.take(i as int));
            assert(part_well_formed(ps[i as int]));
            let ghost before = result@;
            let ghost crit_before = crit_parts(ps.take(i as int));
            let doubled = match part {
                DamagePart::Dice(_, sides) => *sides > 0,
                DamagePart::Modifier(_) => false,
            };
            let first = part.roll();
            result.push(first);
            if doubled {
                let second = part.roll();
                result.push(second);
                assert(crit_parts(ps.take(i + 1)) =~= crit_before + seq![*part, *part]);
            } else {
                assert(crit_parts(ps.take(i + 1)) =~= crit_before + seq![*part]);
            }
            assert forall|j: int| 0 <= j < crit_parts(ps.take(i + 1)).len() implies rolled(
                #[trigger] crit_parts(ps.take(i + 1))[j],
                result@[j],
            ) by {
                if j < before.len() {
                    assert(crit_parts(ps.take(i + 1))[j] == crit_before[j]);
                    assert(result@[j] == before[j]);
                }
            }
            i = i + 1;
        }
        assert(ps.take(ps.len() as int) =~= ps);
        DamageOutcome::new(result)
    }
}

impl RollExpression for Damage {
    type Outcome = DamageOutcome;

    open spec fn well_formed(&self) -> bool {
        parts_well_formed(self.0@)
    }

    fn new(expression: &str) -> (r: Result<Damage, ParseError>)
        ensures
            match r {
                Ok(d) => damage_from(expression@) == Some(d.0@) && d.well_formed(),
                Err(_) => damage_from(expression@) is None,
            },
    {
        let v = chars_of(expression);
        assert(v@.skip(0) =~= v@);
        match parse_damage(&v, 0) {
            Ok(ps) => Ok(Damage(ps)),
            Err(e) => Err(e),
        }
    }

    /// Rolls every term once, in order.
    fn roll(&self) -> (r: DamageOutcome)
        ensures
            rolled_all(self.0@, r.parts()),
    {
        let ghost ps = self.0@;
        let mut result: Vec<OutcomePart> = Vec::new();
        let mut i: usize = 0;
        while i < self.0.len()
            invariant
                ps == self.0@,
                i <= ps.len(),
                parts_well_formed(ps),
                result@.len() == i,
                forall|j: int| 0 <= j < i ==> rolled(#[trigger] ps[j], result@[j]),
            decreases ps.len() - i,
        {
            assert(part_well_formed(ps[i as int]));
            let o = self.0[i].roll();
            result.push(o);
            i = i + 1;
        }
        DamageOutcome::new(result)
    }
}

/// The outcome of rolling a `Damage`.
#[derive(Clone, Debug, PartialEq)]
pub struct DamageOutcome {
    pub scores: ModifiersOutcome,
}

impl DamageOutcome {
    /// The rolled terms, in order.
    pub open spec fn parts(&self) -> Seq<OutcomePart> {
        self.scores.scores@
    }

    pub fn new(scores: Vec<OutcomePart>) -> (r: DamageOutcome)
        ensures
            r.parts() == scores@,
    {
        DamageOutcome { scores: ModifiersOutcome::new(scores) }
    }

    /// The total of all rolled terms.
    pub fn score(&self) -> (r: Score)
        requires
            parts_fit(self.parts()),
        ensures
            r == parts_score(self.parts()),
    {
        self.scores.score()
    }

    /// The total, or `None` when a running total would leave `Score`.
    pub fn checked_score(&self) -> (r: Option<Score>)
        ensures
            r == (if parts_fit(self.parts()) {
                Some(parts_score(self.parts()) as Score)
            } else {
                None::<Score>
            }),
    {
        checked_parts_score(&self.scores.scores)
    }

    /// The rolled terms, as modifiers of another roll.
    pub fn into_modifiers(self) -> (r: ModifiersOutcome)
        ensures
            r.scores@ == self.parts(),
    {
        self.scores
    }
}

impl DisplayRoll for DamageOutcome {
    open spec fn summary_defined(&self) -> bool {
        parts_fit(self.parts())
    }

    open spec fn summary(&self) -> Seq<char> {
        decimal(parts_score(self.parts()))
    }

    open spec fn detail(&self) -> Seq<char> {
        parts_detail(self.parts())
    }

    fn summary_ready(&self) -> (r: bool) {
        self.checked_score().is_some()
    }

    /// The total as decimal text, e.g. `11`.
    fn display_score(&self) -> (r: String) {
        let mut out: Vec<char> = Vec::new();
        push_decimal(self.score(), &mut out);
        assert(out@ =~= decimal(parts_score(self.parts())));
        string_of_chars(&out)
    }

    /// Every term, e.g. `[4+1+6]+4-[3+1]`.
    fn display_parts(&self) -> (r: String) {
        let mut out: Vec<char> = Vec::new();
        push_parts_detail(&self.scores.scores, &mut out);
        assert(out@ =~= parts_detail(self.parts()));
        string_of_chars(&out)
    }
}

/// Builds a `DamageOutcome` from chosen values instead of rolling them.
#[derive(Clone, Debug)]
pub struct DamageOutcomeBuilder {
    pub scores: Vec<OutcomePart>,
}

impl DamageOutcomeBuilder {
    /// A builder with no terms.
    pub fn new() -> (r: DamageOutcomeBuilder)
        ensures
            r.scores@ == Seq::<OutcomePart>::empty(),
    {
        DamageOutcomeBuilder { scores: Vec::new() }
    }

    /// Adds a constant modifier after the terms so far.
    pub fn modifier(self, modifier: Score) -> (r: DamageOutcomeBuilder)
        ensures
            r.scores@ == self.scores@.push(OutcomePart::Modifier(modifier)),
    {
        let mut scores = self.scores;
        scores.push(OutcomePart::Modifier(modifier));
        DamageOutcomeBuilder { scores }
    }

    /// Adds a group of dice with the given sides and values after the terms so far.
    pub fn dice(self, sides: Sides, scores: Vec<Score>) -> (r: DamageOutcomeBuilder)
        ensures
            r.scores@ == self.scores@.push(OutcomePart::Dice(sides, scores)),
    {
        let mut parts = self.scores;
        parts.push(OutcomePart::Dice(sides, scores));
        DamageOutcomeBuilder { scores: parts }
    }

    /// The outcome holding the terms added so far.
    pub fn build(self) -> (r: DamageOutcome)
        ensures
            r.parts() == self.scores@,
    {
        DamageOutcome::new(self.scores)
    }
}

impl Default for DamageOutcomeBuilder {
    fn default() -> (r: DamageOutcomeBuilder)
        ensures
            r.scores@ == Seq::<OutcomePart>::empty(),
    {
        DamageOutcomeBuilder::new()
    }
}

impl std::str::FromStr for DamagePart {
    type Err = ParseError;

    fn from_str(s: &str) -> (r: Result<DamagePart, ParseError>)
        ensures
            match r {
                Ok(p) => part_from(s@) == Some(p) && part_well_formed(p),
                Err(e) => part_from(s@) is None && e.details@ == s@,
            },
    {
        DamagePart::new(s)
    }
}

impl std::str::FromStr for Damage {
    type Err = ParseError;

    fn from_str(s: &str) -> (r: Result<Damage, ParseError>)
        ensures
            match r {
                Ok(d) => damage_from(s@) == Some(d.0@) && d.well_formed(),
                Err(_) => damage_from(s@) is None,
            },
    {
        Damage::new(s)
    }
}

} // verus!
