//! Checks: a d20 roll, with advantage or disadvantage, plus modifiers.
use vstd::prelude::*;

use crate::damage::{
    crit_parts, damage_from, error_at, parse_damage, parts_well_formed, rolled_all, Damage,
    DamageOutcome, DamagePart,
};
use crate::error::ParseError;
use crate::modifier::{
    checked_parts_score, in_score_range, parts_detail, parts_fit, parts_score, push_parts_detail, score_parts,
    ModifiersOutcome, OutcomePart,
};
use crate::random::gen_range_u32;
use crate::text::{chars_of, decimal, push_decimal, string_of_chars};
use crate::{DisplayRoll, RollExpression, Score, Sides};

verus! {

/// The advantage state of a check.
#[derive(PartialEq, Eq, Structural, Debug, Clone, Copy)]
pub enum AdvState {
    /// Roll twice and keep the higher value.
    Advantage,
    /// Roll once.
    Neutral,
    /// Roll twice and keep the lower value.
    Disadvantage,
}

/// A check: a d20 with an advantage state and modifiers.
#[derive(PartialEq, Debug, Clone)]
pub struct Check {
    pub adv: AdvState,
    pub modifier: Damage,
}

/// The advantage state that a leading character selects, with the number of
/// characters it takes: `r`, `a` and `d` are taken; a leading `+` or `-` means
/// `Neutral` and is left for the modifiers. Anything else, or nothing, is rejected.
pub open spec fn check_lead(s: Seq<char>) -> Option<(AdvState, int)> {
    if s.len() == 0 {
        None
    } else if s[0] == 'r' {
        Some((AdvState::Neutral, 1int))
    } else if s[0] == 'a' {
        Some((AdvState::Advantage, 1int))
    } else if s[0] == 'd' {
        Some((AdvState::Disadvantage, 1int))
    } else if s[0] == '+' || s[0] == '-' {
        Some((AdvState::Neutral, 0int))
    } else {
        None
    }
}

/// The check that `s` spells: its advantage state and its modifier terms. After
/// the leading character one `+` is skipped; the rest is a damage expression.
pub open spec fn check_from(s: Seq<char>) -> Option<(AdvState, Seq<DamagePart>)> {
    match check_lead(s) {
        None => None,
        Some((adv, i)) => {
            let j = if i < s.len() && s[i] == '+' {
                i + 1
            } else {
                i
            };
            match damage_from(s.skip(j)) {
                None => None,
                Some(ps) => Some((adv, ps)),
            }
        },
    }
}

/// Parses `v` as a check.
pub(crate) fn parse_check(v: &Vec<char>) -> (r: Result<Check, ParseError>)
    ensures
        match r {
            Ok(c) => check_from(v@) == Some((c.adv, c.modifier.0@)) && c.well_formed(),
            Err(_) => check_from(v@) is None,
        },
{
    if v.len() == 0 {
        return Err(error_at(v, 0, 0));
    }
    let c = v[0];
    let (adv, i): (AdvState, usize) = if c == 'r' {
        (AdvState::Neutral, 1)
    } else if c == 'a' {
        (AdvState::Advantage, 1)
    } else if c == 'd' {
        (AdvState::Disadvantage, 1)
    } else if c == '+' || c == '-' {
        (AdvState::Neutral, 0)
    } else {
        return Err(error_at(v, 0, v.len()));
    };
    let j: usize = if i < v.len() && v[i] == '+' { i + 1 } else { i };
    match parse_damage(v, j) {
        Ok(ps) => Ok(Check { adv, modifier: Damage(ps) }),
        Err(e) => Err(e),
    }
}

/// The score of a check that may be a critical success or failure.
#[derive(PartialEq, Eq, Structural, Debug, Clone, Copy)]
pub enum CritScore {
    /// The d20 showed 20, whatever the modifiers.
    Critical,
    /// Any other result, with its score.
    Normal(Score),
    /// The d20 showed 1, whatever the modifiers.
    Fail,
}

/// The outcome of rolling a check.
#[derive(Clone, Debug, PartialEq)]
pub struct CheckOutcome {
    /// The d20 that counts.
    pub main: Score,
    /// The d20 that was set aside, under advantage or disadvantage.
    pub other: Option<Score>,
    pub modifiers: ModifiersOutcome,
}

/// `main` and `other` as the advantage rule makes them from two raw d20 rolls.
pub open spec fn resolved(adv: AdvState, r1: Score, r2: Score) -> (Score, Option<Score>) {
    let hi = if r1 >= r2 { r1 } else { r2 };
    let lo = if r1 >= r2 { r2 } else { r1 };
    match adv {
        AdvState::Advantage => (hi, Some(lo)),
        AdvState::Disadvantage => (lo, Some(hi)),
        AdvState::Neutral => (r1, None),
    }
}

/// `o` is a possible result of rolling a check with `adv` and modifier terms `ps`.
pub open spec fn check_rolled(adv: AdvState, ps: Seq<DamagePart>, o: CheckOutcome) -> bool {
    &&& 1 <= o.main <= 20
    &&& rolled_all(ps, o.modifiers.scores@)
    &&& match adv {
        AdvState::Neutral => o.other is None,
        AdvState::Advantage => o.other matches Some(x) && 1 <= x <= o.main,
        AdvState::Disadvantage => o.other matches Some(x) && o.main <= x <= 20,
    }
}

/// The text that follows the parenthesised d20s: the modifiers, with a `+`
/// inserted unless they are empty or already start with a sign.
pub open spec fn modifiers_suffix(m: Seq<char>) -> Seq<char> {
    if m.len() == 0 || m[0] == '+' || m[0] == '-' {
        m
    } else {
        seq!['+'] + m
    }
}

pub open spec fn critical_text() -> Seq<char> {
    seq!['C', 'r', 'i', 't', 'i', 'c', 'a', 'l']
}

pub open spec fn fail_text() -> Seq<char> {
    seq!['F', 'a', 'i', 'l']
}

pub open spec fn crit_score_text(c: CritScore) -> Seq<char> {
    match c {
        CritScore::Critical => critical_text(),
        CritScore::Fail => fail_text(),
        CritScore::Normal(s) => decimal(s as int),
    }
}

pub(crate) fn push_crit_score_text(c: CritScore, out: &mut Vec<char>)
    ensures
        final(out)@ == old(out)@ + crit_score_text(c),
{
    let ghost start = out@;
    match c {
        CritScore::Critical => {
            out.push('C');
            out.push('r');
            out.push('i');
            out.push('t');
            out.push('i');
            out.push('c');
            out.push('a');
            out.push('l');
            assert(out@ =~= start + critical_text());
        },
        CritScore::Fail => {
            out.push('F');
            out.push('a');
            out.push('i');
            out.push('l');
            assert(out@ =~= start + fail_text());
        },
        CritScore::Normal(s) => {
            push_decimal(s, out);
        },
    }
}

impl CheckOutcome {
    /// The rolled modifier terms.
    pub open spec fn parts(&self) -> Seq<OutcomePart> {
        self.modifiers.scores@
    }

    /// The score, `main` plus the modifiers, can be computed within `Score`.
    pub open spec fn score_fits(&self) -> bool {
        parts_fit(self.parts()) && in_score_range(self.main + parts_score(self.parts()))
    }

    pub open spec fn score_spec(&self) -> int {
        self.main + parts_score(self.parts())
    }

    /// 20 is critical and 1 a failure, whatever the modifiers; else the score.
    pub open spec fn crit_score_spec(&self) -> CritScore {
        if self.main == 1 {
            CritScore::Fail
        } else if self.main == 20 {
            CritScore::Critical
        } else {
            CritScore::Normal(self.score_spec() as Score)
        }
    }

    pub open spec fn crit_defined(&self) -> bool {
        self.main == 1 || self.main == 20 || self.score_fits()
    }

    /// The outcome of two raw d20 rolls `r1`, `r2` under `adv`, with the given
    /// rolled modifiers: advantage keeps the higher, disadvantage the lower, and
    /// the other is kept aside; without either only `r1` counts.
    pub fn new(adv: AdvState, r1: Score, r2: Score, modifiers: Vec<OutcomePart>) -> (r: CheckOutcome)
        ensures
            (r.main, r.other) == resolved(adv, r1, r2),
            r.parts() == modifiers@,
    {
        let hi = if r1 >= r2 { r1 } else { r2 };
        let lo = if r1 >= r2 { r2 } else { r1 };
        let (main, other) = match adv {
            AdvState::Advantage => (hi, Some(lo)),
            AdvState::Disadvantage => (lo, Some(hi)),
            AdvState::Neutral => (r1, None),
        };
        CheckOutcome { main, other, modifiers: ModifiersOutcome::new(modifiers) }
    }

    /// The plain score: `main` plus the modifiers, ignoring critical results.
    pub fn score(&self) -> (r: Score)
        requires
            self.score_fits(),
        ensures
            r == self.score_spec(),
    {
        self.main + score_parts(&self.modifiers.scores)
    }

    /// The plain score, or `None` when it would leave `Score`.
    pub fn checked_score(&self) -> (r: Option<Score>)
        ensures
            r == (if self.score_fits() {
                Some(self.score_spec() as Score)
            } else {
                None::<Score>
            }),
    {
        match checked_parts_score(&self.modifiers.scores) {
            None => None,
            Some(m) => {
                let total: i64 = self.main as i64 + m as i64;
                if total < i32::MIN as i64 || total > i32::MAX as i64 {
                    None
                } else {
                    Some(total as Score)
                }
            },
        }
    }

    /// `Critical` when `main` is 20, `Fail` when it is 1, else `Normal(score)`.
    pub fn crit_score(&self) -> (r: CritScore)
        requires
            self.crit_defined(),
        ensures
            r == self.crit_score_spec(),
    {
        if self.main == 1 {
            CritScore::Fail
        } else if self.main == 20 {
            CritScore::Critical
        } else {
            CritScore::Normal(self.score())
        }
    }

    pub(crate) fn push_detail(&self, out: &mut Vec<char>)
        ensures
            final(out)@ == old(out)@ + self.detail(),
    {
        let ghost start = out@;
        out.push('(');
        push_decimal(self.main, out);
        match self.other {
            Some(o) => {
                out.push('/');
                push_decimal(o, out);
            },
            None => {},
        }
        out.push(')');
        let ghost head = out@;
        let mut mods: Vec<char> = Vec::new();
        push_parts_detail(&self.modifiers.scores, &mut mods);
        assert(mods@ =~= parts_detail(self.parts()));
        if mods.len() > 0 && !(mods[0] == '+' || mods[0] == '-') {
            out.push('+');
        }
        let ghost mid = out@;
        let mut j: usize = 0;
        while j < mods.len()
            invariant
                j <= mods@.len(),
                out@ == mid + mods@.take(j as int),
            decreases mods@.len() - j,
        {
            out.push(mods[j]);
            j = j + 1;
            assert(out@ =~= mid + mods@.take(j as int));
        }
        assert(mods@.take(mods@.len() as int) =~= mods@);
        assert(out@ =~= start + self.detail());
    }
}

impl DisplayRoll for CheckOutcome {
    open spec fn summary_defined(&self) -> bool {
        self.crit_defined()
    }

    open spec fn summary(&self) -> Seq<char> {
        crit_score_text(self.crit_score_spec())
    }

    /// `(main)` or `(main/other)`, then the modifiers.
    open spec fn detail(&self) -> Seq<char> {
        let dice = match self.other {
            Some(o) => seq!['('] + decimal(self.main as int) + seq!['/'] + decimal(o as int) + seq![')'],
            None => seq!['('] + decimal(self.main as int) + seq![')'],
        };
        dice + modifiers_suffix(parts_detail(self.parts()))
    }

    fn summary_ready(&self) -> (r: bool) {
        self.main == 1 || self.main == 20 || self.checked_score().is_some()
    }

    /// `Critical`, `Fail`, or the score, e.g. `16`.
    fn display_score(&self) -> (r: String) {
        let mut out: Vec<char> = Vec::new();
        push_crit_score_text(self.crit_score(), &mut out);
        assert(out@ =~= self.summary());
        string_of_chars(&out)
    }

    /// E.g. `(12/4)-[2+3]+3`.
    fn display_parts(&self) -> (r: String) {
        let mut out: Vec<char> = Vec::new();
        self.push_detail(&mut out);
        assert(out@ =~= self.detail());
        string_of_chars(&out)
    }
}

/// A d20 roll.
fn roll_d20() -> (r: Score)
    ensures
        1 <= r <= 20,
{
    gen_range_u32(1, 21) as Score
}

impl Check {
    /// Rolls this check with `adv` in place of its own advantage state.
    pub fn roll_with_advantage(&self, adv: AdvState) -> (r: CheckOutcome)
        requires
            self.well_formed(),
        ensures
            check_rolled(adv, self.modifier.0@, r),
    {
        let r1 = roll_d20();
        let r2 = roll_d20();
        let mods = self.modifier.roll();
        CheckOutcome::new(adv, r1, r2, mods.into_modifiers().into_inner())
    }
}

impl RollExpression for Check {
    type Outcome = CheckOutcome;

    open spec fn well_formed(&self) -> bool {
        parts_well_formed(self.modifier.0@)
    }

    fn new(expression: &str) -> (r: Result<Check, ParseError>)
        ensures
            match r {
                Ok(c) => check_from(expression@) == Some((c.adv, c.modifier.0@)) && c.well_formed(),
                Err(_) => check_from(expression@) is None,
            },
    {
        let v = chars_of(expression);
        parse_check(&v)
    }

    /// Rolls with the check's own advantage state.
    fn roll(&self) -> (r: CheckOutcome)
        ensures
            check_rolled(self.adv, self.modifier.0@, r),
    {
        self.roll_with_advantage(self.adv)
    }
}

impl Damage {
    /// Rolls for damage, doubling the dice when the check was a critical success.
    pub fn roll_with_check(&self, check: &CheckOutcome) -> (r: DamageOutcome)
        requires
            self.well_formed(),
        ensures
            check.main == 20 ==> rolled_all(crit_parts(self.0@), r.parts()),
            check.main != 20 ==> rolled_all(self.0@, r.parts()),
    {
        if check.main == 20 {
            self.crit_roll()
        } else {
            self.roll()
        }
    }

    /// Rolls for damage, doubling the dice when `score` is `Critical`.
    pub fn roll_with_score(&self, score: CritScore) -> (r: DamageOutcome)
        requires
            self.well_formed(),
        ensures
            score is Critical ==> rolled_all(crit_parts(self.0@), r.parts()),
            !(score is Critical) ==> rolled_all(self.0@, r.parts()),
    {
        match score {
            CritScore::Critical => self.crit_roll(),
            _ => self.roll(),
        }
    }
}

/// Builds a `CheckOutcome` from chosen values instead of rolling them.
#[derive(Clone, Debug)]
pub struct CheckOutcomeBuilder {
    pub adv: AdvState,
    pub r1: Score,
    pub r2: Score,
    pub modifiers: Vec<OutcomePart>,
}

impl CheckOutcomeBuilder {
    /// A builder for a neutral roll of 0 with no modifiers.
    pub fn new() -> (r: CheckOutcomeBuilder)
        ensures
            r.adv == AdvState::Neutral,
            r.r1 == 0,
            r.r2 == 0,
            r.modifiers@ == Seq::<OutcomePart>::empty(),
    {
        CheckOutcomeBuilder { adv: AdvState::Neutral, r1: 0, r2: 0, modifiers: Vec::new() }
    }

    /// Sets the d20s, rolled with advantage.
    pub fn check_adv(self, r1: Score, r2: Score) -> (r: CheckOutcomeBuilder)
        ensures
            r.adv == AdvState::Advantage,
            r.r1 == r1,
            r.r2 == r2,
            r.modifiers@ == self.modifiers@,
    {
        CheckOutcomeBuilder { adv: AdvState::Advantage, r1, r2, modifiers: self.modifiers }
    }

    /// Sets the d20s, rolled with disadvantage.
    pub fn check_dis(self, r1: Score, r2: Score) -> (r: CheckOutcomeBuilder)
        ensures
            r.adv == AdvState::Disadvantage,
            r.r1 == r1,
            r.r2 == r2,
            r.modifiers@ == self.modifiers@,
    {
        CheckOutcomeBuilder { adv: AdvState::Disadvantage, r1, r2, modifiers: self.modifiers }
    }

    /// Sets the d20, rolled without advantage or disadvantage.
    pub fn check(self, r: Score) -> (res: CheckOutcomeBuilder)
        ensures
            res.adv == AdvState::Neutral,
            res.r1 == r,
            res.r2 == self.r2,
            res.modifiers@ == self.modifiers@,
    {
        CheckOutcomeBuilder { adv: AdvState::Neutral, r1: r, r2: self.r2, modifiers: self.modifiers }
    }

    /// Adds a constant modifier after those so far.
    pub fn modifier(self, modifier: Score) -> (r: CheckOutcomeBuilder)
        ensures
            r.adv == self.adv,
            r.r1 == self.r1,
            r.r2 == self.r2,
            r.modifiers@ == self.modifiers@.push(OutcomePart::Modifier(modifier)),
    {
        let mut modifiers = self.modifiers;
        modifiers.push(OutcomePart::Modifier(modifier));
        CheckOutcomeBuilder { adv: self.adv, r1: self.r1, r2: self.r2, modifiers }
    }

    /// Adds a group of dice with the given sides and values after the modifiers so far.
    pub fn dice(self, sides: Sides, scores: Vec<Score>) -> (r: CheckOutcomeBuilder)
        ensures
            r.adv == self.adv,
            r.r1 == self.r1,
            r.r2 == self.r2,
            r.modifiers@ == self.modifiers@.push(OutcomePart::Dice(sides, scores)),
    {
        let mut modifiers = self.modifiers;
        modifiers.push(OutcomePart::Dice(sides, scores));
        CheckOutcomeBuilder { adv: self.adv, r1: self.r1, r2: self.r2, modifiers }
    }

    /// The outcome of the values set so far.
    pub fn build(self) -> (r: CheckOutcome)
        ensures
            (r.main, r.other) == resolved(self.adv, self.r1, self.r2),
            r.parts() == self.modifiers@,
    {
        CheckOutcome::new(self.adv, self.r1, self.r2, self.modifiers)
    }
}

impl Default for CheckOutcomeBuilder {
    fn default() -> (r: CheckOutcomeBuilder)
        ensures
            r.adv == AdvState::Neutral,
            r.r1 == 0,
            r.r2 == 0,
            r.modifiers@ == Seq::<OutcomePart>::empty(),
    {
        CheckOutcomeBuilder::new()
    }
}

impl std::str::FromStr for Check {
    type Err = ParseError;

    fn from_str(s: &str) -> (r: Result<Check, ParseError>)
        ensures
            match r {
                Ok(c) => check_from(s@) == Some((c.adv, c.modifier.0@)) && c.well_formed(),
                Err(_) => check_from(s@) is None,
            },
    {
        Check::new(s)
    }
}

} // verus!
