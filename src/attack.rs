//! Attacks: a check and a damage roll, where a critical check doubles the damage dice.
use vstd::prelude::*;

use crate::check::{check_from, check_rolled, parse_check, AdvState, Check, CheckOutcome, CheckOutcomeBuilder};
use crate::damage::{
    crit_parts, damage_from, error_at, parse_damage, rolled_all, Damage, DamageOutcome,
    DamageOutcomeBuilder, DamagePart,
};
use crate::error::ParseError;
use crate::modifier::OutcomePart;
use crate::text::{chars_of, string_of_chars};
use crate::{DisplayRoll, RollExpression, Score, Sides};

verus! {

/// An attack: a check to hit and the damage it deals.
#[derive(PartialEq, Debug, Clone)]
pub struct Attack {
    pub check: Check,
    pub damage: Damage,
}

/// Length of the longest prefix of `s` that holds no `?`.
pub open spec fn question_run(s: Seq<char>) -> nat
    decreases s.len(),
{
    if s.len() > 0 && s[0] != '?' {
        1 + question_run(s.drop_first())
    } else {
        0
    }
}

pub open spec fn has_question(s: Seq<char>) -> bool {
    exists|i: int| 0 <= i < s.len() && s[i] == '?'
}

/// `s` without the spaces it starts with.
pub open spec fn strip_spaces(s: Seq<char>) -> Seq<char>
    decreases s.len(),
{
    if s.len() > 0 && s[0] == ' ' {
        strip_spaces(s.drop_first())
    } else {
        s
    }
}

/// The attack that `s` spells: exactly one `?`, with a non-empty check before it
/// and, after it and any spaces, a non-empty damage expression.
pub open spec fn attack_from(s: Seq<char>) -> Option<((AdvState, Seq<DamagePart>), Seq<DamagePart>)> {
    let q = question_run(s) as int;
    if q >= s.len() {
        None
    } else {
        let left = s.take(q);
        let right = s.skip(q + 1);
        let rhs = strip_spaces(right);
        if left.len() == 0 || has_question(right) || rhs.len() == 0 {
            None
        } else {
            match (check_from(left), damage_from(rhs)) {
                (Some(c), Some(d)) => Some((c, d)),
                _ => None,
            }
        }
    }
}

/// A copy of `v[lo..hi]`.
fn copy_range(v: &Vec<char>, lo: usize, hi: usize) -> (r: Vec<char>)
    requires
        lo <= hi <= v@.len(),
    ensures
        r@ == v@.subrange(lo as int, hi as int),
{
    let mut out: Vec<char> = Vec::new();
    let mut i: usize = lo;
    while i < hi
        invariant
            lo <= i <= hi <= v@.len(),
            out@ == v@.subrange(lo as int, i as int),
        decreases hi - i,
    {
        out.push(v[i]);
        i = i + 1;
        assert(out@ =~= v@.subrange(lo as int, i as int));
    }
    out
}

/// Parses `v` as an attack.
pub(crate) fn parse_attack(v: &Vec<char>) -> (r: Result<Attack, ParseError>)
    ensures
        match r {
            Ok(a) => attack_from(v@) == Some(((a.check.adv, a.check.modifier.0@), a.damage.0@))
                && a.well_formed(),
            Err(_) => attack_from(v@) is None,
        },
{
    let n = v.len();
    let mut q: usize = 0;
    assert(v@.skip(0) =~= v@);
    while q < n && v[q] != '?'
        invariant
            q <= n == v@.len(),
            question_run(v@) == q + question_run(v@.skip(q as int)),
        decreases n - q,
    {
        assert(v@.skip(q as int).drop_first() =~= v@.skip(q + 1));
        q = q + 1;
    }
    if q == n {
        assert(v@.skip(q as int).len() == 0);
        return Err(error_at(v, 0, n));
    }
    assert(question_run(v@.skip(q as int)) == 0);
    let ghost right = v@.skip(q + 1);
    assert(question_run(v@) == q);
    let mut k: usize = q + 1;
    while k < n
        invariant
            q < k <= n == v@.len(),
            question_run(v@) == q,
            right == v@.skip(q + 1),
            forall|j: int| 0 <= j < k - (q + 1) ==> right[j] != '?',
        decreases n - k,
    {
        if v[k] == '?' {
            assert(right[k - (q + 1)] == '?');
            return Err(error_at(v, 0, n));
        }
        k = k + 1;
    }
    assert(!has_question(right));
    let mut s: usize = q + 1;
    while s < n && v[s] == ' '
        invariant
            q < s <= n == v@.len(),
            strip_spaces(right) == strip_spaces(v@.skip(s as int)),
        decreases n - s,
    {
        assert(v@.skip(s as int).drop_first() =~= v@.skip(s + 1));
        s = s + 1;
    }
    assert(strip_spaces(v@.skip(s as int)) == v@.skip(s as int));
    if q == 0 || s == n {
        return Err(error_at(v, 0, n));
    }
    let left = copy_range(v, 0, q);
    assert(left@ =~= v@.take(q as int));
    let check = match parse_check(&left) {
        Ok(c) => c,
        Err(e) => {
            return Err(e);
        },
    };
    match parse_damage(v, s) {
        Ok(ps) => Ok(Attack { check, damage: Damage(ps) }),
        Err(e) => Err(e),
    }
}

/// The outcome of rolling an attack.
#[derive(Clone, Debug, PartialEq)]
pub struct AttackOutcome {
    pub check: CheckOutcome,
    pub damage: DamageOutcome,
}

/// The text that separates the check from the damage.
pub open spec fn separator() -> Seq<char> {
    seq![' ', '?', ' ']
}

impl AttackOutcome {
    pub fn new(check: CheckOutcome, damage: DamageOutcome) -> (r: AttackOutcome)
        ensures
            r.check == check,
            r.damage == damage,
    {
        AttackOutcome { check, damage }
    }

    /// The check part of this outcome.
    pub fn check(&self) -> (r: &CheckOutcome)
        ensures
            *r == self.check,
    {
        &self.check
    }

    /// The damage part of this outcome.
    pub fn damage(&self) -> (r: &DamageOutcome)
        ensures
            *r == self.damage,
    {
        &self.damage
    }
}

fn join_with_separator(a: String, b: String) -> (r: String)
    ensures
        r@ == a@ + separator() + b@,
{
    let mut out: Vec<char> = chars_of(a.as_str());
    out.push(' ');
    out.push('?');
    out.push(' ');
    let ghost mid = out@;
    let w = chars_of(b.as_str());
    let mut j: usize = 0;
    while j < w.len()
        invariant
            j <= w@.len(),
            out@ == mid + w@.take(j as int),
        decreases w@.len() - j,
    {
        out.push(w[j]);
        j = j + 1;
        assert(out@ =~= mid + w@.take(j as int));
    }
    assert(w@.take(w@.len() as int) =~= w@);
    assert(out@ =~= a@ + separator() + b@);
    string_of_chars(&out)
}

impl DisplayRoll for AttackOutcome {
    open spec fn summary_defined(&self) -> bool {
        self.check.summary_defined() && self.damage.summary_defined()
    }

    open spec fn summary(&self) -> Seq<char> {
        self.check.summary() + separator() + self.damage.summary()
    }

    open spec fn detail(&self) -> Seq<char> {
        self.check.detail() + separator() + self.damage.detail()
    }

    fn summary_ready(&self) -> (r: bool) {
        self.check.summary_ready() && self.damage.summary_ready()
    }

    /// E.g. `Critical ? 22`.
    fn display_score(&self) -> (r: String) {
        join_with_separator(self.check.display_score(), self.damage.display_score())
    }

    /// E.g. `(20/4)+3 ? [2+6+8]+[1+5+2]-2`.
    fn display_parts(&self) -> (r: String) {
        join_with_separator(self.check.display_parts(), self.damage.display_parts())
    }
}

/// `o` is a possible result of rolling `a` with `adv`: the check is rolled, then
/// the damage, with its positive dice doubled when the check's d20 shows 20.
pub open spec fn attack_rolled(a: Attack, adv: AdvState, o: AttackOutcome) -> bool {
    &&& check_rolled(adv, a.check.modifier.0@, o.check)
    &&& o.check.main == 20 ==> rolled_all(crit_parts(a.damage.0@), o.damage.parts())
    &&& o.check.main != 20 ==> rolled_all(a.damage.0@, o.damage.parts())
}

impl Attack {
    /// Rolls this attack with `adv` in place of the check's own advantage state.
    pub fn roll_with_advantage(&self, adv: AdvState) -> (r: AttackOutcome)
        requires
            self.well_formed(),
        ensures
            attack_rolled(*self, adv, r),
    {
        let check = self.check.roll_with_advantage(adv);
        let damage = self.damage.roll_with_check(&check);
        AttackOutcome::new(check, damage)
    }
}

impl RollExpression for Attack {
    type Outcome = AttackOutcome;

    open spec fn well_formed(&self) -> bool {
        self.check.well_formed() && self.damage.well_formed()
    }

    fn new(expression: &str) -> (r: Result<Attack, ParseError>)
        ensures
            match r {
                Ok(a) => attack_from(expression@) == Some(((a.check.adv, a.check.modifier.0@), a.damage.0@))
                    && a.well_formed(),
                Err(_) => attack_from(expression@) is None,
            },
    {
        let v = chars_of(expression);
        parse_attack(&v)
    }

    /// Rolls with the check's own advantage state.
    fn roll(&self) -> (r: AttackOutcome)
        ensures
            attack_rolled(*self, self.check.adv, r),
    {
        self.roll_with_advantage(self.check.adv)
    }
}

/// Builds an `AttackOutcome` from chosen values instead of rolling them.
#[derive(Clone, Debug)]
pub struct AttackOutcomeBuilder {
    pub check: CheckOutcomeBuilder,
    pub damage: DamageOutcomeBuilder,
}

impl AttackOutcomeBuilder {
    /// A builder for a neutral check of 0 and no terms.
    pub fn new() -> (r: AttackOutcomeBuilder)
        ensures
            r.check.adv == AdvState::Neutral,
            r.check.r1 == 0,
            r.check.r2 == 0,
            r.check.modifiers@.len() == 0,
            r.damage.scores@.len() == 0,
    {
        AttackOutcomeBuilder { check: CheckOutcomeBuilder::new(), damage: DamageOutcomeBuilder::new() }
    }

    /// Sets the check's d20s, rolled with advantage.
    pub fn check_adv(self, r1: Score, r2: Score) -> (r: AttackOutcomeBuilder)
        ensures
            r.check.adv == AdvState::Advantage,
            r.check.r1 == r1,
            r.check.r2 == r2,
            r.check.modifiers@ == self.check.modifiers@,
            r.damage.scores@ == self.damage.scores@,
    {
        AttackOutcomeBuilder { check: self.check.check_adv(r1, r2), damage: self.damage }
    }

    /// Sets the check's d20s, rolled with disadvantage.
    pub fn check_dis(self, r1: Score, r2: Score) -> (r: AttackOutcomeBuilder)
        ensures
            r.check.adv == AdvState::Disadvantage,
            r.check.r1 == r1,
            r.check.r2 == r2,
            r.check.modifiers@ == self.check.modifiers@,
            r.damage.scores@ == self.damage.scores@,
    {
        AttackOutcomeBuilder { check: self.check.check_dis(r1, r2), damage: self.damage }
    }

    /// Sets the check's d20, rolled without advantage or disadvantage.
    pub fn check(self, r: Score) -> (res: AttackOutcomeBuilder)
        ensures
            res.check.adv == AdvState::Neutral,
            res.check.r1 == r,
            res.check.r2 == self.check.r2,
            res.check.modifiers@ == self.check.modifiers@,
            res.damage.scores@ == self.damage.scores@,
    {
        AttackOutcomeBuilder { check: self.check.check(r), damage: self.damage }
    }

    /// Adds a constant modifier to the check.
    pub fn check_modifier(self, modifier: Score) -> (r: AttackOutcomeBuilder)
        ensures
            r.check.adv == self.check.adv,
            r.check.r1 == self.check.r1,
            r.check.r2 == self.check.r2,
            r.check.modifiers@ == self.check.modifiers@.push(OutcomePart::Modifier(modifier)),
            r.damage.scores@ == self.damage.scores@,
    {
        AttackOutcomeBuilder { check: self.check.modifier(modifier), damage: self.damage }
    }

    /// Adds a group of dice to the check.
    pub fn check_dice(self, sides: Sides, scores: Vec<Score>) -> (r: AttackOutcomeBuilder)
        ensures
            r.check.adv == self.check.adv,
            r.check.r1 == self.check.r1,
            r.check.r2 == self.check.r2,
            r.check.modifiers@ == self.check.modifiers@.push(OutcomePart::Dice(sides, scores)),
            r.damage.scores@ == self.damage.scores@,
    {
        AttackOutcomeBuilder { check: self.check.dice(sides, scores), damage: self.damage }
    }

    /// Adds a constant modifier to the damage.
    pub fn damage_modifier(self, modifier: Score) -> (r: AttackOutcomeBuilder)
        ensures
            r.check.adv == self.check.adv,
            r.check.r1 == self.check.r1,
            r.check.r2 == self.check.r2,
            r.check.modifiers@ == self.check.modifiers@,
            r.damage.scores@ == self.damage.scores@.push(OutcomePart::Modifier(modifier)),
    {
        AttackOutcomeBuilder { check: self.check, damage: self.damage.modifier(modifier) }
    }

    /// Adds a group of dice to the damage.
    pub fn damage_dice(self, sides: Sides, scores: Vec<Score>) -> (r: AttackOutcomeBuilder)
        ensures
            r.check.adv == self.check.adv,
            r.check.r1 == self.check.r1,
            r.check.r2 == self.check.r2,
            r.check.modifiers@ == self.check.modifiers@,
            r.damage.scores@ == self.damage.scores@.push(OutcomePart::Dice(sides, scores)),
    {
        AttackOutcomeBuilder { check: self.check, damage: self.damage.dice(sides, scores) }
    }

    /// The outcome of the values set so far.
    pub fn build(self) -> (r: AttackOutcome)
        ensures
            (r.check.main, r.check.other) == crate::check::resolved(self.check.adv, self.check.r1, self.check.r2),
            r.check.parts() == self.check.modifiers@,
            r.damage.parts() == self.damage.scores@,
    {
        let check = self.check.build();
        let damage = self.damage.build();
        AttackOutcome::new(check, damage)
    }
}

impl Default for AttackOutcomeBuilder {
    fn default() -> (r: AttackOutcomeBuilder)
        ensures
            r.check.adv == AdvState::Neutral,
            r.check.r1 == 0,
            r.check.r2 == 0,
            r.check.modifiers@.len() == 0,
            r.damage.scores@.len() == 0,
    {
        AttackOutcomeBuilder::new()
    }
}

impl std::str::FromStr for Attack {
    type Err = ParseError;

    fn from_str(s: &str) -> (r: Result<Attack, ParseError>)
        ensures
            match r {
                Ok(a) => attack_from(s@) == Some(((a.check.adv, a.check.modifier.0@), a.damage.0@))
                    && a.well_formed(),
                Err(_) => attack_from(s@) is None,
            },
    {
        Attack::new(s)
    }
}

} // verus!
