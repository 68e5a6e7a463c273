//! Any roll expression: a check, a damage roll or an attack, told apart by its text.
use vstd::prelude::*;

use crate::attack::{attack_from, attack_rolled, has_question, parse_attack, Attack, AttackOutcome};
use crate::check::{check_from, check_rolled, parse_check, AdvState, Check, CheckOutcome};
use crate::damage::{damage_from, parse_damage, rolled_all, Damage, DamageOutcome};
use crate::error::ParseError;
use crate::text::chars_of;
use crate::{DisplayRoll, RollExpression};

verus! {

/// A parsed roll expression of any kind.
#[derive(PartialEq, Debug, Clone)]
pub enum Roll {
    Check(Check),
    Damage(Damage),
    Attack(Attack),
}

/// Another name for `Roll`.
pub type RollExp = Roll;

/// Text that starts with an advantage letter or a sign is a check.
pub open spec fn starts_check(s: Seq<char>) -> bool {
    s.len() > 0 && (s[0] == 'r' || s[0] == 'a' || s[0] == 'd' || s[0] == '+' || s[0] == '-')
}

/// Whether `s` parses: non-empty, and then an attack when it holds a `?`, else
/// a check when `starts_check`, else damage.
pub open spec fn roll_accepts(s: Seq<char>) -> bool {
    &&& s.len() > 0
    &&& if has_question(s) {
        attack_from(s) is Some
    } else if starts_check(s) {
        check_from(s) is Some
    } else {
        damage_from(s) is Some
    }
}

/// `r` is what parsing `s` gives, by the same rule as `roll_accepts`.
pub open spec fn roll_from(s: Seq<char>, r: Roll) -> bool {
    match r {
        Roll::Attack(a) => s.len() > 0 && has_question(s) && attack_from(s) == Some(
            ((a.check.adv, a.check.modifier.0@), a.damage.0@),
        ),
        Roll::Check(c) => s.len() > 0 && !has_question(s) && starts_check(s) && check_from(s)
            == Some((c.adv, c.modifier.0@)),
        Roll::Damage(d) => s.len() > 0 && !has_question(s) && !starts_check(s) && damage_from(s)
            == Some(d.0@),
    }
}

fn holds_question(v: &Vec<char>) -> (r: bool)
    ensures
        r == has_question(v@),
{
    let mut i: usize = 0;
    while i < v.len()
        invariant
            i <= v@.len(),
            forall|j: int| 0 <= j < i ==> v@[j] != '?',
        decreases v@.len() - i,
    {
        if v[i] == '?' {
            return true;
        }
        i = i + 1;
    }
    false
}

/// Parses a roll expression of any kind.
pub fn parse(e: &str) -> (r: Result<Roll, ParseError>)
    ensures
        match r {
            Ok(x) => roll_from(e@, x) && x.well_formed(),
            Err(_) => !roll_accepts(e@),
        },
{
    let v = chars_of(e);
    if v.len() == 0 {
        return Err(ParseError::new("Empty String"));
    }
    if holds_question(&v) {
        match parse_attack(&v) {
            Ok(a) => Ok(Roll::Attack(a)),
            Err(err) => Err(err),
        }
    } else if v[0] == 'r' || v[0] == 'a' || v[0] == 'd' || v[0] == '+' || v[0] == '-' {
        match parse_check(&v) {
            Ok(c) => Ok(Roll::Check(c)),
            Err(err) => Err(err),
        }
    } else {
        assert(v@.skip(0) =~= v@);
        match parse_damage(&v, 0) {
            Ok(ps) => Ok(Roll::Damage(Damage(ps))),
            Err(err) => Err(err),
        }
    }
}

/// `o` is a possible result of rolling `r` with `adv` in place of its own
/// advantage state; damage has none and rolls as usual.
pub open spec fn roll_rolled_with(r: Roll, adv: AdvState, o: RollOutcome) -> bool {
    match r {
        Roll::Check(c) => o matches RollOutcome::Check(x) && check_rolled(adv, c.modifier.0@, x),
        Roll::Damage(d) => o matches RollOutcome::Damage(x) && rolled_all(d.0@, x.parts()),
        Roll::Attack(a) => o matches RollOutcome::Attack(x) && attack_rolled(a, adv, x),
    }
}

impl Roll {
    /// Rolls with `adv` in place of the expression's own advantage state.
    pub fn roll_with_advantage(&self, adv: AdvState) -> (r: RollOutcome)
        requires
            self.well_formed(),
        ensures
            roll_rolled_with(*self, adv, r),
    {
        match self {
            Roll::Check(c) => RollOutcome::Check(c.roll_with_advantage(adv)),
            Roll::Damage(d) => RollOutcome::Damage(d.roll()),
            Roll::Attack(a) => RollOutcome::Attack(a.roll_with_advantage(adv)),
        }
    }

    pub fn is_check(&self) -> (r: bool)
        ensures
            r == self is Check,
    {
        match self {
            Roll::Check(_) => true,
            _ => false,
        }
    }

    pub fn is_damage(&self) -> (r: bool)
        ensures
            r == self is Damage,
    {
        match self {
            Roll::Damage(_) => true,
            _ => false,
        }
    }

    pub fn is_attack(&self) -> (r: bool)
        ensures
            r == self is Attack,
    {
        match self {
            Roll::Attack(_) => true,
            _ => false,
        }
    }
}

/// The outcome of rolling a `Roll`, of the matching kind.
#[derive(Clone, Debug)]
pub enum RollOutcome {
    Check(CheckOutcome),
    Damage(DamageOutcome),
    Attack(AttackOutcome),
}

impl RollOutcome {
    pub fn is_check(&self) -> (r: bool)
        ensures
            r == self is Check,
    {
        match self {
            RollOutcome::Check(_) => true,
            _ => false,
        }
    }

    pub fn is_damage(&self) -> (r: bool)
        ensures
            r == self is Damage,
    {
        match self {
            RollOutcome::Damage(_) => true,
            _ => false,
        }
    }

    pub fn is_attack(&self) -> (r: bool)
        ensures
            r == self is Attack,
    {
        match self {
            RollOutcome::Attack(_) => true,
            _ => false,
        }
    }
}

/// `o` is a possible result of rolling `r`.
pub open spec fn roll_rolled(r: Roll, o: RollOutcome) -> bool {
    match r {
        Roll::Check(c) => o matches RollOutcome::Check(x) && check_rolled(c.adv, c.modifier.0@, x),
        Roll::Damage(d) => o matches RollOutcome::Damage(x) && rolled_all(d.0@, x.parts()),
        Roll::Attack(a) => o matches RollOutcome::Attack(x) && attack_rolled(a, a.check.adv, x),
    }
}

impl RollExpression for Roll {
    type Outcome = RollOutcome;

    open spec fn well_formed(&self) -> bool {
        match self {
            Roll::Check(c) => c.well_formed(),
            Roll::Damage(d) => d.well_formed(),
            Roll::Attack(a) => a.well_formed(),
        }
    }

    fn new(expression: &str) -> (r: Result<Roll, ParseError>)
        ensures
            match r {
                Ok(x) => roll_from(expression@, x) && x.well_formed(),
                Err(_) => !roll_accepts(expression@),
            },
    {
        parse(expression)
    }

    /// Rolls the expression of whichever kind it is.
    fn roll(&self) -> (r: RollOutcome)
        ensures
            roll_rolled(*self, r),
    {
        match self {
            Roll::Check(c) => RollOutcome::Check(c.roll()),
            Roll::Damage(d) => RollOutcome::Damage(d.roll()),
            Roll::Attack(a) => RollOutcome::Attack(a.roll()),
        }
    }
}

impl DisplayRoll for RollOutcome {
    open spec fn summary_defined(&self) -> bool {
        match self {
            RollOutcome::Check(c) => c.summary_defined(),
            RollOutcome::Damage(d) => d.summary_defined(),
            RollOutcome::Attack(a) => a.summary_defined(),
        }
    }

    open spec fn summary(&self) -> Seq<char> {
        match self {
            RollOutcome::Check(c) => c.summary(),
            RollOutcome::Damage(d) => d.summary(),
            RollOutcome::Attack(a) => a.summary(),
        }
    }

    open spec fn detail(&self) -> Seq<char> {
        match self {
            RollOutcome::Check(c) => c.detail(),
            RollOutcome::Damage(d) => d.detail(),
            RollOutcome::Attack(a) => a.detail(),
        }
    }

    fn summary_ready(&self) -> (r: bool) {
        match self {
            RollOutcome::Check(c) => c.summary_ready(),
            RollOutcome::Damage(d) => d.summary_ready(),
            RollOutcome::Attack(a) => a.summary_ready(),
        }
    }

    fn display_score(&self) -> (r: String) {
        match self {
            RollOutcome::Check(c) => c.display_score(),
            RollOutcome::Damage(d) => d.display_score(),
            RollOutcome::Attack(a) => a.display_score(),
        }
    }

    fn display_parts(&self) -> (r: String) {
        match self {
            RollOutcome::Check(c) => c.display_parts(),
            RollOutcome::Damage(d) => d.display_parts(),
            RollOutcome::Attack(a) => a.display_parts(),
        }
    }
}

impl std::str::FromStr for Roll {
    type Err = ParseError;

    fn from_str(s: &str) -> (r: Result<Roll, ParseError>)
        ensures
            match r {
                Ok(x) => roll_from(s@, x) && x.well_formed(),
                Err(_) => !roll_accepts(s@),
            },
    {
        Roll::new(s)
    }
}

impl From<Check> for Roll {
    fn from(x: Check) -> Roll {
        Roll::Check(x)
    }
}

impl vstd::std_specs::convert::FromSpecImpl<Check> for Roll {
    open spec fn obeys_from_spec() -> bool {
        true
    }

    open spec fn from_spec(x: Check) -> Roll {
        Roll::Check(x)
    }
}

impl From<Damage> for Roll {
    fn from(x: Damage) -> Roll {
        Roll::Damage(x)
    }
}

impl vstd::std_specs::convert::FromSpecImpl<Damage> for Roll {
    open spec fn obeys_from_spec() -> bool {
        true
    }

    open spec fn from_spec(x: Damage) -> Roll {
        Roll::Damage(x)
    }
}

impl From<Attack> for Roll {
    fn from(x: Attack) -> Roll {
        Roll::Attack(x)
    }
}

impl vstd::std_specs::convert::FromSpecImpl<Attack> for Roll {
    open spec fn obeys_from_spec() -> bool {
        true
    }

    open spec fn from_spec(x: Attack) -> Roll {
        Roll::Attack(x)
    }
}

impl From<CheckOutcome> for RollOutcome {
    fn from(x: CheckOutcome) -> RollOutcome {
        RollOutcome::Check(x)
    }
}

impl vstd::std_specs::convert::FromSpecImpl<CheckOutcome> for RollOutcome {
    open spec fn obeys_from_spec() -> bool {
        true
    }

    open spec fn from_spec(x: CheckOutcome) -> RollOutcome {
        RollOutcome::Check(x)
    }
}

impl From<DamageOutcome> for RollOutcome {
    fn from(x: DamageOutcome) -> RollOutcome {
        RollOutcome::Damage(x)
    }
}

impl vstd::std_specs::convert::FromSpecImpl<DamageOutcome> for RollOutcome {
    open spec fn obeys_from_spec() -> bool {
        true
    }

    open spec fn from_spec(x: DamageOutcome) -> RollOutcome {
        RollOutcome::Damage(x)
    }
}

impl From<AttackOutcome> for RollOutcome {
    fn from(x: AttackOutcome) -> RollOutcome {
        RollOutcome::Attack(x)
    }
}

impl vstd::std_specs::convert::FromSpecImpl<AttackOutcome> for RollOutcome {
    open spec fn obeys_from_spec() -> bool {
        true
    }

    open spec fn from_spec(x: AttackOutcome) -> RollOutcome {
        RollOutcome::Attack(x)
    }
}

} // verus!
