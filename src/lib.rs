//! Parsing, rolling and rendering of tabletop dice-roll expressions:
//! checks (`r+3`, `a-1`), damage (`2d8+4`) and attacks (`r+5?1d12+3`).
//!
//! Text is parsed into an expression (`Check`, `Damage`, `Attack`, or `Roll`
//! for any of them), rolled into an outcome, and the outcome is rendered
//! either as a terse score or as a detailed breakdown of every die.
use vstd::prelude::*;

pub mod attack;
pub mod check;
pub mod cli;
pub mod damage;
pub mod error;
pub mod laws;
pub mod modifier;
mod random;
pub mod roll;
pub mod text;

pub use attack::{Attack, AttackOutcome, AttackOutcomeBuilder};
pub use cli::{cli_action, CliAction};
pub use check::{AdvState, Check, CheckOutcome, CheckOutcomeBuilder, CritScore};
pub use damage::{Damage, DamageOutcome, DamageOutcomeBuilder, DamagePart};
pub use error::ParseError;
pub use modifier::{ModifiersOutcome, OutcomePart};
pub use roll::{parse, Roll, RollExp, RollOutcome};
pub use text::write_string_sum;

verus! {

/// The number type that scores are reported in.
pub type Score = i32;

/// The number of faces on a die; a negative value marks dice whose total is subtracted.
pub type Sides = i32;

/// An expression that can be parsed from text and rolled.
pub trait RollExpression: Sized {
    type Outcome;

    /// The expressions that can be rolled without failing.
    spec fn well_formed(&self) -> bool;

    /// Parses an expression from text.
    fn new(expression: &str) -> Result<Self, ParseError>;

    /// Rolls every die of the expression.
    fn roll(&self) -> Self::Outcome
        requires
            self.well_formed(),
    ;
}

/// An outcome that renders as a terse score and as a detailed breakdown.
pub trait DisplayRoll {
    /// The terse form can be computed without overflowing `Score`.
    spec fn summary_defined(&self) -> bool;

    /// The terse form: a score, or a word for a critical result.
    spec fn summary(&self) -> Seq<char>;

    /// The detailed form, showing each die.
    spec fn detail(&self) -> Seq<char>;

    /// Tells whether the terse form can be computed.
    fn summary_ready(&self) -> (r: bool)
        ensures
            r == self.summary_defined(),
    ;

    /// The terse form, e.g. `16`, `Critical` or `Fail ? 2`.
    fn display_score(&self) -> (r: String)
        requires
            self.summary_defined(),
        ensures
            r@ == self.summary(),
    ;

    /// The detailed form, e.g. `(12/4)-[2+3]+3`.
    fn display_parts(&self) -> (r: String)
        ensures
            r@ == self.detail(),
    ;
}

} // verus!
