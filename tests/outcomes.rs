use critfail::AdvState::{Advantage, Disadvantage, Neutral};
use critfail::OutcomePart::Dice as D;
use critfail::OutcomePart::Modifier as M;
use critfail::{AttackOutcome, CheckOutcome, DamageOutcome, DisplayRoll};

#[test]
fn attackoutcome_no_modifier() {
    let r = AttackOutcome::new(
        CheckOutcome::new(Neutral, 10, 16, vec![]),
        DamageOutcome::new(vec![D(6, vec![5, 4]), M(4)]),
    );

    assert_eq!(r.display_score(), "10 ? 13");
    assert_eq!(r.display_parts(), "(10) ? [5+4]+4");
}

#[test]
fn attackoutcome_with_modifier() {
    let r = AttackOutcome::new(
        CheckOutcome::new(Disadvantage, 5, 12, vec![M(3)]),
        DamageOutcome::new(vec![D(8, vec![2, 6, 8]), M(-2)]),
    );

    assert_eq!(r.display_score(), "8 ? 14");
    assert_eq!(r.display_parts(), "(5/12)+3 ? [2+6+8]-2");
}

#[test]
fn attackoutcome_critical() {
    let r = AttackOutcome::new(
        CheckOutcome::new(Advantage, 20, 4, vec![M(3)]),
        DamageOutcome::new(vec![D(8, vec![2, 6, 8]), D(8, vec![1, 5, 2]), M(-2)]),
    );

    assert_eq!(r.display_score(), "Critical ? 22");
    assert_eq!(r.display_parts(), "(20/4)+3 ? [2+6+8]+[1+5+2]-2");
}

#[test]
fn attackoutcome_critfail() {
    let r = AttackOutcome::new(
        CheckOutcome::new(Disadvantage, 15, 1, vec![M(3)]),
        DamageOutcome::new(vec![D(8, vec![3, 1]), M(-2)]),
    );

    assert_eq!(r.display_score(), "Fail ? 2");
    assert_eq!(r.display_parts(), "(1/15)+3 ? [3+1]-2");
}

#[test]
fn attackroll_no_modifier() {
    let r = AttackOutcome::new(
        CheckOutcome::new(Neutral, 10, 16, vec![]),
        DamageOutcome::new(vec![D(6, vec![5, 4]), M(4)]),
    );

    assert_eq!(r.display_score(), "10 ? 13");
    assert_eq!(r.display_parts(), "(10) ? [5+4]+4");
}

#[test]
fn attackroll_with_modifier() {
    let r = AttackOutcome::new(
        CheckOutcome::new(Disadvantage, 5, 12, vec![M(3)]),
        DamageOutcome::new(vec![D(8, vec![2, 6, 8]), M(-2)]),
    );

    assert_eq!(r.display_score(), "8 ? 14");
    assert_eq!(r.display_parts(), "(5/12)+3 ? [2+6+8]-2");
}

#[test]
fn attackroll_critical() {
    let r = AttackOutcome::new(
        CheckOutcome::new(Advantage, 20, 4, vec![M(3)]),
        DamageOutcome::new(vec![D(8, vec![2, 6, 8]), D(8, vec![1, 5, 2]), M(-2)]),
    );

    assert_eq!(r.display_score(), "Critical ? 22");
    assert_eq!(r.display_parts(), "(20/4)+3 ? [2+6+8]+[1+5+2]-2");
}

#[test]
fn attackroll_critfail() {
    let r = AttackOutcome::new(
        CheckOutcome::new(Disadvantage, 15, 1, vec![M(3)]),
        DamageOutcome::new(vec![D(8, vec![3, 1]), M(-2)]),
    );

    assert_eq!(r.display_score(), "Fail ? 2");
    assert_eq!(r.display_parts(), "(1/15)+3 ? [3+1]-2");
}

#[test]
fn checkoutcome_neutral() {
    let r = CheckOutcome::new(Neutral, 10, 16, vec![]);
    assert_eq!(r.score(), 10);
    assert_eq!(r.display_score(), "10");
    assert_eq!(r.display_parts(), "(10)");
}

#[test]
fn checkoutcome_advantage() {
    let r = CheckOutcome::new(Advantage, 8, 15, vec![]);
    assert_eq!(r.score(), 15);
    assert_eq!(r.display_score(), "15");
    assert_eq!(r.display_parts(), "(15/8)");
}

#[test]
fn checkoutcome_disadvantage() {
    let r = CheckOutcome::new(Disadvantage, 12, 7, vec![]);
    assert_eq!(r.score(), 7);
    assert_eq!(r.display_score(), "7");
    assert_eq!(r.display_parts(), "(7/12)");
}

#[test]
fn checkoutcome_die_modifier() {
    let r = CheckOutcome::new(Neutral, 6, 15, vec![D(4, vec![1])]);
    assert_eq!(r.score(), 7);
    assert_eq!(r.display_score(), "7");
    assert_eq!(r.display_parts(), "(6)+[1]");
}

#[test]
fn checkoutcome_mixed_modifiers() {
    let r = CheckOutcome::new(Advantage, 12, 4, vec![D(-4, vec![2, 3]), M(3)]);
    assert_eq!(r.score(), 10);
    assert_eq!(r.display_score(), "10");
    assert_eq!(r.display_parts(), "(12/4)-[2+3]+3");
}

#[test]
fn checkoutcome_critical() {
    let r = CheckOutcome::new(Advantage, 20, 4, vec![D(-4, vec![2, 3]), M(3)]);
    assert_eq!(r.score(), 18);
    assert_eq!(r.display_score(), "Critical");
    assert_eq!(r.display_parts(), "(20/4)-[2+3]+3");
}

#[test]
fn checkoutcome_fail() {
    let r = CheckOutcome::new(Disadvantage, 1, 4, vec![D(-4, vec![2, 3]), M(3)]);
    assert_eq!(r.score(), -1);
    assert_eq!(r.display_score(), "Fail");
    assert_eq!(r.display_parts(), "(1/4)-[2+3]+3");
}

#[test]
fn checkroll_neutral() {
    let r = CheckOutcome::new(Neutral, 10, 16, DamageOutcome::new(vec![]).into_modifiers().into_inner());
    assert_eq!(r.score(), 10);
    assert_eq!(r.display_score(), "10");
    assert_eq!(r.display_parts(), "(10)");
}

#[test]
fn checkroll_advantage() {
    let r = CheckOutcome::new(Advantage, 8, 15, DamageOutcome::new(vec![]).into_modifiers().into_inner());
    assert_eq!(r.score(), 15);
    assert_eq!(r.display_score(), "15");
    assert_eq!(r.display_parts(), "(15/8)");
}

#[test]
fn checkroll_disadvantage() {
    let r = CheckOutcome::new(Disadvantage, 12, 7, DamageOutcome::new(vec![]).into_modifiers().into_inner());
    assert_eq!(r.score(), 7);
    assert_eq!(r.display_score(), "7");
    assert_eq!(r.display_parts(), "(7/12)");
}

#[test]
fn checkroll_die_modifier() {
    let r = CheckOutcome::new(
        Neutral,
        6,
        15,
        DamageOutcome::new(vec![D(4, vec![1])]).into_modifiers().into_inner(),
    );
    assert_eq!(r.score(), 7);
    assert_eq!(r.display_score(), "7");
    assert_eq!(r.display_parts(), "(6)+[1]");
}

#[test]
fn checkroll_mixed_modifiers() {
    let r = CheckOutcome::new(
        Advantage,
        12,
        4,
        DamageOutcome::new(vec![D(-4, vec![2, 3]), M(3)]).into_modifiers().into_inner(),
    );
    assert_eq!(r.score(), 10);
    assert_eq!(r.display_score(), "10");
    assert_eq!(r.display_parts(), "(12/4)-[2+3]+3");
}

#[test]
fn checkroll_critical() {
    let r = CheckOutcome::new(
        Advantage,
        20,
        4,
        DamageOutcome::new(vec![D(-4, vec![2, 3]), M(3)]).into_modifiers().into_inner(),
    );
    assert_eq!(r.score(), 18);
    assert_eq!(r.display_score(), "Critical");
    assert_eq!(r.display_parts(), "(20/4)-[2+3]+3");
}

#[test]
fn checkroll_fail() {
    let r = CheckOutcome::new(
        Disadvantage,
        1,
        4,
        DamageOutcome::new(vec![D(-4, vec![2, 3]), M(3)]).into_modifiers().into_inner(),
    );
    assert_eq!(r.score(), -1);
    assert_eq!(r.display_score(), "Fail");
    assert_eq!(r.display_parts(), "(1/4)-[2+3]+3");
}

#[test]
fn damageroll_just_modifier() {
    let r = DamageOutcome::new(vec![M(2)]);
    assert_eq!(r.score(), 2);
    // A second call must give the same score.
    assert_eq!(r.score(), 2);
    assert_eq!(r.display_parts(), "2");
}

#[test]
fn dice_modifier() {
    let r = DamageOutcome::new(vec![D(4, vec![1, 2, 3]), M(-2)]);
    assert_eq!(r.score(), 4);
}

#[test]
fn damageroll_negative_dice() {
    let r = DamageOutcome::new(vec![D(4, vec![1, 2, 3]), M(2), D(-4, vec![2])]);
    assert_eq!(r.score(), 6);

    let r = DamageOutcome::new(vec![D(8, vec![4, 1, 6]), M(4), D(-4, vec![3, 1])]);
    assert_eq!(r.display_parts(), "[4+1+6]+4-[3+1]");
}

#[test]
fn display_damage_roll() {
    let r = DamageOutcome::new(vec![M(2)]);
    assert_eq!(r.display_score(), "2");

    let r = DamageOutcome::new(vec![D(4, vec![1, 2, 3]), M(-2)]);
    assert_eq!(r.display_score(), "4");
}

#[test]
fn dice_and_mod() {
    let r = DamageOutcome::new(vec![D(6, vec![1, 2, 3]), M(-2)]);
    assert_eq!(r.display_parts(), "[1+2+3]-2");
}
