use critfail::AdvState::{Advantage, Disadvantage, Neutral};
use critfail::DamagePart::Dice as D;
use critfail::DamagePart::Modifier as M;
use critfail::{parse, Attack, Check, Damage, DamagePart, Roll, RollExp, RollExpression};

#[test]
fn attackparse_inferred_r() {
    assert_eq!(
        "+3?2d8-1".parse::<Attack>().unwrap(),
        Attack {
            check: Check::new("r+3").unwrap(),
            damage: Damage::new("2d8-1").unwrap()
        }
    );
    assert_eq!(
        "+3?2d8-1".parse::<Attack>().unwrap(),
        Attack {
            check: Check {
                adv: Neutral,
                modifier: Damage(vec![M(3)])
            },
            damage: Damage(vec![D(2, 8), M(-1)])
        }
    );
}

#[test]
fn attackparse_advantage() {
    assert_eq!(
        "a-1?2d8+1".parse::<Attack>().unwrap(),
        Attack {
            check: Check::new("a-1").unwrap(),
            damage: Damage::new("2d8+1").unwrap()
        }
    );
    assert_eq!(
        "a-1?2d8+1".parse::<Attack>().unwrap(),
        Attack {
            check: Check {
                adv: Advantage,
                modifier: Damage(vec![M(-1)])
            },
            damage: Damage(vec![D(2, 8), M(1)])
        }
    );
}

#[test]
fn attackparse_neutral() {
    assert_eq!(
        "r+8?3d10+2".parse::<Attack>().unwrap(),
        Attack {
            check: Check::new("r+8").unwrap(),
            damage: Damage::new("3d10+2").unwrap()
        }
    );
    assert_eq!(
        "r+8?3d10+2".parse::<Attack>().unwrap(),
        Attack {
            check: Check {
                adv: Neutral,
                modifier: Damage(vec![M(8)])
            },
            damage: Damage(vec![D(3, 10), M(2)])
        }
    );
}

#[test]
fn attackparse_complex() {
    assert_eq!(
        "d+1d4+3-1?1d4+4d6+2-1d4".parse::<Attack>().unwrap(),
        Attack {
            check: Check::new("d+1d4+3-1").unwrap(),
            damage: Damage::new("1d4+4d6+2-1d4").unwrap()
        }
    );
    assert_eq!(
        "d+1d4+3-1?1d4+4d6+2-1d4".parse::<Attack>().unwrap(),
        Attack {
            check: Check {
                adv: Disadvantage,
                modifier: Damage(vec![D(1, 4), M(3), M(-1)])
            },
            damage: Damage(vec![D(1, 4), D(4, 6), M(2), D(1, -4)])
        }
    );
}

#[test]
fn attackparse_invalid() {
    assert!("r+3".parse::<Attack>().is_err());
    assert!("2d8".parse::<Attack>().is_err());
    assert!("".parse::<Attack>().is_err());
    assert!("2d8?3d6".parse::<Attack>().is_err());
    assert!("r+3?r-2".parse::<Attack>().is_err());
    assert!("?".parse::<Attack>().is_err());
    assert!("not?2d10".parse::<Attack>().is_err());
    assert!("d+3?3d6+4?3d8".parse::<Attack>().is_err());
    assert!("d+3??3d8".parse::<Attack>().is_err());
    assert!("d+3??majordamage".parse::<Attack>().is_err());
}

#[test]
fn checkparse_basic() {
    assert_eq!(
        "r".parse::<Check>().unwrap(),
        Check {
            adv: Neutral,
            modifier: Damage(vec![])
        }
    );

    assert_eq!(
        "a".parse::<Check>().unwrap(),
        Check {
            adv: Advantage,
            modifier: Damage(vec![])
        }
    );

    assert_eq!(
        "d".parse::<Check>().unwrap(),
        Check {
            adv: Disadvantage,
            modifier: Damage(vec![])
        }
    );
}

#[test]
fn checkparse_with_modifiers() {
    assert_eq!(
        "r+3".parse::<Check>().unwrap(),
        Check {
            adv: Neutral,
            modifier: Damage(vec![M(3)])
        }
    );

    assert_eq!(
        "d+5".parse::<Check>().unwrap(),
        Check {
            adv: Disadvantage,
            modifier: Damage(vec![M(5)])
        }
    );

    assert_eq!(
        "a-2".parse::<Check>().unwrap(),
        Check {
            adv: Advantage,
            modifier: Damage(vec![M(-2)])
        }
    );

    assert_eq!(
        "r+1d4+2".parse::<Check>().unwrap(),
        Check {
            adv: Neutral,
            modifier: Damage(vec![D(1, 4), M(2)])
        }
    );
}

#[test]
fn checkparse_inferred_r() {
    assert_eq!(
        "+3".parse::<Check>().unwrap(),
        Check {
            adv: Neutral,
            modifier: Damage(vec![M(3)])
        }
    );

    assert_eq!(
        "-2".parse::<Check>().unwrap(),
        Check {
            adv: Neutral,
            modifier: Damage(vec![M(-2)])
        }
    );

    assert_eq!(
        "-1d4+2".parse::<Check>().unwrap(),
        Check {
            adv: Neutral,
            modifier: Damage(vec![D(1, -4), M(2)])
        }
    );

    assert_eq!(
        "+1d4".parse::<Check>().unwrap(),
        Check {
            adv: Neutral,
            modifier: Damage(vec![D(1, 4)])
        }
    );
}

#[test]
fn checkparse_invalid() {
    assert!("r+r+3".parse::<Check>().is_err());
    assert!("1+r+3".parse::<Check>().is_err());
    assert!("2d8".parse::<Check>().is_err());
    assert!("5".parse::<Check>().is_err());
    assert!("+r+2d8".parse::<Check>().is_err());
    assert!("r+3+bad".parse::<Check>().is_err());
    assert!("r+3+1d4/2".parse::<Check>().is_err());
}

#[test]
fn rollparse_damage_basic() {
    assert_eq!(
        "2d10".parse::<Roll>().unwrap(),
        Roll::Damage(Damage(vec![D(2, 10)]))
    );
    assert_eq!(
        "5d6".parse::<Roll>().unwrap(),
        Roll::Damage(Damage(vec![D(5, 6)]))
    );
    assert_eq!(
        "25d4".parse::<Roll>().unwrap(),
        Roll::Damage(Damage(vec![D(25, 4)]))
    );
}

#[test]
fn rollparse_damage_sum() {
    assert_eq!(
        "3d4+5".parse::<Roll>().unwrap(),
        Roll::Damage(Damage(vec![D(3, 4), M(5)]))
    );
    assert_eq!(
        "2d6+4".parse::<Roll>().unwrap(),
        Roll::Damage(Damage(vec![D(2, 6), M(4)]))
    );
    assert_eq!(
        "3d4-5".parse::<Roll>().unwrap(),
        Roll::Damage(Damage(vec![D(3, 4), M(-5)]))
    );
    assert_eq!(
        "7d6+2d8+9".parse::<Roll>().unwrap(),
        Roll::Damage(Damage(vec![D(7, 6), D(2, 8), M(9)]))
    );
    assert_eq!(
        "2d8-1d4-1+5".parse::<Roll>().unwrap(),
        Roll::Damage(Damage(vec![D(2, 8), D(1, -4), M(-1), M(5)]))
    );
}

#[test]
fn rollparse_check_basic() {
    assert_eq!(
        "r".parse::<Roll>().unwrap(),
        Roll::Check(Check::new("r").unwrap())
    );
    assert_eq!(
        "a".parse::<Roll>().unwrap(),
        Roll::Check(Check::new("a").unwrap())
    );
    assert_eq!(
        "d".parse::<Roll>().unwrap(),
        Roll::Check(Check::new("d").unwrap())
    );
}

#[test]
fn rollparse_check_modifiers() {
    assert_eq!(
        "r+3".parse::<Roll>().unwrap(),
        Roll::Check(Check::new("r+3").unwrap())
    );
    assert_eq!(
        "d+5".parse::<Roll>().unwrap(),
        Roll::Check(Check::new("d+5").unwrap())
    );
    assert_eq!(
        "a-2".parse::<Roll>().unwrap(),
        Roll::Check(Check::new("a-2").unwrap())
    );
    assert_eq!(
        "r+1d4+2".parse::<Roll>().unwrap(),
        Roll::Check(Check::new("r+1d4+2").unwrap())
    );
}

#[test]
fn rollparse_check_inferred() {
    assert_eq!(
        "+3".parse::<Roll>().unwrap(),
        Roll::Check(Check::new("+3").unwrap())
    );
    assert_eq!(
        "-2".parse::<Roll>().unwrap(),
        Roll::Check(Check::new("-2").unwrap())
    );
    assert_eq!(
        "-1d4+2".parse::<Roll>().unwrap(),
        Roll::Check(Check::new("-1d4+2").unwrap())
    );
}

#[test]
fn rollparse_attacks() {
    assert_eq!(
        "+3?2d8-1".parse::<Roll>().unwrap(),
        Roll::Attack(Attack::new("+3?2d8-1").unwrap())
    );
    assert_eq!(
        "a-1?2d8+1".parse::<Roll>().unwrap(),
        Roll::Attack(Attack::new("a-1?2d8+1").unwrap())
    );
    assert_eq!(
        "r+8?3d10+2".parse::<Roll>().unwrap(),
        Roll::Attack(Attack::new("r+8?3d10+2").unwrap())
    );
    assert_eq!(
        "a+1d4+3-1?1d4+4d6+2-1d4".parse::<Roll>().unwrap(),
        Roll::Attack(Attack::new("a+1d4+3-1?1d4+4d6+2-1d4").unwrap())
    );
}

#[test]
fn rollexp_damage_basic() {
    assert_eq!(parse("2d10"), Ok(RollExp::Damage(Damage(vec![D(2, 10)]))));
    assert_eq!(parse("5d6"), Ok(RollExp::Damage(Damage(vec![D(5, 6)]))));
    assert_eq!(parse("25d4"), Ok(RollExp::Damage(Damage(vec![D(25, 4)]))));
}

#[test]
fn rollexp_damage_sum() {
    assert_eq!(
        parse("3d4+5"),
        Ok(RollExp::Damage(Damage(vec![D(3, 4), M(5)])))
    );
    assert_eq!(
        parse("2d6+4"),
        Ok(RollExp::Damage(Damage(vec![D(2, 6), M(4)])))
    );
    assert_eq!(
        parse("3d4-5"),
        Ok(RollExp::Damage(Damage(vec![D(3, 4), M(-5)])))
    );
    assert_eq!(
        parse("7d6+2d8+9"),
        Ok(RollExp::Damage(Damage(vec![D(7, 6), D(2, 8), M(9)])))
    );
    assert_eq!(
        parse("2d8-1d4-1+5"),
        Ok(RollExp::Damage(Damage(vec![D(2, 8), D(1, -4), M(-1), M(5)])))
    );
}

#[test]
fn rollexp_check_basic() {
    assert_eq!(
        parse("r"),
        Ok(RollExp::Check(Check {
            adv: Neutral,
            modifier: Damage(vec![])
        }))
    );
    assert_eq!(
        parse("a"),
        Ok(RollExp::Check(Check {
            adv: Advantage,
            modifier: Damage(vec![])
        }))
    );
    assert_eq!(
        parse("d"),
        Ok(RollExp::Check(Check {
            adv: Disadvantage,
            modifier: Damage(vec![])
        }))
    );
}

#[test]
fn rollexp_check_modifiers() {
    assert_eq!(
        parse("r+3"),
        Ok(RollExp::Check(Check {
            adv: Neutral,
            modifier: Damage(vec![M(3)])
        }))
    );
    assert_eq!(
        parse("d+5"),
        Ok(RollExp::Check(Check {
            adv: Disadvantage,
            modifier: Damage(vec![M(5)])
        }))
    );
    assert_eq!(
        parse("a-2"),
        Ok(RollExp::Check(Check {
            adv: Advantage,
            modifier: Damage(vec![M(-2)])
        }))
    );
    assert_eq!(
        parse("r+1d4+2"),
        Ok(RollExp::Check(Check {
            adv: Neutral,
            modifier: Damage(vec![D(1, 4), M(2)])
        }))
    );
}

#[test]
fn rollexp_check_inferred() {
    assert_eq!(
        parse("+3"),
        Ok(RollExp::Check(Check {
            adv: Neutral,
            modifier: Damage(vec![M(3)])
        }))
    );
    assert_eq!(
        parse("-2"),
        Ok(RollExp::Check(Check {
            adv: Neutral,
            modifier: Damage(vec![M(-2)])
        }))
    );
    assert_eq!(
        parse("-1d4+2"),
        Ok(RollExp::Check(Check {
            adv: Neutral,
            modifier: Damage(vec![D(1, -4), M(2)])
        }))
    );
}

#[test]
fn rollexpparse_damage_basic() {
    assert_eq!(
        "2d10".parse::<RollExp>().unwrap(),
        RollExp::Damage(Damage(vec![D(2, 10)]))
    );
    assert_eq!(
        "5d6".parse::<RollExp>().unwrap(),
        RollExp::Damage(Damage(vec![D(5, 6)]))
    );
    assert_eq!(
        "25d4".parse::<RollExp>().unwrap(),
        RollExp::Damage(Damage(vec![D(25, 4)]))
    );
}

#[test]
fn rollexpparse_damage_sum() {
    assert_eq!(
        "3d4+5".parse::<RollExp>().unwrap(),
        RollExp::Damage(Damage(vec![D(3, 4), M(5)]))
    );
    assert_eq!(
        "2d6+4".parse::<RollExp>().unwrap(),
        RollExp::Damage(Damage(vec![D(2, 6), M(4)]))
    );
    assert_eq!(
        "3d4-5".parse::<RollExp>().unwrap(),
        RollExp::Damage(Damage(vec![D(3, 4), M(-5)]))
    );
    assert_eq!(
        "7d6+2d8+9".parse::<RollExp>().unwrap(),
        RollExp::Damage(Damage(vec![D(7, 6), D(2, 8), M(9)]))
    );
    assert_eq!(
        "2d8-1d4-1+5".parse::<RollExp>().unwrap(),
        RollExp::Damage(Damage(vec![D(2, 8), D(1, -4), M(-1), M(5)]))
    );
}

#[test]
fn rollexpparse_check_basic() {
    assert_eq!(
        "r".parse::<RollExp>().unwrap(),
        RollExp::Check(Check {
            adv: Neutral,
            modifier: Damage(vec![])
        })
    );
    assert_eq!(
        "a".parse::<RollExp>().unwrap(),
        RollExp::Check(Check {
            adv: Advantage,
            modifier: Damage(vec![])
        })
    );
    assert_eq!(
        "d".parse::<RollExp>().unwrap(),
        RollExp::Check(Check {
            adv: Disadvantage,
            modifier: Damage(vec![])
        })
    );
}

#[test]
fn rollexpparse_check_modifiers() {
    assert_eq!(
        "r+3".parse::<RollExp>().unwrap(),
        RollExp::Check(Check {
            adv: Neutral,
            modifier: Damage(vec![M(3)])
        })
    );
    assert_eq!(
        "d+5".parse::<RollExp>().unwrap(),
        RollExp::Check(Check {
            adv: Disadvantage,
            modifier: Damage(vec![M(5)])
        })
    );
    assert_eq!(
        "a-2".parse::<RollExp>().unwrap(),
        RollExp::Check(Check {
            adv: Advantage,
            modifier: Damage(vec![M(-2)])
        })
    );
    assert_eq!(
        "r+1d4+2".parse::<RollExp>().unwrap(),
        RollExp::Check(Check {
            adv: Neutral,
            modifier: Damage(vec![D(1, 4), M(2)])
        })
    );
}

#[test]
fn rollexpparse_check_inferred() {
    assert_eq!(
        "+3".parse::<RollExp>().unwrap(),
        RollExp::Check(Check {
            adv: Neutral,
            modifier: Damage(vec![M(3)])
        })
    );
    assert_eq!(
        "-2".parse::<RollExp>().unwrap(),
        RollExp::Check(Check {
            adv: Neutral,
            modifier: Damage(vec![M(-2)])
        })
    );
    assert_eq!(
        "-1d4+2".parse::<RollExp>().unwrap(),
        RollExp::Check(Check {
            adv: Neutral,
            modifier: Damage(vec![D(1, -4), M(2)])
        })
    );
}

#[test]
fn rollexpparse_attacks() {
    assert_eq!(
        "+3?2d8-1".parse::<RollExp>().unwrap(),
        RollExp::Attack(Attack {
            check: Check {
                adv: Neutral,
                modifier: Damage(vec![M(3)])
            },
            damage: Damage(vec![D(2, 8), M(-1)])
        })
    );
    assert_eq!(
        "a-1?2d8+1".parse::<RollExp>().unwrap(),
        RollExp::Attack(Attack {
            check: Check {
                adv: Advantage,
                modifier: Damage(vec![M(-1)])
            },
            damage: Damage(vec![D(2, 8), M(1)])
        })
    );
    assert_eq!(
        "r+8?3d10+2".parse::<RollExp>().unwrap(),
        RollExp::Attack(Attack {
            check: Check {
                adv: Neutral,
                modifier: Damage(vec![M(8)])
            },
            damage: Damage(vec![D(3, 10), M(2)])
        })
    );
    assert_eq!(
        "a+1d4+3-1?1d4+4d6+2-1d4".parse::<RollExp>().unwrap(),
        RollExp::Attack(Attack {
            check: Check {
                adv: Advantage,
                modifier: Damage(vec![D(1, 4), M(3), M(-1)])
            },
            damage: Damage(vec![D(1, 4), D(4, 6), M(2), D(1, -4)])
        })
    );
}

#[test]
fn damage_simple_damage() {
    let d: DamagePart = "2d8".parse().unwrap();
    assert_eq!(d, DamagePart::Dice(2, 8));
    let d: DamagePart = "1d12".parse().unwrap();
    assert_eq!(d, DamagePart::Dice(1, 12));
    let d: DamagePart = "3d6".parse().unwrap();
    assert_eq!(d, DamagePart::Dice(3, 6));
    let d: DamagePart = "421d314159".parse().unwrap();
    assert_eq!(d, DamagePart::Dice(421, 314159));
}

#[test]
fn damage_negative_damage() {
    let d: DamagePart = "-2d8".parse().unwrap();
    assert_eq!(d, DamagePart::Dice(2, -8));
    let d: DamagePart = "-1d12".parse().unwrap();
    assert_eq!(d, DamagePart::Dice(1, -12));
    let d: DamagePart = "-3d6".parse().unwrap();
    assert_eq!(d, DamagePart::Dice(3, -6));
    let d: DamagePart = "-421d314159".parse().unwrap();
    assert_eq!(d, DamagePart::Dice(421, -314159));
}

#[test]
fn damage_modifier() {
    let d: DamagePart = "4".parse().unwrap();
    assert_eq!(d, DamagePart::Modifier(4));
    let d: DamagePart = "-3".parse().unwrap();
    assert_eq!(d, DamagePart::Modifier(-3));
    let d: DamagePart = "26".parse().unwrap();
    assert_eq!(d, DamagePart::Modifier(26));
    let d: DamagePart = "-129".parse().unwrap();
    assert_eq!(d, DamagePart::Modifier(-129));
}

#[test]
fn damageparse_simple_damage() {
    assert_eq!("2d8".parse::<DamagePart>().unwrap(), DamagePart::Dice(2, 8));
    assert_eq!("1d12".parse::<DamagePart>().unwrap(), DamagePart::Dice(1, 12));
    assert_eq!("3d6".parse::<DamagePart>().unwrap(), DamagePart::Dice(3, 6));
    assert_eq!(
        "421d314159".parse::<DamagePart>().unwrap(),
        DamagePart::Dice(421, 314159)
    );
}

#[test]
fn damageparse_negative_damage() {
    assert_eq!("-2d8".parse::<DamagePart>().unwrap(), DamagePart::Dice(2, -8));
    assert_eq!("-1d12".parse::<DamagePart>().unwrap(), DamagePart::Dice(1, -12));
    assert_eq!("-3d6".parse::<DamagePart>().unwrap(), DamagePart::Dice(3, -6));
    assert_eq!(
        "-421d314159".parse::<DamagePart>().unwrap(),
        DamagePart::Dice(421, -314159)
    );
}

#[test]
fn damageparse_modifier() {
    assert_eq!("4".parse::<DamagePart>().unwrap(), DamagePart::Modifier(4));
    assert_eq!("-3".parse::<DamagePart>().unwrap(), DamagePart::Modifier(-3));
    assert_eq!("26".parse::<DamagePart>().unwrap(), DamagePart::Modifier(26));
    assert_eq!("-129".parse::<DamagePart>().unwrap(), DamagePart::Modifier(-129));
}

#[test]
fn damageparse_invalid() {
    assert!("2q4".parse::<DamagePart>().is_err());
    assert!("d20".parse::<DamagePart>().is_err());
    assert!("r+3".parse::<DamagePart>().is_err());
    assert!("d-3".parse::<DamagePart>().is_err());
    assert!("d".parse::<DamagePart>().is_err());
    assert!("".parse::<DamagePart>().is_err());
    assert!("2d6+3".parse::<DamagePart>().is_err());

    assert!("+3d6".parse::<Damage>().is_err());
    assert!("3d6+2q".parse::<Damage>().is_err());
    assert!("3d6-2q".parse::<Damage>().is_err());
    assert!("3d6++4".parse::<Damage>().is_err());
}

#[test]
fn normal_damage() {
    assert_eq!("2d6+3".parse::<Damage>().unwrap(), Damage(vec![D(2, 6), M(3)]));
    assert_eq!("8d4-4".parse::<Damage>().unwrap(), Damage(vec![D(8, 4), M(-4)]));
    assert_eq!("-2d8+3".parse::<Damage>().unwrap(), Damage(vec![D(2, -8), M(3)]));
    assert_eq!(
        "3d12+3d6-1d4+2-3".parse::<Damage>().unwrap(),
        Damage(vec![D(3, 12), D(3, 6), D(1, -4), M(2), M(-3)])
    );
}
