use game::outcome::{evaluate, Winner};

#[test]
fn no_winner_while_both_sides_have_health() {
    assert_eq!(evaluate(10, 10), None);
    assert_eq!(evaluate(1, 1), None);
}

#[test]
fn side_b_wins_when_side_a_is_depleted() {
    assert_eq!(evaluate(0, 10), Some(Winner::P2));
    assert_eq!(evaluate(-5, 3), Some(Winner::P2));
}

#[test]
fn side_a_wins_when_side_b_is_depleted() {
    assert_eq!(evaluate(10, 0), Some(Winner::P1));
    assert_eq!(evaluate(7, -1), Some(Winner::P1));
}

#[test]
fn simultaneous_loss_goes_against_the_first_checked_side() {
    assert_eq!(evaluate(0, 0), Some(Winner::P2));
    assert_eq!(evaluate(-2, -9), Some(Winner::P2));
}
