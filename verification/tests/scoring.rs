use tetris::scoring::{get_level, new, Level, Score, Scoring};

#[test]
fn scoring_starts_at_level_one_with_bonus_one_and_score_zero() {
    let scoring = new();
    assert_eq!(scoring.get_score(), Score { level: 1, bonus: 1, score: 0 });
    assert_eq!(scoring.get_time(), 1000);
}

#[test]
fn level_table_entries() {
    assert_eq!(get_level(1), Level { time: 1000, score: 0, count: 3, bonus_inc: 1 });
    assert_eq!(get_level(2), Level { time: 900, score: 5, count: 3, bonus_inc: 1 });
    assert_eq!(get_level(3), Level { time: 800, score: 10, count: 3, bonus_inc: 2 });
    assert_eq!(get_level(4), Level { time: 700, score: 15, count: 3, bonus_inc: 2 });
    assert_eq!(get_level(5), Level { time: 600, score: 20, count: 3, bonus_inc: 3 });
    assert_eq!(get_level(6), Level { time: 500, score: 30, count: 4, bonus_inc: 4 });
    assert_eq!(get_level(7), Level { time: 400, score: 40, count: 4, bonus_inc: 4 });
    assert_eq!(get_level(8), Level { time: 350, score: 45, count: 5, bonus_inc: 5 });
    assert_eq!(get_level(9), Level { time: 300, score: 50, count: 6, bonus_inc: 10 });
    assert_eq!(get_level(10), Level { time: 250, score: 60, count: 6, bonus_inc: 20 });
    assert_eq!(get_level(11), Level { time: 200, score: 70, count: 4, bonus_inc: 20 });
}

#[test]
fn one_row_then_two_rows_at_level_one() {
    let mut scoring = new();
    let first = scoring.update(1);
    assert_eq!(first, Score { level: 1, bonus: 2, score: 10 });
    let second = scoring.update(2);
    assert_eq!(second.score - first.score, (10 * 2 + 0) * 2);
    assert_eq!(second, Score { level: 1, bonus: 6, score: 50 });
    assert_eq!(scoring.get_score(), second);
}

#[test]
fn each_further_row_doubles_the_base_score() {
    for (rows, gain) in [(1i64, 10i64), (2, 20), (3, 40), (4, 80), (5, 160), (20, 5242880)] {
        let mut scoring = new();
        let score = scoring.update(rows);
        assert_eq!(score.score, gain);
        assert_eq!(score.bonus, 2 * rows);
    }
}

#[test]
fn update_without_rows_never_changes_the_score() {
    let mut scoring = new();
    assert_eq!(scoring.update(0), Score { level: 1, bonus: 1, score: 0 });
    assert_eq!(scoring.update(-3), Score { level: 1, bonus: 1, score: 0 });
    scoring.update(4);
    let before = scoring.get_score();
    for _ in 0..20 {
        let after = scoring.update(0);
        assert_eq!(after.score, before.score);
        assert_eq!(after.level, before.level);
    }
}

#[test]
fn update_with_rows_raises_the_score() {
    let mut scoring = new();
    let mut last = scoring.get_score().score;
    for rows in [1i64, 1, 2, 3, 4, 1, 2, 4, 4, 1] {
        let score = scoring.update(rows).score;
        assert!(score > last);
        last = score;
    }
}

#[test]
fn bonus_decays_by_one_with_every_piece_that_clears_nothing() {
    let mut scoring = new();
    scoring.update(2);
    assert_eq!(scoring.get_score().bonus, 4);
    assert_eq!(scoring.update(0).bonus, 3);
    assert_eq!(scoring.update(0).bonus, 2);
    assert_eq!(scoring.update(0).bonus, 1);
    assert_eq!(scoring.update(0).bonus, 1);
}

#[test]
fn the_fourth_clear_leaves_level_one() {
    let mut scoring = new();
    assert_eq!(scoring.update(1), Score { level: 1, bonus: 2, score: 10 });
    assert_eq!(scoring.update(1), Score { level: 1, bonus: 4, score: 30 });
    assert_eq!(scoring.update(1), Score { level: 1, bonus: 6, score: 70 });
    assert_eq!(scoring.get_time(), 1000);
    // the clear that leaves the level is still scored by the level's own entry
    assert_eq!(scoring.update(1), Score { level: 2, bonus: 9, score: 130 });
    assert_eq!(scoring.get_time(), 900);
    assert_eq!(scoring.update(1), Score { level: 2, bonus: 11, score: 265 });
}

#[test]
fn the_level_is_capped_at_the_length_of_the_table() {
    let mut scoring = new();
    for _ in 0..200 {
        if !scoring.can_update(1) {
            break;
        }
        scoring.update(1);
        scoring.update(0);
    }
    assert_eq!(scoring.get_score().level, 11);
    assert_eq!(scoring.get_time(), 200);
}

#[test]
fn can_update_refuses_more_rows_than_the_board_has() {
    let scoring = new();
    assert!(scoring.can_update(0));
    assert!(scoring.can_update(-1));
    assert!(scoring.can_update(1));
    assert!(scoring.can_update(20));
    assert!(!scoring.can_update(21));
}

#[test]
fn the_bonus_is_never_below_one() {
    let mut scoring = new();
    for rows in [0i64, 0, 1, 0, 0, 0, 2, 0, 0, 0, 0, 0, 0, 4, 0, 0, 0, 0, 0, 0, 0, 0, 0, 0] {
        let before = scoring.get_score();
        let after = scoring.update(rows);
        assert!(after.bonus >= 1);
        assert!(after.score >= before.score);
        assert!(1 <= after.level && after.level <= 11);
        assert!(after.level == before.level || after.level == before.level + 1);
        if rows == 0 {
            let decayed = if before.bonus > 1 { before.bonus - 1 } else { before.bonus };
            assert_eq!(after, Score { level: before.level, bonus: decayed, score: before.score });
        }
        assert_eq!(scoring.get_score(), after);
    }
}
