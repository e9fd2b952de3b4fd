//! Score, bonus and level: the table of levels and the rule by which a
//! locked piece changes the score.

use vstd::arithmetic::power2::{lemma2_to64, lemma_pow2_strictly_increases, lemma_pow2_unfold, pow2};
use vstd::prelude::*;

verus! {

/// One entry of the table of levels.
#[derive(Clone, Copy, PartialEq, Eq, Structural, Debug)]
pub struct Level {
    /// Milliseconds between two fall steps.
    pub time: i32,
    /// Added to the base score of every clear.
    pub score: i64,
    /// A level is left with the clear after this many clears.
    pub count: i64,
    /// Added to the bonus when the level is left.
    pub bonus_inc: i64,
}

/// The number of levels.
pub const LEVELS: u16 = 11;

/// After this many locked pieces without a clear the bonus drops by one.
pub const BONUS_DROP_RESET: i64 = 1;

/// The score of the bottom row of a clear; each further row doubles it.
pub const ROW_SCORE: i64 = 10;

/// The most rows that one locked piece can be said to have completed.
pub const MAX_SET_ROWS: i64 = 20;

/// The table of levels, by level from 1 to 11.
pub open spec fn level_table(level: int) -> Level {
    if level == 1 {
        Level { time: 1000, score: 0, count: 3, bonus_inc: 1 }
    } else if level == 2 {
        Level { time: 900, score: 5, count: 3, bonus_inc: 1 }
    } else if level == 3 {
        Level { time: 800, score: 10, count: 3, bonus_inc: 2 }
    } else if level == 4 {
        Level { time: 700, score: 15, count: 3, bonus_inc: 2 }
    } else if level == 5 {
        Level { time: 600, score: 20, count: 3, bonus_inc: 3 }
    } else if level == 6 {
        Level { time: 500, score: 30, count: 4, bonus_inc: 4 }
    } else if level == 7 {
        Level { time: 400, score: 40, count: 4, bonus_inc: 4 }
    } else if level == 8 {
        Level { time: 350, score: 45, count: 5, bonus_inc: 5 }
    } else if level == 9 {
        Level { time: 300, score: 50, count: 6, bonus_inc: 10 }
    } else if level == 10 {
        Level { time: 250, score: 60, count: 6, bonus_inc: 20 }
    } else {
        Level { time: 200, score: 70, count: 4, bonus_inc: 20 }
    }
}

/// The entry of the table for `level`.
pub fn get_level(level: u16) -> (entry: Level)
    requires
        1 <= level <= LEVELS,
    ensures
        entry == level_table(level as int),
{
    if level == 1 {
        Level { time: 1000, score: 0, count: 3, bonus_inc: 1 }
    } else if level == 2 {
        Level { time: 900, score: 5, count: 3, bonus_inc: 1 }
    } else if level == 3 {
        Level { time: 800, score: 10, count: 3, bonus_inc: 2 }
    } else if level == 4 {
        Level { time: 700, score: 15, count: 3, bonus_inc: 2 }
    } else if level == 5 {
        Level { time: 600, score: 20, count: 3, bonus_inc: 3 }
    } else if level == 6 {
        Level { time: 500, score: 30, count: 4, bonus_inc: 4 }
    } else if level == 7 {
        Level { time: 400, score: 40, count: 4, bonus_inc: 4 }
    } else if level == 8 {
        Level { time: 350, score: 45, count: 5, bonus_inc: 5 }
    } else if level == 9 {
        Level { time: 300, score: 50, count: 6, bonus_inc: 10 }
    } else if level == 10 {
        Level { time: 250, score: 60, count: 6, bonus_inc: 20 }
    } else {
        Level { time: 200, score: 70, count: 4, bonus_inc: 20 }
    }
}

/// What the player sees of the scoring: level, bonus and score.
#[derive(Clone, Copy, PartialEq, Eq, Structural, Debug)]
pub struct Score {
    pub level: u16,
    pub bonus: i64,
    pub score: i64,
}

/// The state of the scoring as numbers without bounds.
pub struct Tally {
    pub level: int,
    pub score: int,
    pub bonus: int,
    /// Clears since the level was entered.
    pub count: int,
    /// Locked pieces without a clear that are left before the bonus drops.
    pub bonus_drop: int,
}

impl Tally {
    /// The state at the start of a game.
    pub open spec fn start() -> Tally {
        Tally { level: 1, score: 0, bonus: 1, count: 0, bonus_drop: BONUS_DROP_RESET as int }
    }

    /// The level is one of the table, the bonus is at least 1, the score is
    /// not negative, both fit in 64 bits, and the counters are in step with
    /// the table.
    pub open spec fn well_formed(self) -> bool {
        &&& 1 <= self.level <= LEVELS
        &&& 0 <= self.score <= i64::MAX
        &&& 1 <= self.bonus <= i64::MAX
        &&& 0 <= self.count <= level_table(self.level).count
        &&& 1 <= self.bonus_drop <= BONUS_DROP_RESET
    }

    /// What a clear of `set_rows` rows adds to the score: ten for the first
    /// row, doubled by each further row, plus the level's score, all times
    /// the bonus.
    pub open spec fn gain(self, set_rows: int) -> int {
        (ROW_SCORE * pow2((set_rows - 1) as nat) + level_table(self.level).score) * self.bonus
    }

    /// This clear is the one with which the level is left.
    pub open spec fn level_done(self) -> bool {
        self.count + 1 > level_table(self.level).count
    }

    /// The state after a piece was locked that completed `set_rows` rows,
    /// `set_rows` positive.
    pub open spec fn after_set_rows(self, set_rows: int) -> Tally {
        let entry = level_table(self.level);
        Tally {
            level: if self.level_done() && self.level < LEVELS {
                self.level + 1
            } else {
                self.level
            },
            score: self.score + self.gain(set_rows),
            bonus: (if self.bonus == 1 {
                2 * set_rows
            } else {
                self.bonus + 2 * set_rows
            }) + (if self.level_done() {
                entry.bonus_inc as int
            } else {
                0
            }),
            count: if self.level_done() {
                0
            } else {
                self.count + 1
            },
            bonus_drop: BONUS_DROP_RESET as int,
        }
    }

    /// The state after a piece was locked that completed no row: a bonus
    /// above 1 decays.
    pub open spec fn after_no_set_rows(self) -> Tally {
        if self.bonus > 1 {
            if self.bonus_drop - 1 == 0 {
                Tally { bonus: self.bonus - 1, bonus_drop: BONUS_DROP_RESET as int, ..self }
            } else {
                Tally { bonus_drop: self.bonus_drop - 1, ..self }
            }
        } else {
            self
        }
    }

    /// The state after a piece was locked that completed `set_rows` rows.
    pub open spec fn updated(self, set_rows: int) -> Tally {
        if set_rows > 0 {
            self.after_set_rows(set_rows)
        } else {
            self.after_no_set_rows()
        }
    }

    /// `updated(set_rows)` can be computed: the count is one of a board of
    /// 20 rows, and the new score and bonus fit in 64 bits.
    pub open spec fn can_update(self, set_rows: int) -> bool {
        set_rows > 0 ==> {
            &&& set_rows <= MAX_SET_ROWS
            &&& self.score + self.gain(set_rows) <= i64::MAX
            &&& self.bonus + 2 * set_rows + level_table(self.level).bonus_inc <= i64::MAX
        }
    }

    /// What the player sees of the state.
    pub open spec fn snapshot(self) -> Score {
        Score { level: self.level as u16, bonus: self.bonus as i64, score: self.score as i64 }
    }
}

/// A scoring rule: it is told of every locked piece and says how long a
/// piece rests between two fall steps.
pub trait Scoring {
    /// What the player sees now.
    spec fn current(&self) -> Score;

    /// Milliseconds between two fall steps now.
    spec fn interval(&self) -> i32;

    /// The rule can take a locked piece that completed `set_rows` rows.
    spec fn accepts(&self, set_rows: i64) -> bool;

    fn get_score(&self) -> (score: Score)
        ensures
            score == self.current(),
    ;

    /// Takes a locked piece that completed `set_rows` rows and returns what
    /// the player sees after it.
    fn update(&mut self, set_rows: i64) -> (score: Score)
        requires
            old(self).accepts(set_rows),
        ensures
            score == final(self).current(),
    ;

    fn get_time(&self) -> (millis: i32)
        ensures
            millis == self.interval(),
    ;
}

/// The scoring rule of the game.
#[derive(Clone, Copy)]
pub struct StdScoring {
    level: u16,
    score: i64,
    bonus: i64,
    count: i64,
    bonus_drop: i64,
}

impl View for StdScoring {
    type V = Tally;

    closed spec fn view(&self) -> Tally {
        Tally {
            level: self.level as int,
            score: self.score as int,
            bonus: self.bonus as int,
            count: self.count as int,
            bonus_drop: self.bonus_drop as int,
        }
    }
}

/// The scoring rule at the start of a game: level 1, bonus 1, score 0.
pub fn new() -> (scoring: StdScoring)
    ensures
        scoring@ == Tally::start(),
        scoring@.well_formed(),
{
    StdScoring { level: 1, score: 0, bonus: 1, count: 0, bonus_drop: BONUS_DROP_RESET }
}

/// `ROW_SCORE` doubled `set_rows - 1` times.
fn base_score(set_rows: i64) -> (base: i64)
    requires
        1 <= set_rows <= MAX_SET_ROWS,
    ensures
        base == ROW_SCORE * pow2((set_rows - 1) as nat),
        ROW_SCORE <= base <= ROW_SCORE * 0x80000,
{
    let mut base: i64 = ROW_SCORE;
    let mut rows: i64 = 1;
    proof {
        lemma2_to64();
    }
    while rows < set_rows
        invariant
            1 <= rows <= set_rows <= MAX_SET_ROWS,
            base == ROW_SCORE * pow2((rows - 1) as nat),
            ROW_SCORE <= base <= ROW_SCORE * 0x80000,
        decreases set_rows - rows,
    {
        proof {
            lemma_pow2_unfold(rows as nat);
            lemma2_to64();
            if rows < 19 {
                lemma_pow2_strictly_increases(rows as nat, 19);
            }
        }
        base = base * 2;
        rows += 1;
    }
    base
}

impl StdScoring {
    #[verifier::type_invariant]
    spec fn inv(&self) -> bool {
        self@.well_formed()
    }

    /// Takes a locked piece that completed `set_rows` rows, `set_rows`
    /// positive.
    fn update_some_set_rows(&mut self, set_rows: i64) -> (score: Score)
        requires
            set_rows > 0,
            old(self)@.can_update(set_rows as int),
        ensures
            final(self)@ == old(self)@.after_set_rows(set_rows as int),
            score == final(self)@.snapshot(),
    {
        proof {
            use_type_invariant(&*self);
            lemma_clear_raises_score(self@, set_rows as int);
        }
        let level = get_level(self.level);
        let base_score = base_score(set_rows);
        let level_score = level.score;
        let score = self.score + (base_score + level_score) * self.bonus;
        let level_done = self.count + 1 > level.count;
        // add to the bonus when a level is left
        let bonus_inc = if level_done {
            level.bonus_inc
        } else {
            0
        };
        let next_level = if level_done && self.level < LEVELS {
            self.level + 1
        } else {
            self.level
        };
        let count = if level_done {
            0
        } else {
            self.count + 1
        };
        let bonus = if self.bonus == 1 {
            2 * set_rows
        } else {
            self.bonus + 2 * set_rows
        };
        *self = StdScoring {
            level: next_level,
            score,
            bonus: bonus + bonus_inc,
            count,
            bonus_drop: BONUS_DROP_RESET,
        };
        self.get_score()
    }

    /// Takes a locked piece that completed no row.
    fn update_no_set_rows(&mut self) -> (score: Score)
        ensures
            final(self)@ == old(self)@.after_no_set_rows(),
            score == final(self)@.snapshot(),
    {
        proof {
            use_type_invariant(&*self);
        }
        if self.bonus > 1 {
            if self.bonus_drop - 1 == 0 {
                *self = StdScoring {
                    level: self.level,
                    score: self.score,
                    bonus: self.bonus - 1,
                    count: self.count,
                    bonus_drop: BONUS_DROP_RESET,
                };
            } else {
                self.bonus_drop -= 1;
            }
        }
        self.get_score()
    }

    /// Whether `update` can take a locked piece that completed `set_rows`
    /// rows.
    pub fn can_update(&self, set_rows: i64) -> (fits: bool)
        ensures
            fits == self@.can_update(set_rows as int),
    {
        proof {
            use_type_invariant(self);
        }
        if set_rows <= 0 {
            return true;
        }
        if set_rows > MAX_SET_ROWS {
            return false;
        }
        let level = get_level(self.level);
        let per_bonus = base_score(set_rows) + level.score;
        let fits_score = match per_bonus.checked_mul(self.bonus) {
            Some(gain) => self.score.checked_add(gain).is_some(),
            None => false,
        };
        let fits_bonus = self.bonus <= i64::MAX - 2 * set_rows - level.bonus_inc;
        fits_score && fits_bonus
    }
}

impl Scoring for StdScoring {
    open spec fn current(&self) -> Score {
        self@.snapshot()
    }

    open spec fn interval(&self) -> i32 {
        level_table(self@.level).time
    }

    open spec fn accepts(&self, set_rows: i64) -> bool {
        self@.can_update(set_rows as int)
    }

    /// Level, bonus and score as they stand: the level is one of the table,
    /// the bonus is at least 1 and the score is not negative.
    fn get_score(&self) -> (score: Score)
        ensures
            self@.well_formed(),
            score.level == self@.level,
            score.bonus == self@.bonus,
            score.score == self@.score,
            1 <= score.level <= LEVELS,
            1 <= score.bonus,
            0 <= score.score,
    {
        proof {
            use_type_invariant(self);
        }
        Score { level: self.level, bonus: self.bonus, score: self.score }
    }

    /// A piece that completed no row leaves score and level as they are and
    /// takes one off a bonus above 1; one that completed rows raises the
    /// score. The level stays or rises by one, and the bonus is never below
    /// 1.
    fn update(&mut self, set_rows: i64) -> (score: Score)
        ensures
            old(self)@.well_formed(),
            final(self)@ == old(self)@.updated(set_rows as int),
            final(self)@.well_formed(),
            score.level == final(self)@.level,
            score.bonus == final(self)@.bonus,
            score.score == final(self)@.score,
            1 <= score.level <= LEVELS,
            score.level == old(self)@.level || score.level == old(self)@.level + 1,
            1 <= score.bonus,
            set_rows <= 0 ==> score.score == old(self)@.score,
            set_rows <= 0 ==> score.level == old(self)@.level,
            set_rows <= 0 ==> score.bonus == if old(self)@.bonus > 1 {
                old(self)@.bonus - 1
            } else {
                old(self)@.bonus
            },
            set_rows > 0 ==> score.score > old(self)@.score,
    {
        proof {
            use_type_invariant(&*self);
        }
        if set_rows > 0 {
            proof {
                lemma_clear_raises_score(self@, set_rows as int);
            }
            self.update_some_set_rows(set_rows)
        } else {
            self.update_no_set_rows()
        }
    }

    fn get_time(&self) -> (millis: i32) {
        proof {
            use_type_invariant(self);
        }
        get_level(self.level).time
    }
}

/// A clear adds at least ten to the score.
pub proof fn lemma_clear_raises_score(tally: Tally, set_rows: int)
    requires
        tally.well_formed(),
        set_rows > 0,
    ensures
        tally.gain(set_rows) >= ROW_SCORE,
        tally.updated(set_rows).score > tally.score,
{
    let per_bonus = ROW_SCORE * pow2((set_rows - 1) as nat) + level_table(tally.level).score;
    vstd::arithmetic::power2::lemma_pow2_pos((set_rows - 1) as nat);
    assert(per_bonus >= ROW_SCORE) by (nonlinear_arith)
        requires
            per_bonus == ROW_SCORE * pow2((set_rows - 1) as nat) + level_table(tally.level).score,
            pow2((set_rows - 1) as nat) >= 1,
            level_table(tally.level).score >= 0,
            ROW_SCORE == 10,
    ;
    assert(per_bonus * tally.bonus >= ROW_SCORE) by (nonlinear_arith)
        requires
            per_bonus >= ROW_SCORE,
            tally.bonus >= 1,
            ROW_SCORE == 10,
    ;
}

/// A locked piece that completed no row leaves score and level as they are.
pub proof fn lemma_no_clear_keeps_score(tally: Tally, set_rows: int)
    requires
        set_rows <= 0,
    ensures
        tally.updated(set_rows).score == tally.score,
        tally.updated(set_rows).level == tally.level,
{
}

} // verus!
