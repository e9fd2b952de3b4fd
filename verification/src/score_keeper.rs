//! The scores that are kept from game to game: the highest and the most
//! recent.

use crate::scoring::Score;
use time::Tm;
use vstd::multiset::Multiset;
use vstd::prelude::*;

verus! {

/// A calendar date and time, of the `time` crate.
#[verifier::external_type_specification]
#[verifier::external_body]
pub struct ExTm(Tm);

/// A score and when it was reached.
pub type Entry = (Tm, Score);

/// Each list holds at most this many scores.
pub const MAX_SCORES: usize = 5;

/// The scores that are kept.
pub struct ScoreStorage {
    /// The highest scores, highest first; of equal scores the newer first.
    pub high_scores: Vec<Entry>,
    /// The scores of the last games, newest first.
    pub recent_scores: Vec<Entry>,
}

/// How many entries at the front of `list` have a score above `score`.
pub open spec fn leading_above(list: Seq<Entry>, score: int) -> int
    decreases list.len(),
{
    if list.len() == 0 || list[0].1.score <= score {
        0
    } else {
        1 + leading_above(list.drop_first(), score)
    }
}

/// `list` with `entry` put behind the entries at its front that have a
/// higher score.
pub open spec fn placed(list: Seq<Entry>, entry: Entry) -> Seq<Entry> {
    list.insert(leading_above(list, entry.1.score as int), entry)
}

/// `list` in the order of falling scores; entries of equal score stay in the
/// order in which they stand in `list`.
pub open spec fn by_falling_score(list: Seq<Entry>) -> Seq<Entry>
    decreases list.len(),
{
    if list.len() == 0 {
        list
    } else {
        placed(by_falling_score(list.drop_first()), list[0])
    }
}

/// `list` without its last entry if it holds more than `MAX_SCORES`.
pub open spec fn capped(list: Seq<Entry>) -> Seq<Entry> {
    if list.len() > MAX_SCORES {
        list.drop_last()
    } else {
        list
    }
}

/// No entry of `list` has a lower score than an entry behind it.
pub open spec fn falling(list: Seq<Entry>) -> bool {
    forall|i: int, j: int| 0 <= i < j < list.len() ==> list[i].1.score >= list[j].1.score
}

/// The entries that `leading_above` counts have a score above `score`, and
/// the entry behind them, if there is one, has not.
proof fn lemma_leading_above_stops(list: Seq<Entry>, score: int)
    ensures
        0 <= leading_above(list, score) <= list.len(),
        forall|i: int| 0 <= i < leading_above(list, score) ==> (#[trigger] list[i]).1.score > score,
        leading_above(list, score) < list.len() ==> list[leading_above(list, score)].1.score
            <= score,
    decreases list.len(),
{
    if list.len() > 0 && list[0].1.score > score {
        let rest = list.drop_first();
        lemma_leading_above_stops(rest, score);
        assert forall|i: int| 0 <= i < leading_above(list, score) implies (#[trigger] list[i]).1.score
            > score by {
            if i > 0 {
                assert(list[i] == rest[i - 1]);
            }
        }
    }
}

/// Putting an entry into a list of falling scores gives a list of falling
/// scores that holds the entry and what the list held.
proof fn lemma_placed(list: Seq<Entry>, entry: Entry)
    requires
        falling(list),
    ensures
        falling(placed(list, entry)),
        placed(list, entry).to_multiset() == list.to_multiset().insert(entry),
{
    let place = leading_above(list, entry.1.score as int);
    let with_entry = placed(list, entry);
    lemma_leading_above_stops(list, entry.1.score as int);
    assert forall|i: int, j: int| 0 <= i < j < with_entry.len() implies with_entry[i].1.score
        >= with_entry[j].1.score by {}
    assert(with_entry.remove(place) =~= list);
    vstd::seq_lib::to_multiset_remove(with_entry, place);
    assert(with_entry.to_multiset().count(entry) > 0) by {
        with_entry.to_multiset_ensures();
    }
}

/// Sorting by falling score gives a list of falling scores that holds what
/// the list held, each entry as often as before.
pub proof fn lemma_by_falling_score(list: Seq<Entry>)
    ensures
        falling(by_falling_score(list)),
        by_falling_score(list).to_multiset() == list.to_multiset(),
        by_falling_score(list).len() == list.len(),
    decreases list.len(),
{
    if list.len() > 0 {
        let rest = list.drop_first();
        lemma_by_falling_score(rest);
        lemma_placed(by_falling_score(rest), list[0]);
        lemma_leading_above_stops(by_falling_score(rest), list[0].1.score as int);
        assert(list.to_multiset() =~= rest.to_multiset().insert(list[0])) by {
            assert(list =~= seq![list[0]] + rest);
            vstd::seq_lib::lemma_multiset_commutative(seq![list[0]], rest);
            assert(seq![list[0]].to_multiset() =~= Multiset::<Entry>::empty().insert(list[0])) by {
                seq![list[0]].to_multiset_ensures();
                Seq::<Entry>::empty().to_multiset_ensures();
            }
        }
    }
}

/// The falling scores hold from the front of a list to any place before which
/// every score is higher.
proof fn lemma_leading_above(list: Seq<Entry>, score: int, place: int)
    requires
        0 <= place <= list.len(),
        forall|i: int| 0 <= i < place ==> (#[trigger] list[i]).1.score > score,
    ensures
        leading_above(list, score) == place + leading_above(list.subrange(place, list.len() as int), score),
    decreases place,
{
    if place == 0 {
        assert(list.subrange(0, list.len() as int) =~= list);
    } else {
        let rest = list.drop_first();
        assert forall|i: int| 0 <= i < place - 1 implies (#[trigger] rest[i]).1.score > score by {}
        lemma_leading_above(rest, score, place - 1);
        assert(rest.subrange(place - 1, rest.len() as int) =~= list.subrange(
            place,
            list.len() as int,
        ));
    }
}

/// Puts `entry` behind the entries at the front of `list` that have a higher
/// score.
fn place_entry(list: &mut Vec<Entry>, entry: Entry)
    ensures
        final(list)@ == placed(old(list)@, entry),
{
    let mut place: usize = 0;
    while place < list.len() && list[place].1.score > entry.1.score
        invariant
            0 <= place <= list.len(),
            *list == *old(list),
            forall|i: int| 0 <= i < place ==> (#[trigger] list@[i]).1.score > entry.1.score,
        decreases list.len() - place,
    {
        place += 1;
    }
    proof {
        lemma_leading_above(list@, entry.1.score as int, place as int);
    }
    list.insert(place, entry);
}

/// Sorts `list` by falling score; entries of equal score keep their order.
pub fn sort_by_score(list: &Vec<Entry>) -> (sorted: Vec<Entry>)
    ensures
        sorted@ == by_falling_score(list@),
{
    let mut sorted: Vec<Entry> = Vec::new();
    let mut i: usize = list.len();
    while i > 0
        invariant
            0 <= i <= list.len(),
            sorted@ == by_falling_score(list@.subrange(i as int, list@.len() as int)),
        decreases i,
    {
        i -= 1;
        let entry = list[i];
        assert(list@.subrange(i as int, list@.len() as int).drop_first() =~= list@.subrange(
            i + 1,
            list@.len() as int,
        ));
        place_entry(&mut sorted, entry);
    }
    assert(list@.subrange(0, list@.len() as int) =~= list@);
    sorted
}

/// The columns that the list of scores allows for `i`: the number of its
/// digits up to a million, and eight for every other number.
pub open spec fn digits_of(i: int) -> int {
    if 0 <= i <= 9 {
        1
    } else if 10 <= i <= 99 {
        2
    } else if 100 <= i <= 999 {
        3
    } else if 1000 <= i <= 9999 {
        4
    } else if 10000 <= i <= 99999 {
        5
    } else if 100000 <= i <= 999999 {
        6
    } else if i == 1000000 {
        7
    } else {
        8
    }
}

/// The columns that the list of scores allows for `i`.
pub fn digits(i: i64) -> (columns: i64)
    ensures
        columns == digits_of(i as int),
{
    if 0 <= i && i <= 9 {
        1
    } else if 10 <= i && i <= 99 {
        2
    } else if 100 <= i && i <= 999 {
        3
    } else if 1000 <= i && i <= 9999 {
        4
    } else if 10000 <= i && i <= 99999 {
        5
    } else if 100000 <= i && i <= 999999 {
        6
    } else if i == 1000000 {
        7
    } else {
        8
    }
}

/// One piece of the listing of the scores, as it is to be written.
#[derive(Clone, Copy, PartialEq, Eq, Debug)]
pub enum ScoreText {
    /// The text as it stands.
    Text(&'static str),
    /// The time, as day of the week, month, day, time of day and year.
    Time(Tm),
    /// The number in decimal.
    Number(i64),
    /// As many blanks.
    Spaces(i64),
    /// The end of a line.
    NewLine,
}

/// One number of a high score and, in the right column, the same number of
/// a recent score.
pub open spec fn both_columns(label: &'static str, high: int, recent: int) -> Seq<ScoreText> {
    seq![
        ScoreText::Text(label),
        ScoreText::Number(high as i64),
        ScoreText::Spaces((24 - digits_of(high)) as i64),
        ScoreText::Text(label),
        ScoreText::Number(recent as i64),
        ScoreText::NewLine,
    ]
}

/// One number of a high score that has no recent score beside it.
pub open spec fn left_column(label: &'static str, high: int) -> Seq<ScoreText> {
    seq![ScoreText::Text(label), ScoreText::Number(high as i64), ScoreText::NewLine]
}

/// One number of a recent score that has no high score beside it.
pub open spec fn right_column(label: &'static str, recent: int) -> Seq<ScoreText> {
    seq![
        ScoreText::Text("                               "),
        ScoreText::Text(label),
        ScoreText::Number(recent as i64),
        ScoreText::NewLine,
    ]
}

/// The lines of the listing for place `i` of both lists: the times, then
/// level, bonus and score, then an empty line.
pub open spec fn place_texts(high: Seq<Entry>, recent: Seq<Entry>, i: int) -> Seq<ScoreText> {
    if 0 <= i < high.len() && i < recent.len() {
        seq![
            ScoreText::Time(high[i].0),
            ScoreText::Text("       "),
            ScoreText::Time(recent[i].0),
            ScoreText::NewLine,
        ] + both_columns("level: ", high[i].1.level as int, recent[i].1.level as int)
            + both_columns("bonus: ", high[i].1.bonus as int, recent[i].1.bonus as int)
            + both_columns("score: ", high[i].1.score as int, recent[i].1.score as int)
            + seq![ScoreText::NewLine]
    } else if 0 <= i < high.len() {
        seq![ScoreText::Time(high[i].0), ScoreText::NewLine] + left_column(
            "level: ",
            high[i].1.level as int,
        ) + left_column("bonus: ", high[i].1.bonus as int) + left_column(
            "score: ",
            high[i].1.score as int,
        ) + seq![ScoreText::NewLine]
    } else if 0 <= i < recent.len() {
        seq![
            ScoreText::Text("                               "),
            ScoreText::Time(recent[i].0),
            ScoreText::NewLine,
        ] + right_column("level: ", recent[i].1.level as int) + right_column(
            "bonus: ",
            recent[i].1.bonus as int,
        ) + right_column("score: ", recent[i].1.score as int) + seq![ScoreText::NewLine]
    } else {
        seq![ScoreText::NewLine]
    }
}

/// The listing down to place `places` of both lists, under its heading.
pub open spec fn listing(high: Seq<Entry>, recent: Seq<Entry>, places: int) -> Seq<ScoreText>
    decreases places,
{
    if places <= 0 {
        seq![
            ScoreText::NewLine,
            ScoreText::Text("High Scores:                   Recent Scores:"),
            ScoreText::NewLine,
        ]
    } else {
        listing(high, recent, places - 1) + place_texts(high, recent, places - 1)
    }
}

fn push_both_columns(texts: &mut Vec<ScoreText>, label: &'static str, high: i64, recent: i64)
    ensures
        final(texts)@ == old(texts)@ + both_columns(label, high as int, recent as int),
{
    texts.push(ScoreText::Text(label));
    texts.push(ScoreText::Number(high));
    texts.push(ScoreText::Spaces(24 - digits(high)));
    texts.push(ScoreText::Text(label));
    texts.push(ScoreText::Number(recent));
    texts.push(ScoreText::NewLine);
}

fn push_left_column(texts: &mut Vec<ScoreText>, label: &'static str, high: i64)
    ensures
        final(texts)@ == old(texts)@ + left_column(label, high as int),
{
    texts.push(ScoreText::Text(label));
    texts.push(ScoreText::Number(high));
    texts.push(ScoreText::NewLine);
}

fn push_right_column(texts: &mut Vec<ScoreText>, label: &'static str, recent: i64)
    ensures
        final(texts)@ == old(texts)@ + right_column(label, recent as int),
{
    texts.push(ScoreText::Text("                               "));
    texts.push(ScoreText::Text(label));
    texts.push(ScoreText::Number(recent));
    texts.push(ScoreText::NewLine);
}

/// The listing of the scores: the high scores on the left, the recent scores
/// on the right, place by place.
pub fn display_scores(scores: &ScoreStorage) -> (texts: Vec<ScoreText>)
    ensures
        texts@ == listing(
            scores.high_scores@,
            scores.recent_scores@,
            if scores.high_scores@.len() >= scores.recent_scores@.len() {
                scores.high_scores@.len() as int
            } else {
                scores.recent_scores@.len() as int
            },
        ),
{
    let mut texts: Vec<ScoreText> = Vec::new();
    texts.push(ScoreText::NewLine);
    texts.push(ScoreText::Text("High Scores:                   Recent Scores:"));
    texts.push(ScoreText::NewLine);
    let n = if scores.high_scores.len() >= scores.recent_scores.len() {
        scores.high_scores.len()
    } else {
        scores.recent_scores.len()
    };
    let mut i: usize = 0;
    while i < n
        invariant
            0 <= i <= n,
            texts@ == listing(scores.high_scores@, scores.recent_scores@, i as int),
        decreases n - i,
    {
        let ghost before = texts@;
        if i < scores.high_scores.len() && i < scores.recent_scores.len() {
            let (high_tm, high_score) = scores.high_scores[i];
            let (recent_tm, recent_score) = scores.recent_scores[i];
            texts.push(ScoreText::Time(high_tm));
            texts.push(ScoreText::Text("       "));
            texts.push(ScoreText::Time(recent_tm));
            texts.push(ScoreText::NewLine);
            push_both_columns(
                &mut texts,
                "level: ",
                high_score.level as i64,
                recent_score.level as i64,
            );
            push_both_columns(&mut texts, "bonus: ", high_score.bonus, recent_score.bonus);
            push_both_columns(&mut texts, "score: ", high_score.score, recent_score.score);
        } else if i < scores.high_scores.len() {
            let (high_tm, high_score) = scores.high_scores[i];
            texts.push(ScoreText::Time(high_tm));
            texts.push(ScoreText::NewLine);
            push_left_column(&mut texts, "level: ", high_score.level as i64);
            push_left_column(&mut texts, "bonus: ", high_score.bonus);
            push_left_column(&mut texts, "score: ", high_score.score);
        } else if i < scores.recent_scores.len() {
            let (recent_tm, recent_score) = scores.recent_scores[i];
            texts.push(ScoreText::Text("                               "));
            texts.push(ScoreText::Time(recent_tm));
            texts.push(ScoreText::NewLine);
            push_right_column(&mut texts, "level: ", recent_score.level as i64);
            push_right_column(&mut texts, "bonus: ", recent_score.bonus);
            push_right_column(&mut texts, "score: ", recent_score.score);
        }
        texts.push(ScoreText::NewLine);
        assert(texts@ =~= before + place_texts(
            scores.high_scores@,
            scores.recent_scores@,
            i as int,
        ));
        i += 1;
    }
    texts
}

/// Whether a score is kept: a score of zero is not worth keeping.
pub fn worth_keeping(score: Score) -> (kept: bool)
    ensures
        kept == (score.score > 0),
{
    score.score > 0
}

impl ScoreStorage {
    /// The storage with no score in it.
    pub fn new() -> (storage: ScoreStorage)
        ensures
            storage.high_scores@.len() == 0,
            storage.recent_scores@.len() == 0,
    {
        ScoreStorage { high_scores: Vec::new(), recent_scores: Vec::new() }
    }

    /// Takes in the score of a game that ended at `tm`, and says whether the
    /// storage has changed. A score of zero is not kept. Any other score is
    /// put at the front of both lists; the high scores are then sorted by
    /// falling score, and a list that has grown beyond `MAX_SCORES` loses its
    /// last entry.
    pub fn store_score(&mut self, tm: &Tm, score: Score) -> (kept: bool)
        ensures
            kept == (score.score > 0),
            !kept ==> final(self).high_scores@ == old(self).high_scores@,
            !kept ==> final(self).recent_scores@ == old(self).recent_scores@,
            kept ==> final(self).high_scores@ == capped(
                by_falling_score(seq![(*tm, score)] + old(self).high_scores@),
            ),
            kept ==> final(self).recent_scores@ == capped(
                seq![(*tm, score)] + old(self).recent_scores@,
            ),
    {
        if !worth_keeping(score) {
            return false;
        }
        self.high_scores.insert(0, (*tm, score));
        assert(self.high_scores@ =~= seq![(*tm, score)] + old(self).high_scores@);
        let mut high_scores = sort_by_score(&self.high_scores);
        if high_scores.len() > MAX_SCORES {
            high_scores.pop();
        }
        self.high_scores = high_scores;
        self.recent_scores.insert(0, (*tm, score));
        if self.recent_scores.len() > MAX_SCORES {
            self.recent_scores.pop();
        }
        true
    }
}

} // verus!
