use vstd::prelude::*;
use crate::category::{Category, Classification, count_category};

verus! {

/// How many games fall in each category, and how many there are in all.
pub struct CategorySummary {
    pub completed: usize,
    pub in_progress: usize,
    pub endless: usize,
    pub not_a_game: usize,
    pub total: usize,
}

/// Counts the classifications in each category.
pub fn summarize(classifications: &Vec<Classification>) -> (r: CategorySummary)
    ensures
        r.total == classifications@.len(),
        r.completed == count_category(classifications@, Category::Completed),
        r.in_progress == count_category(classifications@, Category::InProgress),
        r.endless == count_category(classifications@, Category::Endless),
        r.not_a_game == count_category(classifications@, Category::NotAGame),
{
    let n = classifications.len();
    let mut r = CategorySummary { completed: 0, in_progress: 0, endless: 0, not_a_game: 0, total: n };
    for i in 0..n
        invariant
            n == classifications@.len(),
            r.total == n,
            r.completed == count_category(classifications@.take(i as int), Category::Completed),
            r.in_progress == count_category(classifications@.take(i as int), Category::InProgress),
            r.endless == count_category(classifications@.take(i as int), Category::Endless),
            r.not_a_game == count_category(classifications@.take(i as int), Category::NotAGame),
    {
        let ghost s = classifications@.take(i + 1);
        assert(s.drop_last() =~= classifications@.take(i as int));
        proof {
            lemma_counts_bounded(classifications@.take(i as int));
        }
        match classifications[i].category {
            Category::Completed => r.completed = r.completed + 1,
            Category::InProgress => r.in_progress = r.in_progress + 1,
            Category::Endless => r.endless = r.endless + 1,
            Category::NotAGame => r.not_a_game = r.not_a_game + 1,
        }
    }
    assert(classifications@.take(n as int) =~= classifications@);
    r
}

/// Every classification falls in exactly one category: the four counts add
/// up to the number of classifications.
pub proof fn lemma_counts_add_up(s: Seq<Classification>)
    ensures
        count_category(s, Category::Completed) + count_category(s, Category::InProgress)
            + count_category(s, Category::Endless) + count_category(s, Category::NotAGame)
            == s.len(),
    decreases s.len(),
{
    if s.len() > 0 {
        lemma_counts_add_up(s.drop_last());
    }
}

/// No count exceeds the number of classifications.
proof fn lemma_counts_bounded(s: Seq<Classification>)
    ensures
        count_category(s, Category::Completed) <= s.len(),
        count_category(s, Category::InProgress) <= s.len(),
        count_category(s, Category::Endless) <= s.len(),
        count_category(s, Category::NotAGame) <= s.len(),
{
    lemma_counts_add_up(s);
}

/// The summary's counts add up to its total.
pub proof fn lemma_summary_adds_up(classifications: Seq<Classification>, r: CategorySummary)
    requires
        r.total == classifications.len(),
        r.completed == count_category(classifications, Category::Completed),
        r.in_progress == count_category(classifications, Category::InProgress),
        r.endless == count_category(classifications, Category::Endless),
        r.not_a_game == count_category(classifications, Category::NotAGame),
    ensures
        r.completed + r.in_progress + r.endless + r.not_a_game == r.total,
{
    lemma_counts_add_up(classifications);
}

} // verus!
