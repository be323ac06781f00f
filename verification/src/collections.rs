use vstd::prelude::*;
use crate::category::{Category, Classification, category_key, count_category, of_category};

verus! {

/// The app ids of the classifications of `s` in category `cat`, in order.
pub open spec fn appids_in(s: Seq<Classification>, cat: Category) -> Seq<u64>
    decreases s.len(),
{
    if s.len() == 0 {
        Seq::empty()
    } else if s.last().category == cat {
        appids_in(s.drop_last(), cat).push(s.last().appid)
    } else {
        appids_in(s.drop_last(), cat)
    }
}

/// The Steam collection for each category: the app ids filed under it.
pub struct CategoryGroups {
    pub completed: Vec<u64>,
    pub in_progress: Vec<u64>,
    pub endless: Vec<u64>,
    pub not_a_game: Vec<u64>,
}

impl CategoryGroups {
    /// The collection of category `cat`.
    pub open spec fn group(self, cat: Category) -> Seq<u64> {
        match cat {
            Category::Completed => self.completed@,
            Category::InProgress => self.in_progress@,
            Category::Endless => self.endless@,
            Category::NotAGame => self.not_a_game@,
        }
    }

    /// The four collections as (stored name, app ids) pairs, in the order
    /// completed, in progress, endless, not a game.
    pub fn into_entries(self) -> (r: Vec<(String, Vec<u64>)>)
        ensures
            r@.len() == 4,
            r@[0].0@ == category_key(Category::Completed),
            r@[0].1@ == self.completed@,
            r@[1].0@ == category_key(Category::InProgress),
            r@[1].1@ == self.in_progress@,
            r@[2].0@ == category_key(Category::Endless),
            r@[2].1@ == self.endless@,
            r@[3].0@ == category_key(Category::NotAGame),
            r@[3].1@ == self.not_a_game@,
    {
        let mut r: Vec<(String, Vec<u64>)> = Vec::new();
        r.push((Category::Completed.key(), self.completed));
        r.push((Category::InProgress.key(), self.in_progress));
        r.push((Category::Endless.key(), self.endless));
        r.push((Category::NotAGame.key(), self.not_a_game));
        r
    }
}

/// Files every classified game under its category, keeping the order of
/// `classifications` within each collection. All four collections exist,
/// empty ones too.
pub fn group_by_category(classifications: &Vec<Classification>) -> (r: CategoryGroups)
    ensures
        r.completed@ == appids_in(classifications@, Category::Completed),
        r.in_progress@ == appids_in(classifications@, Category::InProgress),
        r.endless@ == appids_in(classifications@, Category::Endless),
        r.not_a_game@ == appids_in(classifications@, Category::NotAGame),
{
    let mut r = CategoryGroups {
        completed: Vec::new(),
        in_progress: Vec::new(),
        endless: Vec::new(),
        not_a_game: Vec::new(),
    };
    let n = classifications.len();
    for i in 0..n
        invariant
            n == classifications@.len(),
            r.completed@ == appids_in(classifications@.take(i as int), Category::Completed),
            r.in_progress@ == appids_in(classifications@.take(i as int), Category::InProgress),
            r.endless@ == appids_in(classifications@.take(i as int), Category::Endless),
            r.not_a_game@ == appids_in(classifications@.take(i as int), Category::NotAGame),
    {
        assert(classifications@.take(i + 1).drop_last() =~= classifications@.take(i as int));
        let c = &classifications[i];
        match c.category {
            Category::Completed => r.completed.push(c.appid),
            Category::InProgress => r.in_progress.push(c.appid),
            Category::Endless => r.endless.push(c.appid),
            Category::NotAGame => r.not_a_game.push(c.appid),
        }
    }
    assert(classifications@.take(n as int) =~= classifications@);
    r
}

/// The message given when collections cannot be written because Steam is
/// running.
pub open spec fn steam_running_message() -> Seq<char> {
    "Steam is currently running. Please close Steam before writing collections."@
}

/// Collections may only be written while Steam is closed.
pub fn require_steam_closed(steam_running: bool) -> (r: Result<(), String>)
    ensures
        r is Ok <==> !steam_running,
        r matches Err(e) ==> e@ == steam_running_message(),
{
    if steam_running {
        Err(String::from_str("Steam is currently running. Please close Steam before writing collections."))
    } else {
        Ok(())
    }
}

/// A collection holds as many games as its category counts.
pub proof fn lemma_group_size(s: Seq<Classification>, cat: Category)
    ensures
        appids_in(s, cat).len() == count_category(s, cat),
    decreases s.len(),
{
    if s.len() > 0 {
        lemma_group_size(s.drop_last(), cat);
    }
}

/// Grouping is a partition: the four collections together hold exactly as
/// many entries as there are classifications.
pub proof fn lemma_groups_partition(s: Seq<Classification>)
    ensures
        appids_in(s, Category::Completed).len() + appids_in(s, Category::InProgress).len()
            + appids_in(s, Category::Endless).len() + appids_in(s, Category::NotAGame).len()
            == s.len(),
{
    lemma_group_size(s, Category::Completed);
    lemma_group_size(s, Category::InProgress);
    lemma_group_size(s, Category::Endless);
    lemma_group_size(s, Category::NotAGame);
    crate::summary::lemma_counts_add_up(s);
}

/// Every classified game lands in the collection of its own category.
pub proof fn lemma_game_in_its_group(s: Seq<Classification>, i: int)
    requires
        0 <= i < s.len(),
    ensures
        appids_in(s, s[i].category).contains(s[i].appid),
    decreases s.len(),
{
    if i == s.len() - 1 {
        assert(appids_in(s, s[i].category).last() == s[i].appid);
    } else {
        lemma_game_in_its_group(s.drop_last(), i);
        let prev = appids_in(s.drop_last(), s[i].category);
        let k = choose|k: int| 0 <= k < prev.len() && prev[k] == s[i].appid;
        if s.last().category == s[i].category {
            assert(appids_in(s, s[i].category)[k] == s[i].appid);
        }
    }
}

/// A collection holds only games classified under its category.
pub proof fn lemma_group_only_its_category(s: Seq<Classification>, cat: Category, appid: u64)
    requires
        appids_in(s, cat).contains(appid),
    ensures
        exists|i: int| 0 <= i < s.len() && s[i].appid == appid && s[i].category == cat,
    decreases s.len(),
{
    if s.len() > 0 {
        let prev = appids_in(s.drop_last(), cat);
        if s.last().category == cat && s.last().appid == appid {
            assert(s[s.len() - 1].appid == appid);
        } else {
            let k = choose|k: int| 0 <= k < appids_in(s, cat).len() && appids_in(s, cat)[k] == appid;
            if s.last().category == cat {
                assert(k < prev.len());
                assert(prev[k] == appid);
            }
            assert(prev.contains(appid));
            lemma_group_only_its_category(s.drop_last(), cat, appid);
            let i = choose|i: int| 0 <= i < s.drop_last().len() && s.drop_last()[i].appid == appid && s.drop_last()[i].category == cat;
            assert(s[i] == s.drop_last()[i]);
        }
    }
}

/// A collection is exactly the app ids of the classifications in its
/// category, in the library's order.
pub proof fn lemma_group_is_category_ids(s: Seq<Classification>, cat: Category)
    ensures
        appids_in(s, cat) == of_category(s, cat).map_values(|c: Classification| c.appid),
    decreases s.len(),
{
    reveal(Seq::filter);
    if s.len() > 0 {
        lemma_group_is_category_ids(s.drop_last(), cat);
        let prev = of_category(s.drop_last(), cat);
        if s.last().category == cat {
            assert(prev.push(s.last()).map_values(|c: Classification| c.appid) =~= prev.map_values(
                |c: Classification| c.appid,
            ).push(s.last().appid));
        }
    } else {
        assert(appids_in(s, cat) =~= of_category(s, cat).map_values(|c: Classification| c.appid));
    }
}

} // verus!
