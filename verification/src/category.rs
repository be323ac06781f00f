use vstd::prelude::*;

verus! {

/// The four collections a game can be sorted into.
#[derive(Clone, Copy, Debug, PartialEq, Eq, Structural)]
pub enum Category {
    Completed,
    InProgress,
    Endless,
    NotAGame,
}

/// The name under which a category is stored and shown.
pub open spec fn category_key(c: Category) -> Seq<char> {
    match c {
        Category::Completed => "COMPLETED"@,
        Category::InProgress => "IN_PROGRESS"@,
        Category::Endless => "ENDLESS"@,
        Category::NotAGame => "NOT_A_GAME"@,
    }
}

impl Category {
    /// The stored name of this category (`COMPLETED`, `IN_PROGRESS`,
    /// `ENDLESS` or `NOT_A_GAME`).
    pub fn key(&self) -> (r: String)
        ensures
            r@ == category_key(*self),
    {
        match self {
            Category::Completed => String::from_str("COMPLETED"),
            Category::InProgress => String::from_str("IN_PROGRESS"),
            Category::Endless => String::from_str("ENDLESS"),
            Category::NotAGame => String::from_str("NOT_A_GAME"),
        }
    }
}

/// Distinct categories are stored under distinct names, so the four
/// collections never share a name.
pub proof fn lemma_category_keys_distinct(a: Category, b: Category)
    requires
        a != b,
    ensures
        category_key(a) != category_key(b),
{
    reveal_strlit("COMPLETED");
    reveal_strlit("IN_PROGRESS");
    reveal_strlit("ENDLESS");
    reveal_strlit("NOT_A_GAME");
    assert(category_key(a).len() != category_key(b).len() || category_key(a)[0] != category_key(
        b,
    )[0]);
}


/// The verdict on one game of the library.
pub struct Classification {
    pub appid: u64,
    pub name: String,
    pub category: Category,
    pub reason: String,
}

impl Classification {
    /// An equal copy.
    pub fn duplicate(&self) -> (r: Classification)
        ensures
            r == *self,
    {
        Classification {
            appid: self.appid,
            name: self.name.clone(),
            category: self.category,
            reason: self.reason.clone(),
        }
    }
}

/// How many classifications of `s` fall in category `cat`.
pub open spec fn count_category(s: Seq<Classification>, cat: Category) -> nat
    decreases s.len(),
{
    if s.len() == 0 {
        0
    } else {
        count_category(s.drop_last(), cat) + if s.last().category == cat {
            1nat
        } else {
            0nat
        }
    }
}

/// The classifications of `s` in category `cat`, in order.
pub open spec fn of_category(s: Seq<Classification>, cat: Category) -> Seq<Classification> {
    s.filter(|c: Classification| c.category == cat)
}

/// A category's count is the number of classifications in it.
pub proof fn lemma_count_is_filter_len(s: Seq<Classification>, cat: Category)
    ensures
        count_category(s, cat) == of_category(s, cat).len(),
    decreases s.len(),
{
    reveal(Seq::filter);
    if s.len() > 0 {
        lemma_count_is_filter_len(s.drop_last(), cat);
    }
}

} // verus!
