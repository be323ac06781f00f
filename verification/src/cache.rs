use vstd::prelude::*;
use crate::category::Classification;

verus! {

broadcast use vstd::std_specs::hash::group_hash_axioms;

/// How long a cached copy of the library stays usable: one day, in seconds.
pub const LIBRARY_CACHE_MAX_AGE_SECS: u64 = 86400;

/// Whether two strings hold the same characters.
fn same_text(a: &str, b: &str) -> (r: bool)
    ensures
        r == (a@ == b@),
{
    a.to_owned() == b.to_owned()
}

/// Decides whether a cached library may be used: only when it was cached
/// for the same Steam account and has not outlived its age limit
/// (`stale`). The games come back unchanged.
pub fn cached_library<G>(cache_steam_id: &str, steam_id: &str, stale: bool, games: Vec<G>) -> (r:
    Option<Vec<G>>)
    ensures
        r is Some <==> (cache_steam_id@ == steam_id@ && !stale),
        r matches Some(g) ==> g@ == games@,
{
    if !same_text(cache_steam_id, steam_id) {
        return None;
    }
    if stale {
        return None;
    }
    Some(games)
}

/// The message given when a sync was cancelled.
pub open spec fn cancelled_message() -> Seq<char> {
    "Sync cancelled"@
}

/// A sync goes on only while it has not been cancelled.
pub fn require_not_cancelled(cancelled: bool) -> (r: Result<(), String>)
    ensures
        r is Ok <==> !cancelled,
        r matches Err(e) ==> e@ == cancelled_message(),
{
    if cancelled {
        Err(String::from_str("Sync cancelled"))
    } else {
        Ok(())
    }
}

/// The saved classifications keyed by app id; where an app id occurs more
/// than once, the later entry wins.
pub open spec fn index_by_appid(s: Seq<Classification>) -> Map<u64, Classification>
    decreases s.len(),
{
    if s.len() == 0 {
        Map::empty()
    } else {
        index_by_appid(s.drop_last()).insert(s.last().appid, s.last())
    }
}

/// Keys a list of saved classifications by app id, the later of two
/// entries for one game winning.
pub fn classifications_by_appid(list: Vec<Classification>) -> (r: std::collections::HashMap<
    u64,
    Classification,
>)
    ensures
        r@ == index_by_appid(list@),
{
    let mut m: std::collections::HashMap<u64, Classification> = std::collections::HashMap::new();
    let n = list.len();
    let mut i: usize = 0;
    while i < n
        invariant
            n == list@.len(),
            i <= n,
            m@ == index_by_appid(list@.take(i as int)),
        decreases n - i,
    {
        assert(list@.take(i + 1).drop_last() =~= list@.take(i as int));
        let c = list[i].duplicate();
        m.insert(c.appid, c);
        i = i + 1;
    }
    assert(list@.take(n as int) =~= list@);
    m
}

/// The keys of the index are exactly the app ids that occur in the list.
pub proof fn lemma_index_keys(s: Seq<Classification>, appid: u64)
    ensures
        index_by_appid(s).contains_key(appid) <==> exists|i: int|
            0 <= i < s.len() && s[i].appid == appid,
    decreases s.len(),
{
    if s.len() > 0 {
        lemma_index_keys(s.drop_last(), appid);
        if exists|i: int| 0 <= i < s.len() && s[i].appid == appid {
            let i = choose|i: int| 0 <= i < s.len() && s[i].appid == appid;
            if i < s.len() - 1 {
                assert(s.drop_last()[i].appid == appid);
            }
        }
        if exists|i: int| 0 <= i < s.drop_last().len() && s.drop_last()[i].appid == appid {
            let i = choose|i: int| 0 <= i < s.drop_last().len() && s.drop_last()[i].appid == appid;
            assert(s[i].appid == appid);
        }
    }
}

/// The index maps an app id to the last entry of the list with that id.
pub proof fn lemma_index_last_wins(s: Seq<Classification>, i: int)
    requires
        0 <= i < s.len(),
        forall|j: int| i < j < s.len() ==> s[j].appid != s[i].appid,
    ensures
        index_by_appid(s).contains_key(s[i].appid),
        index_by_appid(s)[s[i].appid] == s[i],
    decreases s.len(),
{
    if i < s.len() - 1 {
        assert forall|j: int| i < j < s.drop_last().len() implies s.drop_last()[j].appid
            != s.drop_last()[i].appid by {
            assert(s.drop_last()[j] == s[j]);
        }
        lemma_index_last_wins(s.drop_last(), i);
        assert(s.last().appid != s[i].appid);
    }
}

} // verus!
