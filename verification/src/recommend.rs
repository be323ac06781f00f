use vstd::prelude::*;
use vstd::utf8::encode_utf8;
use crate::category::{Category, Classification, category_key};
use crate::json::{json_parses, json_string_member, parses_as_json, string_member};
use crate::text::{
    first_chars,
    joined,
    views,
    is_prefix_of,
    lowercase,
    starts_with,
    tag_list_text,
    tag_list_text_spec,
    to_lower,
};

verus! {

/// A game suggested to play next, with why.
pub struct GameRecommendation {
    pub appid: u64,
    pub title: String,
    pub reason: String,
}

/// What a recommendation says, as plain values.
pub struct PickView {
    pub appid: u64,
    pub title: Seq<char>,
    pub reason: Seq<char>,
}

impl View for GameRecommendation {
    type V = PickView;

    open spec fn view(&self) -> PickView {
        PickView { appid: self.appid, title: self.title@, reason: self.reason@ }
    }
}

/// The views of a list of recommendations.
pub open spec fn pick_views(s: Seq<GameRecommendation>) -> Seq<PickView> {
    s.map_values(|p: GameRecommendation| p@)
}

/// The first index at or after `start` whose element satisfies `pred`.
pub open spec fn first_index<T>(s: Seq<T>, pred: spec_fn(T) -> bool, start: int) -> Option<int>
    decreases s.len() - start,
{
    if start < 0 || start >= s.len() {
        None
    } else if pred(s[start]) {
        Some(start)
    } else {
        first_index(s, pred, start + 1)
    }
}

/// An index found by a search, as an integer.
pub open spec fn as_index(r: Option<usize>) -> Option<int> {
    match r {
        Some(i) => Some(i as int),
        None => None,
    }
}

/// The game has the given app id.
pub open spec fn has_appid(appid: u64) -> spec_fn(Classification) -> bool {
    |c: Classification| c.appid == appid
}

/// The name is `lower`.
pub open spec fn is_name(lower: Seq<char>) -> spec_fn(Seq<char>) -> bool {
    |n: Seq<char>| n == lower
}

/// The name and `lower` are one a prefix of the other.
pub open spec fn prefix_related(lower: Seq<char>) -> spec_fn(Seq<char>) -> bool {
    |n: Seq<char>| is_prefix_of(lower, n) || is_prefix_of(n, lower)
}

/// The names of the games, lowercased.
pub open spec fn lowered_names(cls: Seq<Classification>) -> Seq<Seq<char>> {
    cls.map_values(|c: Classification| lowercase(c.name@))
}

/// A search result lies in range and satisfies the predicate.
pub proof fn lemma_first_index_found<T>(s: Seq<T>, pred: spec_fn(T) -> bool, start: int)
    ensures
        first_index(s, pred, start) matches Some(i) ==> start <= i < s.len() && pred(s[i]),
    decreases s.len() - start,
{
    if 0 <= start < s.len() && !pred(s[start]) {
        lemma_first_index_found(s, pred, start + 1);
    }
}

fn find_by_appid(cls: &Vec<Classification>, appid: u64) -> (r: Option<usize>)
    ensures
        as_index(r) == first_index(cls@, has_appid(appid), 0),
        r matches Some(i) ==> i < cls@.len(),
{
    let mut i: usize = 0;
    while i < cls.len()
        invariant
            i <= cls@.len(),
            first_index(cls@, has_appid(appid), 0) == first_index(cls@, has_appid(appid), i as int),
        decreases cls@.len() - i,
    {
        if cls[i].appid == appid {
            return Some(i);
        }
        i = i + 1;
    }
    None
}

fn find_name(names_lower: &Vec<String>, lower: &String) -> (r: Option<usize>)
    ensures
        as_index(r) == first_index(views(names_lower@), is_name(lower@), 0),
        r matches Some(i) ==> i < names_lower@.len(),
{
    let ghost names = views(names_lower@);
    let mut i: usize = 0;
    while i < names_lower.len()
        invariant
            i <= names_lower@.len(),
            names == views(names_lower@),
            first_index(names, is_name(lower@), 0) == first_index(names, is_name(lower@), i as int),
        decreases names_lower@.len() - i,
    {
        if names_lower[i] == *lower {
            return Some(i);
        }
        i = i + 1;
    }
    None
}

fn find_prefix_related(names_lower: &Vec<String>, lower: &String) -> (r: Option<usize>)
    ensures
        as_index(r) == first_index(views(names_lower@), prefix_related(lower@), 0),
        r matches Some(i) ==> i < names_lower@.len(),
{
    let ghost names = views(names_lower@);
    let mut i: usize = 0;
    while i < names_lower.len()
        invariant
            i <= names_lower@.len(),
            names == views(names_lower@),
            first_index(names, prefix_related(lower@), 0) == first_index(
                names,
                prefix_related(lower@),
                i as int,
            ),
        decreases names_lower@.len() - i,
    {
        let name = names_lower[i].as_str();
        if starts_with(name, lower.as_str()) || starts_with(lower.as_str(), name) {
            return Some(i);
        }
        i = i + 1;
    }
    None
}

/// The names of the games, lowercased.
pub fn lowercase_names(cls: &Vec<Classification>) -> (r: Vec<String>)
    ensures
        views(r@) == lowered_names(cls@),
{
    let mut out: Vec<String> = Vec::new();
    let n = cls.len();
    for i in 0..n
        invariant
            n == cls@.len(),
            views(out@) == lowered_names(cls@).take(i as int),
    {
        let ghost before = out@;
        out.push(to_lower(cls[i].name.as_str()));
        assert(views(out@) =~= views(before).push(lowercase(cls@[i as int].name@)));
        assert(views(out@) =~= lowered_names(cls@).take(i + 1));
    }
    assert(lowered_names(cls@).take(n as int) =~= lowered_names(cls@));
    out
}

/// The length of `s` in UTF-8 bytes, as `str::len` reports it.
pub open spec fn utf8_byte_len(s: Seq<char>) -> usize {
    encode_utf8(s).len() as usize
}

/// A suggestion rewritten to name the library's own game `c`, keeping its
/// reason.
pub open spec fn canonical_pick(c: Classification, reason: Seq<char>) -> PickView {
    PickView { appid: c.appid, title: c.name@, reason }
}

/// How a suggestion is matched to the library, given its title lowercased
/// (`lower`) and the games' names lowercased (`names`): by app id first;
/// else by a name equal to `lower`; else, where `lower` is at least 8 bytes
/// long, by a name of which `lower` is a prefix or which is a prefix of
/// `lower`. The first game that matches wins, and the suggestion is
/// rewritten to its app id and title; a suggestion that matches none is
/// dropped.
pub open spec fn resolve_with(
    p: PickView,
    lower: Seq<char>,
    cls: Seq<Classification>,
    names: Seq<Seq<char>>,
) -> Option<PickView> {
    match first_index(cls, has_appid(p.appid), 0) {
        Some(i) => Some(canonical_pick(cls[i], p.reason)),
        None => match first_index(names, is_name(lower), 0) {
            Some(i) => Some(canonical_pick(cls[i], p.reason)),
            None => if utf8_byte_len(lower) >= 8 {
                match first_index(names, prefix_related(lower), 0) {
                    Some(i) => Some(canonical_pick(cls[i], p.reason)),
                    None => None,
                }
            } else {
                None
            },
        },
    }
}

/// How a suggested game is matched to the library, titles and names
/// compared lowercased (see `resolve_with`).
pub open spec fn resolve_pick_spec(p: PickView, cls: Seq<Classification>) -> Option<PickView> {
    resolve_with(p, lowercase(p.title), cls, lowered_names(cls))
}

/// The view of an optional recommendation.
pub open spec fn opt_pick_view(r: Option<GameRecommendation>) -> Option<PickView> {
    match r {
        Some(p) => Some(p@),
        None => None,
    }
}

/// Matches one suggestion to the library, given its title lowercased and
/// the games' names lowercased, in the order of the games.
pub fn resolve_pick_lowered(
    pick: &GameRecommendation,
    title_lower: &String,
    cls: &Vec<Classification>,
    names_lower: &Vec<String>,
) -> (r: Option<GameRecommendation>)
    requires
        names_lower@.len() == cls@.len(),
    ensures
        opt_pick_view(r) == resolve_with(pick@, title_lower@, cls@, views(names_lower@)),
{
    let found = match find_by_appid(cls, pick.appid) {
        Some(i) => Some(i),
        None => match find_name(names_lower, title_lower) {
            Some(i) => Some(i),
            None => if title_lower.as_str().len() >= 8 {
                find_prefix_related(names_lower, title_lower)
            } else {
                None
            },
        },
    };
    match found {
        Some(i) => Some(
            GameRecommendation {
                appid: cls[i].appid,
                title: cls[i].name.clone(),
                reason: pick.reason.clone(),
            },
        ),
        None => None,
    }
}

/// The suggestions that can be matched to the library, each rewritten to
/// the matched game, in their order.
pub open spec fn resolve_all(picks: Seq<PickView>, cls: Seq<Classification>) -> Seq<PickView>
    decreases picks.len(),
{
    if picks.len() == 0 {
        Seq::empty()
    } else {
        match resolve_pick_spec(picks.last(), cls) {
            Some(p) => resolve_all(picks.drop_last(), cls).push(p),
            None => resolve_all(picks.drop_last(), cls),
        }
    }
}

/// Keeps the suggestions that name games of the library, under the
/// library's own app id and title.
pub fn validate_picks(raw_picks: &Vec<GameRecommendation>, cls: &Vec<Classification>) -> (r: Vec<
    GameRecommendation,
>)
    ensures
        pick_views(r@) == resolve_all(pick_views(raw_picks@), cls@),
{
    let names_lower = lowercase_names(cls);
    let mut out: Vec<GameRecommendation> = Vec::new();
    let n = raw_picks.len();
    for i in 0..n
        invariant
            n == raw_picks@.len(),
            views(names_lower@) == lowered_names(cls@),
            pick_views(out@) == resolve_all(pick_views(raw_picks@).take(i as int), cls@),
    {
        assert(pick_views(raw_picks@).take(i + 1).drop_last() =~= pick_views(raw_picks@).take(
            i as int,
        ));
        let ghost before = out@;
        let title_lower = to_lower(raw_picks[i].title.as_str());
        match resolve_pick_lowered(&raw_picks[i], &title_lower, cls, &names_lower) {
            Some(p) => {
                out.push(p);
                assert(pick_views(out@) =~= pick_views(before).push(out@.last()@));
            },
            None => {},
        }
    }
    assert(pick_views(raw_picks@).take(n as int) =~= pick_views(raw_picks@));
    out
}

/// A classification is a candidate to play next when its game is in
/// progress or endless.
pub open spec fn is_candidate(c: Classification) -> bool {
    c.category == Category::InProgress || c.category == Category::Endless
}

/// The candidates among `s`, in order.
pub open spec fn candidates_of(s: Seq<Classification>) -> Seq<Classification>
    decreases s.len(),
{
    if s.len() == 0 {
        Seq::empty()
    } else if is_candidate(s.last()) {
        candidates_of(s.drop_last()).push(s.last())
    } else {
        candidates_of(s.drop_last())
    }
}

/// The games that may be recommended: those in progress or endless, in the
/// order of the library.
pub fn recommendation_candidates(cls: &Vec<Classification>) -> (r: Vec<Classification>)
    ensures
        r@ == candidates_of(cls@),
{
    let mut out: Vec<Classification> = Vec::new();
    let n = cls.len();
    for i in 0..n
        invariant
            n == cls@.len(),
            out@ == candidates_of(cls@.take(i as int)),
    {
        assert(cls@.take(i + 1).drop_last() =~= cls@.take(i as int));
        let c = &cls[i];
        if c.category == Category::InProgress || c.category == Category::Endless {
            out.push(c.duplicate());
        }
    }
    assert(cls@.take(n as int) =~= cls@);
    out
}

/// At most this many candidates are described to the assistant.
pub const MAX_PROFILED_CANDIDATES: usize = 40;

/// At most this many games are suggested without the assistant.
pub const FALLBACK_PICK_COUNT: usize = 3;

/// The first `n` elements of `s`, or all of them.
pub open spec fn first_n<T>(s: Seq<T>, n: int) -> Seq<T> {
    if s.len() < n {
        s
    } else {
        s.take(n)
    }
}

/// What the store says of a game: its genres and its store categories.
pub struct StoreTags {
    pub appid: u64,
    pub genres: Vec<String>,
    pub categories: Vec<String>,
}

/// The store record is of the given app id.
pub open spec fn store_of(appid: u64) -> spec_fn(StoreTags) -> bool {
    |t: StoreTags| t.appid == appid
}

/// The store's record of a game: the first with its app id.
pub open spec fn store_record(stores: Seq<StoreTags>, appid: u64) -> Option<StoreTags> {
    match first_index(stores, store_of(appid), 0) {
        Some(i) => Some(stores[i]),
        None => None,
    }
}

/// The genres of a store record, where there is one.
pub open spec fn record_genres(t: Option<StoreTags>) -> Option<Seq<String>> {
    match t {
        Some(r) => Some(r.genres@),
        None => None,
    }
}

/// The store categories of a store record, where there is one.
pub open spec fn record_categories(t: Option<StoreTags>) -> Option<Seq<String>> {
    match t {
        Some(r) => Some(r.categories@),
        None => None,
    }
}

/// Finds the store's record of a game.
pub(crate) fn find_store(stores: &Vec<StoreTags>, appid: u64) -> (r: Option<usize>)
    ensures
        as_index(r) == first_index(stores@, store_of(appid), 0),
        r matches Some(i) ==> i < stores@.len(),
{
    let mut i: usize = 0;
    while i < stores.len()
        invariant
            i <= stores@.len(),
            first_index(stores@, store_of(appid), 0) == first_index(stores@, store_of(appid), i as int),
        decreases stores@.len() - i,
    {
        if stores[i].appid == appid {
            return Some(i);
        }
        i = i + 1;
    }
    None
}

/// The store's genres and categories of a game as texts: joined by `", "`,
/// or `absent` where the store has no record of it.
pub(crate) fn store_texts(stores: &Vec<StoreTags>, appid: u64, absent: &str) -> (r: (String, String))
    ensures
        r.0@ == tag_list_text_spec(record_genres(store_record(stores@, appid)), absent@),
        r.1@ == tag_list_text_spec(record_categories(store_record(stores@, appid)), absent@),
{
    match find_store(stores, appid) {
        Some(i) => (
            tag_list_text(Some(&stores[i].genres), absent),
            tag_list_text(Some(&stores[i].categories), absent),
        ),
        None => (tag_list_text(None, absent), tag_list_text(None, absent)),
    }
}

/// What the assistant is told of one candidate, playtime aside.
pub struct CandidateProfile {
    pub appid: u64,
    pub title: String,
    pub category: String,
    pub genres: String,
    pub store_tags: String,
}

/// A candidate's description as plain values.
pub struct ProfileView {
    pub appid: u64,
    pub title: Seq<char>,
    pub category: Seq<char>,
    pub genres: Seq<char>,
    pub store_tags: Seq<char>,
}

impl View for CandidateProfile {
    type V = ProfileView;

    open spec fn view(&self) -> ProfileView {
        ProfileView {
            appid: self.appid,
            title: self.title@,
            category: self.category@,
            genres: self.genres@,
            store_tags: self.store_tags@,
        }
    }
}

/// How a candidate is described: its id, title and category name, and its
/// store genres and categories joined by `", "` (empty where the store has
/// no record of the game).
pub open spec fn profile_of(c: Classification, stores: Seq<StoreTags>) -> ProfileView {
    ProfileView {
        appid: c.appid,
        title: c.name@,
        category: category_key(c.category),
        genres: tag_list_text_spec(record_genres(store_record(stores, c.appid)), Seq::empty()),
        store_tags: tag_list_text_spec(
            record_categories(store_record(stores, c.appid)),
            Seq::empty(),
        ),
    }
}

/// What the assistant is told: the first 40 candidates, described.
pub open spec fn profiles_of(candidates: Seq<Classification>, stores: Seq<StoreTags>) -> Seq<
    ProfileView,
> {
    first_n(candidates, MAX_PROFILED_CANDIDATES as int).map_values(
        |c: Classification| profile_of(c, stores),
    )
}

/// The views of a list of descriptions.
pub open spec fn profile_views(s: Seq<CandidateProfile>) -> Seq<ProfileView> {
    s.map_values(|p: CandidateProfile| p@)
}

/// Describes a candidate (see `profile_of`).
pub fn candidate_profile(c: &Classification, stores: &Vec<StoreTags>) -> (r: CandidateProfile)
    ensures
        r@ == profile_of(*c, stores@),
{
    proof {
        reveal_strlit("");
        assert(""@ =~= Seq::<char>::empty());
    }
    let (genres, store_tags) = store_texts(stores, c.appid, "");
    CandidateProfile { appid: c.appid, title: c.name.clone(), category: c.category.key(), genres, store_tags }
}

/// Describes the first 40 candidates, in order.
pub fn candidate_profiles(candidates: &Vec<Classification>, stores: &Vec<StoreTags>) -> (r: Vec<
    CandidateProfile,
>)
    ensures
        profile_views(r@) == profiles_of(candidates@, stores@),
{
    let ghost goal = profiles_of(candidates@, stores@);
    let mut out: Vec<CandidateProfile> = Vec::new();
    let mut i: usize = 0;
    while i < candidates.len() && i < MAX_PROFILED_CANDIDATES
        invariant
            i <= candidates@.len(),
            i <= MAX_PROFILED_CANDIDATES,
            goal == profiles_of(candidates@, stores@),
            profile_views(out@) == goal.take(i as int),
        decreases candidates@.len() - i,
    {
        let p = candidate_profile(&candidates[i], stores);
        assert(first_n(candidates@, MAX_PROFILED_CANDIDATES as int)[i as int] == candidates@[i as int]);
        assert(goal[i as int] == p@);
        let ghost before = out@;
        out.push(p);
        assert(profile_views(out@) =~= profile_views(before).push(p@));
        assert(profile_views(out@) =~= goal.take(i + 1));
        i = i + 1;
    }
    assert(profile_views(out@) =~= goal);
    out
}

/// What the library knows of a game's playtime: whether it has been played
/// at all, and the hours played written with one decimal.
pub struct GamePlaytime {
    pub appid: u64,
    pub played: bool,
    pub hours: String,
}

/// The playtime record has the given app id.
pub open spec fn playtime_of(appid: u64) -> spec_fn(GamePlaytime) -> bool {
    |g: GamePlaytime| g.appid == appid
}

/// The reason given for a game never played.
pub open spec fn unplayed_reason() -> Seq<char> {
    "Unplayed — waiting in your backlog"@
}

/// The reason given for a game played `hours` hours.
pub open spec fn started_reason(hours: Seq<char>) -> Seq<char> {
    "Started but only "@ + hours + "h played — might be worth revisiting"@
}

/// Why a game is suggested without the assistant: by the first playtime
/// record of the game; a game with no record counts as never played.
pub open spec fn fallback_reason(games: Seq<GamePlaytime>, appid: u64) -> Seq<char> {
    match first_index(games, playtime_of(appid), 0) {
        Some(i) => if games[i].played {
            started_reason(games[i].hours@)
        } else {
            unplayed_reason()
        },
        None => unplayed_reason(),
    }
}

/// A suggestion without the assistant for candidate `c`.
pub open spec fn fallback_pick(c: Classification, games: Seq<GamePlaytime>) -> PickView {
    PickView { appid: c.appid, title: c.name@, reason: fallback_reason(games, c.appid) }
}

/// The suggestions without the assistant: the first three candidates.
pub open spec fn fallback_picks(candidates: Seq<Classification>, games: Seq<GamePlaytime>) -> Seq<
    PickView,
> {
    first_n(candidates, FALLBACK_PICK_COUNT as int).map_values(
        |c: Classification| fallback_pick(c, games),
    )
}

fn find_playtime(games: &Vec<GamePlaytime>, appid: u64) -> (r: Option<usize>)
    ensures
        as_index(r) == first_index(games@, playtime_of(appid), 0),
        r matches Some(i) ==> i < games@.len(),
{
    let mut i: usize = 0;
    while i < games.len()
        invariant
            i <= games@.len(),
            first_index(games@, playtime_of(appid), 0) == first_index(
                games@,
                playtime_of(appid),
                i as int,
            ),
        decreases games@.len() - i,
    {
        if games[i].appid == appid {
            return Some(i);
        }
        i = i + 1;
    }
    None
}

/// The reason a game is suggested without the assistant.
fn reason_for(games: &Vec<GamePlaytime>, appid: u64) -> (r: String)
    ensures
        r@ == fallback_reason(games@, appid),
{
    match find_playtime(games, appid) {
        Some(i) => if games[i].played {
            String::from_str("Started but only ").concat(games[i].hours.as_str()).concat(
                "h played — might be worth revisiting",
            )
        } else {
            String::from_str("Unplayed — waiting in your backlog")
        },
        None => String::from_str("Unplayed — waiting in your backlog"),
    }
}

/// The reply to a request for recommendations.
pub struct RecommendResponse {
    pub picks: Vec<GameRecommendation>,
    pub used_llm: bool,
    pub message: String,
}

/// A reply as plain values.
pub struct ResponseView {
    pub picks: Seq<PickView>,
    pub used_llm: bool,
    pub message: Seq<char>,
}

impl View for RecommendResponse {
    type V = ResponseView;

    open spec fn view(&self) -> ResponseView {
        ResponseView { picks: pick_views(self.picks@), used_llm: self.used_llm, message: self.message@ }
    }
}

/// The message that heads suggestions made without the assistant.
pub open spec fn fallback_message() -> Seq<char> {
    "Here are some suggestions from your backlog:"@
}

/// The reply without the assistant.
pub open spec fn fallback_reply_spec(candidates: Seq<Classification>, games: Seq<GamePlaytime>) -> ResponseView {
    ResponseView { picks: fallback_picks(candidates, games), used_llm: false, message: fallback_message() }
}

/// Suggests the first three candidates, each with a reason from its
/// playtime.
pub fn fallback_reply(candidates: &Vec<Classification>, games: &Vec<GamePlaytime>) -> (r:
    RecommendResponse)
    ensures
        r@ == fallback_reply_spec(candidates@, games@),
{
    let mut picks: Vec<GameRecommendation> = Vec::new();
    let mut i: usize = 0;
    let ghost goal = fallback_picks(candidates@, games@);
    while i < candidates.len() && i < FALLBACK_PICK_COUNT
        invariant
            i <= candidates@.len(),
            i <= FALLBACK_PICK_COUNT,
            goal == fallback_picks(candidates@, games@),
            pick_views(picks@) == goal.take(i as int),
        decreases candidates@.len() - i,
    {
        let c = &candidates[i];
        let p = GameRecommendation { appid: c.appid, title: c.name.clone(), reason: reason_for(games, c.appid) };
        assert(first_n(candidates@, FALLBACK_PICK_COUNT as int)[i as int] == candidates@[i as int]);
        assert(goal[i as int] == p@);
        let ghost before = picks@;
        picks.push(p);
        assert(pick_views(picks@) =~= pick_views(before).push(p@));
        assert(pick_views(picks@) =~= goal.take(i + 1));
        i = i + 1;
    }
    assert(pick_views(picks@) =~= goal);
    RecommendResponse {
        picks,
        used_llm: false,
        message: String::from_str("Here are some suggestions from your backlog:"),
    }
}

/// The message given when nothing is in progress or endless.
pub open spec fn no_backlog_message() -> Seq<char> {
    "You don't have any games in your backlog or endless categories yet."@
}

/// The reply when there is nothing to recommend.
pub fn no_backlog_reply() -> (r: RecommendResponse)
    ensures
        r@ == (ResponseView { picks: Seq::empty(), used_llm: false, message: no_backlog_message() }),
{
    let r = RecommendResponse {
        picks: Vec::new(),
        used_llm: false,
        message: String::from_str("You don't have any games in your backlog or endless categories yet."),
    };
    assert(pick_views(r.picks@) =~= Seq::empty());
    r
}

/// The reply built from the assistant's answer: its message (empty where
/// it gave none) and the suggestions that match the library.
pub open spec fn assistant_reply_spec(
    message: Option<Seq<char>>,
    raw_picks: Seq<PickView>,
    cls: Seq<Classification>,
) -> ResponseView {
    ResponseView {
        picks: resolve_all(raw_picks, cls),
        used_llm: true,
        message: match message {
            Some(m) => m,
            None => Seq::empty(),
        },
    }
}

/// Builds the reply from the assistant's message and suggestions.
pub fn assistant_reply(
    message: Option<String>,
    raw_picks: &Vec<GameRecommendation>,
    cls: &Vec<Classification>,
) -> (r: RecommendResponse)
    ensures
        r@ == assistant_reply_spec(
            match message {
                Some(m) => Some(m@),
                None => None,
            },
            pick_views(raw_picks@),
            cls@,
        ),
{
    let picks = validate_picks(raw_picks, cls);
    let message = match message {
        Some(m) => m,
        None => String::new(),
    };
    RecommendResponse { picks, used_llm: true, message }
}

/// At most this many characters of an answer that is not JSON are shown.
pub const SALVAGED_MESSAGE_CHARS: usize = 500;

/// The reply when the assistant's answer is not JSON: its first 500
/// characters as the message.
pub open spec fn salvage_reply_spec(text: Seq<char>) -> ResponseView {
    ResponseView {
        picks: Seq::empty(),
        used_llm: true,
        message: first_n(text, SALVAGED_MESSAGE_CHARS as int),
    }
}

/// Keeps what can be read of an answer that is not JSON.
pub fn salvage_reply(text: &str) -> (r: RecommendResponse)
    ensures
        r@ == salvage_reply_spec(text@),
{
    let message = first_chars(text, SALVAGED_MESSAGE_CHARS);
    let r = RecommendResponse { picks: Vec::new(), used_llm: true, message };
    assert(pick_views(r.picks@) =~= Seq::empty());
    assert(text@.len() < SALVAGED_MESSAGE_CHARS ==> text@.take(text@.len() as int) =~= text@);
    r
}

/// The reply to the assistant's answer `text`: where it is JSON, its
/// `message` member and the suggestions read from it (`raw_picks`,
/// matched to the library); else the salvaged text.
pub open spec fn inference_reply_spec(
    text: Seq<char>,
    raw_picks: Seq<PickView>,
    cls: Seq<Classification>,
) -> ResponseView {
    if json_parses(text) {
        assistant_reply_spec(json_string_member(text, "message"@), raw_picks, cls)
    } else {
        salvage_reply_spec(text)
    }
}

/// Reads the assistant's answer: `raw_picks` are the suggestions that its
/// `picks` member held.
pub fn inference_reply(text: &str, raw_picks: &Vec<GameRecommendation>, cls: &Vec<Classification>) -> (r:
    RecommendResponse)
    ensures
        r@ == inference_reply_spec(text@, pick_views(raw_picks@), cls@),
{
    if parses_as_json(text) {
        let message = string_member(text, "message");
        assistant_reply(message, raw_picks, cls)
    } else {
        salvage_reply(text)
    }
}

/// What happened last in a request for recommendations.
pub enum RecommendEvent {
    /// The request came in.
    Started,
    /// Whether the assistant's model and server are installed.
    SetupChecked { model_ready: bool, server_ready: bool },
    /// The assistant's server was started, or failed to start.
    ServerStarted { failure: Option<String> },
    /// The assistant's server answered, or did not.
    ServerReady { failure: Option<String> },
    /// The assistant answered with a text, and `raw_picks` are the
    /// suggestions read from its `picks` member; or it failed.
    InferenceFinished { outcome: Result<String, String>, raw_picks: Vec<GameRecommendation> },
}

/// What to do next in a request for recommendations.
pub enum RecommendAction {
    CheckSetup,
    StartServer,
    WaitForServer,
    /// Ask the assistant, telling it of these candidates.
    RunInference { profiles: Vec<CandidateProfile> },
    Reply(RecommendResponse),
    Fail(String),
}

/// The next step as plain values.
pub enum RecommendActionView {
    CheckSetup,
    StartServer,
    WaitForServer,
    RunInference(Seq<ProfileView>),
    Reply(ResponseView),
    Fail(Seq<char>),
}

impl View for RecommendAction {
    type V = RecommendActionView;

    open spec fn view(&self) -> RecommendActionView {
        match self {
            RecommendAction::CheckSetup => RecommendActionView::CheckSetup,
            RecommendAction::StartServer => RecommendActionView::StartServer,
            RecommendAction::WaitForServer => RecommendActionView::WaitForServer,
            RecommendAction::RunInference { profiles } => RecommendActionView::RunInference(
                profile_views(profiles@),
            ),
            RecommendAction::Reply(r) => RecommendActionView::Reply(r@),
            RecommendAction::Fail(e) => RecommendActionView::Fail(e@),
        }
    }
}

/// How a request for recommendations goes on after `event`: with no
/// candidates it is answered at once; the assistant is used whenever its
/// model and server are both installed, and is told of the first 40
/// candidates (`stores` holding what the store says of games); otherwise
/// the first three candidates are suggested; a server that does not start
/// or answer, or an assistant that fails, fails the request.
pub open spec fn next_recommend_action(
    cls: Seq<Classification>,
    games: Seq<GamePlaytime>,
    stores: Seq<StoreTags>,
    event: RecommendEvent,
) -> RecommendActionView {
    match event {
        RecommendEvent::Started => if candidates_of(cls).len() == 0 {
            RecommendActionView::Reply(
                ResponseView { picks: Seq::empty(), used_llm: false, message: no_backlog_message() },
            )
        } else {
            RecommendActionView::CheckSetup
        },
        RecommendEvent::SetupChecked { model_ready, server_ready } => if model_ready
            && server_ready {
            RecommendActionView::StartServer
        } else {
            RecommendActionView::Reply(fallback_reply_spec(candidates_of(cls), games))
        },
        RecommendEvent::ServerStarted { failure } => match failure {
            Some(e) => RecommendActionView::Fail("Failed to start AI engine: "@ + e@),
            None => RecommendActionView::WaitForServer,
        },
        RecommendEvent::ServerReady { failure } => match failure {
            Some(e) => RecommendActionView::Fail("AI engine not responding: "@ + e@),
            None => RecommendActionView::RunInference(profiles_of(candidates_of(cls), stores)),
        },
        RecommendEvent::InferenceFinished { outcome, raw_picks } => match outcome {
            Ok(text) => RecommendActionView::Reply(
                inference_reply_spec(text@, pick_views(raw_picks@), cls),
            ),
            Err(e) => RecommendActionView::Fail(e@),
        },
    }
}

/// Decides the next step of a request for recommendations.
pub fn recommend_next(
    cls: &Vec<Classification>,
    games: &Vec<GamePlaytime>,
    stores: &Vec<StoreTags>,
    event: RecommendEvent,
) -> (r: RecommendAction)
    ensures
        r@ == next_recommend_action(cls@, games@, stores@, event),
{
    match event {
        RecommendEvent::Started => {
            let candidates = recommendation_candidates(cls);
            if candidates.len() == 0 {
                RecommendAction::Reply(no_backlog_reply())
            } else {
                RecommendAction::CheckSetup
            }
        },
        RecommendEvent::SetupChecked { model_ready, server_ready } => {
            if model_ready && server_ready {
                RecommendAction::StartServer
            } else {
                let candidates = recommendation_candidates(cls);
                RecommendAction::Reply(fallback_reply(&candidates, games))
            }
        },
        RecommendEvent::ServerStarted { failure } => match failure {
            Some(e) => RecommendAction::Fail(
                String::from_str("Failed to start AI engine: ").concat(e.as_str()),
            ),
            None => RecommendAction::WaitForServer,
        },
        RecommendEvent::ServerReady { failure } => match failure {
            Some(e) => RecommendAction::Fail(
                String::from_str("AI engine not responding: ").concat(e.as_str()),
            ),
            None => {
                let candidates = recommendation_candidates(cls);
                RecommendAction::RunInference { profiles: candidate_profiles(&candidates, stores) }
            },
        },
        RecommendEvent::InferenceFinished { outcome, raw_picks } => match outcome {
            Ok(text) => RecommendAction::Reply(inference_reply(text.as_str(), &raw_picks, cls)),
            Err(e) => RecommendAction::Fail(e),
        },
    }
}

/// A matched suggestion names a game of the library, under its app id and
/// title.
pub proof fn lemma_resolved_pick_is_real(p: PickView, cls: Seq<Classification>)
    ensures
        resolve_pick_spec(p, cls) matches Some(q) ==> exists|i: int|
            0 <= i < cls.len() && cls[i].appid == q.appid && cls[i].name@ == q.title && q.reason
                == p.reason,
{
    let lower = lowercase(p.title);
    lemma_first_index_found(cls, has_appid(p.appid), 0);
    lemma_first_index_found(lowered_names(cls), is_name(lower), 0);
    lemma_first_index_found(lowered_names(cls), prefix_related(lower), 0);
}

/// Validation keeps only suggestions of games of the library, each under
/// the library's app id and title, and never adds any: every validated
/// suggestion names a classified game.
pub proof fn lemma_validated_picks_are_real(raw: Seq<PickView>, cls: Seq<Classification>)
    ensures
        resolve_all(raw, cls).len() <= raw.len(),
        forall|k: int|
            0 <= k < resolve_all(raw, cls).len() ==> exists|i: int|
                0 <= i < cls.len() && cls[i].appid == #[trigger] resolve_all(raw, cls)[k].appid
                    && cls[i].name@ == resolve_all(raw, cls)[k].title,
    decreases raw.len(),
{
    if raw.len() > 0 {
        lemma_validated_picks_are_real(raw.drop_last(), cls);
        lemma_resolved_pick_is_real(raw.last(), cls);
        let prev = resolve_all(raw.drop_last(), cls);
        assert forall|k: int| 0 <= k < resolve_all(raw, cls).len() implies exists|i: int|
            0 <= i < cls.len() && cls[i].appid == #[trigger] resolve_all(raw, cls)[k].appid
                && cls[i].name@ == resolve_all(raw, cls)[k].title by {
            if k < prev.len() {
                assert(resolve_all(raw, cls)[k] == prev[k]);
            }
        }
    }
}

/// A suggestion that carries the app id of a classified game is kept, under
/// that game's title.
pub proof fn lemma_known_appid_kept(p: PickView, cls: Seq<Classification>, i: int)
    requires
        0 <= i < cls.len(),
        cls[i].appid == p.appid,
    ensures
        resolve_pick_spec(p, cls) matches Some(q) && q.appid == p.appid,

{
    lemma_first_index_reaches(cls, has_appid(p.appid), 0, i);
    lemma_first_index_found(cls, has_appid(p.appid), 0);
}

/// A search from `start` finds something whenever some element at or after
/// `start` satisfies the predicate.
pub proof fn lemma_first_index_reaches<T>(s: Seq<T>, pred: spec_fn(T) -> bool, start: int, i: int)
    requires
        0 <= start <= i < s.len(),
        pred(s[i]),
    ensures
        first_index(s, pred, start) is Some,
    decreases i - start,
{
    if !pred(s[start]) {
        lemma_first_index_reaches(s, pred, start + 1, i);
    }
}

/// The candidates are exactly the games in progress or endless, in order of
/// the library: each candidate is one, and each such game is a candidate.
pub proof fn lemma_candidates_exact(s: Seq<Classification>)
    ensures
        forall|k: int| 0 <= k < candidates_of(s).len() ==> is_candidate(#[trigger] candidates_of(s)[k]),
        forall|k: int| 0 <= k < candidates_of(s).len() ==> s.contains(#[trigger] candidates_of(s)[k]),
        forall|i: int| 0 <= i < s.len() && is_candidate(#[trigger] s[i]) ==> candidates_of(s).contains(s[i]),
    decreases s.len(),
{
    if s.len() > 0 {
        let t = s.drop_last();
        lemma_candidates_exact(t);
        let prev = candidates_of(t);
        assert forall|k: int| 0 <= k < candidates_of(s).len() implies is_candidate(#[trigger] candidates_of(s)[k]) && s.contains(candidates_of(s)[k]) by {
            if k < prev.len() {
                assert(candidates_of(s)[k] == prev[k]);
                let j = choose|j: int| 0 <= j < t.len() && t[j] == prev[k];
                assert(s[j] == t[j]);
            } else {
                assert(s[s.len() - 1] == s.last());
            }
        }
        assert forall|i: int| 0 <= i < s.len() && is_candidate(#[trigger] s[i]) implies candidates_of(s).contains(s[i]) by {
            if i < s.len() - 1 {
                assert(t[i] == s[i]);
                let k = choose|k: int| 0 <= k < prev.len() && prev[k] == t[i];
                if is_candidate(s.last()) {
                    assert(candidates_of(s)[k] == prev[k]);
                }
            } else {
                assert(candidates_of(s).last() == s[i]);
            }
        }
    }
}

/// Without the assistant at most three games are suggested, each a
/// candidate, in the candidates' order.
pub proof fn lemma_fallback_picks_are_candidates(candidates: Seq<Classification>, games: Seq<GamePlaytime>)
    ensures
        fallback_picks(candidates, games).len() <= FALLBACK_PICK_COUNT,
        fallback_picks(candidates, games).len() <= candidates.len(),
        fallback_picks(candidates, games).len() == (if candidates.len() < 3 {
            candidates.len()
        } else {
            3
        }),
        forall|k: int|
            0 <= k < fallback_picks(candidates, games).len() ==> #[trigger] fallback_picks(candidates, games)[k].appid
                == candidates[k].appid && fallback_picks(candidates, games)[k].title == candidates[k].name@,
{
}

/// The text kept of an answer that is not JSON is its beginning, at most
/// 500 characters long.
pub proof fn lemma_salvage_is_prefix(text: Seq<char>)
    ensures
        salvage_reply_spec(text).message.len() <= SALVAGED_MESSAGE_CHARS,
        is_prefix_of(salvage_reply_spec(text).message, text),
        salvage_reply_spec(text).message.len() == (if text.len() < 500 {
            text.len()
        } else {
            500
        }),
{
    let m = salvage_reply_spec(text).message;
    assert(text.subrange(0, m.len() as int) =~= m);
}

/// Once the assistant is installed it is always used: suggestions made by
/// the rules alone come only when there is nothing to suggest or the
/// assistant's model or server is missing.
pub proof fn lemma_rules_only_without_assistant(
    cls: Seq<Classification>,
    games: Seq<GamePlaytime>,
    stores: Seq<StoreTags>,
    event: RecommendEvent,
)
    ensures
        match next_recommend_action(cls, games, stores, event) {
            RecommendActionView::Reply(r) => !r.used_llm ==> match event {
                RecommendEvent::Started => r.picks.len() == 0,
                RecommendEvent::SetupChecked { model_ready, server_ready } => !(model_ready
                    && server_ready),
                _ => false,
            },
            _ => true,
        },
{
}

/// The games of the library that are in progress or endless, in order.
pub open spec fn backlog_of(cls: Seq<Classification>) -> Seq<Classification> {
    cls.filter(|c: Classification| c.category == Category::InProgress || c.category == Category::Endless)
}

/// The candidates are the library filtered to the games in progress or
/// endless, order and repetitions kept.
pub proof fn lemma_candidates_are_backlog(cls: Seq<Classification>)
    ensures
        candidates_of(cls) == backlog_of(cls),
    decreases cls.len(),
{
    reveal(Seq::filter);
    if cls.len() > 0 {
        lemma_candidates_are_backlog(cls.drop_last());
    } else {
        assert(candidates_of(cls) =~= backlog_of(cls));
    }
}

/// A search finds the first element at or after `start` that satisfies the
/// predicate.
pub proof fn lemma_first_index_is<T>(s: Seq<T>, pred: spec_fn(T) -> bool, start: int, j: int)
    requires
        0 <= start <= j < s.len(),
        pred(s[j]),
        forall|i: int| start <= i < j ==> !pred(#[trigger] s[i]),
    ensures
        first_index(s, pred, start) == Some(j),
    decreases j - start,
{
    if start < j {
        lemma_first_index_is(s, pred, start + 1, j);
    }
}

/// A search finds nothing where no element at or after `start` satisfies
/// the predicate.
pub proof fn lemma_first_index_none<T>(s: Seq<T>, pred: spec_fn(T) -> bool, start: int)
    requires
        0 <= start,
        forall|i: int| start <= i < s.len() ==> !pred(#[trigger] s[i]),
    ensures
        first_index(s, pred, start) is None,
    decreases s.len() - start,
{
    if start < s.len() {
        lemma_first_index_none(s, pred, start + 1);
    }
}

/// A suggestion whose app id is in the library becomes the first game with
/// that app id, under its title, keeping its reason.
pub proof fn lemma_resolve_by_appid(p: PickView, lower: Seq<char>, cls: Seq<Classification>, names: Seq<Seq<char>>, j: int)
    requires
        0 <= j < cls.len(),
        cls[j].appid == p.appid,
        forall|i: int| 0 <= i < j ==> (#[trigger] cls[i]).appid != p.appid,
    ensures
        resolve_with(p, lower, cls, names) == Some(
            PickView { appid: p.appid, title: cls[j].name@, reason: p.reason },
        ),
{
    lemma_first_index_is(cls, has_appid(p.appid), 0, j);
}

/// Where no game has the suggestion's app id, a game whose lowercased name
/// equals the lowercased title wins, the first such game, whatever the
/// title's length; the suggestion takes its app id and title.
pub proof fn lemma_resolve_by_exact_title(
    p: PickView,
    lower: Seq<char>,
    cls: Seq<Classification>,
    names: Seq<Seq<char>>,
    j: int,
)
    requires
        names.len() == cls.len(),
        forall|i: int| 0 <= i < cls.len() ==> (#[trigger] cls[i]).appid != p.appid,
        0 <= j < cls.len(),
        names[j] == lower,
        forall|i: int| 0 <= i < j ==> #[trigger] names[i] != lower,
    ensures
        resolve_with(p, lower, cls, names) == Some(
            PickView { appid: cls[j].appid, title: cls[j].name@, reason: p.reason },
        ),
{
    lemma_first_index_none(cls, has_appid(p.appid), 0);
    lemma_first_index_is(names, is_name(lower), 0, j);
}

/// Where neither the app id nor the exact title matches, a title of at
/// least 8 bytes matches the first game whose lowercased name it is a
/// prefix of, or which is a prefix of it.
pub proof fn lemma_resolve_by_prefix(
    p: PickView,
    lower: Seq<char>,
    cls: Seq<Classification>,
    names: Seq<Seq<char>>,
    j: int,
)
    requires
        names.len() == cls.len(),
        forall|i: int| 0 <= i < cls.len() ==> (#[trigger] cls[i]).appid != p.appid,
        forall|i: int| 0 <= i < names.len() ==> #[trigger] names[i] != lower,
        (encode_utf8(lower).len() as usize) >= 8,
        0 <= j < cls.len(),
        is_prefix_of(lower, names[j]) || is_prefix_of(names[j], lower),
        forall|i: int|
            0 <= i < j ==> !(is_prefix_of(lower, #[trigger] names[i]) || is_prefix_of(names[i], lower)),
    ensures
        resolve_with(p, lower, cls, names) == Some(
            PickView { appid: cls[j].appid, title: cls[j].name@, reason: p.reason },
        ),
{
    lemma_first_index_none(cls, has_appid(p.appid), 0);
    lemma_first_index_none(names, is_name(lower), 0);
    lemma_first_index_is(names, prefix_related(lower), 0, j);
}

/// A suggestion is dropped when its app id is not in the library, no name
/// equals its title, and either its title is shorter than 8 bytes or no
/// name is prefix-related to it.
pub proof fn lemma_resolve_drops_unknown(
    p: PickView,
    lower: Seq<char>,
    cls: Seq<Classification>,
    names: Seq<Seq<char>>,
)
    requires
        names.len() == cls.len(),
        forall|i: int| 0 <= i < cls.len() ==> (#[trigger] cls[i]).appid != p.appid,
        forall|i: int| 0 <= i < names.len() ==> #[trigger] names[i] != lower,
        (encode_utf8(lower).len() as usize) < 8 || forall|i: int|
            0 <= i < names.len() ==> !(is_prefix_of(lower, #[trigger] names[i]) || is_prefix_of(
                names[i],
                lower,
            )),
    ensures
        resolve_with(p, lower, cls, names) is None,
{
    lemma_first_index_none(cls, has_appid(p.appid), 0);
    lemma_first_index_none(names, is_name(lower), 0);
    if (encode_utf8(lower).len() as usize) >= 8 {
        lemma_first_index_none(names, prefix_related(lower), 0);
    }
}

/// Validation goes suggestion by suggestion: where every suggestion matches
/// a game, as many come out as went in, each the match of the suggestion
/// at the same place.
pub proof fn lemma_validation_pointwise(raw: Seq<PickView>, cls: Seq<Classification>)
    requires
        forall|k: int| 0 <= k < raw.len() ==> (#[trigger] resolve_pick_spec(raw[k], cls)) is Some,
    ensures
        resolve_all(raw, cls).len() == raw.len(),
        forall|k: int|
            0 <= k < raw.len() ==> Some(#[trigger] resolve_all(raw, cls)[k]) == resolve_pick_spec(
                raw[k],
                cls,
            ),
    decreases raw.len(),
{
    if raw.len() > 0 {
        let t = raw.drop_last();
        assert forall|k: int| 0 <= k < t.len() implies (#[trigger] resolve_pick_spec(t[k], cls)) is Some by {
            assert(t[k] == raw[k]);
        }
        lemma_validation_pointwise(t, cls);
        assert(resolve_pick_spec(raw[raw.len() - 1], cls) is Some);
        assert forall|k: int| 0 <= k < raw.len() implies Some(#[trigger] resolve_all(raw, cls)[k])
            == resolve_pick_spec(raw[k], cls) by {
            if k < t.len() {
                assert(t[k] == raw[k]);
                assert(resolve_all(raw, cls)[k] == resolve_all(t, cls)[k]);
            }
        }
    }
}

/// Without the assistant, the rules suggest the first three games of the
/// library that are in progress or endless (fewer if there are fewer), in
/// library order, each under its own app id and title, headed by a fixed
/// message.
pub proof fn lemma_fallback_suggests_backlog(
    cls: Seq<Classification>,
    games: Seq<GamePlaytime>,
    stores: Seq<StoreTags>,
    model_ready: bool,
    server_ready: bool,
)
    requires
        !(model_ready && server_ready),
    ensures
        match next_recommend_action(
            cls,
            games,
            stores,
            RecommendEvent::SetupChecked { model_ready, server_ready },
        ) {
            RecommendActionView::Reply(r) => {
                &&& !r.used_llm
                &&& r.message == "Here are some suggestions from your backlog:"@
                &&& r.picks.len() == (if backlog_of(cls).len() < 3 {
                    backlog_of(cls).len()
                } else {
                    3
                })
                &&& forall|k: int|
                    0 <= k < r.picks.len() ==> #[trigger] r.picks[k].appid == backlog_of(cls)[k].appid
                        && r.picks[k].title == backlog_of(cls)[k].name@
                &&& forall|k: int|
                    0 <= k < r.picks.len() ==> (#[trigger] backlog_of(cls)[k]).category
                        == Category::InProgress || backlog_of(cls)[k].category == Category::Endless
                &&& forall|k: int|
                    0 <= k < r.picks.len() ==> cls.contains(#[trigger] backlog_of(cls)[k])
            },
            _ => false,
        },
{
    lemma_candidates_are_backlog(cls);
    lemma_candidates_exact(cls);
    let b = candidates_of(cls);
    let r = fallback_reply_spec(b, games);
    lemma_fallback_picks_are_candidates(b, games);
    assert(r.picks.len() == (if b.len() < 3 { b.len() } else { 3 }));
    assert(next_recommend_action(cls, games, stores, RecommendEvent::SetupChecked { model_ready, server_ready }) == RecommendActionView::Reply(r));
    assert(!r.used_llm);
    assert(r.message == "Here are some suggestions from your backlog:"@);
    assert(forall|k: int|
                0 <= k < r.picks.len() ==> #[trigger] r.picks[k].appid == backlog_of(cls)[k].appid
                    && r.picks[k].title == backlog_of(cls)[k].name@);
    assert(r.picks.len() == (if backlog_of(cls).len() < 3 {
                    backlog_of(cls).len()
                } else {
                    3
                }));
}

/// Why a game is suggested without the assistant: a game with no playtime
/// record counts as unplayed; otherwise its first record decides, naming
/// the hours played where it was played.
pub proof fn lemma_fallback_reasons(candidates: Seq<Classification>, games: Seq<GamePlaytime>, k: int, j: int)
    requires
        0 <= k < candidates.len(),
        k < 3,
    ensures
        fallback_reply_spec(candidates, games).picks.len() > k,
        (forall|i: int| 0 <= i < games.len() ==> (#[trigger] games[i]).appid != candidates[k].appid)
            ==> fallback_reply_spec(candidates, games).picks[k].reason
            == "Unplayed — waiting in your backlog"@,
        (0 <= j < games.len() && games[j].appid == candidates[k].appid && forall|i: int|
            0 <= i < j ==> (#[trigger] games[i]).appid != candidates[k].appid) ==> fallback_reply_spec(
            candidates,
            games,
        ).picks[k].reason == (if games[j].played {
            "Started but only "@ + games[j].hours@ + "h played — might be worth revisiting"@
        } else {
            "Unplayed — waiting in your backlog"@
        }),
{
    let appid = candidates[k].appid;
    if forall|i: int| 0 <= i < games.len() ==> (#[trigger] games[i]).appid != appid {
        lemma_first_index_none(games, playtime_of(appid), 0);
    }
    if 0 <= j < games.len() && games[j].appid == appid && forall|i: int|
        0 <= i < j ==> (#[trigger] games[i]).appid != appid {
        lemma_first_index_is(games, playtime_of(appid), 0, j);
    }
}

/// The assistant's server is started only when its model and server are
/// both installed, and then always; it is asked only once its server
/// answered, about the first 40 games in progress or endless, in order.
pub proof fn lemma_assistant_only_when_installed(
    cls: Seq<Classification>,
    games: Seq<GamePlaytime>,
    stores: Seq<StoreTags>,
    event: RecommendEvent,
)
    ensures
        (next_recommend_action(cls, games, stores, event) is StartServer) <==> (
        event matches RecommendEvent::SetupChecked { model_ready, server_ready } && model_ready
            && server_ready),
        (next_recommend_action(cls, games, stores, event) is RunInference) <==> (
        event matches RecommendEvent::ServerReady { failure } && failure is None),
        next_recommend_action(cls, games, stores, event) matches RecommendActionView::RunInference(
            profiles,
        ) ==> {
            &&& profiles.len() == (if backlog_of(cls).len() < 40 {
                backlog_of(cls).len()
            } else {
                40
            })
            &&& forall|k: int|
                0 <= k < profiles.len() ==> #[trigger] profiles[k].appid == backlog_of(cls)[k].appid
                    && profiles[k].title == backlog_of(cls)[k].name@
                    && profiles[k].category == category_key(backlog_of(cls)[k].category)
        },
{
    lemma_candidates_are_backlog(cls);
}

/// With nothing in progress or endless a request is answered at once, with
/// no suggestions; otherwise the assistant's setup is checked first.
pub proof fn lemma_nothing_to_suggest(
    cls: Seq<Classification>,
    games: Seq<GamePlaytime>,
    stores: Seq<StoreTags>,
)
    ensures
        (forall|i: int|
            0 <= i < cls.len() ==> (#[trigger] cls[i]).category != Category::InProgress
                && cls[i].category != Category::Endless) ==> next_recommend_action(
            cls,
            games,
            stores,
            RecommendEvent::Started,
        ) == RecommendActionView::Reply(
            ResponseView {
                picks: Seq::empty(),
                used_llm: false,
                message: "You don't have any games in your backlog or endless categories yet."@,
            },
        ),
        (exists|i: int|
            0 <= i < cls.len() && ((#[trigger] cls[i]).category == Category::InProgress
                || cls[i].category == Category::Endless)) ==> next_recommend_action(
            cls,
            games,
            stores,
            RecommendEvent::Started,
        ) == RecommendActionView::CheckSetup,
{
    lemma_candidates_exact(cls);
    if exists|i: int|
        0 <= i < cls.len() && ((#[trigger] cls[i]).category == Category::InProgress
            || cls[i].category == Category::Endless) {
        let i = choose|i: int|
            0 <= i < cls.len() && ((#[trigger] cls[i]).category == Category::InProgress
                || cls[i].category == Category::Endless);
        assert(is_candidate(cls[i]));
        assert(candidates_of(cls).contains(cls[i]));
    } else {
        if candidates_of(cls).len() > 0 {
            assert(is_candidate(candidates_of(cls)[0]));
            assert(cls.contains(candidates_of(cls)[0]));
        }
    }
}

/// An answer that is not JSON is kept as its first 500 characters (all of
/// it if shorter), character for character, with no suggestions; an
/// answer that is JSON gives its `message` member, or nothing.
pub proof fn lemma_answer_reading(text: Seq<char>, raw: Seq<PickView>, cls: Seq<Classification>)
    ensures
        !json_parses(text) ==> {
            let r = inference_reply_spec(text, raw, cls);
            &&& r.used_llm
            &&& r.picks.len() == 0
            &&& r.message.len() == (if text.len() < 500 {
                text.len()
            } else {
                500
            })
            &&& forall|i: int| 0 <= i < r.message.len() ==> #[trigger] r.message[i] == text[i]
        },
        json_parses(text) ==> {
            let r = inference_reply_spec(text, raw, cls);
            &&& r.used_llm
            &&& r.picks == resolve_all(raw, cls)
            &&& r.message == match json_string_member(text, "message"@) {
                Some(m) => m,
                None => Seq::empty(),
            }
        },
{
}

/// A server that does not start or answer fails the request with a
/// message naming the error; a failing assistant fails it with its own
/// error; an answer from the assistant is always a reply marked as the
/// assistant's.
pub proof fn lemma_recommend_failures(
    cls: Seq<Classification>,
    games: Seq<GamePlaytime>,
    stores: Seq<StoreTags>,
    event: RecommendEvent,
)
    ensures
        match event {
            RecommendEvent::ServerStarted { failure } => match failure {
                Some(e) => next_recommend_action(cls, games, stores, event)
                    == RecommendActionView::Fail("Failed to start AI engine: "@ + e@),
                None => next_recommend_action(cls, games, stores, event) is WaitForServer,
            },
            RecommendEvent::ServerReady { failure } => match failure {
                Some(e) => next_recommend_action(cls, games, stores, event)
                    == RecommendActionView::Fail("AI engine not responding: "@ + e@),
                None => next_recommend_action(cls, games, stores, event) is RunInference,
            },
            RecommendEvent::InferenceFinished { outcome, raw_picks } => match outcome {
                Err(e) => next_recommend_action(cls, games, stores, event)
                    == RecommendActionView::Fail(e@),
                Ok(text) => match next_recommend_action(cls, games, stores, event) {
                    RecommendActionView::Reply(r) => r.used_llm,
                    _ => false,
                },
            },
            _ => true,
        },
        match next_recommend_action(cls, games, stores, event) {
            RecommendActionView::Reply(r) => r.used_llm ==> event is InferenceFinished,
            _ => true,
        },
{
}

/// The store's record of a game is the first one with its app id, and
/// there is none where no record has it.
pub proof fn lemma_store_record(stores: Seq<StoreTags>, appid: u64, j: int)
    ensures
        (forall|i: int| 0 <= i < stores.len() ==> (#[trigger] stores[i]).appid != appid)
            ==> store_record(stores, appid) is None,
        (0 <= j < stores.len() && stores[j].appid == appid && forall|i: int|
            0 <= i < j ==> (#[trigger] stores[i]).appid != appid) ==> store_record(stores, appid)
            == Some(stores[j]),
{
    if forall|i: int| 0 <= i < stores.len() ==> (#[trigger] stores[i]).appid != appid {
        lemma_first_index_none(stores, store_of(appid), 0);
    }
    if 0 <= j < stores.len() && stores[j].appid == appid && forall|i: int|
        0 <= i < j ==> (#[trigger] stores[i]).appid != appid {
        lemma_first_index_is(stores, store_of(appid), 0, j);
    }
}

/// A candidate is described with the genres and store categories of the
/// store's first record of it, joined by `", "`; with no record both are
/// empty.
pub proof fn lemma_profile_tags(c: Classification, stores: Seq<StoreTags>, j: int)
    ensures
        (forall|i: int| 0 <= i < stores.len() ==> (#[trigger] stores[i]).appid != c.appid) ==> {
            &&& profile_of(c, stores).genres.len() == 0
            &&& profile_of(c, stores).store_tags.len() == 0
        },
        (0 <= j < stores.len() && stores[j].appid == c.appid && forall|i: int|
            0 <= i < j ==> (#[trigger] stores[i]).appid != c.appid) ==> {
            &&& profile_of(c, stores).genres == joined(views(stores[j].genres@), ", "@)
            &&& profile_of(c, stores).store_tags == joined(views(stores[j].categories@), ", "@)
        },
{
    lemma_store_record(stores, c.appid, j);
}

} // verus!
