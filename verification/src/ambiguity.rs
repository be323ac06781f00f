use vstd::prelude::*;
use crate::category::{Category, Classification, category_key};
use crate::json::{json_parses, json_string_member, parses_as_json, string_member};
use crate::recommend::{
    first_index, has_appid, lemma_first_index_found, lemma_store_record, record_categories, record_genres, store_record,
    store_texts, StoreTags,
};
use crate::text::{joined, tag_list_text_spec, views};

verus! {

/// A second opinion on how one game is classified.
pub struct AmbiguityResponse {
    pub suggested_category: String,
    pub rationale: String,
    pub used_llm: bool,
}

/// A second opinion as plain values.
pub struct OpinionView {
    pub suggested_category: Seq<char>,
    pub rationale: Seq<char>,
    pub used_llm: bool,
}

impl View for AmbiguityResponse {
    type V = OpinionView;

    open spec fn view(&self) -> OpinionView {
        OpinionView {
            suggested_category: self.suggested_category@,
            rationale: self.rationale@,
            used_llm: self.used_llm,
        }
    }
}

/// The message given when the game asked about is not classified.
pub open spec fn not_found_message() -> Seq<char> {
    "Game not found in classifications"@
}

/// The classification of the game asked about: the first one with its app
/// id.
pub fn find_classification(cls: &Vec<Classification>, appid: u64) -> (r: Result<
    Classification,
    String,
>)
    ensures
        match first_index(cls@, has_appid(appid), 0) {
            Some(i) => r == Ok::<Classification, String>(cls@[i]),
            None => r matches Err(e) && e@ == not_found_message(),
        },
{
    let mut i: usize = 0;
    while i < cls.len()
        invariant
            i <= cls@.len(),
            first_index(cls@, has_appid(appid), 0) == first_index(cls@, has_appid(appid), i as int),
        decreases cls@.len() - i,
    {
        if cls[i].appid == appid {
            return Ok(cls[i].duplicate());
        }
        i = i + 1;
    }
    Err(String::from_str("Game not found in classifications"))
}

/// The opinion that keeps the rule-based category, with `rationale`.
pub open spec fn rule_opinion(c: Classification, rationale: Seq<char>) -> OpinionView {
    OpinionView { suggested_category: category_key(c.category), rationale, used_llm: false }
}

/// What happened last while asking for a second opinion.
pub enum AmbiguityEvent {
    /// Whether the assistant's model and server are installed.
    SetupChecked { model_ready: bool, server_ready: bool },
    /// Whether the assistant's server started.
    ServerStarted { ok: bool },
    /// Whether the assistant's server answered.
    ServerReady { ok: bool },
    /// The assistant's answer, or its failure.
    InferenceFinished { outcome: Result<String, String> },
}

/// What the assistant is asked about a game, playtime aside.
pub struct OpinionQuery {
    pub name: String,
    pub genres: String,
    pub categories: String,
    pub category: String,
    pub reason: String,
}

/// A question as plain values.
pub struct QueryView {
    pub name: Seq<char>,
    pub genres: Seq<char>,
    pub categories: Seq<char>,
    pub category: Seq<char>,
    pub reason: Seq<char>,
}

impl View for OpinionQuery {
    type V = QueryView;

    open spec fn view(&self) -> QueryView {
        QueryView {
            name: self.name@,
            genres: self.genres@,
            categories: self.categories@,
            category: self.category@,
            reason: self.reason@,
        }
    }
}

/// What the assistant is asked about `c`: its name, its store genres and
/// categories joined by `", "` (`Unknown` where the store has no record of
/// it), its rule-based category and the rule's reason.
pub open spec fn query_of(c: Classification, stores: Seq<StoreTags>) -> QueryView {
    QueryView {
        name: c.name@,
        genres: tag_list_text_spec(record_genres(store_record(stores, c.appid)), "Unknown"@),
        categories: tag_list_text_spec(record_categories(store_record(stores, c.appid)), "Unknown"@),
        category: category_key(c.category),
        reason: c.reason@,
    }
}

/// What to do next while asking for a second opinion.
pub enum AmbiguityAction {
    StartServer,
    WaitForServer,
    /// Ask the assistant this question.
    RunInference { query: OpinionQuery },
    Reply(AmbiguityResponse),
}

/// The next step as plain values.
pub enum AmbiguityActionView {
    StartServer,
    WaitForServer,
    RunInference(QueryView),
    Reply(OpinionView),
}

impl View for AmbiguityAction {
    type V = AmbiguityActionView;

    open spec fn view(&self) -> AmbiguityActionView {
        match self {
            AmbiguityAction::StartServer => AmbiguityActionView::StartServer,
            AmbiguityAction::WaitForServer => AmbiguityActionView::WaitForServer,
            AmbiguityAction::RunInference { query } => AmbiguityActionView::RunInference(query@),
            AmbiguityAction::Reply(r) => AmbiguityActionView::Reply(r@),
        }
    }
}

/// The opinion read from the assistant's answer `text`: where it is JSON,
/// its `suggested_category` (else `IN_PROGRESS`) and `rationale` (else a
/// note that none was given) members; else the rule-based category.
pub open spec fn answer_opinion(c: Classification, text: Seq<char>) -> OpinionView {
    answer_opinion_from(
        c,
        json_parses(text),
        json_string_member(text, "suggested_category"@),
        json_string_member(text, "rationale"@),
    )
}

/// The opinion read from an answer, given whether it parsed as JSON and its
/// `suggested_category` and `rationale` string members.
pub open spec fn answer_opinion_from(
    c: Classification,
    parsed: bool,
    suggested: Option<Seq<char>>,
    rationale: Option<Seq<char>>,
) -> OpinionView {
    if parsed {
        OpinionView {
            suggested_category: match suggested {
                Some(s) => s,
                None => category_key(Category::InProgress),
            },
            rationale: match rationale {
                Some(s) => s,
                None => "No rationale provided"@,
            },
            used_llm: true,
        }
    } else {
        rule_opinion(c, "Failed to parse AI response. Using rule-based."@)
    }
}

/// The view of an optional string.
pub open spec fn opt_view(s: Option<String>) -> Option<Seq<char>> {
    match s {
        Some(t) => Some(t@),
        None => None,
    }
}

/// How asking for a second opinion on `c` goes on after `event`: the
/// assistant is asked (the question `query_of(c, stores)`) only when its
/// model and server are installed, its server started and answered; in
/// every other case the rule-based
/// category is kept, with a rationale saying why.
pub open spec fn next_ambiguity_action(
    c: Classification,
    stores: Seq<StoreTags>,
    event: AmbiguityEvent,
) -> AmbiguityActionView {
    match event {
        AmbiguityEvent::SetupChecked { model_ready, server_ready } => if model_ready
            && server_ready {
            AmbiguityActionView::StartServer
        } else {
            AmbiguityActionView::Reply(rule_opinion(c, "AI not set up. Current: "@ + c.reason@))
        },
        AmbiguityEvent::ServerStarted { ok } => if ok {
            AmbiguityActionView::WaitForServer
        } else {
            AmbiguityActionView::Reply(
                rule_opinion(c, "Failed to start AI engine. Using rule-based classification."@),
            )
        },
        AmbiguityEvent::ServerReady { ok } => if ok {
            AmbiguityActionView::RunInference(query_of(c, stores))
        } else {
            AmbiguityActionView::Reply(
                rule_opinion(c, "AI engine not ready. Using rule-based classification."@),
            )
        },
        AmbiguityEvent::InferenceFinished { outcome } => match outcome {
            Ok(text) => AmbiguityActionView::Reply(answer_opinion(c, text@)),
            Err(e) => AmbiguityActionView::Reply(
                rule_opinion(c, "AI error: "@ + e@ + ". Using rule-based."@),
            ),
        },
    }
}

/// The opinion that keeps the rule-based category.
fn rule_based(c: &Classification, rationale: String) -> (r: AmbiguityResponse)
    ensures
        r@ == rule_opinion(*c, rationale@),
{
    AmbiguityResponse { suggested_category: c.category.key(), rationale, used_llm: false }
}

/// Builds the opinion on `c` from what was read of the assistant's answer:
/// whether it parsed as JSON, and its `suggested_category` and `rationale`
/// string members.
pub fn opinion_from_parts(
    c: &Classification,
    parsed: bool,
    suggested: Option<String>,
    rationale: Option<String>,
) -> (r: AmbiguityResponse)
    ensures
        r@ == answer_opinion_from(*c, parsed, opt_view(suggested), opt_view(rationale)),
{
    if parsed {
        let suggested = match suggested {
            Some(s) => s,
            None => Category::InProgress.key(),
        };
        let rationale = match rationale {
            Some(s) => s,
            None => String::from_str("No rationale provided"),
        };
        AmbiguityResponse { suggested_category: suggested, rationale, used_llm: true }
    } else {
        rule_based(c, String::from_str("Failed to parse AI response. Using rule-based."))
    }
}

/// Reads the assistant's answer on `c`.
pub fn opinion_from_answer(c: &Classification, text: &str) -> (r: AmbiguityResponse)
    ensures
        r@ == answer_opinion(*c, text@),
{
    let parsed = parses_as_json(text);
    let suggested = string_member(text, "suggested_category");
    let rationale = string_member(text, "rationale");
    opinion_from_parts(c, parsed, suggested, rationale)
}

/// Decides the next step of asking for a second opinion on `c`.
pub fn ambiguity_next(c: &Classification, stores: &Vec<StoreTags>, event: AmbiguityEvent) -> (r:
    AmbiguityAction)
    ensures
        r@ == next_ambiguity_action(*c, stores@, event),
{
    match event {
        AmbiguityEvent::SetupChecked { model_ready, server_ready } => {
            if model_ready && server_ready {
                AmbiguityAction::StartServer
            } else {
                AmbiguityAction::Reply(
                    rule_based(c, String::from_str("AI not set up. Current: ").concat(c.reason.as_str())),
                )
            }
        },
        AmbiguityEvent::ServerStarted { ok } => {
            if ok {
                AmbiguityAction::WaitForServer
            } else {
                AmbiguityAction::Reply(
                    rule_based(c, String::from_str("Failed to start AI engine. Using rule-based classification.")),
                )
            }
        },
        AmbiguityEvent::ServerReady { ok } => {
            if ok {
                let (genres, categories) = store_texts(stores, c.appid, "Unknown");
                AmbiguityAction::RunInference {
                    query: OpinionQuery {
                        name: c.name.clone(),
                        genres,
                        categories,
                        category: c.category.key(),
                        reason: c.reason.clone(),
                    },
                }
            } else {
                AmbiguityAction::Reply(
                    rule_based(c, String::from_str("AI engine not ready. Using rule-based classification.")),
                )
            }
        },
        AmbiguityEvent::InferenceFinished { outcome } => match outcome {
            Ok(text) => AmbiguityAction::Reply(opinion_from_answer(c, text.as_str())),
            Err(e) => AmbiguityAction::Reply(
                rule_based(c, String::from_str("AI error: ").concat(e.as_str()).concat(". Using rule-based.")),
            ),
        },
    }
}

/// The rules stay canonical: whenever the assistant's opinion is not used,
/// the suggestion is the rule-based category of the game.
pub proof fn lemma_rules_stay_canonical(c: Classification, stores: Seq<StoreTags>, event: AmbiguityEvent)
    ensures
        match next_ambiguity_action(c, stores, event) {
            AmbiguityActionView::Reply(o) => !o.used_llm ==> o.suggested_category == category_key(
                c.category,
            ),
            _ => true,
        },
{
}

/// A game asked about is found exactly when some classification carries its
/// app id, and what is found carries it.
pub proof fn lemma_found_has_appid(cls: Seq<Classification>, appid: u64)
    ensures
        first_index(cls, has_appid(appid), 0) matches Some(i) ==> 0 <= i < cls.len()
            && cls[i].appid == appid,
{
    lemma_first_index_found(cls, has_appid(appid), 0);
}

/// The assistant's server is started only when its model and server are
/// both installed; it is waited for only once it started, and asked only
/// once it answered, about `c` (its name, category name and the rule's
/// reason).
pub proof fn lemma_assistant_asked_only_when_ready(
    c: Classification,
    stores: Seq<StoreTags>,
    event: AmbiguityEvent,
)
    ensures
        (next_ambiguity_action(c, stores, event) is StartServer) <==> (match event {
            AmbiguityEvent::SetupChecked { model_ready, server_ready } => model_ready && server_ready,
            _ => false,
        }),
        (next_ambiguity_action(c, stores, event) is WaitForServer) <==> (match event {
            AmbiguityEvent::ServerStarted { ok } => ok,
            _ => false,
        }),
        (next_ambiguity_action(c, stores, event) is RunInference) <==> (match event {
            AmbiguityEvent::ServerReady { ok } => ok,
            _ => false,
        }),
        match next_ambiguity_action(c, stores, event) {
            AmbiguityActionView::RunInference(q) => q.name == c.name@ && q.category == category_key(
                c.category,
            ) && q.reason == c.reason@,
            _ => true,
        },
{
}

/// Whenever the assistant is not used, the reply keeps the rule-based
/// category and says why: not installed, server not started, server not
/// answering, the assistant failing, or its answer not being JSON.
pub proof fn lemma_why_rules_kept(c: Classification, stores: Seq<StoreTags>, event: AmbiguityEvent)
    ensures
        match event {
            AmbiguityEvent::SetupChecked { model_ready, server_ready } => !(model_ready
                && server_ready) ==> next_ambiguity_action(c, stores, event)
                == AmbiguityActionView::Reply(
                OpinionView {
                    suggested_category: category_key(c.category),
                    rationale: "AI not set up. Current: "@ + c.reason@,
                    used_llm: false,
                },
            ),
            AmbiguityEvent::ServerStarted { ok } => !ok ==> next_ambiguity_action(c, stores, event)
                == AmbiguityActionView::Reply(
                OpinionView {
                    suggested_category: category_key(c.category),
                    rationale: "Failed to start AI engine. Using rule-based classification."@,
                    used_llm: false,
                },
            ),
            AmbiguityEvent::ServerReady { ok } => !ok ==> next_ambiguity_action(c, stores, event)
                == AmbiguityActionView::Reply(
                OpinionView {
                    suggested_category: category_key(c.category),
                    rationale: "AI engine not ready. Using rule-based classification."@,
                    used_llm: false,
                },
            ),
            AmbiguityEvent::InferenceFinished { outcome } => match outcome {
                Err(e) => next_ambiguity_action(c, stores, event) == AmbiguityActionView::Reply(
                    OpinionView {
                        suggested_category: category_key(c.category),
                        rationale: "AI error: "@ + e@ + ". Using rule-based."@,
                        used_llm: false,
                    },
                ),
                Ok(text) => !json_parses(text@) ==> next_ambiguity_action(c, stores, event)
                    == AmbiguityActionView::Reply(
                    OpinionView {
                        suggested_category: category_key(c.category),
                        rationale: "Failed to parse AI response. Using rule-based."@,
                        used_llm: false,
                    },
                ),
            },
        },
{
}

/// The assistant's opinion is used only when it answered with JSON; then
/// its `suggested_category` and `rationale` members are taken, defaulting
/// to `IN_PROGRESS` and to a note that no rationale was given.
pub proof fn lemma_assistant_opinion_used(c: Classification, stores: Seq<StoreTags>, event: AmbiguityEvent)
    ensures
        match next_ambiguity_action(c, stores, event) {
            AmbiguityActionView::Reply(o) => o.used_llm ==> match event {
                AmbiguityEvent::InferenceFinished { outcome } => match outcome {
                    Ok(text) => {
                        &&& json_parses(text@)
                        &&& o.suggested_category == match json_string_member(
                            text@,
                            "suggested_category"@,
                        ) {
                            Some(s) => s,
                            None => "IN_PROGRESS"@,
                        }
                        &&& o.rationale == match json_string_member(text@, "rationale"@) {
                            Some(s) => s,
                            None => "No rationale provided"@,
                        }
                    },
                    Err(_) => false,
                },
                _ => false,
            },
            _ => true,
        },
{
}

/// The assistant is told the genres and store categories of the store's
/// first record of the game, joined by `", "`, or `Unknown` for each where
/// the store has no record of it.
pub proof fn lemma_query_tags(c: Classification, stores: Seq<StoreTags>, j: int)
    ensures
        (forall|i: int| 0 <= i < stores.len() ==> (#[trigger] stores[i]).appid != c.appid) ==> {
            &&& query_of(c, stores).genres == "Unknown"@
            &&& query_of(c, stores).categories == "Unknown"@
        },
        (0 <= j < stores.len() && stores[j].appid == c.appid && forall|i: int|
            0 <= i < j ==> (#[trigger] stores[i]).appid != c.appid) ==> {
            &&& query_of(c, stores).genres == joined(views(stores[j].genres@), ", "@)
            &&& query_of(c, stores).categories == joined(views(stores[j].categories@), ", "@)
        },
{
    lemma_store_record(stores, c.appid, j);
}

} // verus!
