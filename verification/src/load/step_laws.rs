//! What the load backend makes of each reply, and what it sends next.
use crate::connection::{credentials, label, success, ConnectionView, CredentialsView};
use crate::field::{properties_of, space_of};
use crate::json::{JsonView, NumberView};
use crate::json_path::{below, member, under, unsigned};
use crate::load::config::{shown, CollectionSchema, OpenSearchConfig, OpenSearchParams, VectorSpec};
use crate::load::error::{checked, config_error_text, status_error, StoreErrorView};
use crate::load::mapping::create_index;
use crate::load::settle::{
    settle_next, since_after, POLL_INTERVAL, SETTLED_HOLD, SettleSeen, SettleStep, TIMEOUT,
};
use crate::load::store::{
    connected, deferred, deleted, document_found, enable_next, enabled, ensure_next, expected_after,
    fresh_store, merges_of, read, settings_of, EnableSeen, EnableStepView, EnsureSeen,
    EnsureStepView, OpenSearchStore, Reply,
};
use crate::text::decimal;
use crate::text_laws::{law_numbers_are_written_in_decimal, writes};
use vstd::prelude::*;
use vstd::string::*;

verus! {

/// A status is a success exactly from 200 to 299. A reply with another status is an error that
/// keeps the status and says what failed, with which status, and what the server answered.
pub proof fn law_replies_are_read_by_their_status<T>(
    context: Seq<char>,
    reply: Reply,
    value: T,
)
    ensures
        success(reply.status) <==> 200 <= reply.status <= 299,
        200 <= reply.status <= 299 ==> {
            &&& checked(context, reply.status, reply.detail@) == Ok::<(), StoreErrorView>(())
            &&& read(context, reply, value) == Ok::<T, StoreErrorView>(value)
        },
        !(200 <= reply.status <= 299) ==> exists|t: Seq<char>| #[trigger]
            writes(t, reply.status as nat) && ({
                let e = StoreErrorView::OpenSearch {
                    status: Some(reply.status),
                    message: context + " failed (HTTP "@ + t + "): "@ + reply.detail@,
                };
                &&& checked(context, reply.status, reply.detail@) == Err::<(), StoreErrorView>(e)
                &&& read(context, reply, value) == Err::<T, StoreErrorView>(e)
            }),
{
    law_numbers_are_written_in_decimal(reply.status as nat);
    assert(writes(decimal(reply.status as nat), reply.status as nat));
}

/// The error of a status keeps the status, and says it in decimal between what failed and what the
/// server answered.
pub proof fn law_what_the_error_of_a_status_says(
    context: Seq<char>,
    status: u16,
    detail: Seq<char>,
)
    ensures
        status_error(context, status, detail) matches StoreErrorView::OpenSearch {
            status: s,
            message,
        } && {
            &&& s == Some(status)
            &&& exists|t: Seq<char>| #[trigger]
                writes(t, status as nat) && message == context + " failed (HTTP "@ + t + "): "@
                    + detail
        },
{
    law_numbers_are_written_in_decimal(status as nat);
    assert(writes(decimal(status as nat), status as nat));
}

/// A bearer token is presented where one is configured; else a username with its password, where
/// both are; else nothing.
pub proof fn law_which_credentials_are_presented(
    bearer_token: Option<String>,
    username: Option<String>,
    password: Option<String>,
)
    ensures
        bearer_token matches Some(t) ==> credentials(bearer_token, username, password) == Some(
            CredentialsView::Bearer(t@),
        ),
        bearer_token is None ==> {
            &&& credentials(bearer_token, username, password) is Some <==> username is Some
                && password is Some
            &&& username matches Some(u) ==> (password matches Some(p) ==> credentials(
                bearer_token,
                username,
                password,
            ) == Some(CredentialsView::Basic(u@, p@)))
        },
{
}

/// A connection can be made exactly if the URL can be parsed, and has that URL and everything else
/// as configured; else the error is that of the URL, without a status.
pub proof fn law_how_the_server_is_reached(c: OpenSearchConfig, url: Result<Seq<char>, Seq<char>>)
    ensures
        url matches Ok(u) ==> (connected(c, url) matches Ok(connection) && {
            &&& connection.url == u
            &&& connection.timeout_s == c.timeout_s
            &&& connection.tls_insecure == c.tls_insecure
            &&& connection.credentials == credentials(c.bearer_token, c.username, c.password)
        }),
        url matches Err(m) ==> connected(c, url) == Err::<ConnectionView, StoreErrorView>(
            StoreErrorView::OpenSearch { status: None, message: m },
        ),
{
}

/// The integer that a value may be.
pub open spec fn integer_in(o: Option<JsonView>) -> Option<int> {
    match o {
        Some(JsonView::Number(NumberView::PosInt(n))) => if n < 0x8000_0000_0000_0000 {
            Some(n as int)
        } else {
            None
        },
        Some(JsonView::Number(NumberView::NegInt(n))) => Some(n as int),
        _ => None,
    }
}

/// The number of running merges is the one that is reported for the index; where none is, that of
/// all indices; and where none is either, zero.
pub proof fn law_which_merges_are_counted(body: JsonView, index: Seq<char>)
    ensures
        ({
            let own = integer_in(
                below(
                    below(
                        below(below(member(body, "indices"@), index), "total"@),
                        "merges"@,
                    ),
                    "current"@,
                ),
            );
            let all = integer_in(
                below(below(below(member(body, "_all"@), "total"@), "merges"@), "current"@),
            );
            &&& own matches Some(n) ==> merges_of(body, index) == n
            &&& own is None ==> (all matches Some(n) ==> merges_of(body, index) == n)
            &&& own is None && all is None ==> merges_of(body, index) == 0
        }),
{
}

/// The fields of an index are what stands under `mappings.properties` of its entry; null where
/// nothing does.
pub proof fn law_where_fields_are_found(body: JsonView, index: Seq<char>)
    ensures
        match below(below(member(body, index), "mappings"@), "properties"@) {
            Some(props) => properties_of(body, index) == props,
            None => properties_of(body, index) is Null,
        },
{
}

/// The settings of an index are what stands under `settings.index` of its entry; null where nothing
/// does.
pub proof fn law_where_settings_are_found(body: JsonView, index: Seq<char>)
    ensures
        match below(below(member(body, index), "settings"@), "index"@) {
            Some(settings) => settings_of(body, index) == settings,
            None => settings_of(body, index) is Null,
        },
{
}

/// An index that is not there counts as deleted, and a document that is not there is not found; else
/// the status decides, with an error that keeps it.
pub proof fn law_what_is_missing_is_no_error(reply: Reply)
    ensures
        reply.status == 404 ==> {
            &&& deleted(reply) == Ok::<(), StoreErrorView>(())
            &&& document_found(reply) == Ok::<bool, StoreErrorView>(false)
        },
        200 <= reply.status <= 299 ==> {
            &&& deleted(reply) == Ok::<(), StoreErrorView>(())
            &&& document_found(reply) == Ok::<bool, StoreErrorView>(true)
        },
        reply.status != 404 && !(200 <= reply.status <= 299) ==> {
            &&& deleted(reply) == Err::<(), StoreErrorView>(
                status_error("delete index"@, reply.status, reply.detail@),
            )
            &&& document_found(reply) == Err::<bool, StoreErrorView>(
                status_error("document exists probe"@, reply.status, reply.detail@),
            )
        },
{
}

/// A store that is made has the configured index, the configured knobs or none at all, and expects
/// no vectors yet.
pub proof fn law_what_a_store_starts_with(c: OpenSearchConfig, store: OpenSearchStore)
    requires
        fresh_store(c, store),
    ensures
        store.index_name@ == c.index_name@,
        c.params matches Some(p) ==> store.params == p,
        c.params is None ==> {
            let p = store.params;
            &&& p.shards is None && p.replicas is None && p.refresh_interval is None
            &&& p.ef_search is None && p.method is None && p.mode is None
            &&& p.compression_level is None && !p.recreate
        },
        store.expected_vectors@.len() == 0,
{
}

/// What is shown of a configuration: everything but the secrets, and of those whether they are set.
pub proof fn law_what_is_shown_of_a_configuration(c: OpenSearchConfig)
    ensures
        *shown(c).url == c.url,
        *shown(c).username == c.username,
        *shown(c).index_name == c.index_name,
        shown(c).tls_insecure == c.tls_insecure,
        shown(c).timeout_s == c.timeout_s,
        *shown(c).params == c.params,
        c.password is Some ==> shown(c).password == Some("<redacted>"),
        c.password is None ==> shown(c).password is None,
        c.bearer_token is Some ==> shown(c).bearer_token == Some("<redacted>"),
        c.bearer_token is None ==> shown(c).bearer_token is None,
{
}

/// The space of a field is the text at its top level, or else the text inside its method.
pub proof fn law_where_the_space_is_found(field: JsonView)
    ensures
        member(field, "space_type"@) matches Some(JsonView::Text(s)) ==> space_of(field) == Some(s),
        !(member(field, "space_type"@) matches Some(JsonView::Text(_))) ==> match below(
            member(field, "method"@),
            "space_type"@,
        ) {
            Some(JsonView::Text(s)) => space_of(field) == Some(s),
            _ => space_of(field) is None,
        },
{
}

/// How an index is made ready. One that is not there is created; one that is there is kept, or,
/// where it is to be recreated, deleted and then created. A deletion or a creation that fails ends
/// it with the error of its reply; a body that cannot be built, with the configuration's error.
pub proof fn law_how_an_index_is_made_ready(
    index: Seq<char>,
    params: OpenSearchParams,
    schema: CollectionSchema,
    seen: EnsureSeen,
)
    ensures
        ({
            let next = ensure_next(index, params, schema, seen);
            let created = match create_index(schema.vectors@, params, schema.dims@) {
                Ok(body) => Ok::<EnsureStepView, StoreErrorView>(EnsureStepView::Create(body)),
                Err(e) => Err(StoreErrorView::Other(config_error_text(e))),
            };
            &&& seen matches EnsureSeen::Probed(reply) ==> {
                &&& !(200 <= reply.status <= 299) ==> next == created
                &&& 200 <= reply.status <= 299 && params.recreate ==> next == Ok::<
                    EnsureStepView,
                    StoreErrorView,
                >(EnsureStepView::Delete)
                &&& 200 <= reply.status <= 299 && !params.recreate ==> next == Ok::<
                    EnsureStepView,
                    StoreErrorView,
                >(EnsureStepView::Done)
            }
            &&& seen matches EnsureSeen::Deleted(reply) ==> {
                &&& 200 <= reply.status <= 299 ==> next == created
                &&& !(200 <= reply.status <= 299) ==> next == Err::<EnsureStepView, StoreErrorView>(
                    status_error("delete index"@, reply.status, reply.detail@),
                )
            }
            &&& seen matches EnsureSeen::Created(reply) ==> {
                &&& 200 <= reply.status <= 299 ==> next == Ok::<EnsureStepView, StoreErrorView>(
                    EnsureStepView::Done,
                )
                &&& !(200 <= reply.status <= 299) ==> next == Err::<EnsureStepView, StoreErrorView>(
                    status_error(
                        "create index `"@ + index + "`"@,
                        reply.status,
                        reply.detail@,
                    ),
                )
            }
        }),
{
}

/// These texts differ from each other.
proof fn lemma_deferral_keys()
    ensures
        "knn.advanced.approximate_threshold"@ != "refresh_interval"@,
        "knn.advanced.approximate_threshold"@ != "index"@,
        "refresh_interval"@ != "index"@,
{
    reveal_strlit("knn.advanced.approximate_threshold");
    reveal_strlit("refresh_interval");
    reveal_strlit("index");
    assert("knn.advanced.approximate_threshold"@.len() == 34);
    assert("refresh_interval"@.len() == 16);
    assert("index"@.len() == 5);
}

/// During a load no graph is built, by a threshold of -1, and nothing is refreshed, by an interval of
/// -1; nothing else is set.
pub proof fn law_what_is_set_during_a_load()
    ensures
        under(deferred(), "index"@, "knn.advanced.approximate_threshold"@) matches Some(
            JsonView::Number(NumberView::NegInt(n)),
        ) && n == -1,
        under(deferred(), "index"@, "refresh_interval"@) == Some(JsonView::Text("-1"@)),
        forall|k: Seq<char>| #[trigger]
            under(deferred(), "index"@, k) is Some ==> k == "knn.advanced.approximate_threshold"@
                || k == "refresh_interval"@,
        forall|k: Seq<char>| #[trigger] member(deferred(), k) is Some ==> k == "index"@,
{
    lemma_deferral_keys();
}

/// After a load every graph is built, by a threshold of 0, and the refresh interval is the
/// configured one, or null where none is; nothing else is set.
pub proof fn law_what_is_set_after_a_load(params: OpenSearchParams)
    ensures
        under(enabled(params), "index"@, "knn.advanced.approximate_threshold"@) == Some(
            unsigned(0),
        ),
        params.refresh_interval matches Some(t) ==> under(
            enabled(params),
            "index"@,
            "refresh_interval"@,
        ) == Some(JsonView::Text(t@)),
        params.refresh_interval is None ==> under(enabled(params), "index"@, "refresh_interval"@)
            == Some(JsonView::Null),
        forall|k: Seq<char>| #[trigger]
            under(enabled(params), "index"@, k) is Some ==> k
                == "knn.advanced.approximate_threshold"@ || k == "refresh_interval"@,
        forall|k: Seq<char>| #[trigger] member(enabled(params), k) is Some ==> k == "index"@,
{
    lemma_deferral_keys();
}

/// How indexing is enabled: the settings are put, then the index is refreshed, then its segments
/// are merged into one without waiting for it; a failed step ends it with the error of its reply.
/// The vectors that are expected from then on are those of the load.
pub proof fn law_how_indexing_is_enabled(
    index: Seq<char>,
    params: OpenSearchParams,
    expected: Seq<(String, VectorSpec)>,
    seen: EnableSeen,
)
    ensures
        ({
            let next = enable_next(index, params, seen);
            &&& seen matches EnableSeen::Loaded(schema) ==> {
                &&& next == Ok::<EnableStepView, StoreErrorView>(
                    EnableStepView::PutSettings(enabled(params)),
                )
                &&& expected_after(expected, seen) == schema.vectors@
            }
            &&& seen matches EnableSeen::SettingsPut(reply) ==> {
                &&& 200 <= reply.status <= 299 ==> next == Ok::<EnableStepView, StoreErrorView>(
                    EnableStepView::Refresh,
                )
                &&& !(200 <= reply.status <= 299) ==> next == Err::<EnableStepView, StoreErrorView>(
                    status_error("put settings"@, reply.status, reply.detail@),
                )
            }
            &&& seen matches EnableSeen::Refreshed(reply) ==> {
                &&& 200 <= reply.status <= 299 ==> next == Ok::<EnableStepView, StoreErrorView>(
                    EnableStepView::ForceMerge {
                        path: "/"@ + index + "/_forcemerge"@,
                        max_num_segments: "1"@,
                        wait_for_completion: "false"@,
                    },
                )
                &&& !(200 <= reply.status <= 299) ==> next == Err::<EnableStepView, StoreErrorView>(
                    status_error("refresh"@, reply.status, reply.detail@),
                )
            }
            &&& seen matches EnableSeen::Merging(reply) ==> {
                &&& 200 <= reply.status <= 299 ==> next == Ok::<EnableStepView, StoreErrorView>(
                    EnableStepView::Done,
                )
                &&& !(200 <= reply.status <= 299) ==> next == Err::<EnableStepView, StoreErrorView>(
                    status_error("force merge"@, reply.status, reply.detail@),
                )
            }
            &&& !(seen is Loaded) ==> expected_after(expected, seen) == expected
        }),
{
}

/// The wait looks at the index once in a second, holds for five seconds without a merge, and is
/// given up after half an hour.
pub proof fn law_how_long_the_wait_takes()
    ensures
        POLL_INTERVAL == 1_000_000_000,
        SETTLED_HOLD == 5 * 1_000_000_000,
        TIMEOUT == 30 * 60 * 1_000_000_000,
{
}

/// What follows each event of the wait. It is given up at half an hour. A count of merges leads to
/// the check exactly if no merge runs and none has run for five seconds; the time since which none
/// has run is that of the first such count. A failed count or check ends it with its error, and a
/// passed check ends it well.
pub proof fn law_how_the_wait_goes_on(index: Seq<char>, since: Option<u64>, seen: SettleSeen)
    ensures
        ({
            let next = settle_next(index, since, seen);
            &&& seen matches SettleSeen::Awake { now } ==> {
                &&& now < 1_800_000_000_000 ==> next == Ok::<SettleStep, StoreErrorView>(
                    SettleStep::CountMerges,
                )
                &&& now >= 1_800_000_000_000 ==> next == Err::<SettleStep, StoreErrorView>(
                    StoreErrorView::Other(
                        "timed out after 1800s waiting for merges to settle on "@ + (
                        "opensearch("@ + index + ")"@),
                    ),
                )
            }
            &&& seen matches SettleSeen::Merges { current, now } ==> {
                &&& current != 0 ==> {
                    &&& next == Ok::<SettleStep, StoreErrorView>(SettleStep::Pause)
                    &&& since_after(since, current, now) is None
                }
                &&& current == 0 && since is None ==> {
                    &&& next == Ok::<SettleStep, StoreErrorView>(SettleStep::Pause)
                    &&& since_after(since, current, now) == Some(now)
                }
                &&& current == 0 ==> (since matches Some(t) ==> {
                    &&& since_after(since, current, now) == Some(t)
                    &&& now >= t + 5_000_000_000 ==> next == Ok::<SettleStep, StoreErrorView>(
                        SettleStep::Verify(t),
                    )
                    &&& now < t + 5_000_000_000 ==> next == Ok::<SettleStep, StoreErrorView>(
                        SettleStep::Pause,
                    )
                })
            }
            &&& seen matches SettleSeen::Uncounted(e) ==> next == Err::<SettleStep, StoreErrorView>(
                e@,
            )
            &&& seen matches SettleSeen::Verified { since: t, outcome } ==> {
                &&& outcome is Ok ==> next == Ok::<SettleStep, StoreErrorView>(SettleStep::Done(t))
                &&& outcome matches Err(e) ==> next == Err::<SettleStep, StoreErrorView>(e@)
            }
        }),
{
}

/// A store or a target is named by its index.
pub proof fn law_how_an_index_is_named(index: Seq<char>)
    ensures
        label(index) == "opensearch("@ + index + ")"@,
{
}

} // verus!
