//! The metrics routes: a user's watch-time summary, and the heartbeat that
//! counts a minute of watching and keeps the leaderboards in step.
use vstd::prelude::*;
use crate::http::{error_reply, Reply, ReplyView, SomeError};
use crate::http::v1::{
    access_token, authenticated_user, header_text, is_visible_ascii, not_authenticated,
    readable_bytes, same_text,
};
use crate::models::v1::metrics::{
    UserMetrics, UserMetricsByCategory, UserMetricsByStream, UserMostWatchedCategoryLeaderboard,
    UserMostWatchedChannelsLeaderboard,
};
use crate::models::v1::users::UserToken;

verus! {

/// The body of a heartbeat: the channel being watched and its category.
#[derive(Clone, Debug, PartialEq, Eq)]
pub struct UserMetricsDTO {
    pub channel_id: String,
    pub category_id: String,
}

/// The access token that an `Authorization` header holds, when it holds one
/// that reads as text.
pub open spec fn token_of(header: Option<&[u8]>) -> Option<Seq<char>> {
    match header {
        Some(b) => header_text(b@),
        None => None,
    }
}

/// The minutes that one heartbeat adds to the watch time.
pub open spec fn heartbeat_minutes() -> i64 {
    1
}

/// The number of leaderboard rows that the summary reads per page.
pub open spec fn board_page_size() -> i32 {
    5
}

/// The message when a user has no metrics yet.
pub open spec fn metrics_missing_message() -> Seq<char> {
    "User metrics not found"@
}

/// The body of the summary: the user's overall counters and both
/// leaderboards, each field under the JSON key of its name. The category
/// leaderboard stands under `user_metrics_by_channel` and the channel
/// leaderboard under `user_metrics_by_category`.
#[derive(Clone, Debug, PartialEq, Eq)]
pub struct MetricsSummary {
    pub main_metrics: UserMetrics,
    pub user_metrics_by_channel: Vec<UserMostWatchedCategoryLeaderboard>,
    pub user_metrics_by_category: Vec<UserMostWatchedChannelsLeaderboard>,
}

/// What the summary route does next.
#[derive(Clone, Debug, PartialEq, Eq)]
pub enum MetricsStep {
    /// Look up the user that this access token belongs to.
    FindToken(String),
    /// Look up the overall counters of the user.
    FindMetrics { user_id: i32 },
    /// Read the user's category leaderboard, `page_size` rows per page; the
    /// counters were read as `main_metrics`.
    ListCategoryBoard { user_id: i32, page_size: i32, main_metrics: UserMetrics },
    /// Read the user's channel leaderboard; the counters and the category
    /// leaderboard were read as given.
    ListChannelBoard {
        user_id: i32,
        main_metrics: UserMetrics,
        category_board: Vec<UserMostWatchedCategoryLeaderboard>,
    },
    /// Answer `200` with this summary as JSON.
    RespondWithMetrics(MetricsSummary),
    /// Answer with this reply.
    Respond(Reply),
}

/// The first step of the summary: a request without a readable
/// `Authorization` header is answered `401`.
pub fn get_user_metrics_begin(header: Option<&[u8]>) -> (s: MetricsStep)
    ensures
        match token_of(header) {
            Some(t) => s matches MetricsStep::FindToken(token) && token@ == t,
            None => s matches MetricsStep::Respond(r) && r@ == (ReplyView::Empty { status: 401 }),
        },
        match header {
            Some(b) => if readable_bytes(b@) {
                s matches MetricsStep::FindToken(token) && same_text(token@, b@)
            } else {
                s matches MetricsStep::Respond(r) && r@ == (ReplyView::Empty { status: 401 })
            },
            None => s matches MetricsStep::Respond(r) && r@ == (ReplyView::Empty { status: 401 }),
        },
{
    match access_token(header) {
        Some(t) => MetricsStep::FindToken(t),
        None => MetricsStep::Respond(not_authenticated()),
    }
}

/// The step after the token lookup: an unknown token is answered `401`.
pub fn get_user_metrics_authenticated(row: Option<UserToken>) -> (s: MetricsStep)
    requires
        row matches Some(t) ==> t.user_id is Some,
    ensures
        match row {
            Some(t) => s == (MetricsStep::FindMetrics { user_id: t.user_id->0 }),
            None => s matches MetricsStep::Respond(r) && r@ == (ReplyView::Empty { status: 401 }),
        },
{
    match authenticated_user(row) {
        Some(user_id) => MetricsStep::FindMetrics { user_id },
        None => MetricsStep::Respond(not_authenticated()),
    }
}

/// The step after the counters were looked up: a user without counters is
/// answered `404`; otherwise the category leaderboard is read next.
pub fn get_user_metrics_found(user_id: i32, found: Result<Option<UserMetrics>, SomeError>) -> (s: MetricsStep)
    ensures
        match found {
            Ok(Some(m)) => s == (MetricsStep::ListCategoryBoard {
                user_id,
                page_size: board_page_size(),
                main_metrics: m,
            }),
            Ok(None) => s matches MetricsStep::Respond(r) && r@ == (ReplyView::Problem {
                status: 404,
                error: "Not Found"@,
                message: metrics_missing_message(),
            }),
            Err(e) => s matches MetricsStep::Respond(r) && r@ == error_reply(e),
        },
        found matches Ok(Some(m)) ==> (s matches MetricsStep::ListCategoryBoard {
            user_id: asked,
            page_size,
            main_metrics,
        } && asked == user_id && page_size == 5 && main_metrics == m),
{
    match found {
        Err(e) => MetricsStep::Respond(e.error_response()),
        Ok(None) => MetricsStep::Respond(
            Reply::Problem {
                status: 404,
                error: "Not Found".to_owned(),
                message: "User metrics not found".to_owned(),
            },
        ),
        Ok(Some(m)) => MetricsStep::ListCategoryBoard { user_id, page_size: 5, main_metrics: m },
    }
}

/// The step after the category leaderboard was read: the channel
/// leaderboard is read next.
pub fn get_user_metrics_category_listed(
    user_id: i32,
    main_metrics: UserMetrics,
    listed: Result<Vec<UserMostWatchedCategoryLeaderboard>, SomeError>,
) -> (s: MetricsStep)
    ensures
        match listed {
            Ok(rows) => s == (MetricsStep::ListChannelBoard {
                user_id,
                main_metrics,
                category_board: rows,
            }),
            Err(e) => s matches MetricsStep::Respond(r) && r@ == error_reply(e),
        },
{
    match listed {
        Ok(rows) => MetricsStep::ListChannelBoard { user_id, main_metrics, category_board: rows },
        Err(e) => MetricsStep::Respond(e.error_response()),
    }
}

/// The step after the channel leaderboard was read: the summary is
/// answered with the counters and both leaderboards as they were read.
pub fn get_user_metrics_channel_listed(
    main_metrics: UserMetrics,
    category_board: Vec<UserMostWatchedCategoryLeaderboard>,
    listed: Result<Vec<UserMostWatchedChannelsLeaderboard>, SomeError>,
) -> (s: MetricsStep)
    ensures
        match listed {
            Ok(rows) => s == MetricsStep::RespondWithMetrics(
                MetricsSummary {
                    main_metrics,
                    user_metrics_by_channel: category_board,
                    user_metrics_by_category: rows,
                },
            ),
            Err(e) => s matches MetricsStep::Respond(r) && r@ == error_reply(e),
        },
{
    match listed {
        Ok(rows) => MetricsStep::RespondWithMetrics(
            MetricsSummary {
                main_metrics,
                user_metrics_by_channel: category_board,
                user_metrics_by_category: rows,
            },
        ),
        Err(e) => MetricsStep::Respond(e.error_response()),
    }
}

/// The three counters that a heartbeat adds a minute to.
#[derive(Clone, Debug, PartialEq, Eq)]
pub struct HeartbeatCounters {
    /// The user's counters over all channels.
    pub main: UserMetrics,
    /// The user's counters on the watched channel.
    pub by_channel: UserMetricsByStream,
    /// The user's counters in the watched category.
    pub by_category: UserMetricsByCategory,
}

/// The counters of `user_id` that a heartbeat with `payload` touches, as
/// keys: no counter value is set.
pub open spec fn heartbeat_keys(c: HeartbeatCounters, user_id: i32, payload: UserMetricsDTO) -> bool {
    &&& c.main.user_id == user_id
    &&& c.main.minutes_watched is None
    &&& c.main.messages_count is None
    &&& c.by_channel.user_id == user_id
    &&& c.by_channel.channel_id@ == payload.channel_id@
    &&& c.by_channel.minutes_watched is None
    &&& c.by_channel.messages_count is None
    &&& c.by_category.user_id == user_id
    &&& c.by_category.category_id@ == payload.category_id@
    &&& c.by_category.minutes_watched is None
    &&& c.by_category.messages_count is None
}

/// The leaderboard rows that a heartbeat replaces: each stale row is
/// removed and the new row, one minute further, takes its place.
#[derive(Clone, Debug, PartialEq, Eq)]
pub struct LeaderboardUpdate {
    pub stale_category: UserMostWatchedCategoryLeaderboard,
    pub stale_channel: UserMostWatchedChannelsLeaderboard,
    pub category_row: UserMostWatchedCategoryLeaderboard,
    pub channel_row: UserMostWatchedChannelsLeaderboard,
}

/// The minutes that a leaderboard row holds for a counter value: the value
/// cut to 32 bits.
pub open spec fn board_minutes(counter: i64) -> i32 {
    counter as i32
}

/// Whether counter values read back after a heartbeat can be turned into
/// leaderboard rows: both are present, and neither holds the least 32-bit
/// value once cut to 32 bits, so that the minute before it exists.
pub open spec fn counters_usable(by_category: Option<i64>, by_channel: Option<i64>) -> bool {
    &&& by_category matches Some(c) && board_minutes(c) > i32::MIN
    &&& by_channel matches Some(h) && board_minutes(h) > i32::MIN
}

/// The leaderboard update of `user_id` for `payload` after the counters read
/// back as `by_category` and `by_channel` minutes.
pub open spec fn update_for(
    u: LeaderboardUpdate,
    user_id: i32,
    payload: UserMetricsDTO,
    by_category: i64,
    by_channel: i64,
) -> bool {
    &&& u.category_row.user_id == user_id
    &&& u.category_row.category_id@ == payload.category_id@
    &&& u.category_row.minutes_watched == board_minutes(by_category)
    &&& u.channel_row.user_id == user_id
    &&& u.channel_row.channel_id@ == payload.channel_id@
    &&& u.channel_row.minutes_watched == board_minutes(by_channel)
    &&& u.stale_category.user_id == user_id
    &&& u.stale_category.category_id@ == payload.category_id@
    &&& u.stale_category.minutes_watched == board_minutes(by_category) - 1
    &&& u.stale_channel.user_id == user_id
    &&& u.stale_channel.channel_id@ == payload.channel_id@
    &&& u.stale_channel.minutes_watched == board_minutes(by_channel) - 1
}

/// One of the three counters that a heartbeat adds to.
#[derive(Clone, Copy, Debug, PartialEq, Eq)]
pub enum CounterKind {
    /// The user's counters over all channels.
    Main,
    /// The user's counters on the watched channel.
    Channel,
    /// The user's counters in the watched category.
    Category,
}

/// The counter incremented after `k`: main, then channel, then category.
pub open spec fn counter_after(k: CounterKind) -> Option<CounterKind> {
    match k {
        CounterKind::Main => Some(CounterKind::Channel),
        CounterKind::Channel => Some(CounterKind::Category),
        CounterKind::Category => None,
    }
}

/// One of the four leaderboard writes of a heartbeat.
#[derive(Clone, Copy, Debug, PartialEq, Eq)]
pub enum BoardWrite {
    /// Remove the stale category row.
    RemoveStaleCategory,
    /// Remove the stale channel row.
    RemoveStaleChannel,
    /// Insert the new category row.
    InsertCategory,
    /// Insert the new channel row.
    InsertChannel,
}

/// The write made after `w`: both removals first (category, then channel),
/// then both inserts (category, then channel).
pub open spec fn write_after(w: BoardWrite) -> Option<BoardWrite> {
    match w {
        BoardWrite::RemoveStaleCategory => Some(BoardWrite::RemoveStaleChannel),
        BoardWrite::RemoveStaleChannel => Some(BoardWrite::InsertCategory),
        BoardWrite::InsertCategory => Some(BoardWrite::InsertChannel),
        BoardWrite::InsertChannel => None,
    }
}

/// What the heartbeat route does next; each step other than the answer is
/// one database call.
#[derive(Clone, Debug, PartialEq, Eq)]
pub enum HeartbeatStep {
    /// Look up the user that this access token belongs to.
    FindToken(String),
    /// Add `minutes` to the counter `counter` of `counters`.
    Increment { counters: HeartbeatCounters, counter: CounterKind, minutes: i64 },
    /// Read back the category counter.
    ReadCategory(HeartbeatCounters),
    /// Read back the channel counter; the category counter read back as `by_category`.
    ReadChannel { counters: HeartbeatCounters, by_category: Option<i64> },
    /// Make the leaderboard write `write` of `update`.
    Write { update: LeaderboardUpdate, write: BoardWrite },
    /// Answer with this reply.
    Respond(Reply),
}

/// The first step of a heartbeat: a request without a readable
/// `Authorization` header is answered `401`.
pub fn post_heartbeat_begin(header: Option<&[u8]>) -> (s: HeartbeatStep)
    ensures
        match token_of(header) {
            Some(t) => s matches HeartbeatStep::FindToken(token) && token@ == t,
            None => s matches HeartbeatStep::Respond(r) && r@ == (ReplyView::Empty { status: 401 }),
        },
        match header {
            Some(b) => if readable_bytes(b@) {
                s matches HeartbeatStep::FindToken(token) && same_text(token@, b@)
            } else {
                s matches HeartbeatStep::Respond(r) && r@ == (ReplyView::Empty { status: 401 })
            },
            None => s matches HeartbeatStep::Respond(r) && r@ == (ReplyView::Empty { status: 401 }),
        },
{
    match access_token(header) {
        Some(t) => HeartbeatStep::FindToken(t),
        None => HeartbeatStep::Respond(not_authenticated()),
    }
}

/// The step after the token lookup: an unknown token is answered `401`;
/// for a known one the user's main counter is incremented first.
pub fn post_heartbeat_authenticated(row: Option<UserToken>, payload: &UserMetricsDTO) -> (s: HeartbeatStep)
    requires
        row matches Some(t) ==> t.user_id is Some,
    ensures
        match row {
            Some(t) => s matches HeartbeatStep::Increment { counters, counter, minutes }
                && heartbeat_keys(counters, t.user_id->0, *payload) && counter == CounterKind::Main
                && minutes == heartbeat_minutes(),
            None => s matches HeartbeatStep::Respond(r) && r@ == (ReplyView::Empty { status: 401 }),
        },
        row matches Some(t) ==> (s matches HeartbeatStep::Increment { counters: c, counter, minutes }
            && c.main.user_id == t.user_id->0 && c.by_channel.user_id == t.user_id->0
            && c.by_category.user_id == t.user_id->0 && c.by_channel.channel_id@ == payload.channel_id@
            && c.by_category.category_id@ == payload.category_id@ && counter == CounterKind::Main
            && minutes == 1),
{
    match authenticated_user(row) {
        None => HeartbeatStep::Respond(not_authenticated()),
        Some(user_id) => HeartbeatStep::Increment {
            counters: HeartbeatCounters {
                main: UserMetrics { user_id, minutes_watched: None, messages_count: None },
                by_channel: UserMetricsByStream {
                    user_id,
                    channel_id: payload.channel_id.clone(),
                    minutes_watched: None,
                    messages_count: None,
                },
                by_category: UserMetricsByCategory {
                    user_id,
                    category_id: payload.category_id.clone(),
                    minutes_watched: None,
                    messages_count: None,
                },
            },
            counter: CounterKind::Main,
            minutes: 1,
        },
    }
}

/// The step after the counter `counter` was incremented: the next counter
/// is incremented, and after the last one the category counter is read
/// back. A failed increment is answered, and no later call is made.
pub fn post_heartbeat_incremented(
    counters: HeartbeatCounters,
    counter: CounterKind,
    minutes: i64,
    incremented: Result<(), SomeError>,
) -> (s: HeartbeatStep)
    ensures
        match incremented {
            Ok(_) => match counter_after(counter) {
                Some(k) => s == (HeartbeatStep::Increment { counters, counter: k, minutes }),
                None => s == HeartbeatStep::ReadCategory(counters),
            },
            Err(e) => s matches HeartbeatStep::Respond(r) && r@ == error_reply(e),
        },
        incremented is Ok ==> match counter {
            CounterKind::Main => s == (HeartbeatStep::Increment {
                counters,
                counter: CounterKind::Channel,
                minutes,
            }),
            CounterKind::Channel => s == (HeartbeatStep::Increment {
                counters,
                counter: CounterKind::Category,
                minutes,
            }),
            CounterKind::Category => s == HeartbeatStep::ReadCategory(counters),
        },
{
    match incremented {
        Err(e) => HeartbeatStep::Respond(e.error_response()),
        Ok(_) => match counter {
            CounterKind::Main => HeartbeatStep::Increment { counters, counter: CounterKind::Channel, minutes },
            CounterKind::Channel => HeartbeatStep::Increment {
                counters,
                counter: CounterKind::Category,
                minutes,
            },
            CounterKind::Category => HeartbeatStep::ReadCategory(counters),
        },
    }
}

/// The step after the category counter was read back: the channel counter
/// is read back next.
pub fn post_heartbeat_category_read(counters: HeartbeatCounters, read: Result<Option<i64>, SomeError>) -> (s: HeartbeatStep)
    ensures
        match read {
            Ok(m) => s == (HeartbeatStep::ReadChannel { counters, by_category: m }),
            Err(e) => s matches HeartbeatStep::Respond(r) && r@ == error_reply(e),
        },
{
    match read {
        Ok(m) => HeartbeatStep::ReadChannel { counters, by_category: m },
        Err(e) => HeartbeatStep::Respond(e.error_response()),
    }
}

/// The step after both counters were read back as minutes: the leaderboard
/// rows of the user move to the new minutes, starting with the removal of
/// the stale category row.
pub fn post_heartbeat_counted(
    user_id: i32,
    payload: &UserMetricsDTO,
    by_category: Option<i64>,
    read: Result<Option<i64>, SomeError>,
) -> (s: HeartbeatStep)
    requires
        read matches Ok(by_channel) ==> counters_usable(by_category, by_channel),
    ensures
        match read {
            Ok(by_channel) => s matches HeartbeatStep::Write { update, write } && update_for(
                update,
                user_id,
                *payload,
                by_category->0,
                by_channel->0,
            ) && write == BoardWrite::RemoveStaleCategory,
            Err(e) => s matches HeartbeatStep::Respond(r) && r@ == error_reply(e),
        },
        read matches Ok(by_channel) ==> (s matches HeartbeatStep::Write { update: u, write }
            && write == BoardWrite::RemoveStaleCategory
            && u.category_row.user_id == user_id && u.stale_category.user_id == user_id
            && u.channel_row.user_id == user_id && u.stale_channel.user_id == user_id
            && u.category_row.category_id@ == payload.category_id@
            && u.stale_category.category_id@ == payload.category_id@
            && u.channel_row.channel_id@ == payload.channel_id@
            && u.stale_channel.channel_id@ == payload.channel_id@
            && u.category_row.minutes_watched == (by_category->0) as i32
            && u.channel_row.minutes_watched == (by_channel->0) as i32
            && u.stale_category.minutes_watched + 1 == u.category_row.minutes_watched
            && u.stale_channel.minutes_watched + 1 == u.channel_row.minutes_watched),
{
    match read {
        Err(e) => HeartbeatStep::Respond(e.error_response()),
        Ok(by_channel) => {
            let category_minutes = match by_category {
                Some(m) => m as i32,
                None => 0,
            };
            let channel_minutes = match by_channel {
                Some(m) => m as i32,
                None => 0,
            };
            HeartbeatStep::Write {
                update: LeaderboardUpdate {
                    stale_category: UserMostWatchedCategoryLeaderboard {
                        user_id,
                        category_id: payload.category_id.clone(),
                        minutes_watched: category_minutes - 1,
                    },
                    stale_channel: UserMostWatchedChannelsLeaderboard {
                        user_id,
                        channel_id: payload.channel_id.clone(),
                        minutes_watched: channel_minutes - 1,
                    },
                    category_row: UserMostWatchedCategoryLeaderboard {
                        user_id,
                        category_id: payload.category_id.clone(),
                        minutes_watched: category_minutes,
                    },
                    channel_row: UserMostWatchedChannelsLeaderboard {
                        user_id,
                        channel_id: payload.channel_id.clone(),
                        minutes_watched: channel_minutes,
                    },
                },
                write: BoardWrite::RemoveStaleCategory,
            }
        },
    }
}

/// The step after the leaderboard write `write` was made: the next write,
/// and after the last one the answer `200` with an empty body. A failed
/// write is answered, and no later call is made.
pub fn post_heartbeat_written(
    update: LeaderboardUpdate,
    write: BoardWrite,
    written: Result<(), SomeError>,
) -> (s: HeartbeatStep)
    ensures
        match written {
            Ok(_) => match write_after(write) {
                Some(w) => s == (HeartbeatStep::Write { update, write: w }),
                None => s matches HeartbeatStep::Respond(r) && r@ == (ReplyView::Empty {
                    status: 200,
                }),
            },
            Err(e) => s matches HeartbeatStep::Respond(r) && r@ == error_reply(e),
        },
        written is Ok ==> match write {
            BoardWrite::RemoveStaleCategory => s == (HeartbeatStep::Write {
                update,
                write: BoardWrite::RemoveStaleChannel,
            }),
            BoardWrite::RemoveStaleChannel => s == (HeartbeatStep::Write {
                update,
                write: BoardWrite::InsertCategory,
            }),
            BoardWrite::InsertCategory => s == (HeartbeatStep::Write {
                update,
                write: BoardWrite::InsertChannel,
            }),
            BoardWrite::InsertChannel => s matches HeartbeatStep::Respond(r) && r@ == (
            ReplyView::Empty { status: 200 }),
        },
{
    match written {
        Err(e) => HeartbeatStep::Respond(e.error_response()),
        Ok(_) => match write {
            BoardWrite::RemoveStaleCategory => HeartbeatStep::Write {
                update,
                write: BoardWrite::RemoveStaleChannel,
            },
            BoardWrite::RemoveStaleChannel => HeartbeatStep::Write {
                update,
                write: BoardWrite::InsertCategory,
            },
            BoardWrite::InsertCategory => HeartbeatStep::Write { update, write: BoardWrite::InsertChannel },
            BoardWrite::InsertChannel => HeartbeatStep::Respond(Reply::Empty { status: 200 }),
        },
    }
}

/// Law of the heartbeat's leaderboard update: each row it removes is the
/// row of the same user and key that holds one minute less than the row
/// that it inserts.
pub proof fn lemma_heartbeat_rows(
    u: LeaderboardUpdate,
    user_id: i32,
    payload: UserMetricsDTO,
    by_category: i64,
    by_channel: i64,
)
    requires
        update_for(u, user_id, payload, by_category, by_channel),
    ensures
        u.stale_category.user_id == user_id,
        u.category_row.user_id == user_id,
        u.stale_channel.user_id == user_id,
        u.channel_row.user_id == user_id,
        u.category_row.category_id@ == payload.category_id@,
        u.channel_row.channel_id@ == payload.channel_id@,
        u.stale_category.user_id == u.category_row.user_id,
        u.stale_category.category_id@ == u.category_row.category_id@,
        u.stale_category.minutes_watched + 1 == u.category_row.minutes_watched,
        u.stale_channel.user_id == u.channel_row.user_id,
        u.stale_channel.channel_id@ == u.channel_row.channel_id@,
        u.stale_channel.minutes_watched + 1 == u.channel_row.minutes_watched,
{
}

/// A counter value within the 32-bit range keeps its value on a leaderboard row.
pub proof fn lemma_board_minutes_in_range(counter: i64)
    requires
        i32::MIN <= counter <= i32::MAX,
    ensures
        board_minutes(counter) == counter,
{
    assert(i32::MIN <= counter <= i32::MAX ==> (counter as i32) == counter) by (bit_vector);
}

/// Law of the heartbeat's counters: each of the three counters that a
/// heartbeat increments belongs to the authenticated user, and the channel
/// and category counters are those of the watched channel and category.
pub proof fn lemma_heartbeat_counters(c: HeartbeatCounters, user_id: i32, payload: UserMetricsDTO)
    requires
        heartbeat_keys(c, user_id, payload),
    ensures
        c.main.user_id == user_id,
        c.by_channel.user_id == user_id,
        c.by_category.user_id == user_id,
        c.by_channel.channel_id@ == payload.channel_id@,
        c.by_category.category_id@ == payload.category_id@,
{
}

/// Law of the user routes' authentication: the token looked up is exactly
/// the text of the `Authorization` header, byte for byte; a header that
/// does not read as text, or no header, gives no token.
pub proof fn lemma_token_is_header_text(header: Option<&[u8]>)
    ensures
        match header {
            Some(b) => if readable_bytes(b@) {
                token_of(header) matches Some(t) && same_text(t, b@)
            } else {
                token_of(header) is None
            },
            None => token_of(header) is None,
        },
{
    if let Some(b) = header {
        if !readable_bytes(b@) {
            let i = choose|i: int| 0 <= i < b@.len() && !((32 <= b@[i] && b@[i] < 127) || b@[i] == 9);
            assert(!is_visible_ascii(b@[i]));
        }
    }
}

}
