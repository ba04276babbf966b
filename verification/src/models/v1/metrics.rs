//! Watch-time counters and the leaderboards built from them.
use vstd::prelude::*;

verus! {

/// The counters of a user over all channels; a counter that was never
/// incremented is absent.
#[derive(Clone, Debug, PartialEq, Eq)]
pub struct UserMetrics {
    pub user_id: i32,
    pub minutes_watched: Option<i64>,
    pub messages_count: Option<i64>,
}

/// The counters of a user on one channel.
#[derive(Clone, Debug, PartialEq, Eq)]
pub struct UserMetricsByStream {
    pub user_id: i32,
    pub channel_id: String,
    pub minutes_watched: Option<i64>,
    pub messages_count: Option<i64>,
}

/// The counters of a user in one category.
#[derive(Clone, Debug, PartialEq, Eq)]
pub struct UserMetricsByCategory {
    pub user_id: i32,
    pub category_id: String,
    pub minutes_watched: Option<i64>,
    pub messages_count: Option<i64>,
}

/// A row of a user's category leaderboard.
#[derive(Clone, Debug, PartialEq, Eq)]
pub struct UserMostWatchedCategoryLeaderboard {
    pub user_id: i32,
    pub category_id: String,
    pub minutes_watched: i32,
}

/// A row of a user's channel leaderboard.
#[derive(Clone, Debug, PartialEq, Eq)]
pub struct UserMostWatchedChannelsLeaderboard {
    pub user_id: i32,
    pub channel_id: String,
    pub minutes_watched: i32,
}

}
