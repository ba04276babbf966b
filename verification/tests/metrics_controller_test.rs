use twitch_extension_api::http::v1::auth_controller::{
    post_user_authentication_begin, post_user_authentication_stored, AuthenticationStep,
};
use twitch_extension_api::http::v1::metrics_controller::{
    get_user_metrics_authenticated, get_user_metrics_begin, get_user_metrics_category_listed,
    get_user_metrics_channel_listed, get_user_metrics_found, post_heartbeat_authenticated,
    post_heartbeat_begin, post_heartbeat_category_read, post_heartbeat_counted,
    post_heartbeat_incremented, post_heartbeat_written, BoardWrite, CounterKind, HeartbeatStep,
    MetricsStep, UserMetricsDTO,
};
use twitch_extension_api::http::{Reply, SomeError, StoreError};
use twitch_extension_api::models::v1::metrics::{
    UserMetrics, UserMostWatchedCategoryLeaderboard, UserMostWatchedChannelsLeaderboard,
};
use twitch_extension_api::models::v1::users::{AuthenticateDTO, UserToken};

fn token(user: i32) -> UserToken {
    UserToken { access_token: "tok".to_string(), user_id: Some(user) }
}

fn payload() -> UserMetricsDTO {
    UserMetricsDTO { channel_id: "chan-9".to_string(), category_id: "just-chatting".to_string() }
}

fn failure() -> SomeError {
    SomeError::CharybdisError(StoreError::Other("down".to_string()))
}

#[test]
fn metrics_need_a_token() {
    assert_eq!(get_user_metrics_begin(None), MetricsStep::Respond(Reply::Empty { status: 401 }));
    assert_eq!(
        get_user_metrics_begin(Some(b"\x01")),
        MetricsStep::Respond(Reply::Empty { status: 401 })
    );
    assert_eq!(get_user_metrics_begin(Some(b"tok")), MetricsStep::FindToken("tok".to_string()));
    assert_eq!(
        get_user_metrics_authenticated(None),
        MetricsStep::Respond(Reply::Empty { status: 401 })
    );
    assert_eq!(get_user_metrics_authenticated(Some(token(7))), MetricsStep::FindMetrics { user_id: 7 });
}

fn counters(user: i32) -> UserMetrics {
    UserMetrics { user_id: user, minutes_watched: Some(90), messages_count: Some(4) }
}

#[test]
fn metrics_summary_flow() {
    assert_eq!(
        get_user_metrics_found(7, Ok(Some(counters(7)))),
        MetricsStep::ListCategoryBoard { user_id: 7, page_size: 5, main_metrics: counters(7) }
    );
    assert_eq!(
        get_user_metrics_found(7, Ok(None)),
        MetricsStep::Respond(Reply::Problem {
            status: 404,
            error: "Not Found".to_string(),
            message: "User metrics not found".to_string(),
        })
    );
    assert_eq!(
        get_user_metrics_found(7, Err(failure())),
        MetricsStep::Respond(Reply::Failure { status: 500, message: "down".to_string() })
    );
    let category_board = vec![UserMostWatchedCategoryLeaderboard {
        user_id: 7,
        category_id: "just-chatting".to_string(),
        minutes_watched: 60,
    }];
    let channel_board = vec![
        UserMostWatchedChannelsLeaderboard { user_id: 7, channel_id: "chan-9".to_string(), minutes_watched: 50 },
        UserMostWatchedChannelsLeaderboard { user_id: 7, channel_id: "chan-2".to_string(), minutes_watched: 10 },
    ];
    assert_eq!(
        get_user_metrics_category_listed(7, counters(7), Ok(category_board.clone())),
        MetricsStep::ListChannelBoard {
            user_id: 7,
            main_metrics: counters(7),
            category_board: category_board.clone(),
        }
    );
    assert_eq!(
        get_user_metrics_category_listed(7, counters(7), Err(failure())),
        MetricsStep::Respond(Reply::Failure { status: 500, message: "down".to_string() })
    );
    match get_user_metrics_channel_listed(counters(7), category_board.clone(), Ok(channel_board.clone())) {
        MetricsStep::RespondWithMetrics(summary) => {
            assert_eq!(summary.main_metrics, counters(7));
            // The category leaderboard stands under `user_metrics_by_channel`, and the other way round.
            assert_eq!(summary.user_metrics_by_channel, category_board);
            assert_eq!(summary.user_metrics_by_category, channel_board);
        }
        other => panic!("unexpected step {:?}", other),
    }
    assert_eq!(
        get_user_metrics_channel_listed(counters(7), vec![], Err(failure())),
        MetricsStep::Respond(Reply::Failure { status: 500, message: "down".to_string() })
    );
}

#[test]
fn heartbeat_flow() {
    assert_eq!(post_heartbeat_begin(None), HeartbeatStep::Respond(Reply::Empty { status: 401 }));
    assert_eq!(post_heartbeat_begin(Some(b"tok")), HeartbeatStep::FindToken("tok".to_string()));
    let p = payload();
    assert_eq!(
        post_heartbeat_authenticated(None, &p),
        HeartbeatStep::Respond(Reply::Empty { status: 401 })
    );
    let counters = match post_heartbeat_authenticated(Some(token(42)), &p) {
        HeartbeatStep::Increment { counters, counter, minutes } => {
            assert_eq!(counter, CounterKind::Main);
            assert_eq!(minutes, 1);
            counters
        }
        other => panic!("unexpected step {:?}", other),
    };
    assert_eq!(counters.main.user_id, 42);
    assert_eq!(counters.main.minutes_watched, None);
    assert_eq!(counters.by_channel.channel_id, "chan-9");
    assert_eq!(counters.by_category.category_id, "just-chatting");
    assert_eq!(
        post_heartbeat_incremented(counters.clone(), CounterKind::Main, 1, Ok(())),
        HeartbeatStep::Increment { counters: counters.clone(), counter: CounterKind::Channel, minutes: 1 }
    );
    assert_eq!(
        post_heartbeat_incremented(counters.clone(), CounterKind::Channel, 1, Ok(())),
        HeartbeatStep::Increment { counters: counters.clone(), counter: CounterKind::Category, minutes: 1 }
    );
    assert_eq!(
        post_heartbeat_incremented(counters.clone(), CounterKind::Category, 1, Ok(())),
        HeartbeatStep::ReadCategory(counters.clone())
    );
    assert_eq!(
        post_heartbeat_incremented(counters.clone(), CounterKind::Channel, 1, Err(failure())),
        HeartbeatStep::Respond(Reply::Failure { status: 500, message: "down".to_string() })
    );
    assert_eq!(
        post_heartbeat_category_read(counters.clone(), Ok(Some(30))),
        HeartbeatStep::ReadChannel { counters: counters.clone(), by_category: Some(30) }
    );
    let update = match post_heartbeat_counted(42, &p, Some(30), Ok(Some(12))) {
        HeartbeatStep::Write { update, write } => {
            assert_eq!(write, BoardWrite::RemoveStaleCategory);
            update
        }
        other => panic!("unexpected step {:?}", other),
    };
    assert_eq!(update.category_row.minutes_watched, 30);
    assert_eq!(update.stale_category.minutes_watched, 29);
    assert_eq!(update.channel_row.minutes_watched, 12);
    assert_eq!(update.stale_channel.minutes_watched, 11);
    assert_eq!(update.category_row.category_id, "just-chatting");
    assert_eq!(update.stale_channel.channel_id, "chan-9");
    assert_eq!(update.stale_category.user_id, 42);
    let order = [
        BoardWrite::RemoveStaleCategory,
        BoardWrite::RemoveStaleChannel,
        BoardWrite::InsertCategory,
        BoardWrite::InsertChannel,
    ];
    for pair in order.windows(2) {
        assert_eq!(
            post_heartbeat_written(update.clone(), pair[0], Ok(())),
            HeartbeatStep::Write { update: update.clone(), write: pair[1] }
        );
    }
    assert_eq!(
        post_heartbeat_written(update.clone(), BoardWrite::InsertChannel, Ok(())),
        HeartbeatStep::Respond(Reply::Empty { status: 200 })
    );
    assert_eq!(
        post_heartbeat_written(update, BoardWrite::RemoveStaleChannel, Err(failure())),
        HeartbeatStep::Respond(Reply::Failure { status: 500, message: "down".to_string() })
    );
}

#[test]
fn heartbeat_minutes_are_cut_to_32_bits() {
    let p = payload();
    let big: i64 = (1i64 << 32) + 5;
    match post_heartbeat_counted(1, &p, Some(big), Ok(Some(1))) {
        HeartbeatStep::Write { update: u, .. } => {
            assert_eq!(u.category_row.minutes_watched, 5);
            assert_eq!(u.stale_category.minutes_watched, 4);
            assert_eq!(u.channel_row.minutes_watched, 1);
            assert_eq!(u.stale_channel.minutes_watched, 0);
        }
        other => panic!("unexpected step {:?}", other),
    }
}

#[test]
fn heartbeat_read_failure() {
    let e = SomeError::CharybdisError(StoreError::NotFound("counter".to_string()));
    assert_eq!(
        post_heartbeat_counted(1, &payload(), Some(3), Err(e)),
        HeartbeatStep::Respond(Reply::Failure { status: 404, message: "counter".to_string() })
    );
}

#[test]
fn authentication_flow() {
    let secret = "platform".to_string();
    let dto = AuthenticateDTO { user_id: 5, token: "abc".to_string() };
    assert_eq!(
        post_user_authentication_begin(Some(b"platform"), secret.clone(), dto.clone()),
        AuthenticationStep::Store(UserToken { access_token: "abc".to_string(), user_id: Some(5) })
    );
    assert_eq!(
        post_user_authentication_begin(None, secret, dto),
        AuthenticationStep::Respond(Reply::Problem {
            status: 401,
            error: "Unauthorized".to_string(),
            message: "You must be logged in to update your settings".to_string(),
        })
    );
    assert_eq!(post_user_authentication_stored(Ok(())), Reply::Empty { status: 201 });
    assert_eq!(
        post_user_authentication_stored(Err(failure())),
        Reply::Failure { status: 500, message: "down".to_string() }
    );
}
