use twitch_extension_api::http::v1::settings_controller::{
    get_settings_begin, get_settings_next, put_settings_begin, put_settings_stored, PutSettingsStep,
    SettingsLookup, SettingsStep,
};
use twitch_extension_api::http::{Reply, SomeError, StoreError};
use twitch_extension_api::models::v1::settings::{SettingOptions, Settings, SettingsByUsername};

fn by_username(channel: &str, slug: &str) -> SettingsByUsername {
    SettingsByUsername {
        user_id: 123,
        username: "danielhe4rt".to_string(),
        channel_id: channel.to_string(),
        enabled: true,
        pronouns: SettingOptions {
            slug: slug.to_string(),
            name: "He/Him".to_string(),
            translation_key: "HeHim".to_string(),
        },
        ..Default::default()
    }
}

#[test]
fn test_get_settings() {
    let settings = Settings {
        user_id: 123,
        username: "danielhe4rt".to_string(),
        ..Default::default()
    };
    // The store holds this one record, under the channel it was stored with.
    let stored = SettingsByUsername {
        user_id: settings.user_id,
        username: settings.username.clone(),
        channel_id: settings.channel_id.clone(),
        enabled: true,
        ..Default::default()
    };
    let query = |username: &str, channel_id: &str| -> Vec<SettingsByUsername> {
        if username == stored.username && channel_id == stored.channel_id {
            vec![stored.clone()]
        } else {
            vec![]
        }
    };

    let uri_username = settings.username.clone();
    let mut step: SettingsStep<SettingsByUsername> = get_settings_begin(uri_username, None);
    let mut queries = 0;
    let parsed_response = loop {
        step = match step {
            SettingsStep::Query { at, username, channel_id } => {
                queries += 1;
                let rows = query(&username, &channel_id);
                get_settings_next(at, Ok(rows))
            }
            SettingsStep::Found(row) => break row,
            SettingsStep::Respond(r) => panic!("answered {:?}", r),
        };
    };
    assert_eq!(queries, 2);
    assert_eq!(parsed_response.username, settings.username);
}

#[test]
fn test_put_settings() {
    let secret = "SECRET-REDACTED".to_string();
    let mut settings = Settings {
        user_id: 123,
        username: "danielhe4rt".to_string(),
        pronouns: Some(SettingOptions {
            slug: "she-her".to_string(),
            name: "He/Him".to_string(),
            translation_key: "HeHim".to_string(),
        }),
        ..Default::default()
    };
    settings.pronouns = Some(SettingOptions {
        slug: "he-him".to_string(),
        name: "He/Him".to_string(),
        translation_key: "HeHim".to_string(),
    });
    let header = secret.clone();
    let to_store = match put_settings_begin(Some(header.as_bytes()), secret, settings.clone()) {
        PutSettingsStep::Store(s) => s,
        other => panic!("unexpected step {:?}", other),
    };
    assert_eq!(to_store, settings);
    let parsed_response = match put_settings_stored(to_store, Ok(())) {
        PutSettingsStep::Echo(s) => s,
        other => panic!("unexpected step {:?}", other),
    };
    assert_eq!(parsed_response.username, settings.username);
    assert_eq!(
        parsed_response.pronouns.map(|p| p.slug),
        Some("he-him".to_string())
    );
}

#[test]
fn put_settings_refused() {
    let secret = "SECRET-REDACTED".to_string();
    assert_eq!(
        put_settings_begin(None, secret.clone(), Settings::default()),
        PutSettingsStep::Respond(Reply::Problem {
            status: 401,
            error: "Unauthorized".to_string(),
            message: "You must be logged in to update your settings".to_string(),
        })
    );
    assert_eq!(
        put_settings_begin(Some(b"guess"), secret, Settings::default()),
        PutSettingsStep::Respond(Reply::Problem {
            status: 401,
            error: "Unauthorized".to_string(),
            message: "Invalid token".to_string(),
        })
    );
}

#[test]
fn put_settings_store_failure() {
    let e = SomeError::CharybdisError(StoreError::Other("timeout".to_string()));
    assert_eq!(
        put_settings_stored(Settings::default(), Err(e)),
        PutSettingsStep::Respond(Reply::Failure { status: 500, message: "timeout".to_string() })
    );
}

#[test]
fn channel_settings_win() {
    let step: SettingsStep<SettingsByUsername> =
        get_settings_begin("danielhe4rt".to_string(), Some("chan-1".to_string()));
    let at = match step {
        SettingsStep::Query { at, channel_id, .. } => {
            assert_eq!(channel_id, "chan-1");
            at
        }
        other => panic!("unexpected step {:?}", other),
    };
    let rows = vec![by_username("chan-1", "a"), by_username("chan-1", "b")];
    assert_eq!(get_settings_next(at, Ok(rows)), SettingsStep::Found(by_username("chan-1", "a")));
}

#[test]
fn global_settings_are_the_fallback() {
    let at = SettingsLookup::ChannelAsked { username: "danielhe4rt".to_string() };
    let next: SettingsStep<SettingsByUsername> = get_settings_next(at, Ok(vec![]));
    let at = match next {
        SettingsStep::Query { at, username, channel_id } => {
            assert_eq!(username, "danielhe4rt");
            assert_eq!(channel_id, "global");
            assert_eq!(at, SettingsLookup::FallbackAsked);
            at
        }
        other => panic!("unexpected step {:?}", other),
    };
    assert_eq!(
        get_settings_next(at.clone(), Ok(vec![by_username("global", "x")])),
        SettingsStep::Found(by_username("global", "x"))
    );
    assert_eq!(
        get_settings_next::<SettingsByUsername>(at, Ok(vec![])),
        SettingsStep::Respond(Reply::Empty { status: 404 })
    );
}

#[test]
fn lookup_failure_is_answered() {
    let e = SomeError::CharybdisError(StoreError::NotFound("q".to_string()));
    assert_eq!(
        get_settings_next::<SettingsByUsername>(SettingsLookup::FallbackAsked, Err(e)),
        SettingsStep::Respond(Reply::Failure { status: 404, message: "q".to_string() })
    );
}

#[test]
fn lookup_without_channel_falls_back_to_unnamed_channel() {
    let step: SettingsStep<SettingsByUsername> = get_settings_begin("danielhe4rt".to_string(), None);
    let at = match step {
        SettingsStep::Query { at, username, channel_id } => {
            assert_eq!(username, "danielhe4rt");
            assert_eq!(channel_id, "global");
            assert_eq!(at, SettingsLookup::GlobalAsked { username: "danielhe4rt".to_string() });
            at
        }
        other => panic!("unexpected step {:?}", other),
    };
    assert_eq!(
        get_settings_next(at.clone(), Ok(vec![by_username("global", "g")])),
        SettingsStep::Found(by_username("global", "g"))
    );
    let at = match get_settings_next::<SettingsByUsername>(at, Ok(vec![])) {
        SettingsStep::Query { at, username, channel_id } => {
            assert_eq!(username, "danielhe4rt");
            assert_eq!(channel_id, "");
            assert_eq!(at, SettingsLookup::FallbackAsked);
            at
        }
        other => panic!("unexpected step {:?}", other),
    };
    assert_eq!(
        get_settings_next::<SettingsByUsername>(at, Ok(vec![])),
        SettingsStep::Respond(Reply::Empty { status: 404 })
    );
}
