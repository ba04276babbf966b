//! The settings routes: storing a user's settings from the platform, and
//! looking them up for a channel with the global settings as fallback.
use vstd::prelude::*;
use crate::http::{error_reply, unauthorized_reply, Reply, ReplyView, SomeError};
use crate::http::v1::{header_bytes, platform_guard, readable_header, same_text, token_complaint};

verus! {

/// What the route that stores settings does next; `T` is a settings record.
#[derive(Clone, Debug, PartialEq, Eq)]
pub enum PutSettingsStep<T> {
    /// Store these settings.
    Store(T),
    /// Answer `200` with these stored settings as JSON.
    Echo(T),
    /// Answer with this reply.
    Respond(Reply),
}

/// A store step as plain values.
pub enum PutSettingsStepView<T> {
    Store(T),
    Echo(T),
    Respond(ReplyView),
}

impl<T> View for PutSettingsStep<T> {
    type V = PutSettingsStepView<T>;

    open spec fn view(&self) -> PutSettingsStepView<T> {
        match self {
            PutSettingsStep::Store(s) => PutSettingsStepView::Store(*s),
            PutSettingsStep::Echo(s) => PutSettingsStepView::Echo(*s),
            PutSettingsStep::Respond(r) => PutSettingsStepView::Respond(r@),
        }
    }
}

/// The first step of storing settings: only a request whose
/// `X-Authorization` header holds the platform secret has its settings
/// stored; the others are answered `401` with the complaint.
pub fn put_settings_begin<T>(header: Option<&[u8]>, platform_secret: String, settings: T) -> (s: PutSettingsStep<T>)
    requires
        readable_header(header),
    ensures
        s@ == match token_complaint(header_bytes(header), platform_secret@) {
            None => PutSettingsStepView::Store(settings),
            Some(m) => PutSettingsStepView::Respond(unauthorized_reply(m)),
        },
        match header {
            Some(b) => if same_text(platform_secret@, b@) {
                s == PutSettingsStep::Store(settings)
            } else {
                s matches PutSettingsStep::Respond(Reply::Problem { status, .. }) && status == 401
            },
            None => s matches PutSettingsStep::Respond(Reply::Problem { status, .. }) && status == 401,
        },
{
    match platform_guard(header, platform_secret) {
        None => PutSettingsStep::Store(settings),
        Some(r) => PutSettingsStep::Respond(r),
    }
}

/// The step after `settings` were stored, or were not: stored settings are
/// echoed as they were stored.
pub fn put_settings_stored<T>(settings: T, stored: Result<(), SomeError>) -> (s: PutSettingsStep<T>)
    ensures
        s@ == match stored {
            Ok(_) => PutSettingsStepView::Echo(settings),
            Err(e) => PutSettingsStepView::Respond(error_reply(e)),
        },
{
    match stored {
        Ok(_) => PutSettingsStep::Echo(settings),
        Err(e) => PutSettingsStep::Respond(e.error_response()),
    }
}

/// The channel whose settings apply where a channel has none of its own.
pub open spec fn global_channel() -> Seq<char> {
    "global"@
}

/// The channel of settings stored without one: the empty text.
pub open spec fn unnamed_channel() -> Seq<char> {
    Seq::<char>::empty()
}

/// Where a settings lookup stands.
#[derive(Clone, Debug, PartialEq, Eq)]
pub enum SettingsLookup {
    /// The settings of the requested channel were asked for; the global
    /// settings come next.
    ChannelAsked { username: String },
    /// The request named no channel and the global settings were asked
    /// for; the settings stored without a channel come next.
    GlobalAsked { username: String },
    /// The last query was made; nothing comes after it.
    FallbackAsked,
}

/// A lookup state as plain values.
pub enum SettingsLookupView {
    ChannelAsked { username: Seq<char> },
    GlobalAsked { username: Seq<char> },
    FallbackAsked,
}

impl View for SettingsLookup {
    type V = SettingsLookupView;

    open spec fn view(&self) -> SettingsLookupView {
        match self {
            SettingsLookup::ChannelAsked { username } => SettingsLookupView::ChannelAsked {
                username: username@,
            },
            SettingsLookup::GlobalAsked { username } => SettingsLookupView::GlobalAsked {
                username: username@,
            },
            SettingsLookup::FallbackAsked => SettingsLookupView::FallbackAsked,
        }
    }
}

/// What the settings lookup does next; `T` is a stored settings record.
#[derive(Clone, Debug, PartialEq, Eq)]
pub enum SettingsStep<T> {
    /// Ask the store for the settings of `username` on `channel_id`, then
    /// continue from `at`.
    Query { at: SettingsLookup, username: String, channel_id: String },
    /// Answer `200` with this record as JSON.
    Found(T),
    /// Answer with this reply.
    Respond(Reply),
}

/// A lookup step as plain values.
pub enum SettingsStepView<T> {
    Query { at: SettingsLookupView, username: Seq<char>, channel_id: Seq<char> },
    Found(T),
    Respond(ReplyView),
}

impl<T> View for SettingsStep<T> {
    type V = SettingsStepView<T>;

    open spec fn view(&self) -> SettingsStepView<T> {
        match self {
            SettingsStep::Query { at, username, channel_id } => SettingsStepView::Query {
                at: at@,
                username: username@,
                channel_id: channel_id@,
            },
            SettingsStep::Found(t) => SettingsStepView::Found(*t),
            SettingsStep::Respond(r) => SettingsStepView::Respond(r@),
        }
    }
}

/// The first query of a lookup: the requested channel, or the global
/// channel when the request names none.
pub open spec fn settings_start<T>(username: Seq<char>, channel_id: Option<Seq<char>>) -> SettingsStepView<T> {
    match channel_id {
        Some(c) => SettingsStepView::Query {
            at: SettingsLookupView::ChannelAsked { username },
            username,
            channel_id: c,
        },
        None => SettingsStepView::Query {
            at: SettingsLookupView::GlobalAsked { username },
            username,
            channel_id: global_channel(),
        },
    }
}

/// The step after a query gave `rows`: the first record found answers.
/// When none was found, a lookup for a named channel asks for the global
/// settings, and a lookup without a channel asks for the settings stored
/// without a channel; when the second query finds nothing either, the
/// answer is `404`.
pub open spec fn settings_after<T>(at: SettingsLookupView, rows: Result<Seq<T>, SomeError>) -> SettingsStepView<T> {
    match rows {
        Err(e) => SettingsStepView::Respond(error_reply(e)),
        Ok(found) => if found.len() > 0 {
            SettingsStepView::Found(found[0])
        } else {
            match at {
                SettingsLookupView::ChannelAsked { username } => SettingsStepView::Query {
                    at: SettingsLookupView::FallbackAsked,
                    username,
                    channel_id: global_channel(),
                },
                SettingsLookupView::GlobalAsked { username } => SettingsStepView::Query {
                    at: SettingsLookupView::FallbackAsked,
                    username,
                    channel_id: unnamed_channel(),
                },
                SettingsLookupView::FallbackAsked => SettingsStepView::Respond(
                    ReplyView::Empty { status: 404 },
                ),
            }
        },
    }
}

/// The records that a query gave, as a sequence.
pub open spec fn rows_view<T>(rows: Result<Vec<T>, SomeError>) -> Result<Seq<T>, SomeError> {
    match rows {
        Ok(v) => Ok(v@),
        Err(e) => Err(e),
    }
}

/// Starts looking up the settings of `username` for a channel.
pub fn get_settings_begin<T>(username: String, channel_id: Option<String>) -> (s: SettingsStep<T>)
    ensures
        s@ == settings_start::<T>(
            username@,
            match channel_id {
                Some(c) => Some(c@),
                None => None,
            },
        ),
        s matches SettingsStep::Query { at, username: asked, channel_id: asked_channel }
            && asked@ == username@ && match channel_id {
            Some(c) => asked_channel@ == c@ && (at matches SettingsLookup::ChannelAsked {
                username: u,
            } && u@ == username@),
            None => asked_channel@ == "global"@ && (at matches SettingsLookup::GlobalAsked {
                username: u,
            } && u@ == username@),
        },
{
    let name = username.clone();
    match channel_id {
        Some(c) => SettingsStep::Query {
            at: SettingsLookup::ChannelAsked { username: name },
            username,
            channel_id: c,
        },
        None => SettingsStep::Query {
            at: SettingsLookup::GlobalAsked { username: name },
            username,
            channel_id: "global".to_owned(),
        },
    }
}

/// Continues a settings lookup with what the last query gave.
pub fn get_settings_next<T>(at: SettingsLookup, rows: Result<Vec<T>, SomeError>) -> (s: SettingsStep<T>)
    ensures
        s@ == settings_after(at@, rows_view(rows)),
        match rows {
            Err(e) => s matches SettingsStep::Respond(r) && r@ == error_reply(e),
            Ok(found) => if found@.len() > 0 {
                s == SettingsStep::Found(found@[0])
            } else {
                match at {
                    SettingsLookup::ChannelAsked { username } => s matches SettingsStep::Query {
                        at: next,
                        username: asked,
                        channel_id,
                    } && next == SettingsLookup::FallbackAsked && asked@ == username@
                        && channel_id@ == "global"@,
                    SettingsLookup::GlobalAsked { username } => s matches SettingsStep::Query {
                        at: next,
                        username: asked,
                        channel_id,
                    } && next == SettingsLookup::FallbackAsked && asked@ == username@
                        && channel_id@.len() == 0,
                    SettingsLookup::FallbackAsked => s matches SettingsStep::Respond(r) && r@
                        == (ReplyView::Empty { status: 404 }),
                }
            },
        },
{
    match rows {
        Err(e) => SettingsStep::Respond(e.error_response()),
        Ok(mut found) => {
            if found.len() > 0 {
                SettingsStep::Found(found.remove(0))
            } else {
                match at {
                    SettingsLookup::ChannelAsked { username } => SettingsStep::Query {
                        at: SettingsLookup::FallbackAsked,
                        username,
                        channel_id: "global".to_owned(),
                    },
                    SettingsLookup::GlobalAsked { username } => SettingsStep::Query {
                        at: SettingsLookup::FallbackAsked,
                        username,
                        channel_id: String::new(),
                    },
                    SettingsLookup::FallbackAsked => SettingsStep::Respond(
                        Reply::Empty { status: 404 },
                    ),
                }
            }
        },
    }
}

/// The answer of a whole lookup: the first record of the first query, else
/// the first record of the second query, else `404`.
pub open spec fn settings_answer<T>(first_rows: Seq<T>, second_rows: Seq<T>) -> SettingsStepView<T> {
    if first_rows.len() > 0 {
        SettingsStepView::Found(first_rows[0])
    } else if second_rows.len() > 0 {
        SettingsStepView::Found(second_rows[0])
    } else {
        SettingsStepView::Respond(ReplyView::Empty { status: 404 })
    }
}

/// The channel of the second query: the global channel after a named
/// channel, the channel of settings stored without one after the global
/// channel asked for a request that named none.
pub open spec fn fallback_channel(channel_id: Option<Seq<char>>) -> Seq<char> {
    match channel_id {
        Some(_) => global_channel(),
        None => unnamed_channel(),
    }
}

/// Law of the settings lookup: it first asks for the requested channel (the
/// global channel when none is named), and those settings win; only when
/// there are none does it ask, for the same user, the global settings (after
/// a named channel) or the settings stored without a channel (when none was
/// named); when those are missing too, the answer is `404`.
pub proof fn lemma_settings_lookup<T>(
    username: Seq<char>,
    channel_id: Option<Seq<char>>,
    first_rows: Seq<T>,
    second_rows: Seq<T>,
)
    ensures
        settings_start::<T>(username, channel_id) matches SettingsStepView::Query {
            at,
            username: asked_user,
            channel_id: asked_channel,
        } && asked_user == username && asked_channel == (match channel_id {
            Some(c) => c,
            None => global_channel(),
        }) && ({
            let next = settings_after(at, Ok(first_rows));
            if first_rows.len() > 0 {
                next == settings_answer(first_rows, second_rows)
            } else {
                next matches SettingsStepView::Query {
                    at: fallback,
                    username: fallback_user,
                    channel_id: asked_fallback,
                } && fallback_user == username && asked_fallback == fallback_channel(channel_id)
                    && settings_after(fallback, Ok(second_rows)) == settings_answer(
                    first_rows,
                    second_rows,
                )
            }
        }),
{
}

/// Law of the lookup without a channel: a user whose only settings were
/// stored without a channel is found, when no global settings exist.
pub proof fn lemma_unnamed_settings_found<T>(username: Seq<char>, record: T)
    ensures
        settings_start::<T>(username, None) matches SettingsStepView::Query { at, channel_id, .. }
            && channel_id == global_channel() && ({
            settings_after(at, Ok(Seq::<T>::empty())) matches SettingsStepView::Query {
                at: fallback,
                channel_id: second,
                ..
            } && second == unnamed_channel() && settings_after(fallback, Ok(seq![record]))
                == SettingsStepView::Found(record)
        }),
{
}

/// Law of the settings lookup: at every stage a failed query is answered
/// with the answer to its error, and no further query is made.
pub proof fn lemma_failed_query_is_answered<T>(at: SettingsLookupView, e: SomeError)
    ensures
        settings_after::<T>(at, Err(e)) == SettingsStepView::<T>::Respond(error_reply(e)),
{
}

}
