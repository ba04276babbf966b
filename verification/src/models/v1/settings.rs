//! A user's extension settings, per channel.
use vstd::prelude::*;

verus! {

/// A choice from a list of options, such as an occupation or pronouns.
#[derive(Clone, Debug, PartialEq, Eq, Default)]
pub struct SettingOptions {
    pub name: String,
    pub slug: String,
    pub translation_key: String,
}

/// A chosen color.
#[derive(Clone, Debug, PartialEq, Eq, Default)]
pub struct ColorOption {
    pub name: String,
    pub slug: String,
    pub translation_key: String,
    pub hex: Option<String>,
}

/// A chosen visual effect.
#[derive(Clone, Debug, PartialEq, Eq, Default)]
pub struct EffectOption {
    pub name: String,
    pub slug: String,
    pub translation_key: String,
    pub class_name: String,
    pub hex: Option<String>,
}

/// The settings of a user on a channel; `updated_at` is in milliseconds
/// since the Unix epoch.
#[derive(Clone, Debug, PartialEq, Eq, Default)]
pub struct Settings {
    pub user_id: i32,
    pub username: String,
    pub channel_id: String,
    pub enabled: Option<bool>,
    pub locale: Option<String>,
    pub timezone: Option<String>,
    pub occupation: Option<SettingOptions>,
    pub pronouns: Option<SettingOptions>,
    pub color: Option<ColorOption>,
    pub effect: Option<EffectOption>,
    pub is_developer: Option<bool>,
    pub updated_at: i64,
}

/// The settings as they are looked up by user name and channel.
#[derive(Clone, Debug, PartialEq, Eq, Default)]
pub struct SettingsByUsername {
    pub user_id: i32,
    pub username: String,
    pub channel_id: String,
    pub enabled: bool,
    pub locale: Option<String>,
    pub timezone: Option<String>,
    pub occupation: SettingOptions,
    pub pronouns: SettingOptions,
    pub color: ColorOption,
    pub effect: EffectOption,
    pub is_developer: Option<bool>,
    pub updated_at: i64,
}

}
