//! The client's configuration and the store that holds it.
//!
//! The store owns the one settings value of a running client. Reading takes
//! a shared borrow and writing an exclusive one, so a write never overlaps a
//! read; a host that serves several threads keeps the store behind a lock of
//! its own and holds that lock only for the length of one call.

use vstd::prelude::*;

verus! {

/// The client's configuration.
#[derive(Debug, Clone)]
pub struct AppSettings {
    /// Root of the remote API; every endpoint path is appended to it.
    pub api_url: String,
}

/// What an [`AppSettings`] value holds.
pub struct AppSettingsView {
    pub api_url: Seq<char>,
}

impl DeepView for AppSettings {
    type V = AppSettingsView;

    open spec fn deep_view(&self) -> AppSettingsView {
        AppSettingsView { api_url: self.api_url@ }
    }
}

/// The base URL of a client that was never configured.
pub open spec fn default_api_url() -> Seq<char> {
    "https://anilibria.top/api/v1"@
}

impl Default for AppSettings {
    fn default() -> (r: AppSettings)
        ensures
            r.deep_view().api_url == default_api_url(),
    {
        AppSettings { api_url: "https://anilibria.top/api/v1".to_owned() }
    }
}

/// The settings that a store holds once `url` has been written over `held`.
pub open spec fn after_write(held: AppSettingsView, url: Seq<char>) -> AppSettingsView {
    AppSettingsView { api_url: url }
}

/// The settings that a store holds once `new` has been saved over `held`.
pub open spec fn after_save(held: AppSettingsView, new: AppSettingsView) -> AppSettingsView {
    after_write(held, new.api_url)
}

/// The single owner of the client's settings.
pub struct ConfigState(pub AppSettings);

impl DeepView for ConfigState {
    type V = AppSettingsView;

    /// The settings that the store holds.
    open spec fn deep_view(&self) -> AppSettingsView {
        self.0.deep_view()
    }
}

impl ConfigState {
    /// A store that holds `settings`.
    pub fn new(settings: AppSettings) -> (r: ConfigState)
        ensures
            r.deep_view() == settings.deep_view(),
    {
        ConfigState(settings)
    }

    /// The current base URL.
    pub fn read(&self) -> (r: String)
        ensures
            r@ == self.deep_view().api_url,
    {
        self.0.api_url.clone()
    }

    /// Replaces the base URL. Any string is taken as it is.
    pub fn write(&mut self, new_url: String)
        ensures
            final(self).deep_view() == after_write(old(self).deep_view(), new_url@),
    {
        self.0.api_url = new_url;
    }
}

/// The base URL that was written is the base URL that is read next,
/// whatever the store held before.
pub proof fn lemma_written_url_is_read_back(held: AppSettingsView, url: Seq<char>)
    ensures
        after_write(held, url).api_url == url,
{
}

/// Settings that were saved are the settings that are read next, whatever
/// the store held before.
pub proof fn lemma_saved_settings_are_read_back(held: AppSettingsView, new: AppSettingsView)
    ensures
        after_save(held, new) == new,
{
}

} // verus!
