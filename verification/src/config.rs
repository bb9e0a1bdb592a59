//! What the session needs to know before it starts: the API key and the
//! model to talk to.

use vstd::prelude::*;

verus! {

/// What a configuration holds: each setting, where it is present.
pub struct ConfigView {
    pub api_key: Option<Seq<char>>,
    pub model: Option<Seq<char>>,
}

/// Settings supplied by the host. Either may be missing.
#[derive(Debug)]
pub struct Config {
    api_key: Option<String>,
    model: Option<String>,
}

impl View for Config {
    type V = ConfigView;

    closed spec fn view(&self) -> ConfigView {
        ConfigView { api_key: self.api_key.deep_view(), model: self.model.deep_view() }
    }
}

impl Clone for Config {
    /// A copy with the same settings.
    fn clone(&self) -> (copy: Self)
        ensures
            copy@ == self@,
    {
        Config { api_key: self.api_key(), model: self.model() }
    }
}

impl Default for Config {
    /// A configuration with neither setting.
    fn default() -> (config: Self)
        ensures
            config@ == (ConfigView { api_key: None, model: None }),
    {
        Config { api_key: None, model: None }
    }
}

impl Config {
    /// A configuration with both settings.
    pub fn new(api_key: String, model: String) -> (config: Self)
        ensures
            config@ == (ConfigView { api_key: Some(api_key@), model: Some(model@) }),
    {
        Config { api_key: Some(api_key), model: Some(model) }
    }

    /// A configuration with the settings that are present.
    pub fn from_parts(api_key: Option<String>, model: Option<String>) -> (config: Self)
        ensures
            config@ == (ConfigView { api_key: api_key.deep_view(), model: model.deep_view() }),
    {
        Config { api_key, model }
    }

    /// A copy of the API key, if one is set.
    pub fn api_key(&self) -> (api_key: Option<String>)
        ensures
            api_key.deep_view() == self@.api_key,
    {
        match &self.api_key {
            Some(key) => Some(key.clone()),
            None => None,
        }
    }

    /// A copy of the model's name, if one is set.
    pub fn model(&self) -> (model: Option<String>)
        ensures
            model.deep_view() == self@.model,
    {
        match &self.model {
            Some(name) => Some(name.clone()),
            None => None,
        }
    }
}

} // verus!
