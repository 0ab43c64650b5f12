//! Startup configuration as the core receives it: the backend credential
//! and the fixed source-language code, read once before the overlay starts
//! and never re-read at runtime. Parsing the configuration file is the
//! host's job; these are the plain values it hands over.

use vstd::prelude::*;

verus! {

/// Credentials for the detection backend.
#[derive(Clone, Debug)]
pub struct ApiConfig {
    pub gemini: String,
}

/// The source language of the on-screen text; fixed for the whole process run.
#[derive(Clone, Debug)]
pub struct LanguagesConfig {
    pub lang_from: String,
}

#[derive(Clone, Debug)]
pub struct Config {
    pub api: ApiConfig,
    pub languages: LanguagesConfig,
}

impl Default for ApiConfig {
    /// An absent credential section defaults to an empty credential.
    fn default() -> (r: ApiConfig)
        ensures
            r.gemini@ == Seq::<char>::empty(),
    {
        ApiConfig { gemini: String::new() }
    }
}

impl Default for LanguagesConfig {
    fn default() -> (r: LanguagesConfig)
        ensures
            r.lang_from@ == Seq::<char>::empty(),
    {
        LanguagesConfig { lang_from: String::new() }
    }
}

impl Default for Config {
    fn default() -> (r: Config)
        ensures
            r.api.gemini@ == Seq::<char>::empty(),
            r.languages.lang_from@ == Seq::<char>::empty(),
    {
        Config { api: ApiConfig { gemini: String::new() }, languages: LanguagesConfig {
            lang_from: String::new(),
        } }
    }
}

} // verus!
