//! User settings and service endpoints, with their defaults.

use vstd::prelude::*;
use vstd::string::*;

verus! {

/// Persisted user settings.
pub struct AppSettings {
    pub ollama_model: String,
    pub max_tokens: Option<u32>,
    pub cortex_top_k: u32,
    pub cortex_mode: String,
    pub active_agent_profile: String,
}

impl AppSettings {
    /// The settings used when none are stored.
    pub fn defaults() -> (r: AppSettings)
        ensures
            r.ollama_model@ == "mistral-small"@,
            r.max_tokens is None,
            r.cortex_top_k == 20,
            r.cortex_mode@ == "local"@,
            r.active_agent_profile@ == "triz_engineer"@,
    {
        AppSettings {
            ollama_model: String::from_str("mistral-small"),
            max_tokens: None,
            cortex_top_k: 20,
            cortex_mode: String::from_str("local"),
            active_agent_profile: String::from_str("triz_engineer"),
        }
    }

    /// The model of a chat request: the one asked for, else the configured one.
    pub fn chat_model(&self, requested: Option<String>) -> (r: String)
        ensures
            r@ == match requested {
                Some(m) => m@,
                None => self.ollama_model@,
            },
    {
        match requested {
            Some(m) => m,
            None => self.ollama_model.clone(),
        }
    }

    /// The depth and mode of a knowledge query: those asked for, else the
    /// configured ones.
    pub fn query_options(&self, top_k: Option<u32>, mode: Option<String>) -> (r: (u32, String))
        ensures
            r.0 == match top_k {
                Some(k) => k,
                None => self.cortex_top_k,
            },
            r.1@ == match mode {
                Some(m) => m@,
                None => self.cortex_mode@,
            },
    {
        let k = match top_k {
            Some(k) => k,
            None => self.cortex_top_k,
        };
        let m = match mode {
            Some(m) => m,
            None => self.cortex_mode.clone(),
        };
        (k, m)
    }
}

impl Default for AppSettings {
    fn default() -> (r: AppSettings)
        ensures
            r.ollama_model@ == "mistral-small"@,
            r.max_tokens is None,
            r.cortex_top_k == 20,
            r.cortex_mode@ == "local"@,
            r.active_agent_profile@ == "triz_engineer"@,
    {
        AppSettings::defaults()
    }
}

/// Endpoints of the local services.
pub struct AppConfig {
    pub ollama_base_url: String,
    pub cortex_base_url: String,
    pub cortex_api_key: String,
}

impl AppConfig {
    /// The configuration from the values that the environment gives, each
    /// falling back to its local default when absent.
    pub fn from_values(
        ollama_base_url: Option<String>,
        cortex_base_url: Option<String>,
        cortex_api_key: Option<String>,
    ) -> (r: AppConfig)
        ensures
            r.ollama_base_url@ == match ollama_base_url {
                Some(u) => u@,
                None => "http://127.0.0.1:11434"@,
            },
            r.cortex_base_url@ == match cortex_base_url {
                Some(u) => u@,
                None => "http://127.0.0.1:8004"@,
            },
            r.cortex_api_key@ == match cortex_api_key {
                Some(k) => k@,
                None => "sesa-secure-core-v1"@,
            },
    {
        AppConfig {
            ollama_base_url: match ollama_base_url {
                Some(u) => u,
                None => String::from_str("http://127.0.0.1:11434"),
            },
            cortex_base_url: match cortex_base_url {
                Some(u) => u,
                None => String::from_str("http://127.0.0.1:8004"),
            },
            cortex_api_key: match cortex_api_key {
                Some(k) => k,
                None => String::from_str("sesa-secure-core-v1"),
            },
        }
    }
}

} // verus!
