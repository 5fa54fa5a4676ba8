//! The settings that the host runs under.
//!
//! Configuration is an explicit value passed into each call, not ambient
//! process state, so callers and tests can vary it per call without
//! interference.

use vstd::prelude::*;
use vstd::string::StringExecFns;

verus! {

/// The host's configuration: whether the rules pipeline runs, where its
/// module binary lives, and the surrounding service's knobs.
pub struct Settings {
    pub max_size: usize,
    pub log_level: String,
    pub port: u16,
    pub wasm_rules_engine_enabled: bool,
    pub wasm_bin_path: String,
    pub ai_service_url: String,
}

impl Settings {
    /// The default settings: the pipeline is disabled and the module binary
    /// is looked for at its conventional path.
    pub fn new() -> (s: Self)
        ensures
            s.max_size == 262144usize,
            s.log_level@ == "info"@,
            s.port == 3002u16,
            !s.wasm_rules_engine_enabled,
            s.wasm_bin_path@ == "./tests/rule_engine.wasm"@,
            s.ai_service_url@ == "http://127.0.0.1:5001"@,
    {
        Settings {
            max_size: 262144,
            log_level: String::from_str("info"),
            port: 3002,
            wasm_rules_engine_enabled: false,
            wasm_bin_path: String::from_str("./tests/rule_engine.wasm"),
            ai_service_url: String::from_str("http://127.0.0.1:5001"),
        }
    }

    /// Enables the rules pipeline; once enabled it cannot be disabled again
    /// through this setter.
    pub fn set_wasm_rules_engine(self, enable: bool) -> (s: Self)
        ensures
            s.wasm_rules_engine_enabled == (self.wasm_rules_engine_enabled || enable),
            s.max_size == self.max_size,
            s.log_level == self.log_level,
            s.port == self.port,
            s.wasm_bin_path == self.wasm_bin_path,
            s.ai_service_url == self.ai_service_url,
    {
        let mut s = self;
        s.wasm_rules_engine_enabled = s.wasm_rules_engine_enabled || enable;
        s
    }

    pub fn set_port(self, port: u16) -> (s: Self)
        ensures
            s.port == port,
            s.max_size == self.max_size,
            s.log_level == self.log_level,
            s.wasm_rules_engine_enabled == self.wasm_rules_engine_enabled,
            s.wasm_bin_path == self.wasm_bin_path,
            s.ai_service_url == self.ai_service_url,
    {
        let mut s = self;
        s.port = port;
        s
    }

    pub fn set_max_size(self, max_size: usize) -> (s: Self)
        ensures
            s.max_size == max_size,
            s.log_level == self.log_level,
            s.port == self.port,
            s.wasm_rules_engine_enabled == self.wasm_rules_engine_enabled,
            s.wasm_bin_path == self.wasm_bin_path,
            s.ai_service_url == self.ai_service_url,
    {
        let mut s = self;
        s.max_size = max_size;
        s
    }

    pub fn set_log_level(self, log_level: String) -> (s: Self)
        ensures
            s.log_level == log_level,
            s.max_size == self.max_size,
            s.port == self.port,
            s.wasm_rules_engine_enabled == self.wasm_rules_engine_enabled,
            s.wasm_bin_path == self.wasm_bin_path,
            s.ai_service_url == self.ai_service_url,
    {
        let mut s = self;
        s.log_level = log_level;
        s
    }
}

} // verus!
