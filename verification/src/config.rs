//! Service configuration: every setting is a string that may be absent
//! or malformed, and each falls back to a fixed default, exactly as a
//! numeric setting read from the environment would.

use crate::decimal::{
    parse_bool_bytes, parse_i64_bytes, parse_u64_bytes, spec_parse_bool, spec_parse_i64,
    spec_parse_u64,
};
use vstd::prelude::*;
use vstd::string::StringExecFns;
use vstd::utf8::encode_utf8;

verus! {

/// The service's settings after defaults are applied.
#[derive(Debug, Clone)]
pub struct Config {
    pub host: String,
    pub port: u16,
    pub temp_dir: String,
    pub binary_expiration_hours: i64,
    pub cleanup_interval: u64,
    pub redis_url: String,
    pub main_server_url: String,
    pub max_file_size: usize,
    pub binary_ttl: i64,
    pub enable_qemu_testing: bool,
}

/// A `u64` setting: the parsed value, or the default on any failure.
pub open spec fn spec_u64_or(s: Seq<char>, default: u64) -> u64 {
    match spec_parse_u64(encode_utf8(s)) {
        Some(v) => v,
        None => default,
    }
}

/// A `u16` setting: parsed and range-checked, or the default.
pub open spec fn spec_u16_or(s: Seq<char>, default: u16) -> u16 {
    match spec_parse_u64(encode_utf8(s)) {
        Some(v) => if v <= u16::MAX {
            v as u16
        } else {
            default
        },
        None => default,
    }
}

/// A `usize` setting: parsed and range-checked, or the default.
pub open spec fn spec_usize_or(s: Seq<char>, default: usize) -> usize {
    match spec_parse_u64(encode_utf8(s)) {
        Some(v) => if v <= usize::MAX {
            v as usize
        } else {
            default
        },
        None => default,
    }
}

/// An `i64` setting: the parsed value, or the default on any failure.
pub open spec fn spec_i64_or(s: Seq<char>, default: i64) -> i64 {
    match spec_parse_i64(encode_utf8(s)) {
        Some(v) => v,
        None => default,
    }
}

/// A `bool` setting: the parsed value, or the default on any failure.
pub open spec fn spec_bool_or(s: Seq<char>, default: bool) -> bool {
    match spec_parse_bool(encode_utf8(s)) {
        Some(v) => v,
        None => default,
    }
}

/// Parse a `u64` setting with a fallback default.
pub fn u64_or(s: &String, default: u64) -> (r: u64)
    ensures
        r == spec_u64_or(s@, default),
{
    match parse_u64_bytes(s.as_str().as_bytes()) {
        Some(v) => v,
        None => default,
    }
}

/// Parse a `u16` setting with a fallback default.
pub fn u16_or(s: &String, default: u16) -> (r: u16)
    ensures
        r == spec_u16_or(s@, default),
{
    match parse_u64_bytes(s.as_str().as_bytes()) {
        Some(v) => {
            if v <= u16::MAX as u64 {
                v as u16
            } else {
                default
            }
        },
        None => default,
    }
}

/// Parse a `usize` setting with a fallback default.
pub fn usize_or(s: &String, default: usize) -> (r: usize)
    ensures
        r == spec_usize_or(s@, default),
{
    match parse_u64_bytes(s.as_str().as_bytes()) {
        Some(v) => {
            if v <= usize::MAX as u64 {
                v as usize
            } else {
                default
            }
        },
        None => default,
    }
}

/// Parse an `i64` setting with a fallback default.
pub fn i64_or(s: &String, default: i64) -> (r: i64)
    ensures
        r == spec_i64_or(s@, default),
{
    match parse_i64_bytes(s.as_str().as_bytes()) {
        Some(v) => v,
        None => default,
    }
}

/// Parse a `bool` setting with a fallback default.
pub fn bool_or(s: &String, default: bool) -> (r: bool)
    ensures
        r == spec_bool_or(s@, default),
{
    match parse_bool_bytes(s.as_str().as_bytes()) {
        Some(v) => v,
        None => default,
    }
}

impl Config {
    /// Build the configuration from raw setting strings, absent ones
    /// and malformed numbers falling back to the fixed defaults.
    pub fn from_settings(
        host: Option<String>,
        port: Option<String>,
        temp_dir: Option<String>,
        expiration_hours: Option<String>,
        cleanup_interval: Option<String>,
        redis_url: Option<String>,
        main_server_url: Option<String>,
        max_file_size: Option<String>,
        binary_ttl: Option<String>,
        enable_qemu_testing: Option<String>,
    ) -> (c: Config)
        ensures
            (host matches Some(s) ==> c.host@ == s@) && (host is None ==> c.host@ == "0.0.0.0"@),
            (port matches Some(s) ==> c.port == spec_u16_or(s@, 8080)) && (port is None ==> c.port
                == 8080),
            (temp_dir matches Some(s) ==> c.temp_dir@ == s@) && (temp_dir is None
                ==> c.temp_dir@ == "/tmp/weaver"@),
            (expiration_hours matches Some(s) ==> c.binary_expiration_hours == spec_i64_or(s@, 24))
                && (expiration_hours is None ==> c.binary_expiration_hours == 24),
            (cleanup_interval matches Some(s) ==> c.cleanup_interval == spec_u64_or(s@, 3600)) && (
            cleanup_interval is None ==> c.cleanup_interval == 3600),
            (redis_url matches Some(s) ==> c.redis_url@ == s@) && (redis_url is None
                ==> c.redis_url@ == "redis://127.0.0.1:6379"@),
            (main_server_url matches Some(s) ==> c.main_server_url@ == s@) && (main_server_url
                is None ==> c.main_server_url@ == "http://localhost:8080"@),
            (max_file_size matches Some(s) ==> c.max_file_size == spec_usize_or(s@, 209715200)) && (
            max_file_size is None ==> c.max_file_size == 209715200),
            (binary_ttl matches Some(s) ==> c.binary_ttl == spec_i64_or(s@, 3600)) && (binary_ttl
                is None ==> c.binary_ttl == 3600),
            (enable_qemu_testing matches Some(s) ==> c.enable_qemu_testing == spec_bool_or(
                s@,
                false,
            )) && (enable_qemu_testing is None ==> c.enable_qemu_testing == false),
    {
        Config {
            host: match host {
                Some(s) => s,
                None => String::from_str("0.0.0.0"),
            },
            port: match port {
                Some(s) => u16_or(&s, 8080),
                None => 8080,
            },
            temp_dir: match temp_dir {
                Some(s) => s,
                None => String::from_str("/tmp/weaver"),
            },
            binary_expiration_hours: match expiration_hours {
                Some(s) => i64_or(&s, 24),
                None => 24,
            },
            cleanup_interval: match cleanup_interval {
                Some(s) => u64_or(&s, 3600),
                None => 3600,
            },
            redis_url: match redis_url {
                Some(s) => s,
                None => String::from_str("redis://127.0.0.1:6379"),
            },
            main_server_url: match main_server_url {
                Some(s) => s,
                None => String::from_str("http://localhost:8080"),
            },
            max_file_size: match max_file_size {
                Some(s) => usize_or(&s, 209715200),
                None => 209715200,
            },
            binary_ttl: match binary_ttl {
                Some(s) => i64_or(&s, 3600),
                None => 3600,
            },
            enable_qemu_testing: match enable_qemu_testing {
                Some(s) => bool_or(&s, false),
                None => false,
            },
        }
    }
}

} // verus!
