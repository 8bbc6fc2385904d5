//! The relay's settings: the command-line flags that set environment
//! variables, and the numbers read from those variables.

use vstd::prelude::*;
use crate::number::{parse_i32, parse_u64, parsed_i32, parsed_u64};
use crate::text::text_eq;

verus! {

/// An environment variable that a command-line flag sets.
#[derive(Debug, PartialEq, Eq, Clone, Copy)]
pub enum Setting {
    /// `-evm`: `EVM_URL`, the node to send contract calls to.
    EvmUrl,
    /// `-pk`: `PRIVATE_KEY`, the key that signs them.
    PrivateKey,
    /// `-sc`: `SC_ADDRESS`, the address of the contract.
    ContractAddress,
    /// `-rt`: `RETRY_TIMEOUT`, how often connecting is retried.
    RetryTimeout,
    /// `-dt`: `DURATION_TIMEOUT`, the seconds between retries.
    DurationTimeout,
}

/// The setting that a flag sets, if it is one.
pub open spec fn flag_setting(flag: Seq<char>) -> Option<Setting> {
    if flag == "-evm"@ {
        Some(Setting::EvmUrl)
    } else if flag == "-pk"@ {
        Some(Setting::PrivateKey)
    } else if flag == "-sc"@ {
        Some(Setting::ContractAddress)
    } else if flag == "-rt"@ {
        Some(Setting::RetryTimeout)
    } else if flag == "-dt"@ {
        Some(Setting::DurationTimeout)
    } else {
        None
    }
}

/// The setting that a flag sets, if it is one.
pub fn setting_of_flag(flag: &str) -> (r: Option<Setting>)
    ensures
        r == flag_setting(flag@),
{
    if text_eq(flag, "-evm") {
        Some(Setting::EvmUrl)
    } else if text_eq(flag, "-pk") {
        Some(Setting::PrivateKey)
    } else if text_eq(flag, "-sc") {
        Some(Setting::ContractAddress)
    } else if text_eq(flag, "-rt") {
        Some(Setting::RetryTimeout)
    } else if text_eq(flag, "-dt") {
        Some(Setting::DurationTimeout)
    } else {
        None
    }
}

impl Setting {
    /// The name of the environment variable.
    pub open spec fn spec_variable(self) -> Seq<char> {
        match self {
            Setting::EvmUrl => "EVM_URL"@,
            Setting::PrivateKey => "PRIVATE_KEY"@,
            Setting::ContractAddress => "SC_ADDRESS"@,
            Setting::RetryTimeout => "RETRY_TIMEOUT"@,
            Setting::DurationTimeout => "DURATION_TIMEOUT"@,
        }
    }

    /// The name of the environment variable.
    pub fn variable(self) -> (r: &'static str)
        ensures
            r@ == self.spec_variable(),
    {
        match self {
            Setting::EvmUrl => "EVM_URL",
            Setting::PrivateKey => "PRIVATE_KEY",
            Setting::ContractAddress => "SC_ADDRESS",
            Setting::RetryTimeout => "RETRY_TIMEOUT",
            Setting::DurationTimeout => "DURATION_TIMEOUT",
        }
    }
}

/// Every flag among the arguments after the program name has a value after it.
pub open spec fn flags_have_values(args: Seq<String>) -> bool {
    forall|i: int| 1 <= i < args.len() && (#[trigger] flag_setting(args[i]@)) is Some ==> i + 1 < args.len()
}

/// The settings that the first `n` arguments give, in order: every argument
/// after the program name that is a flag sets its variable to the next argument.
pub open spec fn settings_from(args: Seq<String>, n: int) -> Seq<(Setting, Seq<char>)>
    decreases n,
{
    if n <= 1 {
        Seq::empty()
    } else {
        let before = settings_from(args, n - 1);
        match flag_setting(args[n - 1]@) {
            Some(s) => before.push((s, args[n]@)),
            None => before,
        }
    }
}

/// The view of a list of settings.
pub open spec fn settings_view(v: Seq<(Setting, String)>) -> Seq<(Setting, Seq<char>)> {
    v.map_values(|p: (Setting, String)| (p.0, p.1@))
}

/// The settings that the command line gives, in the order in which they are
/// set (a later one of the same variable wins). A flag that is the last
/// argument has no value: the command line is refused.
pub fn settings_from_args(args: &Vec<String>) -> (r: Vec<(Setting, String)>)
    requires
        flags_have_values(args@),
    ensures
        settings_view(r@) == settings_from(args@, args.len() as int),
{
    let mut r: Vec<(Setting, String)> = Vec::new();
    let mut i: usize = 1;
    if args.len() == 0 {
        return r;
    }
    while i < args.len()
        invariant
            1 <= i <= args.len(),
            flags_have_values(args@),
            settings_view(r@) == settings_from(args@, i as int),
        decreases args.len() - i,
    {
        let ghost before = r@;
        match setting_of_flag(args[i].as_str()) {
            Some(s) => {
                assert(flag_setting(args@[i as int]@) is Some);
                let value = args[i + 1].clone();
                r.push((s, value));
                assert(settings_view(r@) =~= settings_view(before).push((s, args@[i + 1]@)));
            },
            None => {},
        }
        i = i + 1;
    }
    r
}

/// `RETRY_TIMEOUT` read as an `i32`, 100 where it is missing or unreadable.
pub open spec fn retry_limit_of(value: Option<Seq<char>>) -> i32 {
    match value {
        Some(v) => match parsed_i32(v) {
            Some(x) => x as i32,
            None => 100,
        },
        None => 100,
    }
}

/// How often connecting is retried, from the value of `RETRY_TIMEOUT`.
pub fn retry_limit(value: Option<&str>) -> (r: i32)
    ensures
        r == retry_limit_of(value.deep_view()),
{
    match value {
        Some(v) => match parse_i32(v) {
            Some(x) => x,
            None => 100,
        },
        None => 100,
    }
}

/// `DURATION_TIMEOUT` read as a `u64`, 5 where it is missing or unreadable.
pub open spec fn retry_delay_of(value: Option<Seq<char>>) -> u64 {
    match value {
        Some(v) => match parsed_u64(v) {
            Some(x) => x as u64,
            None => 5,
        },
        None => 5,
    }
}

/// The seconds between retries, from the value of `DURATION_TIMEOUT`.
pub fn retry_delay(value: Option<&str>) -> (r: u64)
    ensures
        r == retry_delay_of(value.deep_view()),
{
    match value {
        Some(v) => match parse_u64(v) {
            Some(x) => x,
            None => 5,
        },
        None => 5,
    }
}

/// Whether connecting is tried once more: after a failure, while fewer than
/// `limit` retries were made.
pub fn retry_connect(failed: bool, retries: i32, limit: i32) -> (r: bool)
    ensures
        r == (failed && retries < limit),
{
    failed && retries < limit
}

} // verus!
