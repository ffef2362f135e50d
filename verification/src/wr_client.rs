use vstd::prelude::*;

use crate::text::{
    parse_u32_text, parse_u64_text, push_str, str_eq, string_of, string_views, u32_parse_error,
    u64_parse_error, unsigned_text_value,
};
use crate::wr_core::{CrateBoundary, CrateEntryPoint, entry_card};
use crate::wr_platform::clock::{FixedStepConfig, zero_catch_up_message, zero_rate_message};
use crate::wr_platform::runtime::{
    ClientRuntimeConfig, WindowMode, default_window_title, zero_window_message,
};

verus! {

/// The usage line of the client.
pub const HELP_TEXT: &'static str = "Usage: cargo run -p wr_client -- [--windowed|--borderless] [--width <px>] [--height <px>] [--title <text>] [--simulation-rate-hz <hz>] [--max-catch-up-steps <count>] [--auto-close-after-fixed-updates <count>] [--auto-close-after-redraws <count>] [--smoke-test]";

/// The entry point of the client app: an app shell, integration-only.
pub fn init_entrypoint() -> (r: CrateEntryPoint)
    ensures
        entry_card(r, "wr_client"@, CrateBoundary::AppShell, true),
{
    CrateEntryPoint::new("wr_client", CrateBoundary::AppShell, true)
}

/// The runtime the client drives: the game composition crate.
pub fn target_runtime() -> (r: CrateEntryPoint)
    ensures
        entry_card(r, "wr_game"@, CrateBoundary::Composition, true),
{
    crate::wr_game::init_entrypoint()
}

/// The client's parsed command-line options.
#[derive(Debug, Clone, PartialEq, Eq)]
pub struct ClientCliOptions {
    pub runtime: ClientRuntimeConfig,
}

/// What the client was asked to do.
#[derive(Debug, Clone, PartialEq, Eq)]
pub enum ClientCommand {
    Run(ClientCliOptions),
    Help,
}

/// The settings of a runtime configuration, with the window title as characters.
pub ghost struct RuntimeModel {
    pub title: Seq<char>,
    pub width: u32,
    pub height: u32,
    pub mode: WindowMode,
    pub fixed_step: FixedStepConfig,
    pub auto_close_after_fixed_updates: Option<u64>,
    pub auto_close_after_redraws: Option<u64>,
}

/// The settings of `c`.
pub open spec fn runtime_model(c: ClientRuntimeConfig) -> RuntimeModel {
    RuntimeModel {
        title: c.window.title@,
        width: c.window.width,
        height: c.window.height,
        mode: c.window.mode,
        fixed_step: c.fixed_step,
        auto_close_after_fixed_updates: c.auto_close_after_fixed_updates,
        auto_close_after_redraws: c.auto_close_after_redraws,
    }
}

/// The settings of the default runtime configuration.
pub open spec fn default_model() -> RuntimeModel {
    RuntimeModel {
        title: default_window_title(),
        width: 1280,
        height: 720,
        mode: WindowMode::Windowed,
        fixed_step: FixedStepConfig { simulation_rate_hz: 120, max_catch_up_steps: 5 },
        auto_close_after_fixed_updates: None,
        auto_close_after_redraws: None,
    }
}

/// Why settings are refused, checked in the order of `ClientRuntimeConfig::validate`.
pub open spec fn model_error(m: RuntimeModel) -> Option<Seq<char>> {
    if m.fixed_step.simulation_rate_hz == 0 {
        Some(zero_rate_message())
    } else if m.fixed_step.max_catch_up_steps == 0 {
        Some(zero_catch_up_message())
    } else if m.width == 0 || m.height == 0 {
        Some(zero_window_message())
    } else {
        None
    }
}

/// The value `str::parse::<u32>` gives for `s`, if it gives one.
pub open spec fn u32_value(s: Seq<char>) -> Option<u32> {
    match unsigned_text_value(s) {
        Some(v) => if v <= u32::MAX {
            Some(v as u32)
        } else {
            None
        },
        None => None,
    }
}

/// The value `str::parse::<u64>` gives for `s`, if it gives one.
pub open spec fn u64_value(s: Seq<char>) -> Option<u64> {
    match unsigned_text_value(s) {
        Some(v) => if v <= u64::MAX {
            Some(v as u64)
        } else {
            None
        },
        None => None,
    }
}

/// The message for a flag that ends the arguments without its value.
pub open spec fn missing_value_message(flag: Seq<char>) -> Seq<char> {
    "expected a value after "@ + flag
}

/// The message for a flag whose value does not parse.
pub open spec fn parse_failure_message(flag: Seq<char>, error: Seq<char>) -> Seq<char> {
    "failed to parse "@ + flag + ": "@ + error
}

/// The message for an argument the client does not know.
pub open spec fn unsupported_argument_message(arg: Seq<char>) -> Seq<char> {
    "unsupported wr_client argument `"@ + arg + "`\n\n"@ + HELP_TEXT@
}

/// Reads a flag with a `u32` value at `i`, then goes on with `set` applied to the value.
pub open spec fn with_u32_value(
    args: Seq<Seq<char>>,
    i: nat,
    flag: Seq<char>,
) -> Result<u32, Seq<char>> {
    if i + 1 >= args.len() {
        Err(missing_value_message(flag))
    } else {
        match u32_value(args[i + 1 as int]) {
            Some(v) => Ok(v),
            None => Err(parse_failure_message(flag, u32_parse_error(args[i + 1 as int]))),
        }
    }
}

/// Reads a flag with a `u64` value at `i`.
pub open spec fn with_u64_value(
    args: Seq<Seq<char>>,
    i: nat,
    flag: Seq<char>,
) -> Result<u64, Seq<char>> {
    if i + 1 >= args.len() {
        Err(missing_value_message(flag))
    } else {
        match u64_value(args[i + 1 as int]) {
            Some(v) => Ok(v),
            None => Err(parse_failure_message(flag, u64_parse_error(args[i + 1 as int]))),
        }
    }
}

/// The outcome of reading the client's arguments from index `i` on, starting from the
/// settings `m`: each flag sets its setting (a later flag wins), the first unknown argument,
/// missing value or unparsable value is the error, and the settings are validated at the end.
pub open spec fn client_parse_from(args: Seq<Seq<char>>, i: nat, m: RuntimeModel) -> Result<
    RuntimeModel,
    Seq<char>,
>
    decreases args.len() - i,
{
    if i >= args.len() {
        match model_error(m) {
            Some(e) => Err(e),
            None => Ok(m),
        }
    } else {
        let a = args[i as int];
        if a == "--windowed"@ {
            client_parse_from(args, i + 1, RuntimeModel { mode: WindowMode::Windowed, ..m })
        } else if a == "--borderless"@ {
            client_parse_from(args, i + 1, RuntimeModel { mode: WindowMode::Borderless, ..m })
        } else if a == "--width"@ {
            match with_u32_value(args, i, a) {
                Ok(v) => client_parse_from(args, i + 2, RuntimeModel { width: v, ..m }),
                Err(e) => Err(e),
            }
        } else if a == "--height"@ {
            match with_u32_value(args, i, a) {
                Ok(v) => client_parse_from(args, i + 2, RuntimeModel { height: v, ..m }),
                Err(e) => Err(e),
            }
        } else if a == "--title"@ {
            if i + 1 >= args.len() {
                Err(missing_value_message(a))
            } else {
                client_parse_from(args, i + 2, RuntimeModel { title: args[i + 1 as int], ..m })
            }
        } else if a == "--simulation-rate-hz"@ {
            match with_u32_value(args, i, a) {
                Ok(v) => client_parse_from(
                    args,
                    i + 2,
                    RuntimeModel {
                        fixed_step: FixedStepConfig {
                            simulation_rate_hz: v,
                            max_catch_up_steps: m.fixed_step.max_catch_up_steps,
                        },
                        ..m
                    },
                ),
                Err(e) => Err(e),
            }
        } else if a == "--max-catch-up-steps"@ {
            match with_u32_value(args, i, a) {
                Ok(v) => client_parse_from(
                    args,
                    i + 2,
                    RuntimeModel {
                        fixed_step: FixedStepConfig {
                            simulation_rate_hz: m.fixed_step.simulation_rate_hz,
                            max_catch_up_steps: v,
                        },
                        ..m
                    },
                ),
                Err(e) => Err(e),
            }
        } else if a == "--auto-close-after-fixed-updates"@ {
            match with_u64_value(args, i, a) {
                Ok(v) => client_parse_from(
                    args,
                    i + 2,
                    RuntimeModel { auto_close_after_fixed_updates: Some(v), ..m },
                ),
                Err(e) => Err(e),
            }
        } else if a == "--auto-close-after-redraws"@ {
            match with_u64_value(args, i, a) {
                Ok(v) => client_parse_from(
                    args,
                    i + 2,
                    RuntimeModel { auto_close_after_redraws: Some(v), ..m },
                ),
                Err(e) => Err(e),
            }
        } else if a == "--smoke-test"@ {
            client_parse_from(
                args,
                i + 1,
                RuntimeModel {
                    auto_close_after_fixed_updates: match m.auto_close_after_fixed_updates {
                        Some(n) => Some(n),
                        None => Some(30),
                    },
                    ..m
                },
            )
        } else {
            Err(unsupported_argument_message(a))
        }
    }
}

/// The outcome of reading all of the client's arguments from the default settings.
pub open spec fn client_parse(args: Seq<Seq<char>>) -> Result<RuntimeModel, Seq<char>> {
    client_parse_from(args, 0, default_model())
}

/// Whether an argument asks for help.
pub open spec fn asks_for_help(args: Seq<Seq<char>>) -> bool {
    exists|k: int| 0 <= k < args.len() && (args[k] == "--help"@ || args[k] == "-h"@)
}

impl Default for ClientCliOptions {
    fn default() -> (r: Self)
        ensures
            runtime_model(r.runtime) == default_model(),
    {
        ClientCliOptions { runtime: ClientRuntimeConfig::default() }
    }
}

fn value_error(flag: &str, error: &str) -> (r: String)
    ensures
        r@ == parse_failure_message(flag@, error@),
{
    let mut r = string_of("failed to parse ");
    push_str(&mut r, flag);
    push_str(&mut r, ": ");
    push_str(&mut r, error);
    r
}

fn missing_value(flag: &str) -> (r: String)
    ensures
        r@ == missing_value_message(flag@),
{
    let mut r = string_of("expected a value after ");
    push_str(&mut r, flag);
    r
}

fn read_u32_value(args: &Vec<String>, i: usize, flag: &str) -> (r: Result<u32, String>)
    requires
        i < args@.len(),
    ensures
        match with_u32_value(string_views(args@), i as nat, flag@) {
            Ok(v) => r matches Ok(x) && x == v,
            Err(e) => r matches Err(x) && x@ == e,
        },
{
    if args.len() - i <= 1 {
        return Err(missing_value(flag));
    }
    let ghost s = string_views(args@)[i + 1];
    assert(s == args@[i + 1]@);
    match parse_u32_text(args[i + 1].as_str()) {
        Ok(v) => Ok(v),
        Err(e) => Err(value_error(flag, e.as_str())),
    }
}

fn read_u64_value(args: &Vec<String>, i: usize, flag: &str) -> (r: Result<u64, String>)
    requires
        i < args@.len(),
    ensures
        match with_u64_value(string_views(args@), i as nat, flag@) {
            Ok(v) => r matches Ok(x) && x == v,
            Err(e) => r matches Err(x) && x@ == e,
        },
{
    if args.len() - i <= 1 {
        return Err(missing_value(flag));
    }
    let ghost s = string_views(args@)[i + 1];
    assert(s == args@[i + 1]@);
    match parse_u64_text(args[i + 1].as_str()) {
        Ok(v) => Ok(v),
        Err(e) => Err(value_error(flag, e.as_str())),
    }
}

impl ClientCliOptions {
    /// Reads the client's arguments as `client_parse` describes.
    #[verifier::rlimit(40)]
    pub fn parse(args: Vec<String>) -> (r: Result<Self, String>)
        ensures
            match client_parse(string_views(args@)) {
                Ok(m) => r matches Ok(o) && runtime_model(o.runtime) == m,
                Err(e) => r matches Err(x) && x@ == e,
            },
    {
        let ghost views = string_views(args@);
        let mut options = ClientCliOptions::default();
        let n = args.len();
        let mut i: usize = 0;
        while i < n
            invariant
                i <= n == args@.len(),
                views == string_views(args@),
                client_parse(views) == client_parse_from(views, i as nat, runtime_model(options.runtime)),
            decreases n - i,
        {
            let ghost m = runtime_model(options.runtime);
            let arg = args[i].as_str();
            assert(arg@ == views[i as int]);
            if str_eq(arg, "--windowed") {
                options.runtime.window.mode = WindowMode::Windowed;
                i = i + 1;
            } else if str_eq(arg, "--borderless") {
                options.runtime.window.mode = WindowMode::Borderless;
                i = i + 1;
            } else if str_eq(arg, "--width") {
                match read_u32_value(&args, i, arg) {
                    Ok(v) => {
                        options.runtime.window.width = v;
                        i = i + 2;
                    },
                    Err(e) => return Err(e),
                }
            } else if str_eq(arg, "--height") {
                match read_u32_value(&args, i, arg) {
                    Ok(v) => {
                        options.runtime.window.height = v;
                        i = i + 2;
                    },
                    Err(e) => return Err(e),
                }
            } else if str_eq(arg, "--title") {
                if i + 1 >= n {
                    return Err(missing_value(arg));
                }
                options.runtime.window.title = args[i + 1].clone();
                assert(options.runtime.window.title@ == views[i + 1]);
                i = i + 2;
            } else if str_eq(arg, "--simulation-rate-hz") {
                match read_u32_value(&args, i, arg) {
                    Ok(v) => {
                        options.runtime.fixed_step.simulation_rate_hz = v;
                        i = i + 2;
                    },
                    Err(e) => return Err(e),
                }
            } else if str_eq(arg, "--max-catch-up-steps") {
                match read_u32_value(&args, i, arg) {
                    Ok(v) => {
                        options.runtime.fixed_step.max_catch_up_steps = v;
                        i = i + 2;
                    },
                    Err(e) => return Err(e),
                }
            } else if str_eq(arg, "--auto-close-after-fixed-updates") {
                match read_u64_value(&args, i, arg) {
                    Ok(v) => {
                        options.runtime.auto_close_after_fixed_updates = Some(v);
                        i = i + 2;
                    },
                    Err(e) => return Err(e),
                }
            } else if str_eq(arg, "--auto-close-after-redraws") {
                match read_u64_value(&args, i, arg) {
                    Ok(v) => {
                        options.runtime.auto_close_after_redraws = Some(v);
                        i = i + 2;
                    },
                    Err(e) => return Err(e),
                }
            } else if str_eq(arg, "--smoke-test") {
                if options.runtime.auto_close_after_fixed_updates.is_none() {
                    options.runtime.auto_close_after_fixed_updates = Some(30);
                }
                i = i + 1;
            } else {
                let mut message = string_of("unsupported wr_client argument `");
                push_str(&mut message, arg);
                push_str(&mut message, "`\n\n");
                push_str(&mut message, HELP_TEXT);
                return Err(message);
            }
        }
        match options.runtime.validate() {
            Ok(_) => Ok(options),
            Err(e) => Err(e),
        }
    }
}

/// The client's usage line.
pub fn help_text() -> (r: &'static str)
    ensures
        r@ == HELP_TEXT@,
{
    HELP_TEXT
}

/// Help when any argument is `--help` or `-h`; otherwise the options `ClientCliOptions::parse`
/// reads from the arguments.
pub fn parse_command(args: Vec<String>) -> (r: Result<ClientCommand, String>)
    ensures
        asks_for_help(string_views(args@)) ==> r matches Ok(ClientCommand::Help),
        !asks_for_help(string_views(args@)) ==> match client_parse(string_views(args@)) {
            Ok(m) => r matches Ok(ClientCommand::Run(o)) && runtime_model(o.runtime) == m,
            Err(e) => r matches Err(x) && x@ == e,
        },
{
    let ghost views = string_views(args@);
    let mut k: usize = 0;
    while k < args.len()
        invariant
            k <= args@.len(),
            views == string_views(args@),
            forall|j: int| 0 <= j < k ==> !(views[j] == "--help"@ || views[j] == "-h"@),
        decreases args@.len() - k,
    {
        assert(args@[k as int]@ == views[k as int]);
        if str_eq(args[k].as_str(), "--help") || str_eq(args[k].as_str(), "-h") {
            return Ok(ClientCommand::Help);
        }
        k = k + 1;
    }
    match ClientCliOptions::parse(args) {
        Ok(o) => Ok(ClientCommand::Run(o)),
        Err(e) => Err(e),
    }
}

} // verus!
