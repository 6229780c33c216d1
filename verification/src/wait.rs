//! The tool `wait_agent`: how long a call may wait, and what it reports.

use crate::protocol::{FunctionCallError, WireApi};
use crate::text::{signed_decimal, signed_decimal_text};
use vstd::prelude::*;

verus! {

/// How long a call waits on the Gemini wire protocol where it does not say.
pub const GEMINI_DEFAULT_MULTI_AGENT_V2_WAIT_TIMEOUT_MS: i64 = 120_000;

/// The shortest wait that is granted on the Gemini wire protocol.
pub const GEMINI_MULTI_AGENT_V2_WAIT_TIMEOUT_FLOOR_MS: i64 = 120_000;

/// The configured limits of a wait.
#[derive(Clone, Copy, Debug, PartialEq, Eq, Structural)]
pub struct MultiAgentV2Config {
    pub default_wait_timeout_ms: i64,
    pub min_wait_timeout_ms: i64,
    pub max_wait_timeout_ms: i64,
}

/// The limits that one call is held to.
#[derive(Clone, Copy, Debug, PartialEq, Eq, Structural)]
pub struct WaitAgentTimeoutOptions {
    pub default_timeout_ms: i64,
    pub min_timeout_ms: i64,
    pub max_timeout_ms: i64,
}

/// What a call reports: only whether mail came, or the statuses of the children too.
#[derive(Clone, Copy, Debug, PartialEq, Eq, Structural)]
pub enum WaitAgentV2OutputMode {
    Mailbox,
    GeminiStatuses,
}

/// The arguments of a call.
#[derive(Clone, Copy, Debug, PartialEq, Eq, Structural)]
pub struct WaitArgs {
    pub timeout_ms: Option<i64>,
}

/// A wait raised to the floor, and then held to the maximum even where the floor is above it.
pub open spec fn floored_timeout(timeout_ms: int, floor_ms: int, max_timeout_ms: int) -> int {
    let raised = if timeout_ms < floor_ms {
        floor_ms
    } else {
        timeout_ms
    };
    if raised > max_timeout_ms {
        max_timeout_ms
    } else {
        raised
    }
}

/// Raises a wait to the floor, and then holds it to the maximum.
pub fn floor_gemini_wait_timeout_ms(timeout_ms: i64, floor_ms: i64, max_timeout_ms: i64) -> (result:
    i64)
    ensures
        result == floored_timeout(timeout_ms as int, floor_ms as int, max_timeout_ms as int),
{
    let raised: i64 = if timeout_ms < floor_ms {
        floor_ms
    } else {
        timeout_ms
    };
    if raised > max_timeout_ms {
        max_timeout_ms
    } else {
        raised
    }
}

/// The limits of a call under a configuration: on the Gemini wire protocol the default is the
/// fixed one, brought between the configured bounds; elsewhere it is the configured one.
pub open spec fn effective_options(
    config: MultiAgentV2Config,
    wire_api: WireApi,
) -> WaitAgentTimeoutOptions {
    WaitAgentTimeoutOptions {
        default_timeout_ms: if wire_api is GeminiNative {
            floored_timeout(
                GEMINI_DEFAULT_MULTI_AGENT_V2_WAIT_TIMEOUT_MS as int,
                config.min_wait_timeout_ms as int,
                config.max_wait_timeout_ms as int,
            ) as i64
        } else {
            config.default_wait_timeout_ms
        },
        min_timeout_ms: config.min_wait_timeout_ms,
        max_timeout_ms: config.max_wait_timeout_ms,
    }
}

/// The limits of a call under a configuration.
pub fn effective_wait_agent_v2_timeout_options(
    config: &MultiAgentV2Config,
    wire_api: WireApi,
) -> (result: WaitAgentTimeoutOptions)
    requires
        wire_api is GeminiNative ==> config.min_wait_timeout_ms <= config.max_wait_timeout_ms,
    ensures
        result == effective_options(*config, wire_api),
{
    let default_timeout_ms: i64 = if wire_api == WireApi::GeminiNative {
        floor_gemini_wait_timeout_ms(
            GEMINI_DEFAULT_MULTI_AGENT_V2_WAIT_TIMEOUT_MS,
            config.min_wait_timeout_ms,
            config.max_wait_timeout_ms,
        )
    } else {
        config.default_wait_timeout_ms
    };
    WaitAgentTimeoutOptions {
        default_timeout_ms,
        min_timeout_ms: config.min_wait_timeout_ms,
        max_timeout_ms: config.max_wait_timeout_ms,
    }
}

/// How one call waits: for how long, and whether for the children or for mail.
#[derive(Clone, Copy, Debug, PartialEq, Eq, Structural)]
pub struct WaitPlan {
    pub effective_timeout_ms: i64,
    /// The time from the start to the deadline.
    pub deadline_after_ms: u64,
    pub use_status_output: bool,
}

/// Why the arguments of a call are refused, as the model is told.
pub open spec fn timeout_refusal(
    options: WaitAgentTimeoutOptions,
    timeout_ms: Option<i64>,
) -> Option<Seq<char>> {
    match timeout_ms {
        Some(ms) => if ms < options.min_timeout_ms {
            Some("timeout_ms must be at least "@ + signed_decimal(options.min_timeout_ms as int))
        } else if ms > options.max_timeout_ms {
            Some("timeout_ms must be at most "@ + signed_decimal(options.max_timeout_ms as int))
        } else {
            None
        },
        None => None,
    }
}

/// Whether a call reports the statuses of the children.
pub open spec fn reports_statuses(output_mode: WaitAgentV2OutputMode, wire_api: WireApi) -> bool {
    output_mode is GeminiStatuses && wire_api is GeminiNative
}

/// The wait that is granted for arguments that are not refused.
pub open spec fn granted_timeout(
    options: WaitAgentTimeoutOptions,
    status_output: bool,
    timeout_ms: Option<i64>,
) -> int {
    let asked = match timeout_ms {
        Some(ms) => ms as int,
        None => options.default_timeout_ms as int,
    };
    if status_output {
        floored_timeout(
            asked,
            GEMINI_MULTI_AGENT_V2_WAIT_TIMEOUT_FLOOR_MS as int,
            options.max_timeout_ms as int,
        )
    } else {
        asked
    }
}

/// A 64-bit number read as an unsigned one.
pub open spec fn unsigned(n: int) -> int {
    if n < 0 {
        n + 0x1_0000_0000_0000_0000
    } else {
        n
    }
}

/// The tool `wait_agent`.
#[derive(Clone, Copy, Debug, PartialEq, Eq, Structural)]
pub struct Handler {
    pub options: WaitAgentTimeoutOptions,
    pub output_mode: WaitAgentV2OutputMode,
}

impl Handler {
    pub fn new_with_output_mode(
        options: WaitAgentTimeoutOptions,
        output_mode: WaitAgentV2OutputMode,
    ) -> (result: Self)
        ensures
            result.options == options,
            result.output_mode == output_mode,
    {
        Handler { options, output_mode }
    }

    /// The name that the model calls the tool by.
    pub fn tool_name(&self) -> (result: &'static str)
        ensures
            result@ == "wait_agent"@,
    {
        "wait_agent"
    }

    /// Checks the arguments of a call and settles how it waits.
    pub fn plan(
        &self,
        args: &WaitArgs,
        config: &MultiAgentV2Config,
        wire_api: WireApi,
    ) -> (result: Result<WaitPlan, FunctionCallError>)
        requires
            wire_api is GeminiNative ==> config.min_wait_timeout_ms <= config.max_wait_timeout_ms,
        ensures
            match timeout_refusal(effective_options(*config, wire_api), args.timeout_ms) {
                Some(message) => result is Err && result->Err_0.spec_message() == message,
                None => {
                    &&& result is Ok
                    &&& result->Ok_0.use_status_output == reports_statuses(
                        self.output_mode,
                        wire_api,
                    )
                    &&& result->Ok_0.effective_timeout_ms == granted_timeout(
                        effective_options(*config, wire_api),
                        reports_statuses(self.output_mode, wire_api),
                        args.timeout_ms,
                    )
                    &&& result->Ok_0.deadline_after_ms == unsigned(
                        result->Ok_0.effective_timeout_ms as int,
                    )
                },
            },
    {
        let options = effective_wait_agent_v2_timeout_options(config, wire_api);
        let timeout_ms: i64 = match args.timeout_ms {
            Some(ms) => {
                if ms < options.min_timeout_ms {
                    let mut message = "timeout_ms must be at least ".to_owned();
                    message.append(signed_decimal_text(options.min_timeout_ms).as_str());
                    return Err(FunctionCallError::RespondToModel(message));
                }
                if ms > options.max_timeout_ms {
                    let mut message = "timeout_ms must be at most ".to_owned();
                    message.append(signed_decimal_text(options.max_timeout_ms).as_str());
                    return Err(FunctionCallError::RespondToModel(message));
                }
                ms
            },
            None => options.default_timeout_ms,
        };
        let use_status_output = self.output_mode == WaitAgentV2OutputMode::GeminiStatuses
            && wire_api == WireApi::GeminiNative;
        let effective_timeout_ms: i64 = if use_status_output {
            floor_gemini_wait_timeout_ms(
                timeout_ms,
                GEMINI_MULTI_AGENT_V2_WAIT_TIMEOUT_FLOOR_MS,
                options.max_timeout_ms,
            )
        } else {
            timeout_ms
        };
        let deadline_after_ms: u64 = if effective_timeout_ms < 0 {
            (effective_timeout_ms as i128 + 0x1_0000_0000_0000_0000i128) as u64
        } else {
            effective_timeout_ms as u64
        };
        Ok(WaitPlan { effective_timeout_ms, deadline_after_ms, use_status_output })
    }
}

/// Where statuses are reported, a call that is not refused waits at least as long as the
/// floor, or as the maximum where that is shorter, and never longer than the maximum; and an
/// explicit wait that is granted is never shortened.
pub proof fn lemma_granted_timeout_bounds(
    config: MultiAgentV2Config,
    status_output: bool,
    timeout_ms: Option<i64>,
)
    requires
        config.min_wait_timeout_ms <= config.max_wait_timeout_ms,
        timeout_refusal(effective_options(config, WireApi::GeminiNative), timeout_ms) is None,
    ensures
        ({
            let granted = granted_timeout(
                effective_options(config, WireApi::GeminiNative),
                status_output,
                timeout_ms,
            );
            &&& config.min_wait_timeout_ms <= granted <= config.max_wait_timeout_ms
            &&& status_output ==> granted >= GEMINI_MULTI_AGENT_V2_WAIT_TIMEOUT_FLOOR_MS || granted
                == config.max_wait_timeout_ms
            &&& timeout_ms is Some ==> granted >= timeout_ms->Some_0
        }),
{
}

} // verus!
