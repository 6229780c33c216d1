use std::collections::HashMap;

use gemini_orchestration::protocol::{AgentStatus, FunctionCallError, WireApi};
use gemini_orchestration::wait::{
    effective_wait_agent_v2_timeout_options, floor_gemini_wait_timeout_ms, Handler,
    MultiAgentV2Config, WaitAgentTimeoutOptions, WaitAgentV2OutputMode, WaitArgs, WaitPlan,
    GEMINI_MULTI_AGENT_V2_WAIT_TIMEOUT_FLOOR_MS,
};
use gemini_orchestration::wait_report::{
    ChildWaitReport, CollabAgentRef, CollabAgentStatusEntry, WaitAgentResult, WaitEnd,
    WaitOutcome, WaitingEnd,
};
use gemini_orchestration::wait_run::{
    final_statuses_for_children, wait_for_final_status, ChildStatusSubscriptions, SubscribeReply,
    WaitEvent, WaitStage, WaiterEvent, WaiterStep,
};

fn default_config() -> MultiAgentV2Config {
    MultiAgentV2Config {
        default_wait_timeout_ms: 30_000,
        min_wait_timeout_ms: 10_000,
        max_wait_timeout_ms: 3_600_000,
    }
}

fn handler() -> Handler {
    Handler::new_with_output_mode(
        WaitAgentTimeoutOptions {
            default_timeout_ms: 30_000,
            min_timeout_ms: 10_000,
            max_timeout_ms: 3_600_000,
        },
        WaitAgentV2OutputMode::GeminiStatuses,
    )
}

fn agent(thread_id: u128, nickname: Option<&str>) -> CollabAgentRef {
    CollabAgentRef {
        thread_id,
        agent_nickname: nickname.map(str::to_string),
        agent_role: Some("explorer".to_string()),
    }
}

fn entry(thread_id: u128, nickname: Option<&str>, status: AgentStatus) -> CollabAgentStatusEntry {
    CollabAgentStatusEntry {
        thread_id,
        agent_nickname: nickname.map(str::to_string),
        agent_role: Some("explorer".to_string()),
        status,
    }
}

fn report(text: &str) -> AgentStatus {
    AgentStatus::Completed(Some(text.to_string()))
}

/// Waits for children that are at rest from the start, in one round.
fn wait_at_rest(children: Vec<(u128, Option<&str>, AgentStatus)>, was_unchanged: bool) -> WaitEnd {
    let plan = handler()
        .plan(
            &WaitArgs {
                timeout_ms: Some(10_000),
            },
            &default_config(),
            WireApi::GeminiNative,
        )
        .expect("the wait should be granted");
    let mut stage = WaitStage::start(&plan).next(WaitEvent::Opened);
    assert_eq!(stage, WaitStage::ListChildren);
    stage = stage.next(WaitEvent::Children(
        children
            .iter()
            .map(|(id, nickname, _)| agent(*id, *nickname))
            .collect(),
    ));
    for (_, _, status) in &children {
        stage = stage.next(WaitEvent::Subscription(SubscribeReply::Subscribed(
            status.clone(),
        )));
    }
    let polled: Vec<AgentStatus> = children.iter().map(|(_, _, status)| status.clone()).collect();
    stage = stage.next(WaitEvent::Statuses(polled));
    assert!(matches!(
        stage,
        WaitStage::PollReport {
            outcome: WaitOutcome::AllTerminal,
            ..
        }
    ));
    stage = stage.next(WaitEvent::Statuses(
        children.iter().map(|(_, _, status)| status.clone()).collect(),
    ));
    stage = stage.next(WaitEvent::Recorded(was_unchanged));
    match stage {
        WaitStage::Done { end } => end,
        other => panic!("the wait should be done, got {other:?}"),
    }
}

#[test]
fn multi_agent_v2_wait_agent_effective_default_is_longer_for_gemini() {
    let config = default_config();

    let options = effective_wait_agent_v2_timeout_options(&config, WireApi::GeminiNative);

    assert_eq!(options.default_timeout_ms, 120_000);
}

#[test]
fn multi_agent_v2_wait_agent_effective_default_stays_configured_for_non_gemini() {
    let config = default_config();

    let options = effective_wait_agent_v2_timeout_options(&config, WireApi::Responses);

    assert_eq!(options.default_timeout_ms, 30_000);
}

#[test]
fn multi_agent_v2_wait_agent_gemini_effective_default_clamps_to_configured_max() {
    let mut config = default_config();
    config.max_wait_timeout_ms = 60_000;

    let options = effective_wait_agent_v2_timeout_options(&config, WireApi::GeminiNative);

    assert_eq!(options.default_timeout_ms, 60_000);
}

#[test]
fn multi_agent_v2_wait_agent_gemini_effective_default_clamps_to_configured_min() {
    let mut config = default_config();
    config.min_wait_timeout_ms = 180_000;
    config.max_wait_timeout_ms = 240_000;

    let options = effective_wait_agent_v2_timeout_options(&config, WireApi::GeminiNative);

    assert_eq!(options.default_timeout_ms, 180_000);
}

#[test]
fn multi_agent_v2_wait_agent_gemini_floor_timeout_ms_handles_short_and_capped_values() {
    let floor = GEMINI_MULTI_AGENT_V2_WAIT_TIMEOUT_FLOOR_MS;

    assert_eq!(
        floor_gemini_wait_timeout_ms(15_000, floor, 3_600_000),
        floor
    );
    assert_eq!(floor_gemini_wait_timeout_ms(floor, floor, 3_600_000), floor);
    assert_eq!(
        floor_gemini_wait_timeout_ms(180_000, floor, 3_600_000),
        180_000
    );
    assert_eq!(floor_gemini_wait_timeout_ms(15_000, floor, 60_000), 60_000);
}

#[test]
fn multi_agent_v2_wait_agent_rejects_timeout_below_configured_min() {
    let mut config = default_config();
    config.min_wait_timeout_ms = 50;
    assert_eq!(
        handler().plan(
            &WaitArgs {
                timeout_ms: Some(49)
            },
            &config,
            WireApi::Responses
        ),
        Err(FunctionCallError::RespondToModel(
            "timeout_ms must be at least 50".to_string()
        ))
    );
}

#[test]
fn multi_agent_v2_wait_agent_rejects_timeout_above_configured_max() {
    let mut config = default_config();
    config.max_wait_timeout_ms = 20_000;
    assert_eq!(
        handler().plan(
            &WaitArgs {
                timeout_ms: Some(20_001)
            },
            &config,
            WireApi::Responses
        ),
        Err(FunctionCallError::RespondToModel(
            "timeout_ms must be at most 20000".to_string()
        ))
    );
}

#[test]
fn a_negative_minimum_is_written_with_its_sign() {
    let mut config = default_config();
    config.min_wait_timeout_ms = -7;
    assert_eq!(
        handler().plan(
            &WaitArgs {
                timeout_ms: Some(-8)
            },
            &config,
            WireApi::Responses
        ),
        Err(FunctionCallError::RespondToModel(
            "timeout_ms must be at least -7".to_string()
        ))
    );
    assert_eq!(
        handler().plan(
            &WaitArgs {
                timeout_ms: Some(-1)
            },
            &config,
            WireApi::Responses
        ),
        Ok(WaitPlan {
            effective_timeout_ms: -1,
            deadline_after_ms: u64::MAX,
            use_status_output: false,
        })
    );
}

#[test]
fn multi_agent_v2_wait_agent_gemini_floors_short_explicit_timeout() {
    let config = default_config();
    assert_eq!(
        handler().plan(
            &WaitArgs {
                timeout_ms: Some(10_000)
            },
            &config,
            WireApi::GeminiNative
        ),
        Ok(WaitPlan {
            effective_timeout_ms: 120_000,
            deadline_after_ms: 120_000,
            use_status_output: true,
        })
    );
    assert_eq!(
        handler().plan(
            &WaitArgs {
                timeout_ms: Some(10_000)
            },
            &config,
            WireApi::Responses
        ),
        Ok(WaitPlan {
            effective_timeout_ms: 10_000,
            deadline_after_ms: 10_000,
            use_status_output: false,
        })
    );
}

#[test]
fn the_mailbox_mode_never_reports_statuses() {
    let handler = Handler::new_with_output_mode(
        handler().options,
        WaitAgentV2OutputMode::Mailbox,
    );
    assert_eq!(handler.tool_name(), "wait_agent");
    let plan = handler
        .plan(
            &WaitArgs { timeout_ms: None },
            &default_config(),
            WireApi::GeminiNative,
        )
        .expect("the wait should be granted");
    assert!(!plan.use_status_output);
    assert_eq!(plan.effective_timeout_ms, 120_000);
    assert_eq!(
        WaitStage::start(&plan).next(WaitEvent::Opened),
        WaitStage::AwaitMailbox
    );
}

#[test]
fn a_wait_for_mail_ends_with_mail_or_times_out() {
    for (event, message, timed_out) in [
        (WaitEvent::MailboxChanged, "Wait completed.", false),
        (WaitEvent::MailboxClosed, "Wait timed out.", true),
        (WaitEvent::DeadlinePassed, "Wait timed out.", true),
    ] {
        let WaitStage::Done { end } = WaitStage::AwaitMailbox.next(event) else {
            panic!("the wait should be done");
        };
        assert_eq!(
            end,
            WaitEnd {
                result: WaitAgentResult {
                    message: message.to_string(),
                    timed_out,
                    statuses: None,
                    agent_statuses: None,
                    empty_completions: vec![],
                    wait_again_allowed: None,
                },
                event: WaitingEnd {
                    agent_statuses: vec![],
                    statuses: HashMap::new(),
                },
            }
        );
    }
}

#[test]
fn multi_agent_v2_wait_agent_gemini_returns_immediately_without_live_children() {
    let WaitStage::Done { end } = WaitStage::ListChildren.next(WaitEvent::Children(vec![])) else {
        panic!("the wait should be done");
    };
    assert_eq!(
        end.result,
        WaitAgentResult {
            message: "No live child agents to wait for.".to_string(),
            timed_out: false,
            statuses: Some(HashMap::new()),
            agent_statuses: Some(Vec::new()),
            empty_completions: vec![],
            wait_again_allowed: Some(true),
        }
    );
    assert_eq!(end.event.agent_statuses, vec![]);
    assert_eq!(end.event.statuses, HashMap::new());
}

#[test]
fn multi_agent_v2_wait_agent_gemini_keeps_plain_message_for_bodied_completion() {
    let end = wait_at_rest(vec![(7, Some("Ada"), report("child result"))], false);
    assert_eq!(
        end.result,
        WaitAgentResult {
            message: "Wait completed.".to_string(),
            timed_out: false,
            statuses: None,
            agent_statuses: Some(vec![entry(7, Some("Ada"), report("child result"))]),
            empty_completions: vec![],
            wait_again_allowed: Some(true),
        }
    );
    assert_eq!(
        end.event.agent_statuses,
        vec![entry(7, Some("Ada"), report("child result"))]
    );
    assert_eq!(
        end.event.statuses,
        HashMap::from([(7u128, report("child result"))])
    );
}

#[test]
fn multi_agent_v2_wait_agent_gemini_names_only_empty_completion_in_mixed_result() {
    let end = wait_at_rest(
        vec![
            (1, Some("Ada"), report("bodied result")),
            (2, Some("Bob"), AgentStatus::Completed(None)),
        ],
        false,
    );
    assert_eq!(
        end.result,
        WaitAgentResult {
            message: "Wait completed. 1 of 2 agents are terminal with no report: Bob. They are not running — calling wait_agent again returns immediately and cannot produce a report for them. To get a report, send the agent a single concrete follow-up first, then wait again; otherwise proceed with the results you already have. Do not re-spawn these agents.".to_string(),
            timed_out: false,
            statuses: None,
            agent_statuses: Some(vec![
                entry(1, Some("Ada"), report("bodied result")),
                entry(2, Some("Bob"), AgentStatus::Completed(None)),
            ]),
            empty_completions: vec!["Bob".to_string()],
            wait_again_allowed: Some(false),
        }
    );
}

#[test]
fn children_without_a_nickname_are_named_by_their_thread_and_labels_are_sorted() {
    let end = wait_at_rest(
        vec![
            (
                0x0123_4567_89ab_cdef_0011_2233_4455_6677,
                None,
                AgentStatus::Completed(None),
            ),
            (9, Some("Zoe"), AgentStatus::Completed(None)),
            (10, Some("Bob"), AgentStatus::Completed(None)),
        ],
        false,
    );
    assert_eq!(
        end.result.empty_completions,
        vec![
            "01234567-89ab-cdef-0011-223344556677".to_string(),
            "Bob".to_string(),
            "Zoe".to_string(),
        ]
    );
    assert!(end.result.message.contains(
        "3 of 3 agents are terminal with no report: 01234567-89ab-cdef-0011-223344556677, Bob, Zoe."
    ));
}

#[test]
fn multi_agent_v2_wait_agent_gemini_redundant_repeat_returns_compact() {
    let children = || {
        vec![
            (1u128, Some("Ada"), report("BODIED_REPORT_BODY_MARKER")),
            (2u128, Some("Bob"), AgentStatus::Completed(None)),
        ]
    };
    let first = wait_at_rest(children(), false);
    assert!(first.result.statuses.is_none());
    assert!(first.result.agent_statuses.is_some());
    assert_eq!(first.result.empty_completions, vec!["Bob".to_string()]);
    assert_eq!(first.result.wait_again_allowed, Some(false));

    let second = wait_at_rest(children(), true);
    assert!(second.result.message.starts_with("Wait completed."));
    assert!(second.result.message.contains("terminal with no report"));
    assert_eq!(second.result.statuses, None);
    assert_eq!(second.result.agent_statuses, None);
    assert_eq!(second.result.empty_completions, vec!["Bob".to_string()]);
    assert_eq!(second.result.wait_again_allowed, Some(false));
    assert_eq!(second.event.agent_statuses, vec![]);
    assert_eq!(second.event.statuses, HashMap::new());
}

#[test]
fn an_unchanged_wait_without_empty_completions_is_delivered_in_full() {
    let end = wait_at_rest(vec![(1, Some("Ada"), report("again"))], true);
    assert_eq!(
        end.result.agent_statuses,
        Some(vec![entry(1, Some("Ada"), report("again"))])
    );
    assert_eq!(end.result.wait_again_allowed, Some(true));
}

#[test]
fn multi_agent_v2_wait_agent_missing_enumerated_child_is_terminal_not_found() {
    let mut subscriptions = ChildStatusSubscriptions::new();
    assert!(subscriptions.subscribe(5, SubscribeReply::ThreadNotFound));
    assert_eq!(subscriptions.status_rxs, Vec::<u128>::new());
    assert_eq!(
        subscriptions.terminal_statuses,
        HashMap::from([(5u128, AgentStatus::NotFound)])
    );
}

#[test]
fn only_children_that_are_not_at_rest_are_waited_on() {
    let mut subscriptions = ChildStatusSubscriptions::new();
    assert!(subscriptions.subscribe(1, SubscribeReply::Subscribed(AgentStatus::Running)));
    assert!(subscriptions.subscribe(2, SubscribeReply::Subscribed(report("done"))));
    assert!(subscriptions.subscribe(3, SubscribeReply::Subscribed(AgentStatus::PendingInit)));
    assert!(!subscriptions.subscribe(4, SubscribeReply::Failed));
    assert_eq!(subscriptions.status_rxs, vec![1, 2, 3]);
    assert_eq!(subscriptions.waiters(), vec![1, 3]);
}

#[test]
fn multi_agent_v2_wait_agent_gemini_ignores_spurious_mailbox_notification() {
    let mut stage = WaitStage::ListChildren.next(WaitEvent::Children(vec![
        agent(1, Some("Ada")),
        agent(2, Some("Bob")),
    ]));
    stage = stage.next(WaitEvent::Subscription(SubscribeReply::Subscribed(
        AgentStatus::Running,
    )));
    stage = stage.next(WaitEvent::Subscription(SubscribeReply::Subscribed(
        AgentStatus::Running,
    )));
    let running = || WaitEvent::Statuses(vec![report("first"), AgentStatus::Running]);
    stage = stage.next(running());
    assert_eq!(
        stage,
        WaitStage::Await {
            agents: vec![agent(1, Some("Ada")), agent(2, Some("Bob"))],
            waiters: vec![1, 2],
            mailbox_open: true,
        }
    );
    stage = stage.next(WaitEvent::MailboxChanged);
    assert!(matches!(stage, WaitStage::Poll { mailbox_open: true, .. }));
    stage = stage.next(running());
    stage = stage.next(WaitEvent::WaiterEnded(1));
    stage = stage.next(running());
    stage = stage.next(WaitEvent::MailboxClosed);
    stage = stage.next(running());
    assert_eq!(
        stage,
        WaitStage::Await {
            agents: vec![agent(1, Some("Ada")), agent(2, Some("Bob"))],
            waiters: vec![2],
            mailbox_open: false,
        }
    );
}

#[test]
fn multi_agent_v2_wait_agent_gemini_times_out_with_partial_statuses() {
    let await_stage = WaitStage::Await {
        agents: vec![agent(1, Some("Ada")), agent(2, Some("Bob"))],
        waiters: vec![2],
        mailbox_open: true,
    };
    let stage = await_stage.next(WaitEvent::DeadlinePassed);
    let stage = stage.next(WaitEvent::Statuses(vec![
        report("first"),
        AgentStatus::Running,
    ]));
    let WaitStage::Done { end } = stage.next(WaitEvent::Recorded(true)) else {
        panic!("the wait should be done");
    };
    assert_eq!(
        end.result,
        WaitAgentResult {
            message: "Wait timed out.".to_string(),
            timed_out: true,
            statuses: None,
            agent_statuses: Some(vec![entry(1, Some("Ada"), report("first"))]),
            empty_completions: vec![],
            wait_again_allowed: Some(true),
        }
    );
}

#[test]
fn a_deadline_on_children_at_rest_is_no_timeout() {
    let report_of = ChildWaitReport::new(
        WaitOutcome::TimedOut,
        vec![agent(1, Some("Ada"))],
        HashMap::from([(1u128, report("late"))]),
    );
    assert!(!report_of.timed_out);
    let end = report_of.deliver(false);
    assert_eq!(end.result.message, "Wait completed.");
    assert!(!end.result.timed_out);
}

#[test]
fn a_failed_subscription_reports_the_status_of_that_child() {
    let stage = WaitStage::ListChildren.next(WaitEvent::Children(vec![agent(3, Some("Cy"))]));
    let stage = stage.next(WaitEvent::Subscription(SubscribeReply::Failed));
    assert_eq!(
        stage,
        WaitStage::PollFailed {
            agents: vec![agent(3, Some("Cy"))],
            thread_id: 3,
        }
    );
    assert_eq!(
        stage.next(WaitEvent::Status(AgentStatus::Interrupted)),
        WaitStage::Failed {
            event: Some(WaitingEnd {
                agent_statuses: vec![entry(3, Some("Cy"), AgentStatus::Interrupted)],
                statuses: HashMap::from([(3u128, AgentStatus::Interrupted)]),
            }),
        }
    );
    assert_eq!(
        WaitStage::ListChildren.next(WaitEvent::ChildrenFailed),
        WaitStage::Failed { event: None }
    );
}

#[test]
fn a_followed_child_is_followed_until_it_rests_or_falls_silent() {
    assert_eq!(
        wait_for_final_status(WaiterEvent::Status(AgentStatus::Running)),
        WaiterStep::KeepWaiting
    );
    assert_eq!(
        wait_for_final_status(WaiterEvent::Status(AgentStatus::Shutdown)),
        WaiterStep::Resolved(Some(AgentStatus::Shutdown))
    );
    assert_eq!(
        wait_for_final_status(WaiterEvent::SenderDropped(AgentStatus::Running)),
        WaiterStep::Resolved(None)
    );
    assert_eq!(
        wait_for_final_status(WaiterEvent::SenderDropped(AgentStatus::NotFound)),
        WaiterStep::Resolved(Some(AgentStatus::NotFound))
    );
}

#[test]
fn a_poll_keeps_only_final_statuses() {
    let statuses = final_statuses_for_children(
        &vec![agent(1, None), agent(2, None), agent(3, None)],
        &vec![
            AgentStatus::Interrupted,
            AgentStatus::NotFound,
            AgentStatus::Completed(None),
        ],
    );
    assert_eq!(
        statuses,
        HashMap::from([
            (2u128, AgentStatus::NotFound),
            (3u128, AgentStatus::Completed(None)),
        ])
    );
}

#[test]
fn multi_agent_v2_wait_agent_gemini_full_delivery_omits_statuses_keeps_agent_statuses() {
    let body = "FULL_DELIVERY_REPORT_BODY_MARKER";
    let end = wait_at_rest(vec![(1, Some("Ada"), report(body))], false);
    assert!(end.result.statuses.is_none());
    assert_eq!(
        end.result.agent_statuses,
        Some(vec![entry(1, Some("Ada"), report(body))])
    );
}

#[test]
fn multi_agent_v2_wait_agent_gemini_directs_parent_after_empty_completion() {
    let end = wait_at_rest(vec![(1, Some("Ada"), AgentStatus::Completed(None))], false);
    assert_eq!(
        end.result,
        WaitAgentResult {
            message: "Wait completed. 1 of 1 agents are terminal with no report: Ada. They are not running — calling wait_agent again returns immediately and cannot produce a report for them. To get a report, send the agent a single concrete follow-up first, then wait again; otherwise proceed with the results you already have. Do not re-spawn these agents.".to_string(),
            timed_out: false,
            statuses: None,
            agent_statuses: Some(vec![entry(1, Some("Ada"), AgentStatus::Completed(None))]),
            empty_completions: vec!["Ada".to_string()],
            wait_again_allowed: Some(false),
        }
    );
}

#[test]
fn multi_agent_v2_wait_agent_gemini_followup_reenables_full_delivery() {
    let first = wait_at_rest(vec![(1, Some("Ada"), AgentStatus::Completed(None))], false);
    assert_eq!(first.result.empty_completions, vec!["Ada".to_string()]);
    assert_eq!(first.result.wait_again_allowed, Some(false));

    let second = wait_at_rest(
        vec![(1, Some("Ada"), report("report after followup"))],
        false,
    );
    assert_eq!(second.result.statuses, None);
    assert_eq!(
        second.result.agent_statuses,
        Some(vec![entry(1, Some("Ada"), report("report after followup"))])
    );
    assert_eq!(second.result.empty_completions, Vec::<String>::new());
    assert_eq!(second.result.wait_again_allowed, Some(true));
}

#[test]
fn multi_agent_v2_wait_agent_gemini_blocks_until_all_children_terminal() {
    let agents = || vec![agent(1, Some("Ada")), agent(2, Some("Bob"))];
    let waiting = WaitStage::Poll {
        agents: agents(),
        waiters: vec![2],
        mailbox_open: true,
    };
    let waiting = waiting.next(WaitEvent::Statuses(vec![
        report("first"),
        AgentStatus::Running,
    ]));
    assert!(matches!(waiting, WaitStage::Await { .. }));
    let polled = waiting.next(WaitEvent::WaiterEnded(2));
    let done = polled.next(WaitEvent::Statuses(vec![report("first"), report("second")]));
    assert_eq!(
        done,
        WaitStage::PollReport {
            agents: agents(),
            outcome: WaitOutcome::AllTerminal,
        }
    );
}

#[test]
fn multi_agent_v2_wait_agent_accepts_explicit_timeouts_at_the_configured_bounds() {
    for timeout_ms in [10_000, 3_600_000] {
        let plan = handler()
            .plan(
                &WaitArgs {
                    timeout_ms: Some(timeout_ms),
                },
                &default_config(),
                WireApi::Responses,
            )
            .expect("the wait should be granted");
        assert_eq!(plan.effective_timeout_ms, timeout_ms);
        assert!(!plan.use_status_output);
    }
    let zero = MultiAgentV2Config {
        default_wait_timeout_ms: 0,
        min_wait_timeout_ms: 0,
        max_wait_timeout_ms: 0,
    };
    let plan = handler()
        .plan(&WaitArgs { timeout_ms: Some(0) }, &zero, WireApi::Responses)
        .expect("a configured wait of nothing should be granted");
    assert_eq!(plan.deadline_after_ms, 0);
}
