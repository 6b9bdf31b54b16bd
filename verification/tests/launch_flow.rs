use web_intelligence::WebIntelError;
use web_intelligence::coordinator::LAUNCH_DEADLINE_MS;
use web_intelligence::coordinator::PollOutcome;
use web_intelligence::coordinator::outcome_to_result;
use web_intelligence::coordinator::poll_step;
use web_intelligence::coordinator::run_wait;
use web_intelligence::profile::ProfilePlan;
use web_intelligence::profile::TeardownAction;
use web_intelligence::profile::plan_profile;
use web_intelligence::profile::teardown_plan;
use web_intelligence::resolver::Platform;
use web_intelligence::resolver::first_hit;
use web_intelligence::resolver::platform_candidates;
use web_intelligence::resolver::resolve_explicit;
use web_intelligence::slot::EndpointSlot;

#[test]
fn slot_keeps_the_first_published_value() {
    let mut slot = EndpointSlot::new();
    assert_eq!(slot.get(), None);
    slot.publish(String::from("ws://127.0.0.1:1/devtools/browser/a"));
    slot.publish(String::from("ws://127.0.0.1:2/devtools/browser/b"));
    assert_eq!(slot.get(), Some(String::from("ws://127.0.0.1:1/devtools/browser/a")));
}

#[test]
fn success_takes_priority_over_exit_in_the_same_poll() {
    let url = String::from("ws://127.0.0.1:9222/devtools/browser/x");
    let r = poll_step(Some(url.clone()), true, LAUNCH_DEADLINE_MS, LAUNCH_DEADLINE_MS);
    assert_eq!(r, PollOutcome::Ready(url));
}

#[test]
fn early_exit_fails_well_before_the_deadline() {
    let r = poll_step(None, true, 0, LAUNCH_DEADLINE_MS);
    assert_eq!(r, PollOutcome::DiedEarly);
    match outcome_to_result(r) {
        Err(WebIntelError::LaunchFailure(m)) => {
            assert_eq!(m, "Browser process exited unexpectedly")
        },
        other => panic!("unexpected outcome: {:?}", other),
    }
}

#[test]
fn the_wait_times_out_at_the_deadline_not_earlier() {
    assert_eq!(poll_step(None, false, LAUNCH_DEADLINE_MS - 1, LAUNCH_DEADLINE_MS), PollOutcome::KeepWaiting);
    assert_eq!(poll_step(None, false, LAUNCH_DEADLINE_MS, LAUNCH_DEADLINE_MS), PollOutcome::TimedOut);
    assert_eq!(
        outcome_to_result(PollOutcome::TimedOut),
        Err(WebIntelError::WebSocketUrlNotFound)
    );
}

#[test]
fn ready_outcome_returns_the_endpoint() {
    let url = String::from("ws://127.0.0.1:9222/devtools/browser/x");
    assert_eq!(outcome_to_result(PollOutcome::Ready(url.clone())), Ok(url));
}

#[test]
fn ephemeral_mode_plans_a_temporary_directory() {
    assert_eq!(plan_profile(true, None, "ignored"), Ok(ProfilePlan::Ephemeral));
    assert_eq!(
        plan_profile(true, Some(String::from("/home/u/.cache")), "ignored"),
        Ok(ProfilePlan::Ephemeral)
    );
}

#[test]
fn persistent_mode_appends_the_profile_name_to_the_cache_root() {
    assert_eq!(
        plan_profile(false, Some(String::from("/home/u/.cache")), "web-intel-profile"),
        Ok(ProfilePlan::Persistent(String::from("/home/u/.cache/web-intel-profile")))
    );
}

#[test]
fn a_missing_cache_root_is_a_profile_creation_failure() {
    assert_eq!(
        plan_profile(false, None, "web-intel-profile"),
        Err(WebIntelError::ProfileCreationFailure(String::from(
            "Could not determine cache directory"
        )))
    );
}

#[test]
fn teardown_terminates_then_reaps_then_removes_ephemeral_storage() {
    assert_eq!(
        teardown_plan(true, false),
        vec![TeardownAction::Terminate, TeardownAction::Reap, TeardownAction::RemoveProfileDir]
    );
    assert_eq!(teardown_plan(false, false), vec![TeardownAction::Terminate, TeardownAction::Reap]);
}

#[test]
fn teardown_is_the_same_for_an_already_exited_process() {
    assert_eq!(teardown_plan(true, true), teardown_plan(true, false));
    assert_eq!(teardown_plan(false, true), teardown_plan(false, false));
}

#[test]
fn an_explicit_path_is_taken_only_if_it_exists() {
    assert_eq!(
        resolve_explicit(String::from("/opt/chrome"), true),
        Ok(String::from("/opt/chrome"))
    );
    assert_eq!(
        resolve_explicit(String::from("/opt/chrome"), false),
        Err(WebIntelError::BrowserNotFound)
    );
}

#[test]
fn candidate_lists_follow_the_platform_order() {
    let mac = platform_candidates(Platform::MacOs, None, None, None);
    assert_eq!(mac[0], "/Applications/Google Chrome Canary.app/Contents/MacOS/Google Chrome Canary");
    assert_eq!(mac.len(), 5);
    assert_eq!(mac[4], "/Applications/Microsoft Edge.app/Contents/MacOS/Microsoft Edge");

    let other = platform_candidates(Platform::Other, None, None, None);
    assert_eq!(
        other,
        vec![
            String::from("google-chrome-unstable"),
            String::from("google-chrome-beta"),
            String::from("google-chrome"),
            String::from("google-chrome-stable"),
            String::from("chromium"),
            String::from("chromium-browser"),
        ]
    );

    let win = platform_candidates(
        Platform::Windows,
        Some(String::from("C:\\PF")),
        None,
        Some(String::from("C:\\LAD")),
    );
    assert_eq!(win.len(), 8);
    assert_eq!(win[0], "chrome.exe");
    assert_eq!(win[3], "C:\\LAD\\Google\\Chrome SxS\\Application\\chrome.exe");
    assert_eq!(win[4], "C:\\PF\\Google\\Chrome\\Application\\chrome.exe");
    assert_eq!(win[5], "C:\\Program Files (x86)\\Google\\Chrome\\Application\\chrome.exe");
    assert_eq!(win[7], "C:\\Program Files (x86)\\Microsoft\\Edge\\Application\\msedge.exe");
}

#[test]
fn the_first_successful_probe_wins() {
    let probes = vec![
        None,
        Some(String::from("/usr/bin/google-chrome-beta")),
        Some(String::from("/usr/bin/google-chrome")),
    ];
    assert_eq!(first_hit(&probes), Ok(String::from("/usr/bin/google-chrome-beta")));
    assert_eq!(first_hit(&vec![]), Err(WebIntelError::BrowserNotFound));
    assert_eq!(first_hit(&vec![None, None]), Err(WebIntelError::BrowserNotFound));
}

#[test]
fn a_silent_healthy_trace_times_out_exactly_at_the_deadline() {
    let early: Vec<(Option<String>, bool, u64)> =
        (0..LAUNCH_DEADLINE_MS).step_by(100).map(|t| (None, false, t)).collect();
    assert_eq!(run_wait(&early, LAUNCH_DEADLINE_MS), PollOutcome::KeepWaiting);

    let mut full = early.clone();
    full.push((None, false, LAUNCH_DEADLINE_MS));
    full.push((None, false, LAUNCH_DEADLINE_MS + 100));
    assert_eq!(run_wait(&full, LAUNCH_DEADLINE_MS), PollOutcome::TimedOut);
}

#[test]
fn an_early_exit_decides_the_wait_long_before_the_deadline() {
    let obs = vec![(None, false, 0), (None, true, 100)];
    assert_eq!(run_wait(&obs, LAUNCH_DEADLINE_MS), PollOutcome::DiedEarly);
}

#[test]
fn an_endpoint_decides_the_wait_even_on_the_poll_that_sees_the_exit() {
    let url = String::from("ws://127.0.0.1:9222/devtools/browser/x");
    let obs = vec![(None, false, 0), (Some(url.clone()), true, 100)];
    assert_eq!(run_wait(&obs, LAUNCH_DEADLINE_MS), PollOutcome::Ready(url));
}
