use web_intelligence::AIExecutionStrategy;
use web_intelligence::BrowserLauncherBuilder;
use web_intelligence::args::assemble_args;
use web_intelligence::args::assemble_env;
use web_intelligence::args::join_comma;
use web_intelligence::args::u32_to_string;

const AI_FEATURES: &str = "--enable-features=OptimizationGuideModelDownloading,OptimizationGuideOnDeviceModel,PromptAPIForGeminiNano";

#[test]
fn renders_decimals_exactly() {
    assert_eq!(u32_to_string(0), "0");
    assert_eq!(u32_to_string(7), "7");
    assert_eq!(u32_to_string(10), "10");
    assert_eq!(u32_to_string(1280), "1280");
    assert_eq!(u32_to_string(u32::MAX), "4294967295");
}

#[test]
fn joins_with_commas() {
    assert_eq!(join_comma(&vec![]), "");
    assert_eq!(join_comma(&vec![String::from("a")]), "a");
    assert_eq!(
        join_comma(&vec![String::from("/e1"), String::from("/e2"), String::from("/e3")]),
        "/e1,/e2,/e3"
    );
}

#[test]
fn assembles_every_flag_in_fixed_order() {
    let b = BrowserLauncherBuilder::new()
        .headless(true)
        .viewport(1280, 720)
        .with_extension(String::from("/e1"))
        .with_extension(String::from("/e2"))
        .app_mode(true)
        .start_url(String::from("https://example.com"))
        .arg(String::from("--mute-audio"));
    let args = assemble_args(&b, "/tmp/profile");
    assert_eq!(
        args,
        vec![
            String::from("--user-data-dir=/tmp/profile"),
            String::from("--remote-debugging-port=0"),
            String::from("--no-first-run"),
            String::from("--no-default-browser-check"),
            String::from("--headless=new"),
            String::from("--window-size=1280,720"),
            String::from("--load-extension=/e1,/e2"),
            String::from(AI_FEATURES),
            String::from("--allow-insecure-localhost"),
            String::from("--app=https://example.com"),
            String::from("--mute-audio"),
        ]
    );
}

#[test]
fn minimal_configuration_assembles_only_base_flags() {
    let b = BrowserLauncherBuilder::new().with_ai_flags(false);
    let args = assemble_args(&b, "/p");
    assert_eq!(
        args,
        vec![
            String::from("--user-data-dir=/p"),
            String::from("--remote-debugging-port=0"),
            String::from("--no-first-run"),
            String::from("--no-default-browser-check"),
        ]
    );
}

#[test]
fn app_mode_gives_combined_flag_and_no_bare_url() {
    let url = "https://example.com";
    let b = BrowserLauncherBuilder::new().app_mode(true).start_url(String::from(url));
    let args = assemble_args(&b, "/p");
    let combined = format!("--app={}", url);
    assert_eq!(args.iter().filter(|a| *a == &combined).count(), 1);
    assert!(!args.iter().any(|a| a == url));
}

#[test]
fn without_app_mode_the_bare_url_trails_and_no_combined_flag() {
    let url = "https://example.com";
    let b = BrowserLauncherBuilder::new().app_mode(false).start_url(String::from(url));
    let args = assemble_args(&b, "/p");
    let combined = format!("--app={}", url);
    assert_eq!(args.last().unwrap(), url);
    assert!(!args.iter().any(|a| a == &combined));
}

#[test]
fn environment_carries_keys_only_when_configured() {
    let b = BrowserLauncherBuilder::new();
    let env = assemble_env(&b);
    assert_eq!(env, vec![(String::from("WEB_INTEL_STRATEGY"), String::from("local"))]);

    let b = BrowserLauncherBuilder::new()
        .openai_api_key(String::from("ok-123"))
        .anthropic_api_key(String::from("ak-456"))
        .with_ai_strategy(AIExecutionStrategy::CloudOnly);
    let env = assemble_env(&b);
    assert_eq!(
        env,
        vec![
            (String::from("OPENAI_API_KEY"), String::from("ok-123")),
            (String::from("ANTHROPIC_API_KEY"), String::from("ak-456")),
            (String::from("WEB_INTEL_STRATEGY"), String::from("cloud")),
        ]
    );
}

#[test]
fn strategy_marker_has_exactly_three_values() {
    for (strategy, expect) in [
        (AIExecutionStrategy::LocalOnly, "local"),
        (AIExecutionStrategy::CloudOnly, "cloud"),
        (AIExecutionStrategy::Hybrid, "hybrid"),
    ] {
        let b = BrowserLauncherBuilder::new().with_ai_strategy(strategy);
        let env = assemble_env(&b);
        assert_eq!(env.last().unwrap().1, expect);
    }
}
