use web_intelligence::AIExecutionStrategy;
use web_intelligence::BrowserLauncherBuilder;
use web_intelligence::Viewport;
use web_intelligence::WebIntelError;

#[test]
fn defaults_match_documented_start_state() {
    let b = BrowserLauncherBuilder::new();
    assert_eq!(b.profile_name, "web-intel-profile");
    assert!(b.viewport.is_none());
    assert!(!b.headless);
    assert!(b.extensions.is_empty());
    assert!(b.browser_executable.is_none());
    assert!(!b.ephemeral);
    assert!(b.with_ai_flags);
    assert!(b.extra_args.is_empty());
    assert!(!b.app_mode);
    assert!(b.start_url.is_none());
    assert_eq!(b.strategy, AIExecutionStrategy::LocalOnly);
    assert!(b.openai_api_key.is_none());
    assert!(b.anthropic_api_key.is_none());
}

#[test]
fn default_strategy_is_local_only() {
    assert_eq!(AIExecutionStrategy::default(), AIExecutionStrategy::LocalOnly);
}

#[test]
fn setters_change_exactly_their_option() {
    let b = BrowserLauncherBuilder::new()
        .profile_name(String::from("agent-profile"))
        .viewport(1280, 720)
        .headless(true)
        .with_extension(String::from("/ext/one"))
        .with_extension(String::from("/ext/two"))
        .browser_executable(String::from("/usr/bin/chromium"))
        .ephemeral(true)
        .with_ai_flags(false)
        .arg(String::from("--mute-audio"))
        .app_mode(true)
        .start_url(String::from("https://example.com"))
        .with_ai_strategy(AIExecutionStrategy::Hybrid)
        .openai_api_key(String::from("ok"))
        .anthropic_api_key(String::from("ak"));
    assert_eq!(b.profile_name, "agent-profile");
    assert_eq!(b.viewport, Some(Viewport { width: 1280, height: 720 }));
    assert!(b.headless);
    assert_eq!(b.extensions, vec![String::from("/ext/one"), String::from("/ext/two")]);
    assert_eq!(b.browser_executable, Some(String::from("/usr/bin/chromium")));
    assert!(b.ephemeral);
    assert!(!b.with_ai_flags);
    assert_eq!(b.extra_args, vec![String::from("--mute-audio")]);
    assert!(b.app_mode);
    assert_eq!(b.start_url, Some(String::from("https://example.com")));
    assert_eq!(b.strategy, AIExecutionStrategy::Hybrid);
    assert_eq!(b.openai_api_key, Some(String::from("ok")));
    assert_eq!(b.anthropic_api_key, Some(String::from("ak")));
}

#[test]
fn error_messages_name_their_kind() {
    assert_eq!(
        WebIntelError::BrowserNotFound.message(),
        "Browser executable not found. Please specify a path or ensure Chrome/Edge is installed."
    );
    assert_eq!(
        WebIntelError::ProfileCreationFailure(String::from("denied")).message(),
        "Failed to create profile directory: denied"
    );
    assert_eq!(
        WebIntelError::LaunchFailure(String::from("no such file")).message(),
        "Failed to launch browser process: no such file"
    );
    assert_eq!(
        WebIntelError::WebSocketUrlNotFound.message(),
        "Failed to capture WebSocket URL from browser output."
    );
    assert_eq!(WebIntelError::Io(String::from("broken pipe")).message(), "IO Error: broken pipe");
    assert_eq!(WebIntelError::OutputReadFailure.message(), "Failed to read browser output.");
}
