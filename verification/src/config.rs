use vstd::prelude::*;

verus! {

/// Strategies for AI execution. The strategy is an opaque marker handed to
/// the child process through its environment; this crate never interprets it.
#[derive(Debug, Clone, Copy, PartialEq, Eq, Structural)]
pub enum AIExecutionStrategy {
    /// Forces usage of the built-in window AI. Fails if unsupported.
    LocalOnly,
    /// Skips local checks, always uses the cloud API key.
    CloudOnly,
    /// Tries local first; if hardware or browser is insufficient, falls back to cloud.
    Hybrid,
}

impl Default for AIExecutionStrategy {
    fn default() -> (r: Self)
        ensures
            r == AIExecutionStrategy::LocalOnly,
    {
        AIExecutionStrategy::LocalOnly
    }
}

/// The viewport size requested for the browser window.
#[derive(Debug, Clone, Copy, PartialEq, Eq, Structural)]
pub struct Viewport {
    pub width: u32,
    pub height: u32,
}

/// A builder to configure and launch a Chromium-based browser with AI
/// capabilities. The snapshot of options is immutable once the launch
/// sequence consumes it: every setter returns a copy of the builder with
/// exactly one option changed.
#[derive(Debug, Clone)]
pub struct BrowserLauncherBuilder {
    pub profile_name: String,
    pub viewport: Option<Viewport>,
    pub headless: bool,
    pub extensions: Vec<String>,
    pub browser_executable: Option<String>,
    pub ephemeral: bool,
    pub with_ai_flags: bool,
    pub extra_args: Vec<String>,
    pub app_mode: bool,
    pub start_url: Option<String>,
    pub strategy: AIExecutionStrategy,
    pub openai_api_key: Option<String>,
    pub anthropic_api_key: Option<String>,
}

impl Default for BrowserLauncherBuilder {
    fn default() -> (r: Self)
        ensures
            r.profile_name@ == "web-intel-profile"@,
            r.viewport is None,
            !r.headless,
            r.extensions@.len() == 0,
            r.browser_executable is None,
            !r.ephemeral,
            r.with_ai_flags,
            r.extra_args@.len() == 0,
            !r.app_mode,
            r.start_url is None,
            r.strategy == AIExecutionStrategy::LocalOnly,
            r.openai_api_key is None,
            r.anthropic_api_key is None,
    {
        BrowserLauncherBuilder {
            profile_name: String::from_str("web-intel-profile"),
            viewport: None,
            headless: false,
            extensions: Vec::new(),
            browser_executable: None,
            ephemeral: false,
            with_ai_flags: true,
            extra_args: Vec::new(),
            app_mode: false,
            start_url: None,
            strategy: AIExecutionStrategy::LocalOnly,
            openai_api_key: None,
            anthropic_api_key: None,
        }
    }
}

impl BrowserLauncherBuilder {
    /// Creates a new builder with default settings.
    pub fn new() -> (r: Self)
        ensures
            r.profile_name@ == "web-intel-profile"@,
            r.viewport is None,
            !r.headless,
            r.extensions@.len() == 0,
            r.browser_executable is None,
            !r.ephemeral,
            r.with_ai_flags,
            r.extra_args@.len() == 0,
            !r.app_mode,
            r.start_url is None,
            r.strategy == AIExecutionStrategy::LocalOnly,
            r.openai_api_key is None,
            r.anthropic_api_key is None,
    {
        Self::default()
    }

    /// Sets the profile name. Used for directory naming in persistent mode.
    pub fn profile_name(self, name: String) -> (r: Self)
        ensures
            r == (BrowserLauncherBuilder { profile_name: name, ..self }),
    {
        BrowserLauncherBuilder { profile_name: name, ..self }
    }

    /// Sets the viewport size.
    pub fn viewport(self, width: u32, height: u32) -> (r: Self)
        ensures
            r == (BrowserLauncherBuilder {
                viewport: Some(Viewport { width, height }),
                ..self
            }),
    {
        BrowserLauncherBuilder { viewport: Some(Viewport { width, height }), ..self }
    }

    /// Enable or disable headless mode. Crucial for background agents.
    pub fn headless(self, headless: bool) -> (r: Self)
        ensures
            r == (BrowserLauncherBuilder { headless, ..self }),
    {
        BrowserLauncherBuilder { headless, ..self }
    }

    /// Add an extension to load, by the path of its unpacked directory.
    pub fn with_extension(self, path: String) -> (r: Self)
        ensures
            r.extensions@ == self.extensions@.push(path),
            r == (BrowserLauncherBuilder { extensions: r.extensions, ..self }),
    {
        let mut extensions = self.extensions;
        extensions.push(path);
        BrowserLauncherBuilder { extensions, ..self }
    }

    /// Set a custom browser executable path.
    pub fn browser_executable(self, path: String) -> (r: Self)
        ensures
            r == (BrowserLauncherBuilder { browser_executable: Some(path), ..self }),
    {
        BrowserLauncherBuilder { browser_executable: Some(path), ..self }
    }

    /// If true, uses a temporary directory for the profile which is deleted
    /// when the handle is dropped.
    pub fn ephemeral(self, ephemeral: bool) -> (r: Self)
        ensures
            r == (BrowserLauncherBuilder { ephemeral, ..self }),
    {
        BrowserLauncherBuilder { ephemeral, ..self }
    }

    /// Enable or disable the default built-in AI flags (Gemini Nano, etc.).
    /// Defaults to true.
    pub fn with_ai_flags(self, enabled: bool) -> (r: Self)
        ensures
            r == (BrowserLauncherBuilder { with_ai_flags: enabled, ..self }),
    {
        BrowserLauncherBuilder { with_ai_flags: enabled, ..self }
    }

    /// Add an extra argument to the browser command.
    pub fn arg(self, arg: String) -> (r: Self)
        ensures
            r.extra_args@ == self.extra_args@.push(arg),
            r == (BrowserLauncherBuilder { extra_args: r.extra_args, ..self }),
    {
        let mut extra_args = self.extra_args;
        extra_args.push(arg);
        BrowserLauncherBuilder { extra_args, ..self }
    }

    /// Enable application mode. If true, the browser is launched with a
    /// combined app-URL flag (a frameless window) instead of a bare URL.
    pub fn app_mode(self, enabled: bool) -> (r: Self)
        ensures
            r == (BrowserLauncherBuilder { app_mode: enabled, ..self }),
    {
        BrowserLauncherBuilder { app_mode: enabled, ..self }
    }

    /// Set the starting URL.
    pub fn start_url(self, url: String) -> (r: Self)
        ensures
            r == (BrowserLauncherBuilder { start_url: Some(url), ..self }),
    {
        BrowserLauncherBuilder { start_url: Some(url), ..self }
    }

    /// Set the AI execution strategy.
    pub fn with_ai_strategy(self, strategy: AIExecutionStrategy) -> (r: Self)
        ensures
            r == (BrowserLauncherBuilder { strategy, ..self }),
    {
        BrowserLauncherBuilder { strategy, ..self }
    }

    /// Set the OpenAI API key.
    pub fn openai_api_key(self, key: String) -> (r: Self)
        ensures
            r == (BrowserLauncherBuilder { openai_api_key: Some(key), ..self }),
    {
        BrowserLauncherBuilder { openai_api_key: Some(key), ..self }
    }

    /// Set the Anthropic API key.
    pub fn anthropic_api_key(self, key: String) -> (r: Self)
        ensures
            r == (BrowserLauncherBuilder { anthropic_api_key: Some(key), ..self }),
    {
        BrowserLauncherBuilder { anthropic_api_key: Some(key), ..self }
    }
}

} // verus!
