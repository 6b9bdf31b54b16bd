use vstd::prelude::*;

use crate::config::AIExecutionStrategy;
use crate::config::BrowserLauncherBuilder;

verus! {

/// The views of a sequence of owned strings.
pub open spec fn views_of(v: Seq<String>) -> Seq<Seq<char>> {
    v.map_values(|s: String| s@)
}

/// The decimal digit character for a value below ten.
pub open spec fn dec_digit_char(d: int) -> char {
    if d == 0 {
        '0'
    } else if d == 1 {
        '1'
    } else if d == 2 {
        '2'
    } else if d == 3 {
        '3'
    } else if d == 4 {
        '4'
    } else if d == 5 {
        '5'
    } else if d == 6 {
        '6'
    } else if d == 7 {
        '7'
    } else if d == 8 {
        '8'
    } else {
        '9'
    }
}

/// The decimal rendering of a non-negative number: most significant digit
/// first, no sign, no leading zeros (a lone zero for zero itself).
pub open spec fn dec_rep(n: int) -> Seq<char>
    decreases n when n >= 0
{
    if n < 10 {
        seq![dec_digit_char(n)]
    } else {
        dec_rep(n / 10) + seq![dec_digit_char(n % 10)]
    }
}

fn digit_str(d: u32) -> (r: String)
    requires
        d < 10,
    ensures
        r@ == seq![dec_digit_char(d as int)],
{
    if d == 0 {
        proof {
            reveal_strlit("0");
            assert("0"@ =~= seq![dec_digit_char(0)]);
        }
        String::from_str("0")
    } else if d == 1 {
        proof {
            reveal_strlit("1");
            assert("1"@ =~= seq![dec_digit_char(1)]);
        }
        String::from_str("1")
    } else if d == 2 {
        proof {
            reveal_strlit("2");
            assert("2"@ =~= seq![dec_digit_char(2)]);
        }
        String::from_str("2")
    } else if d == 3 {
        proof {
            reveal_strlit("3");
            assert("3"@ =~= seq![dec_digit_char(3)]);
        }
        String::from_str("3")
    } else if d == 4 {
        proof {
            reveal_strlit("4");
            assert("4"@ =~= seq![dec_digit_char(4)]);
        }
        String::from_str("4")
    } else if d == 5 {
        proof {
            reveal_strlit("5");
            assert("5"@ =~= seq![dec_digit_char(5)]);
        }
        String::from_str("5")
    } else if d == 6 {
        proof {
            reveal_strlit("6");
            assert("6"@ =~= seq![dec_digit_char(6)]);
        }
        String::from_str("6")
    } else if d == 7 {
        proof {
            reveal_strlit("7");
            assert("7"@ =~= seq![dec_digit_char(7)]);
        }
        String::from_str("7")
    } else if d == 8 {
        proof {
            reveal_strlit("8");
            assert("8"@ =~= seq![dec_digit_char(8)]);
        }
        String::from_str("8")
    } else {
        proof {
            reveal_strlit("9");
            assert("9"@ =~= seq![dec_digit_char(9)]);
        }
        String::from_str("9")
    }
}

/// Renders a number in decimal.
pub fn u32_to_string(n: u32) -> (r: String)
    ensures
        r@ == dec_rep(n as int),
    decreases n,
{
    if n < 10 {
        digit_str(n)
    } else {
        let high = u32_to_string(n / 10);
        let low = digit_str(n % 10);
        proof {
            assert((n / 10) as int == n as int / 10);
            assert((n % 10) as int == n as int % 10);
        }
        high.concat(low.as_str())
    }
}

/// The comma-separated joining of a sequence of strings, in order, with no
/// trailing separator.
pub open spec fn spec_join_comma(items: Seq<Seq<char>>) -> Seq<char>
    decreases items.len()
{
    if items.len() == 0 {
        Seq::empty()
    } else if items.len() == 1 {
        items[0]
    } else {
        spec_join_comma(items.drop_last()) + ","@ + items.last()
    }
}

/// Joins strings with commas.
pub fn join_comma(items: &Vec<String>) -> (r: String)
    ensures
        r@ == spec_join_comma(views_of(items@)),
{
    let ghost views = views_of(items@);
    let mut r = String::new();
    let n: usize = items.len();
    let mut i: usize = 0;
    while i < n
        invariant
            n == items@.len(),
            i <= n,
            views == views_of(items@),
            r@ == spec_join_comma(views.subrange(0, i as int)),
        decreases n - i,
    {
        if i > 0 {
            r = r.concat(",");
        }
        r = r.concat(items[i].as_str());
        proof {
            let pre = views.subrange(0, i as int);
            let cur = views.subrange(0, i + 1);
            assert(cur.drop_last() =~= pre);
            assert(cur.last() == views[i as int]);
            assert(r@ =~= spec_join_comma(cur));
        }
        i = i + 1;
    }
    proof {
        assert(views.subrange(0, n as int) =~= views);
    }
    r
}

/// The environment value of the strategy marker: one of the three fixed
/// strings naming the execution strategy.
pub open spec fn spec_strategy_str(s: AIExecutionStrategy) -> Seq<char> {
    match s {
        AIExecutionStrategy::LocalOnly => "local"@,
        AIExecutionStrategy::CloudOnly => "cloud"@,
        AIExecutionStrategy::Hybrid => "hybrid"@,
    }
}

/// The strategy marker value handed to the child process.
pub fn strategy_str(s: AIExecutionStrategy) -> (r: String)
    ensures
        r@ == spec_strategy_str(s),
{
    match s {
        AIExecutionStrategy::LocalOnly => String::from_str("local"),
        AIExecutionStrategy::CloudOnly => String::from_str("cloud"),
        AIExecutionStrategy::Hybrid => String::from_str("hybrid"),
    }
}

/// The fixed leading arguments: the user data directory, an OS-assigned
/// debugging port, and the first-run and default-browser-check suppressions.
pub open spec fn spec_base_args(dir: Seq<char>) -> Seq<Seq<char>> {
    seq![
        "--user-data-dir="@ + dir,
        "--remote-debugging-port=0"@,
        "--no-first-run"@,
        "--no-default-browser-check"@,
    ]
}

/// The headless flag, present exactly when headless mode is configured.
pub open spec fn spec_headless_args(b: BrowserLauncherBuilder) -> Seq<Seq<char>> {
    if b.headless {
        seq!["--headless=new"@]
    } else {
        Seq::empty()
    }
}

/// The window-size flag, present exactly when a viewport is configured.
pub open spec fn spec_viewport_args(b: BrowserLauncherBuilder) -> Seq<Seq<char>> {
    match b.viewport {
        Some(v) => seq![
            "--window-size="@ + dec_rep(v.width as int) + ","@ + dec_rep(v.height as int),
        ],
        None => Seq::empty(),
    }
}

/// The extension-load flag: the configured extension paths joined by
/// commas, present exactly when at least one extension is configured.
pub open spec fn spec_extension_args(b: BrowserLauncherBuilder) -> Seq<Seq<char>> {
    if b.extensions@.len() > 0 {
        seq!["--load-extension="@ + spec_join_comma(views_of(b.extensions@))]
    } else {
        Seq::empty()
    }
}

/// The experimental AI-feature flags and the insecure-localhost allowance,
/// present exactly when the built-in AI flags are enabled.
pub open spec fn spec_ai_args(b: BrowserLauncherBuilder) -> Seq<Seq<char>> {
    if b.with_ai_flags {
        seq![
            "--enable-features=OptimizationGuideModelDownloading,OptimizationGuideOnDeviceModel,PromptAPIForGeminiNano"@,
            "--allow-insecure-localhost"@,
        ]
    } else {
        Seq::empty()
    }
}

/// The start-URL arguments: with a start URL configured, either the single
/// combined app-URL flag (application mode) or the single bare URL; with
/// none, nothing.
pub open spec fn spec_url_args(b: BrowserLauncherBuilder) -> Seq<Seq<char>> {
    match b.start_url {
        Some(u) => if b.app_mode {
            seq!["--app="@ + u@]
        } else {
            seq![u@]
        },
        None => Seq::empty(),
    }
}

/// The complete argument list handed to the browser process, in its fixed
/// order: the base arguments, the optional headless, window-size,
/// extension and AI-feature flags, the start-URL arguments, and the
/// caller's extra arguments verbatim at the end.
pub open spec fn spec_args(b: BrowserLauncherBuilder, dir: Seq<char>) -> Seq<Seq<char>> {
    spec_base_args(dir) + spec_headless_args(b) + spec_viewport_args(b) + spec_extension_args(b)
        + spec_ai_args(b) + spec_url_args(b) + views_of(b.extra_args@)
}

/// Application-mode assembly: with a start URL configured, application mode
/// contributes exactly one argument, the combined app-URL flag, and no bare
/// URL argument; without application mode it contributes exactly the bare
/// URL and no combined flag.
pub proof fn lemma_app_mode_assembly(b: BrowserLauncherBuilder)
    requires
        b.start_url is Some,
    ensures
        b.app_mode ==> spec_url_args(b) == seq!["--app="@ + b.start_url->0@],
        !b.app_mode ==> spec_url_args(b) == seq![b.start_url->0@],
{
}

/// Every argument assembled before the start-URL stage keeps a recognisable
/// shape: it is at least six characters long and its sixth character is not
/// the equals sign that ends the fixed app-flag prefix — so none of them
/// can be the combined app-URL flag.
proof fn lemma_leading_args_are_not_app_flags(b: BrowserLauncherBuilder, dir: Seq<char>, k: int)
    requires
        0 <= k < (spec_base_args(dir) + spec_headless_args(b) + spec_viewport_args(b)
            + spec_extension_args(b) + spec_ai_args(b)).len(),
    ensures
        ({
            let lead = spec_base_args(dir) + spec_headless_args(b) + spec_viewport_args(b)
                + spec_extension_args(b) + spec_ai_args(b);
            lead[k].len() > 5 && lead[k][5] != '='
        }),
{
    reveal_strlit("--user-data-dir=");
    reveal_strlit("--remote-debugging-port=0");
    reveal_strlit("--no-first-run");
    reveal_strlit("--no-default-browser-check");
    reveal_strlit("--headless=new");
    reveal_strlit("--window-size=");
    reveal_strlit("--load-extension=");
    reveal_strlit(
        "--enable-features=OptimizationGuideModelDownloading,OptimizationGuideOnDeviceModel,PromptAPIForGeminiNano",
    );
    reveal_strlit("--allow-insecure-localhost");
    let s1 = spec_base_args(dir);
    let s2 = spec_headless_args(b);
    let s3 = spec_viewport_args(b);
    let s4 = spec_extension_args(b);
    let s5 = spec_ai_args(b);
    let lead = s1 + s2 + s3 + s4 + s5;
    if k < s1.len() {
        assert(lead[k] == s1[k]);
    } else if k < s1.len() + s2.len() {
        assert(lead[k] == s2[k - s1.len()]);
    } else if k < s1.len() + s2.len() + s3.len() {
        assert(lead[k] == s3[k - s1.len() - s2.len()]);
    } else if k < s1.len() + s2.len() + s3.len() + s4.len() {
        assert(lead[k] == s4[k - s1.len() - s2.len() - s3.len()]);
    } else {
        assert(lead[k] == s5[k - s1.len() - s2.len() - s3.len() - s4.len()]);
    }
}

/// Application-mode assembly over the whole list: with a start URL, no
/// extra arguments and application mode on, the assembled list ends with
/// the single combined app-URL flag and holds it nowhere else — in
/// particular it holds no bare trailing URL argument.
pub proof fn lemma_app_mode_whole_list(b: BrowserLauncherBuilder, dir: Seq<char>)
    requires
        b.app_mode,
        b.start_url is Some,
        b.extra_args@.len() == 0,
    ensures
        spec_args(b, dir).len() > 0,
        spec_args(b, dir).last() == "--app="@ + b.start_url->0@,
        forall|k: int| 0 <= k < spec_args(b, dir).len() - 1 ==> spec_args(b, dir)[k] != "--app="@
            + b.start_url->0@,
{
    reveal_strlit("--app=");
    let u = b.start_url->0@;
    let lead = spec_base_args(dir) + spec_headless_args(b) + spec_viewport_args(b)
        + spec_extension_args(b) + spec_ai_args(b);
    let combined = "--app="@ + u;
    assert(combined[5] == '=');
    assert(views_of(b.extra_args@) =~= Seq::<Seq<char>>::empty());
    assert(spec_args(b, dir) =~= lead + seq![combined]);
    assert forall|k: int| 0 <= k < spec_args(b, dir).len() - 1 implies spec_args(b, dir)[k]
        != combined by {
        lemma_leading_args_are_not_app_flags(b, dir, k);
        assert(spec_args(b, dir)[k] == lead[k]);
        assert(lead[k][5] != '=');
    }
}

/// Without application mode the same configuration ends with the single
/// bare URL argument instead, and the combined app-URL flag appears
/// nowhere in the list.
pub proof fn lemma_plain_url_whole_list(b: BrowserLauncherBuilder, dir: Seq<char>)
    requires
        !b.app_mode,
        b.start_url is Some,
        b.extra_args@.len() == 0,
    ensures
        spec_args(b, dir).len() > 0,
        spec_args(b, dir).last() == b.start_url->0@,
        forall|k: int| 0 <= k < spec_args(b, dir).len() - 1 ==> spec_args(b, dir)[k] != "--app="@
            + b.start_url->0@,
{
    reveal_strlit("--app=");
    let u = b.start_url->0@;
    let lead = spec_base_args(dir) + spec_headless_args(b) + spec_viewport_args(b)
        + spec_extension_args(b) + spec_ai_args(b);
    let combined = "--app="@ + u;
    assert(combined[5] == '=');
    assert(views_of(b.extra_args@) =~= Seq::<Seq<char>>::empty());
    assert(spec_args(b, dir) =~= lead + seq![u]);
    assert forall|k: int| 0 <= k < spec_args(b, dir).len() - 1 implies spec_args(b, dir)[k]
        != combined by {
        lemma_leading_args_are_not_app_flags(b, dir, k);
        assert(spec_args(b, dir)[k] == lead[k]);
        assert(lead[k][5] != '=');
    }
}

/// Assembles the argument list for the spawn, from the configuration
/// snapshot and the resolved user data directory.
pub fn assemble_args(b: &BrowserLauncherBuilder, user_data_dir: &str) -> (r: Vec<String>)
    ensures
        views_of(r@) == spec_args(*b, user_data_dir@),
{
    let mut args: Vec<String> = Vec::new();
    args.push(String::from_str("--user-data-dir=").concat(user_data_dir));
    args.push(String::from_str("--remote-debugging-port=0"));
    args.push(String::from_str("--no-first-run"));
    args.push(String::from_str("--no-default-browser-check"));
    proof {
        assert(views_of(args@) =~= spec_base_args(user_data_dir@));
    }
    let ghost stage1 = spec_base_args(user_data_dir@);
    if b.headless {
        args.push(String::from_str("--headless=new"));
    }
    proof {
        assert(views_of(args@) =~= stage1 + spec_headless_args(*b));
    }
    let ghost stage2 = stage1 + spec_headless_args(*b);
    match &b.viewport {
        Some(v) => {
            let w = u32_to_string(v.width);
            let h = u32_to_string(v.height);
            args.push(
                String::from_str("--window-size=").concat(w.as_str()).concat(",").concat(
                    h.as_str(),
                ),
            );
        },
        None => {},
    }
    proof {
        assert(views_of(args@) =~= stage2 + spec_viewport_args(*b));
    }
    let ghost stage3 = stage2 + spec_viewport_args(*b);
    if b.extensions.len() > 0 {
        let joined = join_comma(&b.extensions);
        args.push(String::from_str("--load-extension=").concat(joined.as_str()));
    }
    proof {
        assert(views_of(args@) =~= stage3 + spec_extension_args(*b));
    }
    let ghost stage4 = stage3 + spec_extension_args(*b);
    if b.with_ai_flags {
        args.push(
            String::from_str(
                "--enable-features=OptimizationGuideModelDownloading,OptimizationGuideOnDeviceModel,PromptAPIForGeminiNano",
            ),
        );
        args.push(String::from_str("--allow-insecure-localhost"));
    }
    proof {
        assert(views_of(args@) =~= stage4 + spec_ai_args(*b));
    }
    let ghost stage5 = stage4 + spec_ai_args(*b);
    match &b.start_url {
        Some(u) => {
            if b.app_mode {
                args.push(String::from_str("--app=").concat(u.as_str()));
            } else {
                args.push(u.clone());
            }
        },
        None => {},
    }
    proof {
        assert(views_of(args@) =~= stage5 + spec_url_args(*b));
    }
    let ghost stage6 = stage5 + spec_url_args(*b);
    let n: usize = b.extra_args.len();
    let mut i: usize = 0;
    while i < n
        invariant
            n == b.extra_args@.len(),
            i <= n,
            views_of(args@) == stage6 + views_of(b.extra_args@.subrange(0, i as int)),
        decreases n - i,
    {
        let ghost prev = args@;
        args.push(b.extra_args[i].clone());
        proof {
            let pre = b.extra_args@.subrange(0, i as int);
            let cur = b.extra_args@.subrange(0, i + 1);
            let w = b.extra_args@[i as int];
            assert(cur =~= pre.push(w));
            assert(args@ == prev.push(w));
            assert(views_of(prev.push(w)) =~= views_of(prev).push(w@));
            assert(views_of(cur) =~= views_of(pre).push(w@));
            assert((stage6 + views_of(pre)).push(w@) =~= stage6 + views_of(pre).push(w@));
            assert(views_of(args@) =~= stage6 + views_of(cur));
        }
        i = i + 1;
    }
    proof {
        assert(b.extra_args@.subrange(0, n as int) =~= b.extra_args@);
        assert(views_of(args@) =~= spec_args(*b, user_data_dir@));
    }
    args
}

/// The environment entries handed to the child: the two optional credential
/// variables, each present exactly when its key is configured, and the
/// strategy marker, always present, holding one of its three values.
pub open spec fn spec_env(b: BrowserLauncherBuilder) -> Seq<(Seq<char>, Seq<char>)> {
    (match b.openai_api_key {
        Some(k) => seq![("OPENAI_API_KEY"@, k@)],
        None => Seq::empty(),
    }) + (match b.anthropic_api_key {
        Some(k) => seq![("ANTHROPIC_API_KEY"@, k@)],
        None => Seq::empty(),
    }) + seq![("WEB_INTEL_STRATEGY"@, spec_strategy_str(b.strategy))]
}

/// Assembles the environment entries for the spawn.
pub fn assemble_env(b: &BrowserLauncherBuilder) -> (r: Vec<(String, String)>)
    ensures
        r@.map_values(|p: (String, String)| (p.0@, p.1@)) == spec_env(*b),
{
    let mut env: Vec<(String, String)> = Vec::new();
    match &b.openai_api_key {
        Some(k) => {
            env.push((String::from_str("OPENAI_API_KEY"), k.clone()));
        },
        None => {},
    }
    match &b.anthropic_api_key {
        Some(k) => {
            env.push((String::from_str("ANTHROPIC_API_KEY"), k.clone()));
        },
        None => {},
    }
    env.push((String::from_str("WEB_INTEL_STRATEGY"), strategy_str(b.strategy)));
    proof {
        assert(env@.map_values(|p: (String, String)| (p.0@, p.1@)) =~= spec_env(*b));
    }
    env
}

} // verus!
