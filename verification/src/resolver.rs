use vstd::prelude::*;

use crate::error::WebIntelError;

verus! {

/// The host platform, as far as the executable search cares: it decides
/// which ordered candidate list is probed.
#[derive(Debug, Clone, Copy, PartialEq, Eq, Structural)]
pub enum Platform {
    Windows,
    MacOs,
    Other,
}

/// An explicitly supplied executable path must exist; no implicit search is
/// attempted for a missing explicit path. The caller reports whether the
/// path exists on disk; this function owns the decision.
pub fn resolve_explicit(path: String, exists: bool) -> (r: Result<String, WebIntelError>)
    ensures
        exists ==> r == Ok::<String, WebIntelError>(path),
        !exists ==> r == Err::<String, WebIntelError>(WebIntelError::BrowserNotFound),
{
    if exists {
        Ok(path)
    } else {
        Err(WebIntelError::BrowserNotFound)
    }
}

/// The Windows candidate order: the bare names probed on the search path,
/// then known installation paths built from the environment-provided base
/// directories, the Canary build first.
pub open spec fn spec_windows_candidates(
    program_files: Seq<char>,
    program_files_x86: Seq<char>,
    local_app_data: Seq<char>,
) -> Seq<Seq<char>> {
    seq![
        "chrome.exe"@,
        "msedge.exe"@,
        "chromium.exe"@,
        local_app_data + "\\Google\\Chrome SxS\\Application\\chrome.exe"@,
        program_files + "\\Google\\Chrome\\Application\\chrome.exe"@,
        program_files_x86 + "\\Google\\Chrome\\Application\\chrome.exe"@,
        program_files + "\\Microsoft\\Edge\\Application\\msedge.exe"@,
        program_files_x86 + "\\Microsoft\\Edge\\Application\\msedge.exe"@,
    ]
}

/// The fixed macOS application-bundle paths, in Canary, Dev, stable,
/// Chromium, Edge order.
pub open spec fn spec_macos_candidates() -> Seq<Seq<char>> {
    seq![
        "/Applications/Google Chrome Canary.app/Contents/MacOS/Google Chrome Canary"@,
        "/Applications/Google Chrome Dev.app/Contents/MacOS/Google Chrome Dev"@,
        "/Applications/Google Chrome.app/Contents/MacOS/Google Chrome"@,
        "/Applications/Chromium.app/Contents/MacOS/Chromium"@,
        "/Applications/Microsoft Edge.app/Contents/MacOS/Microsoft Edge"@,
    ]
}

/// The bare names probed on the search path of any other platform, in
/// unstable, beta, stable, Chromium order.
pub open spec fn spec_other_candidates() -> Seq<Seq<char>> {
    seq![
        "google-chrome-unstable"@,
        "google-chrome-beta"@,
        "google-chrome"@,
        "google-chrome-stable"@,
        "chromium"@,
        "chromium-browser"@,
    ]
}

/// The base directory actually used for a Windows installation path: the
/// environment-provided one, or the conventional default where the
/// environment gives none.
pub open spec fn spec_base_or(given: Option<String>, fallback: Seq<char>) -> Seq<char> {
    match given {
        Some(s) => s@,
        None => fallback,
    }
}

/// The ordered candidate list for a platform. The three optional arguments
/// carry what the environment says of the Windows base directories; the
/// other platforms ignore them.
pub open spec fn spec_candidates(
    platform: Platform,
    program_files: Option<String>,
    program_files_x86: Option<String>,
    local_app_data: Option<String>,
) -> Seq<Seq<char>> {
    match platform {
        Platform::Windows => spec_windows_candidates(
            spec_base_or(program_files, "C:\\Program Files"@),
            spec_base_or(program_files_x86, "C:\\Program Files (x86)"@),
            spec_base_or(local_app_data, "C:\\Users\\Default\\AppData\\Local"@),
        ),
        Platform::MacOs => spec_macos_candidates(),
        Platform::Other => spec_other_candidates(),
    }
}

fn base_or(given: Option<String>, fallback: &str) -> (r: String)
    ensures
        r@ == spec_base_or(given, fallback@),
{
    match given {
        Some(s) => s,
        None => String::from_str(fallback),
    }
}

/// Builds the ordered candidate list for a platform, to be probed one by
/// one: an absolute candidate by an existence check, a bare name through
/// the platform's executable search path.
pub fn platform_candidates(
    platform: Platform,
    program_files: Option<String>,
    program_files_x86: Option<String>,
    local_app_data: Option<String>,
) -> (r: Vec<String>)
    ensures
        crate::args::views_of(r@) == spec_candidates(
            platform,
            program_files,
            program_files_x86,
            local_app_data,
        ),
{
    let mut v: Vec<String> = Vec::new();
    match platform {
        Platform::Windows => {
            let pf = base_or(program_files, "C:\\Program Files");
            let pf86 = base_or(program_files_x86, "C:\\Program Files (x86)");
            let lad = base_or(local_app_data, "C:\\Users\\Default\\AppData\\Local");
            v.push(String::from_str("chrome.exe"));
            v.push(String::from_str("msedge.exe"));
            v.push(String::from_str("chromium.exe"));
            v.push(lad.concat("\\Google\\Chrome SxS\\Application\\chrome.exe"));
            v.push(pf.clone().concat("\\Google\\Chrome\\Application\\chrome.exe"));
            v.push(pf86.clone().concat("\\Google\\Chrome\\Application\\chrome.exe"));
            v.push(pf.concat("\\Microsoft\\Edge\\Application\\msedge.exe"));
            v.push(pf86.concat("\\Microsoft\\Edge\\Application\\msedge.exe"));
        },
        Platform::MacOs => {
            v.push(
                String::from_str(
                    "/Applications/Google Chrome Canary.app/Contents/MacOS/Google Chrome Canary",
                ),
            );
            v.push(
                String::from_str(
                    "/Applications/Google Chrome Dev.app/Contents/MacOS/Google Chrome Dev",
                ),
            );
            v.push(
                String::from_str("/Applications/Google Chrome.app/Contents/MacOS/Google Chrome"),
            );
            v.push(String::from_str("/Applications/Chromium.app/Contents/MacOS/Chromium"));
            v.push(
                String::from_str("/Applications/Microsoft Edge.app/Contents/MacOS/Microsoft Edge"),
            );
        },
        Platform::Other => {
            v.push(String::from_str("google-chrome-unstable"));
            v.push(String::from_str("google-chrome-beta"));
            v.push(String::from_str("google-chrome"));
            v.push(String::from_str("google-chrome-stable"));
            v.push(String::from_str("chromium"));
            v.push(String::from_str("chromium-browser"));
        },
    }
    proof {
        assert(crate::args::views_of(v@) =~= spec_candidates(
            platform,
            program_files,
            program_files_x86,
            local_app_data,
        ));
    }
    v
}

/// What probing an ordered candidate list yields: the resolution of the
/// first candidate that probed successfully, in list order.
pub open spec fn spec_first_hit(probes: Seq<Option<String>>) -> Option<String>
    decreases probes.len()
{
    if probes.len() == 0 {
        None
    } else if probes[0] is Some {
        probes[0]
    } else {
        spec_first_hit(probes.drop_first())
    }
}

/// Unsuccessful probes at the head of the list do not change the winner.
proof fn lemma_first_hit_skip(probes: Seq<Option<String>>, i: int)
    requires
        0 <= i <= probes.len(),
        forall|k: int| 0 <= k < i ==> probes[k] is None,
    ensures
        spec_first_hit(probes) == spec_first_hit(probes.subrange(i, probes.len() as int)),
    decreases i,
{
    if i > 0 {
        assert(probes[0] is None);
        let rest = probes.drop_first();
        assert(forall|k: int| 0 <= k < i - 1 ==> rest[k] is None);
        lemma_first_hit_skip(rest, i - 1);
        assert(rest.subrange(i - 1, rest.len() as int) =~= probes.subrange(
            i,
            probes.len() as int,
        ));
    } else {
        assert(probes.subrange(0, probes.len() as int) =~= probes);
    }
}

/// Selects the first satisfied candidate: `probes` holds, in candidate
/// order, what probing each candidate returned — a resolved path, or
/// nothing. The first resolved path wins; an exhausted list is the
/// browser-not-found failure.
pub fn first_hit(probes: &Vec<Option<String>>) -> (r: Result<String, WebIntelError>)
    ensures
        match r {
            Ok(p) => spec_first_hit(probes@) == Some(p),
            Err(e) => spec_first_hit(probes@) is None && e == WebIntelError::BrowserNotFound,
        },
{
    let n: usize = probes.len();
    let mut i: usize = 0;
    while i < n
        invariant
            n == probes@.len(),
            i <= n,
            forall|k: int| 0 <= k < i ==> probes@[k] is None,
        decreases n - i,
    {
        match &probes[i] {
            Some(p) => {
                proof {
                    lemma_first_hit_skip(probes@, i as int);
                    let rest = probes@.subrange(i as int, probes@.len() as int);
                    assert(rest[0] == probes@[i as int]);
                }
                return Ok(p.clone());
            },
            None => {},
        }
        i = i + 1;
    }
    proof {
        lemma_first_hit_skip(probes@, n as int);
    }
    Err(WebIntelError::BrowserNotFound)
}

} // verus!
