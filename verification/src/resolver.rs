//! Resolution of the language-server binary to launch. Three sources are
//! tried in strict precedence order, each short-circuiting on success: an
//! explicit override from the editor's settings, a hit on the executable
//! search path, and a version derived from the latest published release.
//! Shell environment variables are attached only on the platforms where
//! shell inheritance is meaningful.
//!
//! The surrounding editor performs the actual lookups (settings, search
//! path, release index) and process launch; the decisions between them are
//! all here, over plain values.

use vstd::prelude::*;
use vstd::string::StrSliceExecFns;
use vstd::string::StringExecFns;

verus! {

/// The host operating system, as far as resolution cares.
#[derive(Clone, Copy, PartialEq, Eq, Structural, Debug)]
pub enum Os {
    Mac,
    Linux,
    Windows,
}

/// The binary override a user may place in the editor's settings.
#[derive(Clone, Debug)]
pub struct BinaryOverride {
    pub path: Option<String>,
    pub arguments: Option<Vec<String>>,
}

/// Everything needed to start the language server: an executable path, its
/// arguments, and the environment to launch it with.
#[derive(Clone, Debug)]
pub struct ResolvedBinary {
    pub path: String,
    pub args: Vec<String>,
    pub env: Vec<(String, String)>,
}

/// What the local resolution steps decided: a finished binary, or the
/// instruction to consult the release index.
#[derive(Clone, Debug)]
pub enum Resolution {
    Resolved(ResolvedBinary),
    NeedsRelease,
}

/// The outcome of asking the release index for the latest stable version.
#[derive(Clone, Debug)]
pub enum ReleaseLookup {
    /// The latest non-prerelease version identifier.
    Found(String),
    /// The index was consulted and failed; the message says how.
    Failed(String),
    /// No release index is available to consult.
    Unavailable,
}

/// Why a resolution attempt failed as a whole.
#[derive(Clone, PartialEq, Eq, Debug)]
pub enum ResolveError {
    /// The settings hold a binary override whose path is the empty string.
    EmptyOverridePath,
    /// The release index could not be consulted; the payload says why.
    Remote(String),
    /// No source yielded a binary.
    NotFound,
}

/// A well-formed resolution result never carries an empty path.
pub open spec fn resolved_wf(b: ResolvedBinary) -> bool {
    b.path@.len() > 0
}

/// The override path inside the settings, when there is one.
pub open spec fn override_path(settings: Option<BinaryOverride>) -> Option<String> {
    match settings {
        Some(b) => b.path,
        None => None,
    }
}

/// The arguments configured in the settings, or none.
pub open spec fn configured_args(settings: Option<BinaryOverride>) -> Seq<Seq<char>> {
    match settings {
        Some(b) => args_or_empty(b.arguments),
        None => Seq::empty(),
    }
}

/// The given arguments, or none.
pub open spec fn args_or_empty(arguments: Option<Vec<String>>) -> Seq<Seq<char>> {
    match arguments {
        Some(a) => a.deep_view(),
        None => Seq::empty(),
    }
}

/// The environment the binary is launched with: the shell environment
/// where shell inheritance is meaningful, nothing elsewhere.
pub open spec fn env_for(platform: Os, shell_env: Seq<(String, String)>) -> Seq<(String, String)> {
    if platform == Os::Windows {
        Seq::empty()
    } else {
        shell_env
    }
}

/// The install directory derived for a release version.
pub open spec fn release_dir(version: Seq<char>) -> Seq<char> {
    "beancount-language-server-"@ + version
}

/// The install path of the binary of a release version.
pub open spec fn release_binary_path(version: Seq<char>, platform: Os) -> Seq<char> {
    if platform == Os::Windows {
        release_dir(version) + "/beancount-language-server.exe"@
    } else {
        release_dir(version) + "/beancount-language-server"@
    }
}

/// The name the language server binary is looked up under on the
/// executable search path.
pub fn binary_name() -> (r: &'static str)
    ensures
        r@ == "beancount-language-server"@,
{
    "beancount-language-server"
}

/// Decides the first two resolution steps from plain values: an override
/// path from the settings wins, then a hit on the executable search path;
/// otherwise the release index must be consulted. An override whose path is
/// the empty string is a configuration error, reported immediately.
pub fn resolve_local(
    settings: Option<BinaryOverride>,
    found_on_path: Option<String>,
    platform: Os,
    shell_env: Vec<(String, String)>,
) -> (r: Result<Resolution, ResolveError>)
    requires
        found_on_path matches Some(q) ==> q@.len() > 0,
    ensures
        r matches Err(e) ==> e == ResolveError::EmptyOverridePath,
        (r is Err) <==> (override_path(settings) matches Some(p) && p@.len() == 0),
        override_path(settings) matches Some(p) ==> (p@.len() > 0 ==> (r matches Ok(
            Resolution::Resolved(b),
        ) && b.path@ == p@ && b.args.deep_view() == configured_args(settings) && b.env@ == env_for(
            platform,
            shell_env@,
        ))),
        found_on_path matches Some(q) ==> (override_path(settings) is None ==> (r matches Ok(
            Resolution::Resolved(b),
        ) && b.path@ == q@ && b.args.deep_view() == configured_args(settings) && b.env@ == env_for(
            platform,
            shell_env@,
        ))),
        (override_path(settings) is None && found_on_path is None) ==> (r matches Ok(
            Resolution::NeedsRelease,
        )),
        r matches Ok(Resolution::Resolved(b)) ==> resolved_wf(b),
{
    let env: Vec<(String, String)> = match platform {
        Os::Windows => Vec::new(),
        _ => shell_env,
    };
    proof {
        assert(env@ == env_for(platform, shell_env@)) by {
            if platform == Os::Windows {
                assert(env@ =~= Seq::<(String, String)>::empty());
            }
        }
    }
    let (opt_path, args): (Option<String>, Vec<String>) = match settings {
        Some(b) => (
            b.path,
            match b.arguments {
                Some(a) => a,
                None => Vec::new(),
            },
        ),
        None => (None, Vec::new()),
    };
    proof {
        assert(args.deep_view() =~= configured_args(settings));
    }
    match opt_path {
        Some(p) => {
            if p.unicode_len() == 0 {
                Err(ResolveError::EmptyOverridePath)
            } else {
                Ok(Resolution::Resolved(ResolvedBinary { path: p, args, env }))
            }
        },
        None => {
            match found_on_path {
                Some(q) => Ok(Resolution::Resolved(ResolvedBinary { path: q, args, env })),
                None => Ok(Resolution::NeedsRelease),
            }
        },
    }
}

/// Finishes resolution from the release-index outcome: a found version is
/// turned into a version-qualified install path without checking that it
/// exists yet; a failed lookup propagates as a remote error; an unavailable
/// index fails resolution for good.
pub fn resolve_from_release(
    lookup: ReleaseLookup,
    arguments: Option<Vec<String>>,
    platform: Os,
    shell_env: Vec<(String, String)>,
) -> (r: Result<ResolvedBinary, ResolveError>)
    ensures
        lookup matches ReleaseLookup::Found(v) ==> (r matches Ok(b) && b.path@
            == release_binary_path(v@, platform) && b.args.deep_view() == args_or_empty(arguments)
            && b.env@ == env_for(platform, shell_env@) && resolved_wf(b)),
        lookup matches ReleaseLookup::Failed(m) ==> (r == Err::<ResolvedBinary, ResolveError>(
            ResolveError::Remote(m),
        )),
        lookup matches ReleaseLookup::Unavailable ==> r == Err::<ResolvedBinary, ResolveError>(
            ResolveError::NotFound,
        ),
{
    let env: Vec<(String, String)> = match platform {
        Os::Windows => Vec::new(),
        _ => shell_env,
    };
    proof {
        assert(env@ == env_for(platform, shell_env@)) by {
            if platform == Os::Windows {
                assert(env@ =~= Seq::<(String, String)>::empty());
            }
        }
    }
    let args: Vec<String> = match arguments {
        Some(a) => a,
        None => Vec::new(),
    };
    proof {
        assert(args.deep_view() =~= args_or_empty(arguments));
    }
    match lookup {
        ReleaseLookup::Found(v) => {
            let mut path = String::from_str("beancount-language-server-");
            path.append(v.as_str());
            match platform {
                Os::Windows => path.append("/beancount-language-server.exe"),
                _ => path.append("/beancount-language-server"),
            }
            proof {
                reveal_strlit("beancount-language-server-");
            }
            Ok(ResolvedBinary { path, args, env })
        },
        ReleaseLookup::Failed(m) => Err(ResolveError::Remote(m)),
        ReleaseLookup::Unavailable => Err(ResolveError::NotFound),
    }
}

/// What `ResolveError::message` says for each failure.
pub open spec fn resolve_error_message(e: ResolveError) -> Seq<char> {
    match e {
        ResolveError::EmptyOverridePath => "the configured binary path override is empty"@,
        ResolveError::Remote(m) => "failed to fetch the latest release: "@ + m@,
        ResolveError::NotFound => "beancount-language-server not found; install it on your PATH, set a binary path in the editor's language-server settings, or let the editor download a release"@,
    }
}

impl ResolveError {
    /// A short description of the failure, naming the ways a binary can be
    /// made available.
    pub fn message(&self) -> (r: String)
        ensures
            r@ == resolve_error_message(*self),
    {
        match self {
            ResolveError::EmptyOverridePath => String::from_str(
                "the configured binary path override is empty",
            ),
            ResolveError::Remote(m) => {
                let mut s = String::from_str("failed to fetch the latest release: ");
                s.append(m.as_str());
                s
            },
            ResolveError::NotFound => String::from_str(
                "beancount-language-server not found; install it on your PATH, set a binary path in the editor's language-server settings, or let the editor download a release",
            ),
        }
    }
}

} // verus!
