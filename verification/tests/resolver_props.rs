use beancount_ext::resolver::BinaryOverride;
use beancount_ext::resolver::Os;
use beancount_ext::resolver::ReleaseLookup;
use beancount_ext::resolver::Resolution;
use beancount_ext::resolver::ResolveError;
use beancount_ext::resolver::binary_name;
use beancount_ext::resolver::resolve_from_release;
use beancount_ext::resolver::resolve_local;

fn shell_env() -> Vec<(String, String)> {
    vec![("PATH".to_string(), "/usr/bin".to_string())]
}

#[test]
fn override_path_wins_over_everything() {
    let settings = Some(BinaryOverride {
        path: Some("/opt/bls".to_string()),
        arguments: Some(vec!["--log".to_string()]),
    });
    let r = resolve_local(settings, Some("/usr/bin/bls".to_string()), Os::Linux, shell_env());
    match r {
        Ok(Resolution::Resolved(b)) => {
            assert_eq!(b.path, "/opt/bls");
            assert_eq!(b.args, vec!["--log".to_string()]);
            assert_eq!(b.env, shell_env());
        }
        other => panic!("expected a resolved binary, got {:?}", other),
    }
}

#[test]
fn empty_override_is_a_configuration_error() {
    let settings = Some(BinaryOverride { path: Some(String::new()), arguments: None });
    let r = resolve_local(settings, Some("/usr/bin/bls".to_string()), Os::Linux, shell_env());
    assert_eq!(r.unwrap_err(), ResolveError::EmptyOverridePath);
}

#[test]
fn search_path_hit_is_second_and_keeps_configured_args() {
    let settings = Some(BinaryOverride {
        path: None,
        arguments: Some(vec!["--stdio".to_string()]),
    });
    let r = resolve_local(settings, Some("/usr/bin/bls".to_string()), Os::Mac, shell_env());
    match r {
        Ok(Resolution::Resolved(b)) => {
            assert_eq!(b.path, "/usr/bin/bls");
            assert_eq!(b.args, vec!["--stdio".to_string()]);
            assert_eq!(b.env, shell_env());
        }
        other => panic!("expected a resolved binary, got {:?}", other),
    }
}

#[test]
fn windows_gets_no_shell_environment() {
    let r = resolve_local(None, Some("C:\\bls.exe".to_string()), Os::Windows, shell_env());
    match r {
        Ok(Resolution::Resolved(b)) => {
            assert!(b.env.is_empty());
            assert!(b.args.is_empty());
        }
        other => panic!("expected a resolved binary, got {:?}", other),
    }
}

#[test]
fn no_local_source_asks_for_a_release() {
    let r = resolve_local(None, None, Os::Linux, shell_env());
    assert!(matches!(r, Ok(Resolution::NeedsRelease)));
}

#[test]
fn release_version_derives_install_path() {
    let r = resolve_from_release(
        ReleaseLookup::Found("1.2.3".to_string()),
        None,
        Os::Linux,
        shell_env(),
    );
    let b = r.unwrap();
    assert_eq!(b.path, "beancount-language-server-1.2.3/beancount-language-server");
    assert!(b.args.is_empty());
    assert_eq!(b.env, shell_env());

    let r = resolve_from_release(
        ReleaseLookup::Found("1.2.3".to_string()),
        Some(vec!["--stdio".to_string()]),
        Os::Windows,
        shell_env(),
    );
    let b = r.unwrap();
    assert_eq!(b.path, "beancount-language-server-1.2.3/beancount-language-server.exe");
    assert_eq!(b.args, vec!["--stdio".to_string()]);
    assert!(b.env.is_empty());
}

#[test]
fn release_lookup_failures_propagate() {
    let r = resolve_from_release(
        ReleaseLookup::Failed("rate limited".to_string()),
        None,
        Os::Linux,
        shell_env(),
    );
    let e = r.unwrap_err();
    assert_eq!(e, ResolveError::Remote("rate limited".to_string()));
    assert!(e.message().contains("rate limited"));

    let r = resolve_from_release(ReleaseLookup::Unavailable, None, Os::Linux, shell_env());
    let e = r.unwrap_err();
    assert_eq!(e, ResolveError::NotFound);
    assert!(e.message().contains("PATH"));
}

#[test]
fn binary_name_is_the_documented_one() {
    assert_eq!(binary_name(), "beancount-language-server");
}
