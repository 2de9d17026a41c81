use npm::access::AccessLevel;
use npm::outcome::{
    login_outcome, pack_outcome, publish_outcome, NpmError, RunReport, SpawnOutcome,
};
use npm::plan::{login_plan, pack_plan, publish_plan, ExecutionMode};
use npm::DEFAULT_NPM_REGISTRY;

#[test]
fn default_registry_constant() {
    assert_eq!(DEFAULT_NPM_REGISTRY, "https://registry.npmjs.org/");
}

#[test]
fn access_level_tokens() {
    assert_eq!(AccessLevel::Public.as_arg(), "--access=public");
    assert_eq!(AccessLevel::Restricted.as_arg(), "--access=restricted");
}

#[test]
fn pack_plan_runs_subcommand_alone_in_directory() {
    let p = pack_plan("/tmp/pkg");
    assert_eq!(p.args, vec!["pack".to_string()]);
    assert_eq!(p.current_dir, Some("/tmp/pkg".to_string()));
    assert_eq!(p.mode, ExecutionMode::Captured);
}

#[test]
fn publish_plan_with_public_access() {
    let p = publish_plan("/tmp/pkg", Some(AccessLevel::Public));
    assert_eq!(
        p.args,
        vec!["publish".to_string(), "--access=public".to_string()]
    );
    assert_eq!(p.current_dir, Some("/tmp/pkg".to_string()));
    assert_eq!(p.mode, ExecutionMode::PassthroughStdio);
}

#[test]
fn publish_plan_with_restricted_access() {
    let p = publish_plan("/srv/lib", Some(AccessLevel::Restricted));
    assert_eq!(
        p.args,
        vec!["publish".to_string(), "--access=restricted".to_string()]
    );
}

#[test]
fn publish_plan_without_access_has_no_access_argument() {
    let p = publish_plan("/tmp/pkg", None);
    assert_eq!(p.args, vec!["publish".to_string()]);
    assert_eq!(p.mode, ExecutionMode::PassthroughStdio);
}

#[test]
fn login_plan_with_scope_and_always_auth() {
    let registry = "https://reg.example/".to_string();
    let scope = Some("myorg".to_string());
    let p = login_plan(&registry, &scope, true, &None);
    assert_eq!(
        p.args,
        vec![
            "login".to_string(),
            "--registry=https://reg.example/".to_string(),
            "--scope=myorg".to_string(),
            "--always_auth".to_string(),
        ]
    );
    assert_eq!(p.current_dir, None);
    assert_eq!(p.mode, ExecutionMode::Interactive);
}

#[test]
fn login_plan_minimal() {
    let registry = DEFAULT_NPM_REGISTRY.to_string();
    let p = login_plan(&registry, &None, false, &None);
    assert_eq!(
        p.args,
        vec![
            "login".to_string(),
            "--registry=https://registry.npmjs.org/".to_string(),
        ]
    );
}

#[test]
fn login_plan_with_auth_type_only() {
    let registry = "https://reg.example/".to_string();
    let auth_type = Some("legacy".to_string());
    let p = login_plan(&registry, &None, false, &auth_type);
    assert_eq!(
        p.args,
        vec![
            "login".to_string(),
            "--registry=https://reg.example/".to_string(),
            "--auth_type=legacy".to_string(),
        ]
    );
}

#[test]
fn login_plan_with_every_option() {
    let registry = "https://reg.example/".to_string();
    let scope = Some("myorg".to_string());
    let auth_type = Some("sso".to_string());
    let p = login_plan(&registry, &scope, true, &auth_type);
    assert_eq!(
        p.args,
        vec![
            "login".to_string(),
            "--registry=https://reg.example/".to_string(),
            "--scope=myorg".to_string(),
            "--always_auth".to_string(),
            "--auth_type=sso".to_string(),
        ]
    );
}

#[test]
fn zero_exit_succeeds_everywhere() {
    assert!(pack_outcome(RunReport::Succeeded).is_ok());
    assert!(publish_outcome(RunReport::Succeeded).is_ok());
    let registry = "https://reg.example/".to_string();
    let outcome = SpawnOutcome::Exited { success: true };
    assert!(login_outcome(&registry, outcome).is_ok());
}

#[test]
fn pack_failure_wraps_packaging_context() {
    let report = RunReport::Failed {
        diagnostic: "npm ERR! missing package.json".to_string(),
    };
    let err = pack_outcome(report).unwrap_err();
    match &err {
        NpmError::CommandFailure { context, cause } => {
            assert_eq!(context, "Packaging up your code failed");
            assert_eq!(cause, "npm ERR! missing package.json");
        }
        other => panic!("unexpected error kind: {:?}", other.message()),
    }
    assert_eq!(
        err.message(),
        "Packaging up your code failed: npm ERR! missing package.json"
    );
}

#[test]
fn publish_failure_wraps_publishing_context() {
    let report = RunReport::Failed {
        diagnostic: "npm ERR! 403 Forbidden".to_string(),
    };
    let err = publish_outcome(report).unwrap_err();
    match &err {
        NpmError::CommandFailure { context, .. } => {
            assert_eq!(context, "Publishing to npm failed");
        }
        other => panic!("unexpected error kind: {:?}", other.message()),
    }
}

#[test]
fn login_nonzero_exit_names_the_registry() {
    let registry = "https://reg.example/".to_string();
    let outcome = SpawnOutcome::Exited { success: false };
    let err = login_outcome(&registry, outcome).unwrap_err();
    match &err {
        NpmError::LoginFailure { registry: r } => assert_eq!(r, "https://reg.example/"),
        other => panic!("unexpected error kind: {:?}", other.message()),
    }
    let message = err.message();
    assert_eq!(message, "Login to registry https://reg.example/ failed");
    assert!(message.contains("https://reg.example/"));
}

#[test]
fn login_launch_failure_propagates_os_error() {
    let registry = "https://reg.example/".to_string();
    let outcome = SpawnOutcome::LaunchFailed {
        detail: "No such file or directory (os error 2)".to_string(),
    };
    let err = login_outcome(&registry, outcome).unwrap_err();
    match &err {
        NpmError::ProcessLaunch { detail } => {
            assert_eq!(detail, "No such file or directory (os error 2)");
        }
        other => panic!("unexpected error kind: {:?}", other.message()),
    }
    assert_eq!(err.message(), "No such file or directory (os error 2)");
}
