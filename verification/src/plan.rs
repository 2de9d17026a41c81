//! Assembly of the tool invocations: for each operation, the exact argument
//! list, the working directory, and how the child's standard streams are
//! wired.

use vstd::prelude::*;
use crate::access::{access_token, AccessLevel};

verus! {

/// How the child process's standard streams are wired for an operation.
#[derive(Clone, Copy, Debug, PartialEq, Eq, Structural)]
pub enum ExecutionMode {
    /// All output is captured by the runner for diagnostics.
    Captured,
    /// Stdin and stdout pass through to the user's terminal so that the tool
    /// can prompt and print live; stderr is left to the runner's default.
    PassthroughStdio,
    /// The child owns the real terminal for the whole call: nothing is
    /// captured.
    Interactive,
}

/// Everything the caller needs in order to spawn one tool invocation.
pub struct CommandPlan {
    /// Directory the tool runs in, when the operation sets one.
    pub current_dir: Option<String>,
    /// The arguments handed to the tool, in order, subcommand first.
    pub args: Vec<String>,
    /// How the child's standard streams are wired.
    pub mode: ExecutionMode,
}

/// The argument list of the packaging operation: the subcommand alone.
pub open spec fn pack_args_spec() -> Seq<Seq<char>> {
    seq!["pack"@]
}

/// The argument list of the publish operation: the subcommand, then the
/// serialized access level when one was given.
pub open spec fn publish_args_spec(access: Option<AccessLevel>) -> Seq<Seq<char>> {
    match access {
        Some(a) => seq!["publish"@, access_token(a)],
        None => seq!["publish"@],
    }
}

/// The argument list of the login operation: the subcommand, the registry
/// flag, then each optional flag in its fixed place when its input was given.
pub open spec fn login_args_spec(
    registry: Seq<char>,
    scope: Option<Seq<char>>,
    always_auth: bool,
    auth_type: Option<Seq<char>>,
) -> Seq<Seq<char>> {
    seq!["login"@, "--registry="@ + registry] + (match scope {
        Some(s) => seq!["--scope="@ + s],
        None => Seq::<Seq<char>>::empty(),
    }) + (if always_auth {
        seq!["--always_auth"@]
    } else {
        Seq::<Seq<char>>::empty()
    }) + (match auth_type {
        Some(t) => seq!["--auth_type="@ + t],
        None => Seq::<Seq<char>>::empty(),
    })
}

/// Plan the packaging operation: run the subcommand in `path` with output
/// captured, and nothing else on the command line.
pub fn pack_plan(path: &str) -> (p: CommandPlan)
    ensures
        p.current_dir matches Some(d) && d@ == path@,
        p.args.deep_view() == pack_args_spec(),
        p.mode == ExecutionMode::Captured,
{
    let mut args: Vec<String> = Vec::new();
    args.push(String::from_str("pack"));
    proof {
        assert(args.deep_view() =~= pack_args_spec());
    }
    CommandPlan {
        current_dir: Some(path.to_owned()),
        args,
        mode: ExecutionMode::Captured,
    }
}

/// Plan the publish operation: run the subcommand in `path`, carrying the
/// serialized access level exactly when one was given, with stdin and stdout
/// passed through for interactive confirmation.
pub fn publish_plan(path: &str, access: Option<AccessLevel>) -> (p: CommandPlan)
    ensures
        p.current_dir matches Some(d) && d@ == path@,
        p.args.deep_view() == publish_args_spec(access),
        p.mode == ExecutionMode::PassthroughStdio,
{
    let mut args: Vec<String> = Vec::new();
    args.push(String::from_str("publish"));
    if let Some(a) = access {
        args.push(a.as_arg());
    }
    proof {
        assert(args.deep_view() =~= publish_args_spec(access));
    }
    CommandPlan {
        current_dir: Some(path.to_owned()),
        args,
        mode: ExecutionMode::PassthroughStdio,
    }
}

/// Plan the login operation: the fully interactive invocation, run in the
/// caller's own directory, with the flags in their fixed order.
pub fn login_plan(
    registry: &String,
    scope: &Option<String>,
    always_auth: bool,
    auth_type: &Option<String>,
) -> (p: CommandPlan)
    ensures
        p.current_dir is None,
        p.args.deep_view() == login_args_spec(
            registry@,
            scope.deep_view(),
            always_auth,
            auth_type.deep_view(),
        ),
        p.mode == ExecutionMode::Interactive,
{
    let mut args: Vec<String> = Vec::new();
    args.push(String::from_str("login"));
    let mut registry_flag = String::from_str("--registry=");
    registry_flag.append(registry.as_str());
    args.push(registry_flag);
    if let Some(s) = scope {
        let mut scope_flag = String::from_str("--scope=");
        scope_flag.append(s.as_str());
        args.push(scope_flag);
    }
    if always_auth {
        args.push(String::from_str("--always_auth"));
    }
    if let Some(t) = auth_type {
        let mut auth_type_flag = String::from_str("--auth_type=");
        auth_type_flag.append(t.as_str());
        args.push(auth_type_flag);
    }
    proof {
        assert(args.deep_view() =~= login_args_spec(
            registry@,
            scope.deep_view(),
            always_auth,
            auth_type.deep_view(),
        ));
    }
    CommandPlan { current_dir: None, args, mode: ExecutionMode::Interactive }
}

} // verus!
