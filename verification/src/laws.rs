//! Properties of the assembled invocations that hold for every input, proved
//! once and for all.

use vstd::prelude::*;
use crate::access::{access_token, AccessLevel};
use crate::outcome::login_failure_message;
use crate::plan::{login_args_spec, publish_args_spec};

verus! {

/// A publish invocation carries the serialized access level exactly once —
/// at the position right after the subcommand — and when no access level was
/// given, no access argument appears at all.
pub proof fn lemma_publish_access_exactly_once(a: AccessLevel)
    ensures
        publish_args_spec(Some(a)).len() == 2,
        forall|i: int|
            0 <= i < publish_args_spec(Some(a)).len() ==> ((publish_args_spec(Some(a))[i]
                == access_token(a)) <==> i == 1),
        forall|b: AccessLevel| !publish_args_spec(None).contains(access_token(b)),
{
    reveal_strlit("publish");
    reveal_strlit("--access=public");
    reveal_strlit("--access=restricted");
    assert forall|i: int| 0 <= i < publish_args_spec(Some(a)).len() implies ((publish_args_spec(
        Some(a),
    )[i] == access_token(a)) <==> i == 1) by {
        if i == 0 {
            assert(publish_args_spec(Some(a))[0] == "publish"@);
            assert(access_token(a).len() != "publish"@.len());
        } else {
            assert(publish_args_spec(Some(a))[1] == access_token(a));
        }
    }
    assert forall|b: AccessLevel| !publish_args_spec(None).contains(access_token(b)) by {
        assert(publish_args_spec(None)[0] == "publish"@);
        assert(access_token(b).len() != "publish"@.len());
    }
}

/// A login invocation always begins with the subcommand and the registry
/// flag, in that order, and the optional flags follow strictly in the order
/// scope, always-auth, auth-type — each present exactly when its input was
/// given, at a position determined by which earlier flags are present.
pub proof fn lemma_login_args_order(
    registry: Seq<char>,
    scope: Option<Seq<char>>,
    always_auth: bool,
    auth_type: Option<Seq<char>>,
)
    ensures
        ({
            let args = login_args_spec(registry, scope, always_auth, auth_type);
            let n_scope: int = if scope is Some { 1 } else { 0 };
            let n_always: int = if always_auth { 1 } else { 0 };
            let n_type: int = if auth_type is Some { 1 } else { 0 };
            &&& args.len() == 2 + n_scope + n_always + n_type
            &&& args[0] == "login"@
            &&& args[1] == "--registry="@ + registry
            &&& (scope matches Some(s) ==> args[2] == "--scope="@ + s)
            &&& (always_auth ==> args[2 + n_scope] == "--always_auth"@)
            &&& (auth_type matches Some(t) ==> args[2 + n_scope + n_always] == "--auth_type="@ + t)
        }),
{
}

/// The always-auth flag stands in a login invocation exactly when the flag's
/// input was true, and it is always the bare token: no argument of the list
/// extends it with a value suffix.
pub proof fn lemma_always_auth_flag(
    registry: Seq<char>,
    scope: Option<Seq<char>>,
    always_auth: bool,
    auth_type: Option<Seq<char>>,
)
    ensures
        ({
            let args = login_args_spec(registry, scope, always_auth, auth_type);
            &&& (args.contains("--always_auth"@) <==> always_auth)
            &&& forall|i: int|
                0 <= i < args.len() ==> ("--always_auth"@.is_prefix_of(args[i]) ==> args[i]
                    == "--always_auth"@)
        }),
{
    reveal_strlit("login");
    reveal_strlit("--registry=");
    reveal_strlit("--scope=");
    reveal_strlit("--always_auth");
    reveal_strlit("--auth_type=");
    let args = login_args_spec(registry, scope, always_auth, auth_type);
    let n_scope: int = if scope is Some { 1 } else { 0 };
    let n_always: int = if always_auth { 1 } else { 0 };
    let flag = "--always_auth"@;
    assert forall|i: int| 0 <= i < args.len() && flag.is_prefix_of(args[i]) implies args[i]
        == flag by {
        lemma_login_args_order(registry, scope, always_auth, auth_type);
        if i == 0 {
            assert(args[i].len() < flag.len());
        } else if i == 1 {
            assert(args[i][2] == 'r');
            assert(flag[2] == 'a');
            assert(args[i].subrange(0, flag.len() as int)[2] == args[i][2]);
        } else if scope is Some && i == 2 {
            assert(args[i][2] == 's');
            assert(flag[2] == 'a');
            assert(args[i].subrange(0, flag.len() as int)[2] == args[i][2]);
        } else if always_auth && i == 2 + n_scope {
            assert(args[i] == flag);
        } else {
            assert(auth_type matches Some(t) && args[i] == "--auth_type="@ + t);
            assert(args[i][3] == 'u');
            assert(flag[3] == 'l');
            assert(args[i].subrange(0, flag.len() as int)[3] == args[i][3]);
        }
    }
    if always_auth {
        lemma_login_args_order(registry, scope, always_auth, auth_type);
        assert(args[2 + n_scope] == flag);
        assert(args.contains(flag));
    } else {
        if args.contains(flag) {
            let i = choose|i: int| 0 <= i < args.len() && args[i] == flag;
            lemma_login_args_order(registry, scope, always_auth, auth_type);
            if i == 0 {
                assert(args[i].len() != flag.len());
            } else if i == 1 {
                assert(args[i][2] == 'r');
                assert(flag[2] == 'a');
            } else if scope is Some && i == 2 {
                assert(args[i][2] == 's');
                assert(flag[2] == 'a');
            } else {
                assert(auth_type matches Some(t) && args[i] == "--auth_type="@ + t);
                assert(args[i][3] == 'u');
                assert(flag[3] == 'l');
            }
            assert(false);
        }
    }
}

/// The message of a login failure contains, verbatim, the registry string the
/// call was made with: it stands right after the fixed prefix of the message.
pub proof fn lemma_login_failure_message_contains_registry(registry: Seq<char>)
    ensures
        ({
            let msg = login_failure_message(registry);
            let at = "Login to registry "@.len() as int;
            &&& 0 <= at
            &&& at + registry.len() <= msg.len()
            &&& msg.subrange(at, at + registry.len()) == registry
        }),
{
    let msg = login_failure_message(registry);
    let at = "Login to registry "@.len() as int;
    assert(msg.subrange(at, at + registry.len()) =~= registry);
}

} // verus!
