//! The terminal output of every resolution: the executable invocation, and
//! the manual-mode locator that produces one from user configuration.

use vstd::prelude::*;
use vstd::string::StringExecFns;
use crate::config::Settings;
use crate::error::ProvisionError;
use crate::text::views_of;

verus! {

/// A ready-to-launch invocation: executable path, ordered arguments, and the
/// full inherited environment, passed through unfiltered.
#[derive(Debug)]
pub struct Command {
    pub command: String,
    pub args: Vec<String>,
    pub env: Vec<(String, String)>,
}

/// An invocation resolved by the engine before the host environment is
/// attached: executable path and ordered arguments.
#[derive(Debug)]
pub struct LaunchPlan {
    pub command: String,
    pub args: Vec<String>,
}

/// The fixed argument that runs the tool as a language backend.
pub open spec fn default_args_spec() -> Seq<Seq<char>> {
    seq!["--lsp"@]
}

/// The argument list of an automatic launch: the backend flag, plus the
/// stdlib flag and path exactly when the stdlib directory is present.
pub open spec fn auto_args_spec(stdlib: Seq<char>, stdlib_exists: bool) -> Seq<Seq<char>> {
    if stdlib_exists {
        seq!["--lsp"@, "--stdlib-path"@, stdlib]
    } else {
        default_args_spec()
    }
}

/// A user-supplied argument list fully replaces the default; without one the
/// single backend flag is used.
pub open spec fn chosen_args_spec(over: Option<Vec<String>>, args: Seq<Seq<char>>) -> bool {
    match over {
        Some(a) => args == views_of(a@),
        None => args == default_args_spec(),
    }
}

/// Builds the launch plan of the auto path for a resolved binary.
pub fn build_launch_plan(binary_path: &str, stdlib_dir: &str, stdlib_exists: bool) -> (p:
    LaunchPlan)
    ensures
        p.command@ == binary_path@,
        views_of(p.args@) == auto_args_spec(stdlib_dir@, stdlib_exists),
{
    let mut args: Vec<String> = Vec::new();
    args.push(String::from_str("--lsp"));
    if stdlib_exists {
        args.push(String::from_str("--stdlib-path"));
        args.push(String::from_str(stdlib_dir));
    }
    assert(views_of(args@) =~~= auto_args_spec(stdlib_dir@, stdlib_exists));
    LaunchPlan { command: String::from_str(binary_path), args }
}

/// Attaches the inherited host environment to a resolved plan.  The
/// environment is passed through whole: no filtering, no injection.
pub fn plan_to_command(plan: LaunchPlan, env: Vec<(String, String)>) -> (c: Command)
    ensures
        c.command == plan.command,
        c.args == plan.args,
        c.env == env,
{
    Command { command: plan.command, args: plan.args, env }
}

fn copy_strings(v: &Vec<String>) -> (r: Vec<String>)
    ensures
        views_of(r@) == views_of(v@),
{
    let mut out: Vec<String> = Vec::new();
    let mut i: usize = 0;
    while i < v.len()
        invariant
            0 <= i <= v@.len(),
            out@.len() == i,
            views_of(out@) =~~= views_of(v@.take(i as int)),
        decreases v@.len() - i,
    {
        let ghost before = out@;
        out.push(v[i].clone());
        assert forall|j: int| 0 <= j < i as int + 1 implies views_of(out@)[j] == views_of(
            v@.take(i as int + 1),
        )[j] by {
            if j < i as int {
                assert(views_of(before)[j] == views_of(v@.take(i as int))[j]);
            }
        }
        assert(views_of(out@) =~~= views_of(v@.take(i as int + 1)));
        i += 1;
    }
    assert(v@.take(v@.len() as int) =~= v@);
    assert(views_of(out@) =~~= views_of(v@));
    out
}

/// What manual-mode resolution returns: an explicitly configured path is
/// used verbatim; otherwise the result of the host's PATH search; with
/// neither, exactly `BinaryNotFoundInPath`.
pub open spec fn manual_spec(
    settings: Settings,
    which_result: Option<String>,
    env: Vec<(String, String)>,
    r: Result<Command, ProvisionError>,
) -> bool {
    &&& match r {
        Ok(c) => {
            &&& match settings.binary_path {
                Some(p) => c.command@ == p@,
                None => which_result matches Some(w) && c.command@ == w@,
            }
            &&& chosen_args_spec(settings.binary_arguments, views_of(c.args@))
            &&& c.env == env
        },
        Err(e) => {
            &&& settings.binary_path is None
            &&& which_result is None
            &&& e == ProvisionError::BinaryNotFoundInPath
        },
    }
    &&& r is Err <==> (settings.binary_path is None && which_result is None)
}

/// Manual-mode resolution: an explicitly configured path is used verbatim
/// (no existence check at this layer); otherwise the result of the host's
/// PATH search; with neither, fails with `BinaryNotFoundInPath`.  The user's
/// argument list, when configured, fully replaces the default backend flag.
pub fn manual_command(settings: &Settings, which_result: Option<String>, env: Vec<(String, String)>)
    -> (r: Result<Command, ProvisionError>)
    ensures
        manual_spec(*settings, which_result, env, r),
{
    let path: String = match &settings.binary_path {
        Some(p) => p.clone(),
        None => match which_result {
            Some(w) => w,
            None => {
                return Err(ProvisionError::BinaryNotFoundInPath);
            },
        },
    };
    let args: Vec<String> = match &settings.binary_arguments {
        Some(a) => copy_strings(a),
        None => {
            let mut v: Vec<String> = Vec::new();
            v.push(String::from_str("--lsp"));
            assert(views_of(v@) =~~= default_args_spec());
            v
        },
    };
    Ok(Command { command: path, args, env })
}

} // verus!
