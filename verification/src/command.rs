//! Immutable specifications of external commands, and the argument and
//! environment assembly the pipeline steps need.

use vstd::prelude::*;

verus! {

/// Why a command specification could not be built.
#[derive(Debug, Clone, PartialEq, Eq, Structural)]
pub enum CommandError {
    /// The executable path was empty.
    EmptyExecutable,
}

/// An external command ready to launch: the executable, its arguments in
/// order, the working directory, and an environment overlay applied on
/// top of the inherited environment. Immutable once constructed.
#[derive(Debug, Clone)]
pub struct CommandSpec {
    pub executable: String,
    pub args: Vec<String>,
    pub working_dir: String,
    pub env: Vec<(String, String)>,
}

impl CommandSpec {
    /// A well-formed specification names a non-empty executable.
    pub open spec fn wf(self) -> bool {
        self.executable@.len() > 0
    }

    /// Build a specification from its parts. No I/O and no validation
    /// beyond rejecting an empty executable path; the result's fields
    /// are exactly the inputs, so equal inputs give equal values.
    pub fn new(
        executable: String,
        args: Vec<String>,
        working_dir: String,
        env: Vec<(String, String)>,
    ) -> (r: Result<CommandSpec, CommandError>)
        ensures
            executable@.len() > 0 ==> (r matches Ok(s)
                && s.executable == executable
                && s.args == args
                && s.working_dir == working_dir
                && s.env == env
                && s.wf()),
            executable@.len() == 0 ==> (r matches Err(e) && e == CommandError::EmptyExecutable),
    {
        if executable.as_str().is_empty() {
            Err(CommandError::EmptyExecutable)
        } else {
            Ok(CommandSpec { executable, args, working_dir, env })
        }
    }
}

/// The views of a vector of strings, as a sequence of character sequences.
pub open spec fn str_views(items: Seq<String>) -> Seq<Seq<char>> {
    items.map_values(|s: String| s@)
}

/// Each item preceded by `flag`: `[flag, items[0], flag, items[1], ...]`.
pub open spec fn flagged(flag: Seq<char>, items: Seq<Seq<char>>) -> Seq<Seq<char>>
    decreases items.len(),
{
    if items.len() == 0 {
        Seq::empty()
    } else {
        flagged(flag, items.drop_last()).push(flag).push(items.last())
    }
}

/// Repeat `flag` before every item: the argument shape of a repeatable
/// command-line option.
pub fn flag_pairs(flag: &str, items: &Vec<String>) -> (r: Vec<String>)
    ensures
        str_views(r@) == flagged(flag@, str_views(items@)),
{
    let mut r: Vec<String> = Vec::new();
    let mut idx: usize = 0;
    while idx < items.len()
        invariant
            idx <= items.len(),
            str_views(r@) =~= flagged(flag@, str_views(items@.take(idx as int))),
        decreases items.len() - idx,
    {
        r.push(flag.to_owned());
        r.push(items[idx].clone());
        idx = idx + 1;
        proof {
            let full = str_views(items@.take(idx as int));
            assert(full.drop_last() =~= str_views(items@.take(idx - 1)));
            assert(str_views(r@) =~= flagged(flag@, full.drop_last()).push(flag@).push(full.last()));
        }
    }
    proof {
        assert(items@.take(items@.len() as int) =~= items@);
    }
    r
}

/// Copy of a string vector, element for element.
pub fn clone_strings(items: &Vec<String>) -> (r: Vec<String>)
    ensures
        r@ == items@,
{
    let mut r: Vec<String> = Vec::new();
    let mut idx: usize = 0;
    while idx < items.len()
        invariant
            idx <= items.len(),
            r@ =~= items@.take(idx as int),
        decreases items.len() - idx,
    {
        r.push(items[idx].clone());
        idx = idx + 1;
    }
    proof {
        assert(items@.take(items@.len() as int) =~= items@);
    }
    r
}

/// `first`, then the path-list separator, then `rest`: a directory
/// prepended to an inherited search path.
pub fn prepend_search_path(first: &str, rest: &str) -> (r: String)
    ensures
        r@ == first@ + ":"@ + rest@,
{
    let mut s = first.to_owned();
    s.append(":");
    s.append(rest);
    s
}

/// Environment overlay that activates a Python virtual environment:
/// `VIRTUAL_ENV` set to the venv root, and the venv binary directory
/// prepended to the inherited search path.
pub fn venv_overlay(venv_dir: String, venv_bin: &str, inherited_path: &str) -> (r: Vec<(
    String,
    String,
)>)
    ensures
        r@.len() == 2,
        r@[0].0@ == "VIRTUAL_ENV"@,
        r@[0].1 == venv_dir,
        r@[1].0@ == "PATH"@,
        r@[1].1@ == venv_bin@ + ":"@ + inherited_path@,
{
    let path_value = prepend_search_path(venv_bin, inherited_path);
    let mut r: Vec<(String, String)> = Vec::new();
    r.push(("VIRTUAL_ENV".to_owned(), venv_dir));
    r.push(("PATH".to_owned(), path_value));
    r
}

/// The runtime variable that points the external tool at the root
/// filesystem image: `ROOTFS=<path>`.
pub fn rootfs_rtvar(rootfs: &str) -> (r: String)
    ensures
        r@ == "ROOTFS="@ + rootfs@,
{
    let mut s = "ROOTFS=".to_owned();
    s.append(rootfs);
    s
}

/// Argument list of the external tool's `build` subcommand:
/// `build <platform> --overlay <o>... --btvar <v>... <extra>...`.
pub open spec fn build_args_spec(
    platform: Seq<char>,
    overlays: Seq<Seq<char>>,
    btvars: Seq<Seq<char>>,
    extra: Seq<Seq<char>>,
) -> Seq<Seq<char>> {
    seq!["build"@, platform] + flagged("--overlay"@, overlays) + flagged("--btvar"@, btvars)
        + extra
}

pub fn shrinkwrap_build_args(
    platform: String,
    overlays: &Vec<String>,
    btvars: &Vec<String>,
    extra: &Vec<String>,
) -> (r: Vec<String>)
    ensures
        str_views(r@) == build_args_spec(
            platform@,
            str_views(overlays@),
            str_views(btvars@),
            str_views(extra@),
        ),
{
    let ghost platform_view = platform@;
    let mut r: Vec<String> = Vec::new();
    r.push("build".to_owned());
    r.push(platform);
    let mut ov = flag_pairs("--overlay", overlays);
    r.append(&mut ov);
    let mut bt = flag_pairs("--btvar", btvars);
    r.append(&mut bt);
    let mut ex = clone_strings(extra);
    r.append(&mut ex);
    proof {
        assert(str_views(r@) =~= build_args_spec(
            platform_view,
            str_views(overlays@),
            str_views(btvars@),
            str_views(extra@),
        ));
    }
    r
}

/// Argument list of the external tool's `run` subcommand: the root
/// filesystem image is always handed over as the first runtime variable,
/// then the caller's runtime variables in order.
pub open spec fn run_args_spec(
    platform: Seq<char>,
    rootfs: Seq<char>,
    rtvars: Seq<Seq<char>>,
) -> Seq<Seq<char>> {
    seq!["run"@, platform, "--rtvar"@, "ROOTFS="@ + rootfs] + flagged("--rtvar"@, rtvars)
}

pub fn shrinkwrap_run_args(platform: String, rootfs: &str, rtvars: &Vec<String>) -> (r: Vec<
    String,
>)
    ensures
        str_views(r@) == run_args_spec(platform@, rootfs@, str_views(rtvars@)),
{
    let ghost platform_view = platform@;
    let mut r: Vec<String> = Vec::new();
    r.push("run".to_owned());
    r.push(platform);
    r.push("--rtvar".to_owned());
    r.push(rootfs_rtvar(rootfs));
    let mut rt = flag_pairs("--rtvar", rtvars);
    r.append(&mut rt);
    proof {
        assert(str_views(r@) =~= run_args_spec(platform_view, rootfs@, str_views(rtvars@)));
    }
    r
}

} // verus!
