//! The fixed external version-control invocations of the workflow: the
//! template source, and the exact argument vectors handed to `git`.

use crate::runner::seq_views;
use vstd::prelude::*;

verus! {

/// The executable every version-control step invokes.
pub fn git_exe() -> (r: &'static str)
    ensures
        r@ == "git"@,
{
    "git"
}

/// The fixed remote template repository.
pub fn template_url() -> (r: &'static str)
    ensures
        r@ == "https://github.com/liamwh/Veloxide.git"@,
{
    "https://github.com/liamwh/Veloxide.git"
}

/// The fixed branch the template is cloned at.
pub fn template_branch() -> (r: &'static str)
    ensures
        r@ == "main"@,
{
    "main"
}

/// The default application name offered by the interactive prompt.
pub fn default_app_name() -> (r: &'static str)
    ensures
        r@ == "my-veloxide-app"@,
{
    "my-veloxide-app"
}

/// Arguments of the diagnostic invocation probing that git is installed.
pub fn probe_args() -> (r: Vec<String>)
    ensures
        seq_views(r@) =~= seq!["--version"@],
{
    let mut v: Vec<String> = Vec::new();
    v.push(String::from_str("--version"));
    v
}

/// Arguments of the shallow clone of the template into `dir`: depth 1, the
/// fixed branch, the fixed remote.
pub fn clone_args(dir: &str) -> (r: Vec<String>)
    ensures
        seq_views(r@) =~= seq![
            "clone"@,
            "--depth"@,
            "1"@,
            "--branch"@,
            "main"@,
            "https://github.com/liamwh/Veloxide.git"@,
            dir@,
        ],
{
    let mut v: Vec<String> = Vec::new();
    v.push(String::from_str("clone"));
    v.push(String::from_str("--depth"));
    v.push(String::from_str("1"));
    v.push(String::from_str("--branch"));
    v.push(String::from_str(template_branch()));
    v.push(String::from_str(template_url()));
    v.push(String::from_str(dir));
    v
}

/// Arguments re-initializing a fresh repository in the working directory.
pub fn init_args() -> (r: Vec<String>)
    ensures
        seq_views(r@) =~= seq!["init"@, "."@],
{
    let mut v: Vec<String> = Vec::new();
    v.push(String::from_str("init"));
    v.push(String::from_str("."));
    v
}

/// Arguments staging every file of the working directory.
pub fn add_args() -> (r: Vec<String>)
    ensures
        seq_views(r@) =~= seq!["add"@, "-A"@, "."@],
{
    let mut v: Vec<String> = Vec::new();
    v.push(String::from_str("add"));
    v.push(String::from_str("-A"));
    v.push(String::from_str("."));
    v
}

/// Arguments creating the single initial commit.
pub fn commit_args() -> (r: Vec<String>)
    ensures
        seq_views(r@) =~= seq!["commit"@, "-a"@, "-m"@, ". initial"@],
{
    let mut v: Vec<String> = Vec::new();
    v.push(String::from_str("commit"));
    v.push(String::from_str("-a"));
    v.push(String::from_str("-m"));
    v.push(String::from_str(". initial"));
    v
}

} // verus!
