//! Command-line options and their resolution into a scanner configuration.

use vstd::prelude::*;
use std::path::PathBuf;
use crate::pattern::{pattern_compiles, FilePattern, PatternRejected};
use crate::scanner::ScannerConfig;

verus! {

/// The options of the command line, as the user gave them.
#[derive(Debug)]
pub struct CliArgs {
    /// The path to scan.
    pub path: PathBuf,
    /// Output results as JSON.
    pub json: bool,
    /// Suppress progress updates and all output except the final result.
    pub quiet: bool,
    /// Show detailed error information.
    pub verbose: bool,
    /// Concurrent task limit, if the user set one.
    pub threads: Option<usize>,
    /// Skip hidden files and directories.
    pub no_hidden: bool,
    /// Follow symbolic links.
    pub follow_symlinks: bool,
    /// Maximum scan duration in seconds.
    pub timeout: Option<u64>,
    /// Regular expression that selects files by name.
    pub pattern: Option<String>,
}

/// A configuration made from command-line options, together with the
/// pattern that had to be dropped because it does not compile, if any.
#[derive(Debug)]
pub struct Resolution {
    pub config: ScannerConfig,
    pub rejected: Option<PatternRejected>,
}

/// `num_cpus::get`: the number of CPUs available to this process. The
/// answer depends on the machine, so nothing is claimed about it.
#[verifier::external_body]
pub(crate) fn available_cpus() -> (cores: usize) {
    num_cpus::get()
}

/// The task limit to use: the user's, or else two per CPU.
pub open spec fn task_limit(threads: Option<usize>, cores: usize) -> int {
    match threads {
        Some(limit) => limit as int,
        None => cores * 2,
    }
}

/// Whether `config` is what the options say, given the task limit `limit`
/// and the compiled pattern, if there is one and it compiled.
pub open spec fn reflects(
    config: ScannerConfig,
    args: CliArgs,
    limit: int,
    pattern: Option<FilePattern>,
) -> bool {
    &&& config.target_path == args.path
    &&& config.max_concurrent_tasks == limit
    &&& config.follow_symlinks == args.follow_symlinks
    &&& config.include_hidden == !args.no_hidden
    &&& config.progress_updates == (!args.quiet && !args.json)
    &&& config.verbose == args.verbose
    &&& config.file_pattern == pattern
}

/// Puts a configuration together from the options, a task limit and the
/// outcome of compiling the pattern. A pattern that did not compile is
/// left out of the configuration and handed back beside it.
pub fn assemble(
    args: CliArgs,
    limit: usize,
    compiled: Option<Result<FilePattern, PatternRejected>>,
) -> (resolution: Resolution)
    ensures
        reflects(
            resolution.config,
            args,
            limit as int,
            match compiled {
                Some(Ok(pattern)) => Some(pattern),
                _ => None,
            },
        ),
        resolution.rejected == match compiled {
            Some(Err(rejected)) => Some(rejected),
            _ => None,
        },
{
    let (file_pattern, rejected) = match compiled {
        Some(Ok(pattern)) => (Some(pattern), None),
        Some(Err(rejected)) => (None, Some(rejected)),
        None => (None, None),
    };
    Resolution {
        config: ScannerConfig {
            target_path: args.path,
            max_concurrent_tasks: limit,
            follow_symlinks: args.follow_symlinks,
            include_hidden: !args.no_hidden,
            progress_updates: !args.quiet && !args.json,
            verbose: args.verbose,
            file_pattern,
        },
        rejected,
    }
}

/// Whether `resolution` is what the options resolve to on a machine with
/// `cores` CPUs.
pub open spec fn resolves(args: CliArgs, cores: usize, resolution: Resolution) -> bool {
    let config = resolution.config;
    &&& config.target_path == args.path
    &&& config.max_concurrent_tasks == task_limit(args.threads, cores)
    &&& config.follow_symlinks == args.follow_symlinks
    &&& config.include_hidden == !args.no_hidden
    &&& config.progress_updates == (!args.quiet && !args.json)
    &&& config.verbose == args.verbose
    &&& match args.pattern {
        None => config.file_pattern is None && resolution.rejected is None,
        Some(text) => if pattern_compiles(text@) {
            &&& config.file_pattern matches Some(pattern)
            &&& pattern@ == text@
            &&& resolution.rejected is None
        } else {
            &&& config.file_pattern is None
            &&& resolution.rejected matches Some(rejected)
            &&& rejected.pattern@ == text@
        },
    }
}

/// Resolves the options for a machine with `cores` CPUs.
///
/// The default task limit, two per CPU, is worked out whether or not the
/// user set a limit; there is no configuration when it does not fit a
/// `usize`. A pattern that does not compile is dropped and reported.
pub fn configure(args: CliArgs, cores: usize) -> (outcome: Option<Resolution>)
    ensures
        outcome is Some <==> cores * 2 <= usize::MAX,
        outcome matches Some(resolution) ==> resolves(args, cores, resolution),
{
    let default_limit = match cores.checked_mul(2) {
        Some(limit) => limit,
        None => {
            return None;
        },
    };
    let limit = match args.threads {
        Some(limit) => limit,
        None => default_limit,
    };
    let compiled = match &args.pattern {
        Some(text) => Some(FilePattern::parse(text.as_str())),
        None => None,
    };
    Some(assemble(args, limit, compiled))
}

/// Resolves the options for this machine.
///
/// Whatever the number of CPUs turns out to be, the outcome is the one
/// [`configure`] gives for it: a configuration that takes every option as
/// given and two tasks per CPU where the user set no limit, or none at all
/// where twice the number of CPUs does not fit a `usize`.
pub fn resolve(args: CliArgs) -> (outcome: Option<Resolution>)
    ensures
        exists|cores: usize| #[trigger] configured(args, cores, outcome),
        args.threads matches Some(limit) ==> (outcome matches Some(resolution)
            ==> resolution.config.max_concurrent_tasks == limit),
{
    let cores = available_cpus();
    let outcome = configure(args, cores);
    assert(configured(args, cores, outcome));
    outcome
}

/// Whether `outcome` is what resolving the options gives on a machine with
/// `cores` CPUs: a configuration exactly when twice that number fits a
/// `usize`, and then the one the options resolve to.
pub open spec fn configured(args: CliArgs, cores: usize, outcome: Option<Resolution>) -> bool {
    &&& outcome is Some <==> cores * 2 <= usize::MAX
    &&& outcome matches Some(resolution) ==> resolves(args, cores, resolution)
}

} // verus!
