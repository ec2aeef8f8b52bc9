//! The project generator: configuration, name validation, and the
//! interpretation of each outside step's outcome.
//!
//! Every subprocess the flow depends on — the tool probe, project creation,
//! dependency installation — is spawned by the embedding program; the
//! functions here judge what each reported outcome means, so the judgment is
//! verified even though the spawning cannot be.

use vstd::prelude::*;
use crate::error::BunCliError;
use crate::merge::{needs_copy, should_copy, MergeEntry};
use crate::text::{is_space, is_space_char, lemma_trimmed_all_space, lemma_trimmed_at, trimmed};
use vstd::string::{StrSliceExecFns, StringExecFns};

verus! {

/// Configuration for project generation.
pub struct ProjectConfig {
    /// The user-supplied project name.
    pub name: String,
    /// The dependencies added to the generated project, in installation
    /// order.
    pub dependencies: Vec<String>,
}

impl Default for ProjectConfig {
    /// The default configuration: no name yet, and the fixed dependency set
    /// every generated service receives, in installation order.
    fn default() -> (c: Self)
        ensures
            c.name@ == Seq::<char>::empty(),
            c.dependencies@.len() == 11,
            c.dependencies@[0]@ == "@bogeychan/elysia-logger"@,
            c.dependencies@[1]@ == "@elysiajs/cors"@,
            c.dependencies@[2]@ == "@elysiajs/swagger"@,
            c.dependencies@[3]@ == "@sentry/bun"@,
            c.dependencies@[4]@ == "@sentry/cli"@,
            c.dependencies@[5]@ == "@types/luxon"@,
            c.dependencies@[6]@ == "jsonwebtoken"@,
            c.dependencies@[7]@ == "luxon"@,
            c.dependencies@[8]@ == "mongoose"@,
            c.dependencies@[9]@ == "winston"@,
            c.dependencies@[10]@ == "winston-daily-rotate-file"@,
    {
        let mut dependencies: Vec<String> = Vec::new();
        dependencies.push(String::from_str("@bogeychan/elysia-logger"));
        dependencies.push(String::from_str("@elysiajs/cors"));
        dependencies.push(String::from_str("@elysiajs/swagger"));
        dependencies.push(String::from_str("@sentry/bun"));
        dependencies.push(String::from_str("@sentry/cli"));
        dependencies.push(String::from_str("@types/luxon"));
        dependencies.push(String::from_str("jsonwebtoken"));
        dependencies.push(String::from_str("luxon"));
        dependencies.push(String::from_str("mongoose"));
        dependencies.push(String::from_str("winston"));
        dependencies.push(String::from_str("winston-daily-rotate-file"));
        ProjectConfig { name: String::new(), dependencies }
    }
}

/// A character a project name must not contain: a path separator or a null
/// byte.
pub open spec fn is_forbidden_char(c: char) -> bool {
    c == '/' || c == '\\' || c == '\u{0000}'
}

/// A project name is acceptable when it is non-empty after trimming
/// surrounding whitespace and contains no path separator or null byte.
/// There is deliberately no length limit and no further charset allow-list.
pub open spec fn valid_project_name(s: Seq<char>) -> bool {
    trimmed(s).len() > 0 && (forall|i: int| 0 <= i < s.len() ==> !is_forbidden_char(s[i]))
}

/// Runtime counterpart of `is_forbidden_char`.
fn is_forbidden(c: char) -> (r: bool)
    ensures
        r == is_forbidden_char(c),
{
    c == '/' || c == '\\' || c == '\u{0000}'
}

/// The literal command line of the project-creation subcommand for `name`,
/// as it is reported when that subcommand fails.
pub open spec fn scaffold_command_line(name: Seq<char>) -> Seq<char> {
    "create elysia "@ + name
}

/// What spawning a subcommand produced: either the subprocess ran to
/// completion, or it could not be spawned at all. The two failures are
/// reported differently — a non-zero exit carries the subcommand's own
/// words, a spawn failure is an I/O failure of this machine.
#[derive(Debug, Clone, PartialEq, Eq)]
pub enum SpawnOutcome {
    /// The subprocess ran: whether it exited with status zero, and its
    /// captured standard-error text.
    Completed { exit_ok: bool, stderr: String },
    /// The subprocess could not be spawned; carries the reported error text.
    SpawnFailed { error: String },
}

/// Whether a spawn outcome counts as success: the subprocess ran and exited
/// with status zero.
pub open spec fn spawn_succeeded(outcome: SpawnOutcome) -> bool {
    outcome matches SpawnOutcome::Completed { exit_ok, .. } && exit_ok
}

/// Generator for creating projects through the external tool.
pub struct ProjectGenerator {
    /// The run's immutable configuration.
    pub config: ProjectConfig,
    /// The literal command line of the creation subcommand, fixed at
    /// construction from the configured name; reported verbatim when that
    /// subcommand fails.
    pub scaffold_command: String,
}

impl ProjectGenerator {
    /// Create a new project generator with the given configuration.
    pub fn new(config: ProjectConfig) -> (g: Self)
        ensures
            g.config == config,
            g.scaffold_command@ == scaffold_command_line(config.name@),
    {
        let scaffold_command = String::from_str("create elysia ").concat(config.name.as_str());
        ProjectGenerator { config, scaffold_command }
    }

    /// Validate the configured project name: it succeeds exactly on the
    /// acceptable names, and a rejection carries the offending name.
    pub fn validate_project_name(&self) -> (r: Result<(), BunCliError>)
        ensures
            r is Ok <==> valid_project_name(self.config.name@),
            r matches Err(e) ==> e == BunCliError::InvalidProjectName(self.config.name),
    {
        let name: &str = self.config.name.as_str();
        let n = name.unicode_len();
        let mut i: usize = 0;
        let mut first: usize = n;
        let mut last: usize = n;
        let mut has_forbidden = false;
        while i < n
            invariant
                i <= n,
                n == name@.len(),
                name@ == self.config.name@,
                first <= n,
                first == n <==> last == n,
                first == n ==> forall|j: int| 0 <= j < i ==> is_space_char(name@[j]),
                first < n ==> first <= last && last < i && !is_space_char(name@[first as int])
                    && !is_space_char(name@[last as int]) && (forall|j: int|
                    0 <= j < first ==> is_space_char(name@[j])) && (forall|j: int|
                    last < j < i ==> is_space_char(name@[j])),
                has_forbidden <==> exists|j: int| 0 <= j < i && is_forbidden_char(name@[j]),
            decreases n - i,
        {
            let c = name.get_char(i);
            if !is_space(c) {
                if first == n {
                    first = i;
                }
                last = i;
            }
            if is_forbidden(c) {
                has_forbidden = true;
            }
            i += 1;
        }
        if first == n {
            proof {
                lemma_trimmed_all_space(self.config.name@);
            }
            Err(BunCliError::InvalidProjectName(self.config.name.clone()))
        } else if has_forbidden {
            Err(BunCliError::InvalidProjectName(self.config.name.clone()))
        } else {
            proof {
                lemma_trimmed_at(self.config.name@, first as int, (last + 1) as int);
            }
            Ok(())
        }
    }

    /// Interpret the outcome of the tool probe: the probe succeeds only when
    /// the version-query subprocess could be spawned and exited with status
    /// zero. Every other outcome — spawn failure or non-zero exit — is
    /// normalized to the one `BunNotInstalled` signal.
    pub fn check_bun_installed(&self, spawned: bool, exit_ok: bool) -> (r: Result<
        (),
        BunCliError,
    >)
        ensures
            r is Ok <==> spawned && exit_ok,
            r matches Err(e) ==> e == BunCliError::BunNotInstalled,
    {
        if spawned && exit_ok {
            Ok(())
        } else {
            Err(BunCliError::BunNotInstalled)
        }
    }

    /// Interpret the outcome of the project-creation subcommand: a non-zero
    /// exit is fatal and reports the captured standard-error text verbatim,
    /// attached to the literal command line; a spawn failure is fatal as an
    /// I/O failure, preserving the reported cause.
    pub fn create_base_project(&self, outcome: SpawnOutcome) -> (r: Result<(), BunCliError>)
        ensures
            r is Ok <==> spawn_succeeded(outcome),
            outcome matches SpawnOutcome::Completed { exit_ok, stderr } ==> (if exit_ok {
                r is Ok
            } else {
                r matches Err(e) && e == (BunCliError::CommandFailed {
                    command: self.scaffold_command,
                    message: stderr,
                })
            }),
            outcome matches SpawnOutcome::SpawnFailed { error } ==> (r matches Err(e) && e
                == BunCliError::Io(error)),
    {
        match outcome {
            SpawnOutcome::Completed { exit_ok: true, .. } => Ok(()),
            SpawnOutcome::Completed { exit_ok: false, stderr } => Err(
                BunCliError::CommandFailed {
                    command: self.scaffold_command.clone(),
                    message: stderr,
                },
            ),
            SpawnOutcome::SpawnFailed { error } => Err(BunCliError::Io(error)),
        }
    }

    /// Interpret the outcome of one dependency-add subcommand: a non-zero
    /// exit reports which dependency failed and the captured standard-error
    /// text, verbatim; a spawn failure is an I/O failure preserving the
    /// reported cause. Neither failure is ever fatal to the run.
    pub fn install_dependency(&self, dependency: &String, outcome: SpawnOutcome) -> (r: Result<
        (),
        BunCliError,
    >)
        ensures
            r is Ok <==> spawn_succeeded(outcome),
            outcome matches SpawnOutcome::Completed { exit_ok, stderr } ==> (if exit_ok {
                r is Ok
            } else {
                r matches Err(e) && e == (BunCliError::DependencyFailed {
                    dependency: *dependency,
                    message: stderr,
                })
            }),
            outcome matches SpawnOutcome::SpawnFailed { error } ==> (r matches Err(e) && e
                == BunCliError::Io(error)),
    {
        match outcome {
            SpawnOutcome::Completed { exit_ok: true, .. } => Ok(()),
            SpawnOutcome::Completed { exit_ok: false, stderr } => Err(
                BunCliError::DependencyFailed {
                    dependency: dependency.clone(),
                    message: stderr,
                },
            ),
            SpawnOutcome::SpawnFailed { error } => Err(BunCliError::Io(error)),
        }
    }

    /// Decide, file by file, which template files must be copied into the
    /// generated project. `entries` is `None` when the template source
    /// directory does not exist; the merge is then a silent no-op with an
    /// empty plan. Otherwise the plan holds one decision per entry, by the
    /// reconciliation rule `needs_copy`.
    pub fn copy_templates(&self, entries: Option<&Vec<MergeEntry>>) -> (plan: Vec<bool>)
        ensures
            entries is None ==> plan@.len() == 0,
            entries matches Some(es) ==> plan@.len() == es@.len() && (forall|i: int|
                0 <= i < es@.len() ==> plan@[i] == needs_copy(es@[i].source, es@[i].dest)),
    {
        match entries {
            None => Vec::new(),
            Some(es) => {
                let mut plan: Vec<bool> = Vec::new();
                let mut i: usize = 0;
                while i < es.len()
                    invariant
                        i <= es@.len(),
                        plan@.len() == i as int,
                        forall|j: int|
                            0 <= j < i ==> plan@[j] == needs_copy(es@[j].source, es@[j].dest),
                    decreases es@.len() - i,
                {
                    let e = &es[i];
                    plan.push(should_copy(e.source, e.dest));
                    i += 1;
                }
                plan
            },
        }
    }
}

} // verus!
