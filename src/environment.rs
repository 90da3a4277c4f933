//! Choosing the interpreter environment: a development virtual environment,
//! or the standalone runtime bundled in the application's resource directory.

use vstd::prelude::*;
use vstd::string::*;

use crate::paths::{join_path, path_join};

verus! {

/// Where the interpreter's standard library and packages live.
#[derive(Debug, PartialEq, Eq)]
pub enum InterpreterEnvironment {
    /// A development virtual environment, by its directory.
    Venv(String),
    /// The bundled runtime, by the application's resource directory.
    Standalone(String),
}

/// Why no interpreter environment could be chosen.
#[derive(Debug, PartialEq, Eq)]
pub enum ResolutionError {
    /// The virtual environment directory, named here, does not exist.
    EnvironmentNotFound(String),
    /// The host could not report its resource directory; the reason.
    ResourceDirUnavailable(String),
}

/// The default virtual environment: `<project_root>/.venv`.
pub open spec fn default_venv_path(project_root: Seq<char>) -> Seq<char> {
    path_join(project_root, ".venv"@)
}

/// The Windows verbatim prefix `\\?\`.
pub open spec fn verbatim_prefix() -> Seq<char> {
    "\\\\?\\"@
}

/// `simple` is `path` itself, or `path` without a leading verbatim prefix.
pub open spec fn is_simplified_form(path: Seq<char>, simple: Seq<char>) -> bool {
    simple == path || (path.len() >= 4 && path.take(4) == verbatim_prefix() && simple == path.skip(
        4,
    ))
}

/// The message shown to the operator for `e`.
pub open spec fn error_message(e: ResolutionError) -> Seq<char> {
    match e {
        ResolutionError::EnvironmentNotFound(p) => "No virtual environment found at "@ + p@
            + ". Run `uv sync` first."@,
        ResolutionError::ResourceDirUnavailable(m) => "failed to get resource dir: "@ + m@,
    }
}

/// Relies on dunce::simplified, which on Windows strips the verbatim prefix
/// when that is safe and elsewhere returns the path unchanged; it does no I/O.
#[verifier::external_body]
fn simplify_path(path: &str) -> (r: String)
    ensures
        is_simplified_form(path@, r@),
{
    dunce::simplified(std::path::Path::new(path)).to_string_lossy().into_owned()
}

/// The virtual environment directory of a development run: the override
/// when one is set, else `<project_root>/.venv`.
pub fn choose_venv_dir(override_dir: Option<String>, project_root: &str) -> (r: String)
    ensures
        r@ == match override_dir {
            Some(d) => d@,
            None => default_venv_path(project_root@),
        },
{
    match override_dir {
        Some(d) => d,
        None => join_path(project_root, ".venv"),
    }
}

/// Resolves a development run to the virtual environment at `venv_dir`,
/// given whether that directory exists. A missing directory is
/// `EnvironmentNotFound`, naming it.
pub fn resolve_venv(venv_dir: String, exists: bool) -> (r: Result<
    InterpreterEnvironment,
    ResolutionError,
>)
    ensures
        exists ==> r == Ok::<_, ResolutionError>(InterpreterEnvironment::Venv(venv_dir)),
        !exists ==> r == Err::<InterpreterEnvironment, _>(
            ResolutionError::EnvironmentNotFound(venv_dir),
        ),
{
    if exists {
        Ok(InterpreterEnvironment::Venv(venv_dir))
    } else {
        Err(ResolutionError::EnvironmentNotFound(venv_dir))
    }
}

/// Resolves a packaged run to the bundled runtime in the resource directory
/// that the host reported, with any verbatim prefix of the host's loader
/// taken off; a failure to report it is `ResourceDirUnavailable`.
pub fn resolve_standalone(resource_dir: Result<String, String>) -> (r: Result<
    InterpreterEnvironment,
    ResolutionError,
>)
    ensures
        match resource_dir {
            Ok(d) => match r {
                Ok(InterpreterEnvironment::Standalone(p)) => is_simplified_form(d@, p@),
                _ => false,
            },
            Err(m) => r == Err::<InterpreterEnvironment, _>(
                ResolutionError::ResourceDirUnavailable(m),
            ),
        },
{
    match resource_dir {
        Ok(d) => Ok(InterpreterEnvironment::Standalone(simplify_path(d.as_str()))),
        Err(m) => Err(ResolutionError::ResourceDirUnavailable(m)),
    }
}

impl ResolutionError {
    /// The message for the operator, naming what was tried.
    pub fn message(&self) -> (r: String)
        ensures
            r@ == error_message(*self),
    {
        match self {
            ResolutionError::EnvironmentNotFound(p) => {
                let mut r = String::from_str("No virtual environment found at ");
                r.append(p.as_str());
                r.append(". Run `uv sync` first.");
                r
            },
            ResolutionError::ResourceDirUnavailable(m) => {
                let mut r = String::from_str("failed to get resource dir: ");
                r.append(m.as_str());
                r
            },
        }
    }
}

} // verus!
