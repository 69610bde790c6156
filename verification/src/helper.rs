//! The helper program that asks the run-time loader where a library is, and
//! the cache it is kept in.
//!
//! The helper is compiled once for each pair of interpreter and compiler and
//! kept under a name made of the digests of the two paths. [`ensure_helper`]
//! decides, from what is known of the cache so far, what is to be done next.

use crate::error::{Error, ErrorView};
use crate::process::{output_view, CommandOutput, CommandOutputView};
use crate::text::{
    decimal, decimal_text, digest_path, join_path, joined, lossy, lossy_text, path_digest,
};
use vstd::prelude::*;
use vstd::string::StringExecFns;

verus! {

/// The helper's source. Given a library name as its only argument, it asks
/// the loader to open the library lazily and prints the name under which the
/// loader's link map holds it. Where the library cannot be opened it exits
/// with status 1, where the link map cannot be had with status 2, each time
/// with the loader's message on its standard error.
pub const RESOLVER_SOURCE_CODE: &'static str = r"
#define _GNU_SOURCE
#include <dlfcn.h>
#include <link.h>

#include <stdio.h>

int main(int argc, char** argv) {
  char* name = argv[1];
  void* handle = dlopen(name, RTLD_LAZY);
  if (handle == NULL) {
    fputs(dlerror(), stderr);
    return 1;
  }
  struct link_map* link_map;
  if (dlinfo(handle, RTLD_DI_LINKMAP, &link_map) != 0) {
    fputs(dlerror(), stderr);
    return 2;
  }
  puts(link_map->l_name);
  dlclose(handle);
}";

/// The file name of the helper for an interpreter and a compiler: a fixed
/// prefix and the decimal digests of the two paths.
pub open spec fn program_file_name(interp: Seq<char>, cc_path: Seq<char>) -> Seq<char> {
    "magicpak_resolver_"@ + decimal(path_digest(interp) as nat) + "_"@ + decimal(
        path_digest(cc_path) as nat,
    )
}

/// Where the helper for an interpreter and a compiler is kept: under its
/// file name, in the directory for temporary files.
pub open spec fn program_path(temp_dir: Seq<char>, interp: Seq<char>, cc_path: Seq<char>) -> Seq<
    char,
> {
    joined(temp_dir, program_file_name(interp, cc_path))
}

/// Computes where the helper for `interp` and `cc_path` is kept under
/// `temp_dir`.
pub fn calc_program_path(temp_dir: &str, interp: &str, cc_path: &str) -> (path: String)
    ensures
        path@ == program_path(temp_dir@, interp@, cc_path@),
{
    let interp_hash: u64 = digest_path(interp);
    let cc_path_hash: u64 = digest_path(cc_path);
    let mut name = String::from_str("magicpak_resolver_");
    name.append(decimal_text(interp_hash).as_str());
    name.append("_");
    name.append(decimal_text(cc_path_hash).as_str());
    join_path(temp_dir, name.as_str())
}

/// The arguments that the compiler is run with: the source read as C, the
/// interpreter forced into the binary, the loader's library, and the output.
pub open spec fn compiler_arguments_spec(
    source_path: Seq<char>,
    interp: Seq<char>,
    program_path: Seq<char>,
) -> Seq<Seq<char>> {
    seq![
        "-xc"@,
        source_path,
        "-Wl,-dynamic-linker,"@ + interp,
        "-ldl"@,
        "-o"@,
        program_path,
    ]
}

/// Builds the arguments for compiling the source at `source_path` into the
/// helper at `program_path`, to be run by the interpreter `interp`.
pub fn compiler_arguments(source_path: &str, interp: &str, program_path: &str) -> (arguments: Vec<
    String,
>)
    ensures
        arguments.deep_view() == compiler_arguments_spec(source_path@, interp@, program_path@),
{
    let mut linker = String::from_str("-Wl,-dynamic-linker,");
    linker.append(interp);
    let mut arguments: Vec<String> = Vec::new();
    arguments.push(String::from_str("-xc"));
    arguments.push(String::from_str(source_path));
    arguments.push(linker);
    arguments.push(String::from_str("-ldl"));
    arguments.push(String::from_str("-o"));
    arguments.push(String::from_str(program_path));
    arguments
}

/// What a compiler run amounts to: success, or a compilation error that
/// carries the compiler's diagnostics.
pub open spec fn compilation_result_spec(output: CommandOutputView) -> Result<(), ErrorView> {
    if output.success {
        Ok(())
    } else {
        Err(ErrorView::ResolverCompilation(lossy_text(output.stderr)))
    }
}

/// The view of a result that carries no value.
pub open spec fn unit_result_view(result: Result<(), Error>) -> Result<(), ErrorView> {
    match result {
        Ok(()) => Ok(()),
        Err(error) => Err(error@),
    }
}

/// Judges a finished compiler run.
pub fn compilation_result(output: &CommandOutput) -> (result: Result<(), Error>)
    ensures
        unit_result_view(result) == compilation_result_spec(output@),
{
    if output.success {
        Ok(())
    } else {
        Err(Error::ResolverCompilation(lossy(output.stderr.as_slice())))
    }
}

/// What is to be done next to have the helper.
#[derive(Debug, Clone, PartialEq, Eq)]
pub enum HelperStep {
    /// Find out whether a file exists at `path`.
    CheckCache { path: String },
    /// Write [`RESOLVER_SOURCE_CODE`] to a scratch file, run `compiler` on it
    /// with [`compiler_arguments`] so that it writes `program_path`, and
    /// remove the scratch file whatever came of the run.
    Compile { compiler: String, program_path: String },
    /// The helper is at `program_path`.
    Ready { program_path: String },
    /// The helper cannot be had.
    Failed(Error),
}

/// A [`HelperStep`] with its paths and texts as sequences of characters.
pub enum HelperStepView {
    CheckCache { path: Seq<char> },
    Compile { compiler: Seq<char>, program_path: Seq<char> },
    Ready { program_path: Seq<char> },
    Failed(ErrorView),
}

impl View for HelperStep {
    type V = HelperStepView;

    open spec fn view(&self) -> HelperStepView {
        match self {
            HelperStep::CheckCache { path } => HelperStepView::CheckCache { path: path@ },
            HelperStep::Compile { compiler, program_path } => HelperStepView::Compile {
                compiler: compiler@,
                program_path: program_path@,
            },
            HelperStep::Ready { program_path } => HelperStepView::Ready {
                program_path: program_path@,
            },
            HelperStep::Failed(error) => HelperStepView::Failed(error@),
        }
    }
}

/// The builder's rule. Nothing is known at first, so the cache is looked
/// into. A file at the cache path is taken for the helper as it is. Where
/// there is none the compiler is asked for, and its run decides.
pub open spec fn helper_step(
    temp_dir: Seq<char>,
    interp: Seq<char>,
    cc_path: Seq<char>,
    cached: Option<bool>,
    compiled: Option<CommandOutputView>,
) -> HelperStepView {
    let path = program_path(temp_dir, interp, cc_path);
    match cached {
        None => HelperStepView::CheckCache { path },
        Some(true) => HelperStepView::Ready { program_path: path },
        Some(false) => match compiled {
            None => HelperStepView::Compile { compiler: cc_path, program_path: path },
            Some(output) => match compilation_result_spec(output) {
                Ok(()) => HelperStepView::Ready { program_path: path },
                Err(error) => HelperStepView::Failed(error),
            },
        },
    }
}

/// Decides what is to be done next to have the helper for `interp` and
/// `cc_path` under `temp_dir`.
///
/// `cached` says whether a file was found at the cache path, once that has
/// been looked for, and `compiled` is the compiler's run, once it has run.
pub fn ensure_helper(
    temp_dir: &str,
    interp: &str,
    cc_path: &str,
    cached: Option<bool>,
    compiled: Option<&CommandOutput>,
) -> (step: HelperStep)
    ensures
        step@ == helper_step(temp_dir@, interp@, cc_path@, cached, output_view(compiled)),
{
    let path = calc_program_path(temp_dir, interp, cc_path);
    match cached {
        None => HelperStep::CheckCache { path },
        Some(true) => HelperStep::Ready { program_path: path },
        Some(false) => match compiled {
            None => HelperStep::Compile { compiler: String::from_str(cc_path), program_path: path },
            Some(output) => match compilation_result(output) {
                Ok(()) => HelperStep::Ready { program_path: path },
                Err(error) => HelperStep::Failed(error),
            },
        },
    }
}

/// One whole call of the builder against the files that exist: the files
/// afterwards, whether the compiler was run, and the helper's path or the
/// error. A compiler run that succeeds leaves its output at the path it was
/// given.
pub struct BuildRun {
    pub files: Set<Seq<char>>,
    pub compiled: bool,
    pub result: Result<Seq<char>, ErrorView>,
}

/// The call of the builder that follows [`helper_step`] from its first
/// question to its end, with `compiler` for the compiler's run.
pub open spec fn build_run(
    files: Set<Seq<char>>,
    temp_dir: Seq<char>,
    interp: Seq<char>,
    cc_path: Seq<char>,
    compiler: CommandOutputView,
) -> BuildRun {
    let path = program_path(temp_dir, interp, cc_path);
    let cached = Some(files.contains(path));
    match helper_step(temp_dir, interp, cc_path, cached, None) {
        HelperStepView::Compile { .. } => match helper_step(
            temp_dir,
            interp,
            cc_path,
            cached,
            Some(compiler),
        ) {
            HelperStepView::Failed(error) => BuildRun { files, compiled: true, result: Err(error) },
            _ => BuildRun { files: files.insert(path), compiled: true, result: Ok(path) },
        },
        _ => BuildRun { files, compiled: false, result: Ok(path) },
    }
}

/// The cache is idempotent: after a call that gave the helper, a second call
/// for the same interpreter and compiler gives the same path, leaves the
/// files as they are and does not run the compiler, so that the two calls
/// together run it at most once.
pub proof fn lemma_cache_idempotence(
    files: Set<Seq<char>>,
    temp_dir: Seq<char>,
    interp: Seq<char>,
    cc_path: Seq<char>,
    first: CommandOutputView,
    second: CommandOutputView,
)
    requires
        build_run(files, temp_dir, interp, cc_path, first).result is Ok,
    ensures
        ({
            let once = build_run(files, temp_dir, interp, cc_path, first);
            let twice = build_run(once.files, temp_dir, interp, cc_path, second);
            &&& !twice.compiled
            &&& twice.result == once.result
            &&& twice.files == once.files
        }),
{
}

} // verus!
