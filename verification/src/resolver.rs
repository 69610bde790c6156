//! Turning a library name into a path, in the order in which the run-time
//! loader searches.
//!
//! The directories of the executable's RPATH come first, unless it has a
//! RUNPATH; then those of `LD_LIBRARY_PATH`; then those of its RUNPATH. The
//! first directory under which a file of that name exists wins. Where none
//! does, the loader itself is asked, through the helper program.
//!
//! Whether a file exists and what the helper prints are found out by the
//! caller. [`Resolver::lookup`] is told what has been found out so far and
//! answers with the next question, or with the outcome.

use crate::error::{Error, ErrorView};
use crate::helper::{ensure_helper, helper_step, HelperStep, HelperStepView};
use crate::process::{output_view, CommandOutput, CommandOutputView};
use crate::text::{join_path, joined, lossy, lossy_text, text_of, trim_text, trimmed};
use vstd::prelude::*;
use vstd::string::StringExecFns;
use vstd::utf8::{decode_utf8, valid_utf8};

verus! {

/// The directories that an executable has its libraries searched in, each
/// list in the order in which it is searched.
#[derive(Debug, Clone, PartialEq, Eq)]
pub struct SearchPaths {
    /// The directories of the RPATH.
    pub rpath: Vec<String>,
    /// The directories of the RUNPATH, where the executable has one.
    pub runpath: Option<Vec<String>>,
    /// The directories of `LD_LIBRARY_PATH`.
    pub ld_library_path: Vec<String>,
}

/// [`SearchPaths`] with its directories as sequences of characters.
pub struct SearchPathsView {
    pub rpath: Seq<Seq<char>>,
    pub runpath: Option<Seq<Seq<char>>>,
    pub ld_library_path: Seq<Seq<char>>,
}

impl View for SearchPaths {
    type V = SearchPathsView;

    open spec fn view(&self) -> SearchPathsView {
        SearchPathsView {
            rpath: self.rpath.deep_view(),
            runpath: match self.runpath {
                Some(dirs) => Some(dirs.deep_view()),
                None => None,
            },
            ld_library_path: self.ld_library_path.deep_view(),
        }
    }
}

/// The directories in the order in which they are searched. An executable
/// with a RUNPATH has its RPATH left out altogether.
pub open spec fn search_dirs(paths: SearchPathsView) -> Seq<Seq<char>> {
    match paths.runpath {
        Some(runpath) => paths.ld_library_path + runpath,
        None => paths.rpath + paths.ld_library_path,
    }
}

/// The outcome of asking the loader through the helper. A helper that failed
/// fails the lookup with what it wrote to its standard error. One that
/// succeeded gives the path that it printed, without the white space around
/// it, and an error where what it printed is not text.
pub open spec fn loader_result(output: CommandOutputView) -> Result<Seq<char>, ErrorView> {
    if !output.success {
        Err(ErrorView::SharedLibraryLookup(lossy_text(output.stderr)))
    } else if !valid_utf8(output.stdout) {
        Err(ErrorView::InvalidUtf8)
    } else {
        Ok(trimmed(decode_utf8(output.stdout)))
    }
}

/// The view of a lookup's result.
pub open spec fn path_result_view(result: Result<String, Error>) -> Result<Seq<char>, ErrorView> {
    match result {
        Ok(path) => Ok(path@),
        Err(error) => Err(error@),
    }
}

/// What is to be done next to resolve a name, or how the lookup ended.
#[derive(Debug, Clone, PartialEq, Eq)]
pub enum LookupStep {
    /// Find out whether a file exists at `path`.
    Probe { path: String },
    /// Run the helper at `program` with `name` as its only argument and with
    /// an empty environment.
    AskLoader { program: String, name: String },
    /// The name resolves to `path`.
    Found { path: String },
    /// The name does not resolve.
    Failed(Error),
}

/// A [`LookupStep`] with its paths and texts as sequences of characters.
pub enum LookupStepView {
    Probe { path: Seq<char> },
    AskLoader { program: Seq<char>, name: Seq<char> },
    Found { path: Seq<char> },
    Failed(ErrorView),
}

impl View for LookupStep {
    type V = LookupStepView;

    open spec fn view(&self) -> LookupStepView {
        match self {
            LookupStep::Probe { path } => LookupStepView::Probe { path: path@ },
            LookupStep::AskLoader { program, name } => LookupStepView::AskLoader {
                program: program@,
                name: name@,
            },
            LookupStep::Found { path } => LookupStepView::Found { path: path@ },
            LookupStep::Failed(error) => LookupStepView::Failed(error@),
        }
    }
}

/// The step that the search of `dirs` is at, where `present[i]` says whether
/// `name` was found under the directory `i`: the first directory that is not
/// yet answered for is probed, unless one before it has the name, which is
/// then found. `None` where every directory is answered for and none has it.
pub open spec fn search_step(dirs: Seq<Seq<char>>, name: Seq<char>, present: Seq<bool>) -> Option<
    LookupStepView,
>
    decreases dirs.len(),
{
    if dirs.len() == 0 {
        None
    } else if present.len() == 0 {
        Some(LookupStepView::Probe { path: joined(dirs[0], name) })
    } else if present[0] {
        Some(LookupStepView::Found { path: joined(dirs[0], name) })
    } else {
        search_step(dirs.drop_first(), name, present.drop_first())
    }
}

/// How a finished lookup is reported.
pub open spec fn finished(result: Result<Seq<char>, ErrorView>) -> LookupStepView {
    match result {
        Ok(path) => LookupStepView::Found { path },
        Err(error) => LookupStepView::Failed(error),
    }
}

/// Resolves library names for one executable.
#[derive(Debug)]
pub struct Resolver<'a> {
    program_path: String,
    search_paths: &'a SearchPaths,
}

/// A [`Resolver`] by what it holds: the helper's path and the directories.
pub struct ResolverView {
    pub program_path: Seq<char>,
    pub search_paths: SearchPathsView,
}

impl<'a> View for Resolver<'a> {
    type V = ResolverView;

    closed spec fn view(&self) -> ResolverView {
        ResolverView { program_path: self.program_path@, search_paths: self.search_paths@ }
    }
}

/// The step that a lookup of `name` is at. The search of the directories
/// comes first; the loader is asked only when every directory is answered
/// for and none has the name, and its answer ends the lookup.
pub open spec fn lookup_step(
    resolver: ResolverView,
    name: Seq<char>,
    present: Seq<bool>,
    loader: Option<CommandOutputView>,
) -> LookupStepView {
    match search_step(search_dirs(resolver.search_paths), name, present) {
        Some(step) => step,
        None => match loader {
            None => LookupStepView::AskLoader { program: resolver.program_path, name },
            Some(output) => finished(loader_result(output)),
        },
    }
}

/// What is to be done next to have a resolver, or the resolver.
#[derive(Debug)]
pub enum Setup<'a> {
    /// Find out whether a file exists at `path`.
    CheckCache { path: String },
    /// Compile the helper with `compiler` so that it is written to
    /// `program_path`.
    Compile { compiler: String, program_path: String },
    /// The helper is there, and with it the resolver.
    Ready(Resolver<'a>),
    /// The helper cannot be had.
    Failed(Error),
}

/// A [`Setup`] with its paths and texts as sequences of characters.
pub enum SetupView {
    CheckCache { path: Seq<char> },
    Compile { compiler: Seq<char>, program_path: Seq<char> },
    Ready(ResolverView),
    Failed(ErrorView),
}

impl<'a> View for Setup<'a> {
    type V = SetupView;

    open spec fn view(&self) -> SetupView {
        match self {
            Setup::CheckCache { path } => SetupView::CheckCache { path: path@ },
            Setup::Compile { compiler, program_path } => SetupView::Compile {
                compiler: compiler@,
                program_path: program_path@,
            },
            Setup::Ready(resolver) => SetupView::Ready(resolver@),
            Setup::Failed(error) => SetupView::Failed(error@),
        }
    }
}

/// The step that making a resolver is at: that of the helper's builder, with
/// the resolver in place of the helper's path once the helper is there.
pub open spec fn setup_step(step: HelperStepView, search_paths: SearchPathsView) -> SetupView {
    match step {
        HelperStepView::CheckCache { path } => SetupView::CheckCache { path },
        HelperStepView::Compile { compiler, program_path } => SetupView::Compile {
            compiler,
            program_path,
        },
        HelperStepView::Ready { program_path } => SetupView::Ready(
            ResolverView { program_path, search_paths },
        ),
        HelperStepView::Failed(error) => SetupView::Failed(error),
    }
}

/// Appends references to the directories of `from` to `dirs`, in order.
fn push_dirs<'a>(dirs: &mut Vec<&'a String>, from: &'a Vec<String>)
    ensures
        final(dirs).deep_view() == old(dirs).deep_view() + from.deep_view(),
{
    let ghost before = dirs.deep_view();
    let mut i: usize = 0;
    while i < from.len()
        invariant
            0 <= i <= from.len(),
            dirs.deep_view() == before + from.deep_view().take(i as int),
        decreases from.len() - i,
    {
        let ghost had = dirs.deep_view();
        let ghost had_len = dirs@.len();
        dirs.push(&from[i]);
        proof {
            let now = dirs.deep_view();
            let want = before + from.deep_view().take(i + 1);
            assert(had.len() == had_len);
            assert forall|k: int| 0 <= k < now.len() implies now[k] == want[k] by {
                if k < had_len {
                    assert(now[k] == had[k]);
                }
            }
        }
        i = i + 1;
    }
}

/// Lists the directories of `paths` in the order in which they are searched.
pub fn search_order<'a>(paths: &'a SearchPaths) -> (dirs: Vec<&'a String>)
    ensures
        dirs.deep_view() == search_dirs(paths@),
{
    let mut dirs: Vec<&'a String> = Vec::new();
    match &paths.runpath {
        Some(runpath) => {
            push_dirs(&mut dirs, &paths.ld_library_path);
            push_dirs(&mut dirs, runpath);
        },
        None => {
            push_dirs(&mut dirs, &paths.rpath);
            push_dirs(&mut dirs, &paths.ld_library_path);
            assert(dirs.deep_view() =~= paths.rpath.deep_view()
                + paths.ld_library_path.deep_view());
        },
    }
    dirs
}

impl<'a> Resolver<'a> {
    /// Decides what is to be done next to have a resolver for the executable
    /// whose interpreter is `interp` and whose directories are `search_paths`,
    /// with the helper compiled by `cc_path` and kept under `temp_dir`.
    ///
    /// `cached` says whether a file was found at the helper's cache path,
    /// once that has been looked for, and `compiled` is the compiler's run,
    /// once it has run.
    pub fn new(
        interp: &str,
        search_paths: &'a SearchPaths,
        cc_path: &str,
        temp_dir: &str,
        cached: Option<bool>,
        compiled: Option<&CommandOutput>,
    ) -> (setup: Setup<'a>)
        ensures
            setup@ == setup_step(
                helper_step(temp_dir@, interp@, cc_path@, cached, output_view(compiled)),
                search_paths@,
            ),
    {
        match ensure_helper(temp_dir, interp, cc_path, cached, compiled) {
            HelperStep::CheckCache { path } => Setup::CheckCache { path },
            HelperStep::Compile { compiler, program_path } => Setup::Compile {
                compiler,
                program_path,
            },
            HelperStep::Ready { program_path } => Setup::Ready(
                Resolver { program_path, search_paths },
            ),
            HelperStep::Failed(error) => Setup::Failed(error),
        }
    }

    /// The path of the helper program.
    pub fn program_path(&self) -> (path: &str)
        ensures
            path@ == self@.program_path,
    {
        self.program_path.as_str()
    }

    /// The directories that are searched.
    pub fn search_paths(&self) -> (paths: &'a SearchPaths)
        ensures
            paths@ == self@.search_paths,
    {
        self.search_paths
    }

    /// Reads the loader's answer off a finished run of the helper.
    pub fn lookup_rest(output: &CommandOutput) -> (result: Result<String, Error>)
        ensures
            path_result_view(result) == loader_result(output@),
            output.success && output.stdout@.len() == 0 ==> (result matches Ok(path) && path@.len()
                == 0),
    {
        if !output.success {
            return Err(Error::SharedLibraryLookup(lossy(output.stderr.as_slice())));
        }
        match text_of(output.stdout.as_slice()) {
            None => Err(Error::InvalidUtf8),
            Some(text) => Ok(trim_text(text.as_str())),
        }
    }

    /// Decides what is to be done next to resolve `name`, or how the lookup
    /// ends.
    ///
    /// `present[i]` says whether a file was found for the directory `i` of
    /// the search order, for as many directories as have been probed, and
    /// `loader` is the helper's run, once it has run. Answers that were not
    /// asked for are not looked at.
    pub fn lookup(&self, name: &str, present: &[bool], loader: Option<&CommandOutput>) -> (step:
        LookupStep)
        ensures
            step@ == lookup_step(self@, name@, present@, output_view(loader)),
    {
        let dirs = search_order(self.search_paths);
        let ghost all = search_dirs(self@.search_paths);
        let mut i: usize = 0;
        proof {
            assert(all.skip(0) =~= all);
            assert(present@.skip(0) =~= present@);
        }
        while i < dirs.len()
            invariant
                0 <= i <= dirs.len(),
                i <= present.len(),
                dirs.deep_view() == all,
                all == search_dirs(self@.search_paths),
                search_step(all, name@, present@) == search_step(
                    all.skip(i as int),
                    name@,
                    present@.skip(i as int),
                ),
            decreases dirs.len() - i,
        {
            proof {
                assert(all.skip(i as int).drop_first() =~= all.skip(i + 1));
            }
            if i >= present.len() {
                return LookupStep::Probe { path: join_path(dirs[i].as_str(), name) };
            }
            proof {
                assert(present@.skip(i as int).drop_first() =~= present@.skip(i + 1));
            }
            if present[i] {
                return LookupStep::Found { path: join_path(dirs[i].as_str(), name) };
            }
            i = i + 1;
        }
        match loader {
            None => LookupStep::AskLoader {
                program: self.program_path.clone(),
                name: String::from_str(name),
            },
            Some(output) => match Self::lookup_rest(output) {
                Ok(path) => LookupStep::Found { path },
                Err(error) => LookupStep::Failed(error),
            },
        }
    }
}

/// The first path in the search of `dirs` at which a file of the name exists,
/// where `on_disk` says of every path whether a file is there.
pub open spec fn first_existing(
    dirs: Seq<Seq<char>>,
    name: Seq<char>,
    on_disk: spec_fn(Seq<char>) -> bool,
) -> Option<Seq<char>>
    decreases dirs.len(),
{
    if dirs.len() == 0 {
        None
    } else if on_disk(joined(dirs[0], name)) {
        Some(joined(dirs[0], name))
    } else {
        first_existing(dirs.drop_first(), name, on_disk)
    }
}

/// What `name` resolves to for an executable with the directories `paths`,
/// in a world where `on_disk` says which files are there and `loader` is what
/// the helper does when it is asked for the name.
pub open spec fn resolve(
    paths: SearchPathsView,
    name: Seq<char>,
    on_disk: spec_fn(Seq<char>) -> bool,
    loader: CommandOutputView,
) -> Result<Seq<char>, ErrorView> {
    match first_existing(search_dirs(paths), name, on_disk) {
        Some(path) => Ok(path),
        None => loader_result(loader),
    }
}

/// The answers that the world gives to the first `count` probes of a search.
pub open spec fn answers(
    dirs: Seq<Seq<char>>,
    name: Seq<char>,
    on_disk: spec_fn(Seq<char>) -> bool,
    count: int,
) -> Seq<bool> {
    Seq::new(count as nat, |i: int| on_disk(joined(dirs[i], name)))
}

/// A search that is answered truthfully probes the directories in their
/// order, one after the other, and stops at the first that has the name.
pub proof fn lemma_search_follows_world(
    dirs: Seq<Seq<char>>,
    name: Seq<char>,
    on_disk: spec_fn(Seq<char>) -> bool,
    count: int,
)
    requires
        0 <= count <= dirs.len(),
    ensures
        match search_step(dirs, name, answers(dirs, name, on_disk, count)) {
            Some(LookupStepView::Found { path }) => first_existing(dirs, name, on_disk) == Some(
                path,
            ),
            Some(LookupStepView::Probe { path }) => count < dirs.len() && path == joined(
                dirs[count],
                name,
            ) && first_existing(dirs, name, on_disk) == first_existing(
                dirs.skip(count),
                name,
                on_disk,
            ),
            Some(_) => false,
            None => count == dirs.len() && first_existing(dirs, name, on_disk) is None,
        },
    decreases dirs.len(),
{
    let given = answers(dirs, name, on_disk, count);
    if dirs.len() == 0 {
    } else if count == 0 {
        assert(dirs.skip(0) =~= dirs);
    } else if given[0] {
    } else {
        let rest = dirs.drop_first();
        lemma_search_follows_world(rest, name, on_disk, count - 1);
        assert(given.drop_first() =~= answers(rest, name, on_disk, count - 1));
        if count < dirs.len() {
            assert(rest.skip(count - 1) =~= dirs.skip(count));
        }
    }
}

/// A lookup that is answered truthfully ends in what the name resolves to:
/// while directories are left to probe it asks for the next or has found the
/// name, it asks the loader only when no directory has the name, and the
/// loader's answer then ends it.
pub proof fn lemma_lookup_follows_world(
    resolver: ResolverView,
    name: Seq<char>,
    on_disk: spec_fn(Seq<char>) -> bool,
    loader: CommandOutputView,
    count: int,
)
    requires
        0 <= count <= search_dirs(resolver.search_paths).len(),
    ensures
        ({
            let dirs = search_dirs(resolver.search_paths);
            let given = answers(dirs, name, on_disk, count);
            let outcome = resolve(resolver.search_paths, name, on_disk, loader);
            &&& match lookup_step(resolver, name, given, None) {
                LookupStepView::Found { path } => outcome == Ok::<Seq<char>, ErrorView>(path),
                LookupStepView::Probe { path } => count < dirs.len() && path == joined(
                    dirs[count],
                    name,
                ),
                LookupStepView::AskLoader { program, name: asked } => count == dirs.len()
                    && program == resolver.program_path && asked == name && outcome
                    == loader_result(loader),
                LookupStepView::Failed(_) => false,
            }
            &&& count == dirs.len() ==> lookup_step(resolver, name, given, Some(loader))
                == finished(outcome)
        }),
{
    lemma_search_follows_world(search_dirs(resolver.search_paths), name, on_disk, count);
}

/// RUNPATH suppresses RPATH: for an executable with a RUNPATH, no directory
/// of its RPATH is searched, so a name resolves as it would with any other
/// RPATH, or with none.
pub proof fn lemma_runpath_suppresses_rpath(
    paths: SearchPathsView,
    other_rpath: Seq<Seq<char>>,
    name: Seq<char>,
    on_disk: spec_fn(Seq<char>) -> bool,
    loader: CommandOutputView,
)
    requires
        paths.runpath is Some,
    ensures
        ({
            let other = SearchPathsView { rpath: other_rpath, ..paths };
            &&& search_dirs(paths) == paths.ld_library_path + paths.runpath->0
            &&& search_dirs(other) == search_dirs(paths)
            &&& resolve(other, name, on_disk, loader) == resolve(paths, name, on_disk, loader)
        }),
{
}

/// The search finds the name under the first directory that has it.
pub proof fn lemma_first_existing(
    dirs: Seq<Seq<char>>,
    name: Seq<char>,
    on_disk: spec_fn(Seq<char>) -> bool,
    at: int,
)
    requires
        0 <= at < dirs.len(),
        on_disk(joined(dirs[at], name)),
        forall|i: int| 0 <= i < at ==> !on_disk(joined(#[trigger] dirs[i], name)),
    ensures
        first_existing(dirs, name, on_disk) == Some(joined(dirs[at], name)),
    decreases dirs.len(),
{
    if at > 0 {
        let rest = dirs.drop_first();
        assert forall|i: int| 0 <= i < at - 1 implies !on_disk(
            joined(#[trigger] rest[i], name),
        ) by {
            assert(rest[i] == dirs[i + 1]);
        }
        lemma_first_existing(rest, name, on_disk, at - 1);
    }
}

/// The search finds nothing exactly where no directory has the name.
pub proof fn lemma_none_existing(
    dirs: Seq<Seq<char>>,
    name: Seq<char>,
    on_disk: spec_fn(Seq<char>) -> bool,
)
    ensures
        first_existing(dirs, name, on_disk) is None <==> forall|i: int|
            0 <= i < dirs.len() ==> !on_disk(joined(#[trigger] dirs[i], name)),
    decreases dirs.len(),
{
    if dirs.len() > 0 {
        let rest = dirs.drop_first();
        lemma_none_existing(rest, name, on_disk);
        if on_disk(joined(dirs[0], name)) {
        } else if first_existing(rest, name, on_disk) is None {
            assert forall|i: int| 0 <= i < dirs.len() implies !on_disk(
                joined(#[trigger] dirs[i], name),
            ) by {
                if i > 0 {
                    assert(dirs[i] == rest[i - 1]);
                }
            }
        } else {
            let k = choose|k: int| 0 <= k < rest.len() && on_disk(joined(#[trigger] rest[k], name));
            assert(dirs[k + 1] == rest[k]);
        }
    }
}

/// The environment wins over RUNPATH: for an executable with a RUNPATH, a
/// name that is under a directory of `LD_LIBRARY_PATH` resolves to the first
/// such directory, whatever the directories of the RUNPATH hold.
pub proof fn lemma_environment_wins(
    paths: SearchPathsView,
    name: Seq<char>,
    on_disk: spec_fn(Seq<char>) -> bool,
    loader: CommandOutputView,
    at: int,
)
    requires
        paths.runpath is Some,
        0 <= at < paths.ld_library_path.len(),
        on_disk(joined(paths.ld_library_path[at], name)),
        forall|i: int| 0 <= i < at ==> !on_disk(joined(#[trigger] paths.ld_library_path[i], name)),
    ensures
        resolve(paths, name, on_disk, loader) == Ok::<Seq<char>, ErrorView>(
            joined(paths.ld_library_path[at], name),
        ),
{
    let dirs = search_dirs(paths);
    assert forall|i: int| 0 <= i < at implies !on_disk(joined(#[trigger] dirs[i], name)) by {
        assert(dirs[i] == paths.ld_library_path[i]);
    }
    lemma_first_existing(dirs, name, on_disk, at);
}

/// The fallback: a name that is under none of the searched directories
/// resolves to what the loader says. The lookup then succeeds exactly where
/// the helper succeeded and printed text, and the path is that text without
/// the white space around it.
pub proof fn lemma_fallback(
    paths: SearchPathsView,
    name: Seq<char>,
    on_disk: spec_fn(Seq<char>) -> bool,
    loader: CommandOutputView,
)
    requires
        forall|i: int|
            0 <= i < search_dirs(paths).len() ==> !on_disk(
                joined(#[trigger] search_dirs(paths)[i], name),
            ),
    ensures
        resolve(paths, name, on_disk, loader) == loader_result(loader),
        resolve(paths, name, on_disk, loader) is Ok <==> loader.success && valid_utf8(loader.stdout),
        resolve(paths, name, on_disk, loader) matches Ok(path) ==> path == trimmed(
            decode_utf8(loader.stdout),
        ),
        !loader.success ==> resolve(paths, name, on_disk, loader) == Err::<Seq<char>, ErrorView>(
            ErrorView::SharedLibraryLookup(lossy_text(loader.stderr)),
        ),
{
    lemma_none_existing(search_dirs(paths), name, on_disk);
}

} // verus!
