//! Fetching the packages that come from a repository.
//!
//! A package is cloned into the build directory unless it is there already,
//! and then checked out at the revision that the manifest names, unless the
//! repository is detached at that revision already. The revision is fetched
//! first where the local copy does not know it.

use crate::error::Error;
use crate::manifest::{ManifestPackage, ManifestPackageSource};
use vstd::prelude::*;
use vstd::string::*;

verus! {

/// Where the output of a command goes.
#[derive(Debug, Clone, Copy, PartialEq, Eq, Structural)]
pub enum Stdio {
    Inherit,
    Null,
}

/// Reads the file system.
pub trait FileSystemReader {
    /// Whether there is a directory at `path`.
    fn is_directory(&self, path: &str) -> bool;
}

/// Runs programs.
pub trait CommandExecutor {
    /// Runs `program` with `args` in the directory `cwd` and hands back its
    /// exit status, or the reason why it could not be run.
    fn exec(
        &self,
        program: &str,
        args: &Vec<String>,
        env: &Vec<(String, String)>,
        cwd: Option<&str>,
        stdio: Stdio,
    ) -> Result<i32, Error>;
}

/// The directories of a project.
#[derive(Debug, Clone, PartialEq, Eq)]
pub struct ProjectPaths {
    pub root: String,
}

/// The directory of the package `name` below the project `root`.
pub open spec fn package_directory(root: Seq<char>, name: Seq<char>) -> Seq<char> {
    root + "/build/packages/"@ + name
}

impl ProjectPaths {
    /// The directory that holds the source of the package `name`.
    pub fn build_packages_package(&self, name: &str) -> (path: String)
        ensures
            path@ == package_directory(self.root@, name@),
    {
        let mut path = self.root.clone();
        path.append("/build/packages/");
        path.append(name);
        path
    }
}

/// The arguments that make git clone `url` into `repository_path`.
pub open spec fn clone_arguments_of(url: Seq<char>, repository_path: Seq<char>) -> Seq<Seq<char>> {
    seq!["clone"@, "--"@, url, repository_path]
}

/// The arguments that make git tell whether it knows the commit `commit`.
pub open spec fn lookup_arguments_of(commit: Seq<char>) -> Seq<Seq<char>> {
    seq!["cat-file"@, "commit"@, "--"@, commit]
}

/// The arguments that make git fetch from the origin.
pub open spec fn fetch_arguments_of() -> Seq<Seq<char>> {
    seq!["fetch"@]
}

/// The arguments that make git check out the commit `commit`, detached.
pub open spec fn checkout_arguments_of(commit: Seq<char>) -> Seq<Seq<char>> {
    seq!["checkout"@, "--detach"@, "--"@, commit]
}

/// The texts of `arguments`.
pub open spec fn argument_texts(arguments: Seq<String>) -> Seq<Seq<char>> {
    arguments.map_values(|argument: String| argument@)
}

/// The arguments for git to clone `url` into `repository_path`.
pub fn clone_arguments(url: &str, repository_path: &str) -> (arguments: Vec<String>)
    ensures
        argument_texts(arguments@) == clone_arguments_of(url@, repository_path@),
{
    let mut arguments: Vec<String> = Vec::new();
    arguments.push(String::from_str("clone"));
    arguments.push(String::from_str("--"));
    arguments.push(String::from_str(url));
    arguments.push(String::from_str(repository_path));
    assert(argument_texts(arguments@) =~= clone_arguments_of(url@, repository_path@));
    arguments
}

/// The arguments for git to tell whether it knows `commit`.
pub fn lookup_arguments(commit: &str) -> (arguments: Vec<String>)
    ensures
        argument_texts(arguments@) == lookup_arguments_of(commit@),
{
    let mut arguments: Vec<String> = Vec::new();
    arguments.push(String::from_str("cat-file"));
    arguments.push(String::from_str("commit"));
    arguments.push(String::from_str("--"));
    arguments.push(String::from_str(commit));
    assert(argument_texts(arguments@) =~= lookup_arguments_of(commit@));
    arguments
}

/// The arguments for git to fetch from the origin.
pub fn fetch_arguments() -> (arguments: Vec<String>)
    ensures
        argument_texts(arguments@) == fetch_arguments_of(),
{
    let mut arguments: Vec<String> = Vec::new();
    arguments.push(String::from_str("fetch"));
    assert(argument_texts(arguments@) =~= fetch_arguments_of());
    arguments
}

/// The arguments for git to check out `commit`, detached.
pub fn checkout_arguments(commit: &str) -> (arguments: Vec<String>)
    ensures
        argument_texts(arguments@) == checkout_arguments_of(commit@),
{
    let mut arguments: Vec<String> = Vec::new();
    arguments.push(String::from_str("checkout"));
    arguments.push(String::from_str("--detach"));
    arguments.push(String::from_str("--"));
    arguments.push(String::from_str(commit));
    assert(argument_texts(arguments@) =~= checkout_arguments_of(commit@));
    arguments
}

/// The arguments that make git tell whether `HEAD` names a branch: it ends
/// with the status 1 where `HEAD` is detached.
pub open spec fn detached_arguments_of() -> Seq<Seq<char>> {
    seq!["symbolic-ref"@, "--quiet"@, "HEAD"@]
}

/// The arguments that make git tell whether the commit `ancestor` is
/// `descendant` or one of the commits that it descends from.
pub open spec fn ancestor_arguments_of(ancestor: Seq<char>, descendant: Seq<char>) -> Seq<
    Seq<char>,
> {
    seq!["merge-base"@, "--is-ancestor"@, "--"@, ancestor, descendant]
}

/// The arguments for git to tell whether `HEAD` names a branch.
pub fn detached_arguments() -> (arguments: Vec<String>)
    ensures
        argument_texts(arguments@) == detached_arguments_of(),
{
    let mut arguments: Vec<String> = Vec::new();
    arguments.push(String::from_str("symbolic-ref"));
    arguments.push(String::from_str("--quiet"));
    arguments.push(String::from_str("HEAD"));
    assert(argument_texts(arguments@) =~= detached_arguments_of());
    arguments
}

/// The arguments for git to tell whether `ancestor` is `descendant` or a
/// commit that it descends from.
pub fn ancestor_arguments(ancestor: &str, descendant: &str) -> (arguments: Vec<String>)
    ensures
        argument_texts(arguments@) == ancestor_arguments_of(ancestor@, descendant@),
{
    let mut arguments: Vec<String> = Vec::new();
    arguments.push(String::from_str("merge-base"));
    arguments.push(String::from_str("--is-ancestor"));
    arguments.push(String::from_str("--"));
    arguments.push(String::from_str(ancestor));
    arguments.push(String::from_str(descendant));
    assert(argument_texts(arguments@) =~= ancestor_arguments_of(ancestor@, descendant@));
    arguments
}

/// A run of a program: what is run, with which arguments and environment,
/// in which directory, and where its output goes.
#[derive(Debug, Clone, PartialEq, Eq)]
pub struct Command {
    pub program: String,
    pub args: Vec<String>,
    pub env: Vec<(String, String)>,
    pub cwd: Option<String>,
    pub stdio: Stdio,
}

/// `command` runs git with the arguments `arguments` in the directory `cwd`,
/// with no variable set and its output thrown away.
pub open spec fn is_git_command(
    command: Command,
    arguments: Seq<Seq<char>>,
    cwd: Option<Seq<char>>,
) -> bool {
    &&& command.program@ == "git"@
    &&& argument_texts(command.args@) == arguments
    &&& command.env@.len() == 0
    &&& match cwd {
        Some(directory) => command.cwd matches Some(given) && given@ == directory,
        None => command.cwd is None,
    }
    &&& command.stdio == Stdio::Null
}

/// The run of git with `arguments` in the directory `cwd`.
pub fn git_command(arguments: Vec<String>, cwd: Option<&str>) -> (command: Command)
    ensures
        is_git_command(
            command,
            argument_texts(arguments@),
            match cwd {
                Some(directory) => Some(directory@),
                None => None,
            },
        ),
{
    Command {
        program: String::from_str("git"),
        args: arguments,
        env: Vec::new(),
        cwd: match cwd {
            Some(directory) => Some(String::from_str(directory)),
            None => None,
        },
        stdio: Stdio::Null,
    }
}

/// The run that clones `url` into `repository_path`.
pub fn clone_command(url: &str, repository_path: &str) -> (command: Command)
    ensures
        is_git_command(command, clone_arguments_of(url@, repository_path@), None),
{
    git_command(clone_arguments(url, repository_path), None)
}

/// The run that tells whether the repository at `repository_path` knows
/// `commit`.
pub fn lookup_command(commit: &str, repository_path: &str) -> (command: Command)
    ensures
        is_git_command(command, lookup_arguments_of(commit@), Some(repository_path@)),
{
    git_command(lookup_arguments(commit), Some(repository_path))
}

/// The run that fetches from the origin of the repository at
/// `repository_path`.
pub fn fetch_command(repository_path: &str) -> (command: Command)
    ensures
        is_git_command(command, fetch_arguments_of(), Some(repository_path@)),
{
    git_command(fetch_arguments(), Some(repository_path))
}

/// The run that checks `commit` out in the repository at `repository_path`.
pub fn checkout_command(commit: &str, repository_path: &str) -> (command: Command)
    ensures
        is_git_command(command, checkout_arguments_of(commit@), Some(repository_path@)),
{
    git_command(checkout_arguments(commit), Some(repository_path))
}

/// The run that tells whether `HEAD` of the repository at `repository_path`
/// is detached.
pub fn detached_command(repository_path: &str) -> (command: Command)
    ensures
        is_git_command(command, detached_arguments_of(), Some(repository_path@)),
{
    git_command(detached_arguments(), Some(repository_path))
}

/// The run that tells whether `ancestor` is `descendant` or a commit that
/// it descends from, in the repository at `repository_path`.
pub fn ancestor_command(ancestor: &str, descendant: &str, repository_path: &str) -> (command:
    Command)
    ensures
        is_git_command(
            command,
            ancestor_arguments_of(ancestor@, descendant@),
            Some(repository_path@),
        ),
{
    git_command(ancestor_arguments(ancestor, descendant), Some(repository_path))
}

/// Whether the local copy knows the commit: git could be run and said so.
pub open spec fn knows_commit(lookup: Result<i32, Error>) -> bool {
    lookup matches Ok(status) && status == 0
}

/// Whether the local copy knows the commit, given what the lookup gave.
pub fn commit_is_known(lookup: &Result<i32, Error>) -> (known: bool)
    ensures
        known == knows_commit(*lookup),
{
    match lookup {
        Ok(status) => *status == 0,
        Err(_) => false,
    }
}

/// `HEAD` is detached: git could be run and ended with the status 1.
pub open spec fn tells_detached(asked: Result<i32, Error>) -> bool {
    asked matches Ok(status) && status == 1
}

/// Whether `HEAD` is detached, given what git gave when asked for the
/// branch that `HEAD` names.
pub fn head_is_detached(asked: &Result<i32, Error>) -> (detached: bool)
    ensures
        detached == tells_detached(*asked),
{
    match asked {
        Ok(status) => *status == 1,
        Err(_) => false,
    }
}

/// The repository is detached at the commit already: `HEAD` is detached,
/// the commit is `HEAD` or one of its ancestors, and `HEAD` is the commit
/// or one of its ancestors.
pub open spec fn at_revision(
    detached: Result<i32, Error>,
    reaches_head: Result<i32, Error>,
    reached_by_head: Result<i32, Error>,
) -> bool {
    tells_detached(detached) && knows_commit(reaches_head) && knows_commit(reached_by_head)
}

/// What a run of git that changes the repository gives: it changed
/// something, or it failed.
pub open spec fn change_outcome(ran: Result<i32, Error>) -> Result<bool, Error> {
    match ran {
        Ok(_) => Ok(true),
        Err(error) => Err(error),
    }
}

/// What a run of git that changes the repository gives.
pub fn change_result(ran: Result<i32, Error>) -> (result: Result<bool, Error>)
    ensures
        result == change_outcome(ran),
{
    match ran {
        Ok(_) => Ok(true),
        Err(error) => Err(error),
    }
}

/// What making sure of the clone gives: nothing was done where the directory
/// was there, and nothing where no clone was run; else the repository was
/// cloned, or cloning failed.
pub open spec fn clone_outcome(present: bool, cloned: Option<Result<i32, Error>>) -> Result<
    bool,
    Error,
> {
    if present {
        Ok(false)
    } else {
        match cloned {
            Some(ran) => change_outcome(ran),
            None => Ok(false),
        }
    }
}

/// What making sure of the clone gives, given whether the directory of the
/// package was there and what the clone gave, if one was run.
pub fn clone_result(present: bool, cloned: Option<Result<i32, Error>>) -> (result: Result<
    bool,
    Error,
>)
    ensures
        result == clone_outcome(present, cloned),
{
    if present {
        Ok(false)
    } else {
        match cloned {
            Some(ran) => change_result(ran),
            None => Ok(false),
        }
    }
}

/// What a fetch gives for the run: its failure ends the run and is the
/// result; else the run goes on.
pub open spec fn fetch_outcome(fetched: Result<i32, Error>) -> Result<(), Error> {
    match fetched {
        Ok(_) => Ok(()),
        Err(error) => Err(error),
    }
}

/// Whether the run goes on after the fetch, or ends with its failure.
pub fn fetch_result(fetched: Result<i32, Error>) -> (result: Result<(), Error>)
    ensures
        result == fetch_outcome(fetched),
{
    match fetched {
        Ok(_) => Ok(()),
        Err(error) => Err(error),
    }
}

/// What the checkout gives. Where the repository knows the commit and is
/// detached at it already, nothing is done and nothing changed. Where it
/// does not know the commit, the commit is fetched, and a failed fetch is
/// the result. In every other case the commit is checked out, which changes
/// the repository or fails.
pub open spec fn checkout_outcome(
    lookup: Result<i32, Error>,
    already_there: bool,
    fetched: Result<i32, Error>,
    checked_out: Result<i32, Error>,
) -> Result<bool, Error> {
    if knows_commit(lookup) {
        if already_there {
            Ok(false)
        } else {
            change_outcome(checked_out)
        }
    } else if fetched is Err {
        Err(fetched->Err_0)
    } else {
        change_outcome(checked_out)
    }
}

/// What is still to be done for a checkout.
#[derive(Debug, PartialEq, Eq)]
pub enum CheckoutStep {
    /// Ask whether the repository is at the commit already.
    Compare,
    /// Fetch from the origin.
    Fetch,
    /// Check the commit out.
    CheckOut,
    /// Nothing: this is the result.
    Done(Result<bool, Error>),
}

/// What follows the lookup: where the commit is known, the comparison of
/// `HEAD` with it; else the fetch.
pub fn step_after_lookup(lookup: &Result<i32, Error>) -> (step: CheckoutStep)
    ensures
        step == if knows_commit(*lookup) {
            CheckoutStep::Compare
        } else {
            CheckoutStep::Fetch
        },
{
    if commit_is_known(lookup) {
        CheckoutStep::Compare
    } else {
        CheckoutStep::Fetch
    }
}

/// What follows the comparison: nothing where the repository is at the
/// commit already, which changed nothing; else the checkout.
pub fn step_after_comparison(already_there: bool) -> (step: CheckoutStep)
    ensures
        step == if already_there {
            CheckoutStep::Done(Ok(false))
        } else {
            CheckoutStep::CheckOut
        },
{
    if already_there {
        CheckoutStep::Done(Ok(false))
    } else {
        CheckoutStep::CheckOut
    }
}

/// What follows the fetch: its failure is the result; else the checkout.
pub fn step_after_fetch(fetched: Result<i32, Error>) -> (step: CheckoutStep)
    ensures
        step == match fetched {
            Ok(_) => CheckoutStep::CheckOut,
            Err(error) => CheckoutStep::Done(Err(error)),
        },
{
    match fetch_result(fetched) {
        Ok(_) => CheckoutStep::CheckOut,
        Err(error) => CheckoutStep::Done(Err(error)),
    }
}

/// What making sure of a package gives: the failure of the clone or of the
/// checkout, else whether either of them changed anything.
pub open spec fn package_outcome(
    cloned: Result<bool, Error>,
    checked_out: Option<Result<bool, Error>>,
) -> Result<bool, Error> {
    match cloned {
        Err(error) => Err(error),
        Ok(cloned) => match checked_out {
            None => Ok(cloned),
            Some(Err(error)) => Err(error),
            Some(Ok(checked_out)) => Ok(cloned || checked_out),
        },
    }
}

/// What making sure of a package gives, given what the clone and the
/// checkout gave.
pub fn package_result(cloned: Result<bool, Error>, checked_out: Option<Result<bool, Error>>) -> (result:
    Result<bool, Error>)
    ensures
        result == package_outcome(cloned, checked_out),
{
    match cloned {
        Err(error) => Err(error),
        Ok(cloned) => match checked_out {
            None => Ok(cloned),
            Some(Err(error)) => Err(error),
            Some(Ok(checked_out)) => Ok(cloned || checked_out),
        },
    }
}

/// The index of the first failure from `from` on, or the number of results.
pub open spec fn first_failure_index(results: Seq<Result<bool, Error>>, from: int) -> int
    decreases results.len() - from,
{
    if from < 0 || from >= results.len() {
        results.len() as int
    } else if results[from] is Err {
        from
    } else {
        first_failure_index(results, from + 1)
    }
}

/// The first failure among `results`, if there is one.
pub open spec fn first_failure_of(results: Seq<Result<bool, Error>>) -> Result<(), Error> {
    let index = first_failure_index(results, 0);
    if 0 <= index < results.len() {
        Err(results[index]->Err_0)
    } else {
        Ok(())
    }
}

/// The first failure among the results of the packages, if there is one.
pub fn first_failure(results: Vec<Result<bool, Error>>) -> (result: Result<(), Error>)
    ensures
        result == first_failure_of(results@),
{
    let ghost all = results@;
    let mut results = results;
    let mut at: usize = 0;
    while at < results.len() && results[at].is_ok()
        invariant
            at <= results@.len(),
            results@ == all,
            first_failure_index(all, at as int) == first_failure_index(all, 0),
        decreases results@.len() - at,
    {
        at += 1;
    }
    if at < results.len() {
        let failed = results.swap_remove(at);
        match failed {
            Err(error) => Err(error),
            Ok(_) => Ok(()),
        }
    } else {
        Ok(())
    }
}

/// A package that git fetches: its name, its repository and the commit.
#[derive(Debug, Clone, PartialEq, Eq)]
pub struct GitPackage {
    pub name: String,
    pub repo: String,
    pub commit: String,
}

/// The package is fetched by git: it is not the project itself.
pub open spec fn is_fetched(package: ManifestPackage, project_name: Seq<char>) -> bool {
    package.name@ != project_name
}

/// The package as git fetches it.
pub open spec fn fetches(fetched: GitPackage, package: ManifestPackage) -> bool {
    &&& fetched.name@ == package.name@
    &&& package.source matches ManifestPackageSource::Git { repo, commit }
    &&& fetched.repo@ == repo@
    &&& fetched.commit@ == commit@
}

/// The first `upto` packages that are fetched.
pub open spec fn fetched_upto(
    packages: Seq<ManifestPackage>,
    project_name: Seq<char>,
    upto: int,
) -> Seq<ManifestPackage>
    decreases upto,
{
    if upto <= 0 || upto > packages.len() {
        Seq::empty()
    } else if is_fetched(packages[upto - 1], project_name) {
        fetched_upto(packages, project_name, upto - 1).push(packages[upto - 1])
    } else {
        fetched_upto(packages, project_name, upto - 1)
    }
}

/// Every package but the project itself comes from a repository.
pub open spec fn all_from_git(packages: Seq<ManifestPackage>, project_name: Seq<char>) -> bool {
    forall|k: int|
        0 <= k < packages.len() && is_fetched(#[trigger] packages[k], project_name)
            ==> packages[k].source is Git
}

/// The packages that git fetches: all but the project itself, in their
/// order.
pub fn packages_to_fetch(packages: &Vec<ManifestPackage>, project_name: &str) -> (chosen: Vec<
    GitPackage,
>)
    requires
        all_from_git(packages@, project_name@),
    ensures
        chosen@.len() == fetched_upto(packages@, project_name@, packages@.len() as int).len(),
        forall|k: int|
            0 <= k < chosen@.len() ==> fetches(
                #[trigger] chosen@[k],
                fetched_upto(packages@, project_name@, packages@.len() as int)[k],
            ),
{
    let project = String::from_str(project_name);
    let mut chosen: Vec<GitPackage> = Vec::new();
    let mut at: usize = 0;
    while at < packages.len()
        invariant
            at <= packages@.len(),
            project@ == project_name@,
            all_from_git(packages@, project_name@),
            chosen@.len() == fetched_upto(packages@, project_name@, at as int).len(),
            forall|k: int|
                0 <= k < chosen@.len() ==> fetches(
                    #[trigger] chosen@[k],
                    fetched_upto(packages@, project_name@, at as int)[k],
                ),
        decreases packages@.len() - at,
    {
        let package = &packages[at];
        if package.name != project {
            if let ManifestPackageSource::Git { repo, commit } = &package.source {
                chosen.push(
                    GitPackage {
                        name: package.name.clone(),
                        repo: repo.clone(),
                        commit: commit.clone(),
                    },
                );
            }
        }
        at += 1;
    }
    chosen
}

/// Fetches packages with git, through the file system and the programs that
/// it is given.
#[derive(Debug)]
pub struct Downloader<R: FileSystemReader, E: CommandExecutor> {
    fs_reader: R,
    executor: E,
    paths: ProjectPaths,
}

impl<R: FileSystemReader, E: CommandExecutor> Downloader<R, E> {
    /// The directories that the packages are fetched into.
    pub closed spec fn paths(&self) -> ProjectPaths {
        self.paths
    }

    /// A downloader that reads the file system with `fs_reader` and runs
    /// git with `executor`.
    pub fn new(fs_reader: R, executor: E, paths: ProjectPaths) -> (downloader: Self)
        ensures
            downloader.paths() == paths,
    {
        Downloader { fs_reader, executor, paths }
    }

    /// Runs `command` and hands back what the executor gave.
    fn run(&self, command: &Command) -> Result<i32, Error> {
        self.executor.exec(
            command.program.as_str(),
            &command.args,
            &command.env,
            match &command.cwd {
                Some(directory) => Some(directory.as_str()),
                None => None,
            },
            command.stdio,
        )
    }

    /// Clones the repository of the package unless its directory is there.
    /// Tells whether it cloned. The result is what `clone_result` makes of
    /// what the file system and git gave; git is run only where the
    /// directory is not there.
    pub fn ensure_package_repository_cloned(&self, name: &str, url: &str) -> (result: Result<
        bool,
        Error,
    >)
        ensures
            exists|present: bool, cloned: Option<Result<i32, Error>>| #[trigger]
                clone_outcome(present, cloned) == result && (present <==> cloned is None),
    {
        let repository_path = self.paths.build_packages_package(name);
        let present = self.fs_reader.is_directory(repository_path.as_str());
        let cloned = if present {
            None
        } else {
            Some(self.run(&clone_command(url, repository_path.as_str())))
        };
        clone_result(present, cloned)
    }

    /// Clones the repository of the package to the build directory if
    /// needed and, where a commit is named, checks it out. Tells whether
    /// anything was done. The result is what `package_result` makes of what
    /// the clone and the checkout gave; the checkout is run where a commit
    /// is named and the clone did not fail.
    pub fn ensure_git_package_in_build_directory(
        &self,
        name: &str,
        repo: &str,
        commit: Option<&str>,
    ) -> (result: Result<bool, Error>)
        ensures
            exists|cloned: Result<bool, Error>, checked_out: Option<Result<bool, Error>>| #[trigger]
                package_outcome(cloned, checked_out) == result && (checked_out is Some <==> commit
                    is Some && cloned is Ok),
    {
        let cloned = self.ensure_package_repository_cloned(name, repo);
        let checked_out = match commit {
            Some(commit) => if cloned.is_ok() {
                Some(self.checkout_package_repository_to_commit(name, commit))
            } else {
                None
            },
            None => None,
        };
        package_result(cloned, checked_out)
    }

    /// Whether the repository is detached at the commit already, as far as
    /// git tells: the later questions are asked only where the earlier ones
    /// were answered with yes.
    fn is_at_revision(&self, commit: &str, repository_path: &str) -> (already_there: bool)
        ensures
            exists|
                detached: Result<i32, Error>,
                reaches_head: Result<i32, Error>,
                reached_by_head: Result<i32, Error>,
            | #[trigger]
                at_revision(detached, reaches_head, reached_by_head) == already_there,
    {
        let detached = self.run(&detached_command(repository_path));
        if !head_is_detached(&detached) {
            assert(at_revision(detached, Ok(0), Ok(0)) == false);
            return false;
        }
        let reaches_head = self.run(&ancestor_command(commit, "HEAD", repository_path));
        if !commit_is_known(&reaches_head) {
            assert(at_revision(detached, reaches_head, Ok(0)) == false);
            return false;
        }
        let reached_by_head = self.run(&ancestor_command("HEAD", commit, repository_path));
        assert(at_revision(detached, reaches_head, reached_by_head) == knows_commit(reached_by_head));
        commit_is_known(&reached_by_head)
    }

    /// Checks the commit out in the repository of the package. Where the
    /// repository knows the commit and is detached at it already, nothing
    /// is done. Where it does not know the commit, it fetches from the
    /// origin first, and a failed fetch ends the run. The result is
    /// `checkout_outcome` of what git gave.
    pub fn checkout_package_repository_to_commit(&self, name: &str, commit: &str) -> (result:
        Result<bool, Error>)
        ensures
            exists|
                lookup: Result<i32, Error>,
                already_there: bool,
                fetched: Result<i32, Error>,
                checked_out: Result<i32, Error>,
            | #[trigger]
                checkout_outcome(lookup, already_there, fetched, checked_out) == result,
    {
        let repository_path = self.paths.build_packages_package(name);
        let lookup = self.run(&lookup_command(commit, repository_path.as_str()));
        let mut step = step_after_lookup(&lookup);
        let mut already_there = false;
        let mut fetched: Result<i32, Error> = Ok(0);
        if let CheckoutStep::Compare = step {
            already_there = self.is_at_revision(commit, repository_path.as_str());
            step = step_after_comparison(already_there);
        } else {
            fetched = self.run(&fetch_command(repository_path.as_str()));
            step = step_after_fetch(fetched);
        }
        match step {
            CheckoutStep::Done(result) => {
                assert(checkout_outcome(lookup, already_there, fetched, Ok(0)) == result);
                result
            },
            _ => {
                let checked_out = self.run(&checkout_command(commit, repository_path.as_str()));
                assert(checkout_outcome(lookup, already_there, fetched, checked_out)
                    == change_outcome(checked_out));
                change_result(checked_out)
            },
        }
    }

    /// Makes sure of every package but the project itself. Every package is
    /// tried, whatever became of the others; the first failure is handed
    /// back.
    pub fn download_git_packages(&self, packages: &Vec<ManifestPackage>, project_name: &String) -> (result:
        Result<(), Error>)
        requires
            all_from_git(packages@, project_name@),
        ensures
            exists|results: Seq<Result<bool, Error>>| #[trigger]
                first_failure_of(results) == result && results.len() == fetched_upto(
                    packages@,
                    project_name@,
                    packages@.len() as int,
                ).len(),
    {
        let chosen = packages_to_fetch(packages, project_name.as_str());
        let mut results: Vec<Result<bool, Error>> = Vec::new();
        let mut at: usize = 0;
        while at < chosen.len()
            invariant
                at <= chosen@.len(),
                results@.len() == at,
            decreases chosen@.len() - at,
        {
            let package = &chosen[at];
            let done = self.ensure_git_package_in_build_directory(
                package.name.as_str(),
                package.repo.as_str(),
                Some(package.commit.as_str()),
            );
            results.push(done);
            at += 1;
        }
        first_failure(results)
    }
}

} // verus!
