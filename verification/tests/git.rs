use lsp_engine::error::Error;
use lsp_engine::git::{
    ancestor_arguments, ancestor_command, change_result, checkout_arguments, checkout_command,
    clone_arguments, clone_command, clone_result, commit_is_known, detached_arguments,
    detached_command, fetch_arguments, fetch_command, fetch_result, first_failure,
    head_is_detached, lookup_arguments, lookup_command, package_result, packages_to_fetch,
    step_after_comparison, step_after_fetch, step_after_lookup, CheckoutStep, Command,
    CommandExecutor, Downloader, FileSystemReader, GitPackage, ProjectPaths, Stdio,
};
use lsp_engine::manifest::{ManifestPackage, ManifestPackageSource};
use std::cell::RefCell;
use std::rc::Rc;

#[derive(Debug, Clone, PartialEq, Eq)]
struct Run {
    program: String,
    args: Vec<String>,
    cwd: Option<String>,
    stdio: Stdio,
}

struct Directories {
    present: Vec<String>,
    asked: Rc<RefCell<Vec<String>>>,
}

impl FileSystemReader for Directories {
    fn is_directory(&self, path: &str) -> bool {
        self.asked.borrow_mut().push(path.to_string());
        self.present.iter().any(|present| present == path)
    }
}

struct Git {
    runs: Rc<RefCell<Vec<Run>>>,
    // What each git subcommand answers.
    answer: fn(&str, &[String]) -> Result<i32, Error>,
}

impl CommandExecutor for Git {
    fn exec(
        &self,
        program: &str,
        args: &Vec<String>,
        env: &Vec<(String, String)>,
        cwd: Option<&str>,
        stdio: Stdio,
    ) -> Result<i32, Error> {
        assert!(env.is_empty());
        self.runs.borrow_mut().push(Run {
            program: program.to_string(),
            args: args.clone(),
            cwd: cwd.map(|cwd| cwd.to_string()),
            stdio,
        });
        (self.answer)(&args[0], args)
    }
}

fn failure(program: &str) -> Error {
    Error::ShellCommand { program: program.to_string(), reason: "failed".to_string() }
}

fn always_fine(_: &str, _: &[String]) -> Result<i32, Error> {
    Ok(0)
}

fn commit_unknown(command: &str, _: &[String]) -> Result<i32, Error> {
    if command == "cat-file" { Ok(128) } else { Ok(0) }
}

fn lookup_cannot_run(command: &str, _: &[String]) -> Result<i32, Error> {
    if command == "cat-file" { Err(failure("cat-file")) } else { Ok(0) }
}

fn fetch_fails(command: &str, _: &[String]) -> Result<i32, Error> {
    match command {
        "cat-file" => Ok(1),
        "fetch" => Err(failure("fetch")),
        _ => Ok(0),
    }
}

fn checkout_fails(command: &str, _: &[String]) -> Result<i32, Error> {
    if command == "checkout" { Err(failure("checkout")) } else { Ok(0) }
}

fn clone_fails(command: &str, _: &[String]) -> Result<i32, Error> {
    if command == "clone" { Err(failure("clone")) } else { Ok(0) }
}

fn clone_of_bad_fails(command: &str, args: &[String]) -> Result<i32, Error> {
    if command == "clone" && args[2] == "https://example.com/bad" {
        Err(failure("clone bad"))
    } else if command == "clone" && args[2] == "https://example.com/worse" {
        Err(failure("clone worse"))
    } else {
        Ok(0)
    }
}

struct Setup {
    downloader: Downloader<Directories, Git>,
    runs: Rc<RefCell<Vec<Run>>>,
    asked: Rc<RefCell<Vec<String>>>,
}

fn setup(present: &[&str], answer: fn(&str, &[String]) -> Result<i32, Error>) -> Setup {
    let runs = Rc::new(RefCell::new(vec![]));
    let asked = Rc::new(RefCell::new(vec![]));
    let downloader = Downloader::new(
        Directories {
            present: present.iter().map(|path| path.to_string()).collect(),
            asked: asked.clone(),
        },
        Git { runs: runs.clone(), answer },
        ProjectPaths { root: "/project".to_string() },
    );
    Setup { downloader, runs, asked }
}

fn run(args: &[&str], cwd: Option<&str>) -> Run {
    Run {
        program: "git".to_string(),
        args: args.iter().map(|arg| arg.to_string()).collect(),
        cwd: cwd.map(|cwd| cwd.to_string()),
        stdio: Stdio::Null,
    }
}

const WIBBLE: &str = "/project/build/packages/wibble";

#[test]
fn package_directory_is_below_the_build_directory() {
    let paths = ProjectPaths { root: "/project".to_string() };
    assert_eq!(paths.build_packages_package("wibble"), WIBBLE);
    assert_eq!(paths.build_packages_package(""), "/project/build/packages/");
}

#[test]
fn git_arguments() {
    assert_eq!(clone_arguments("https://x/y", "/p/w"), vec!["clone", "--", "https://x/y", "/p/w"]);
    assert_eq!(lookup_arguments("abc123"), vec!["cat-file", "commit", "--", "abc123"]);
    assert_eq!(fetch_arguments(), vec!["fetch"]);
    assert_eq!(checkout_arguments("abc123"), vec!["checkout", "--detach", "--", "abc123"]);
}

#[test]
fn commit_is_known_when_git_ran_and_succeeded() {
    assert!(commit_is_known(&Ok(0)));
    assert!(!commit_is_known(&Ok(1)));
    assert!(!commit_is_known(&Ok(-1)));
    assert!(!commit_is_known(&Err(failure("git"))));
}

#[test]
fn present_repository_is_not_cloned() {
    let setup = setup(&[WIBBLE], always_fine);
    assert_eq!(setup.downloader.ensure_package_repository_cloned("wibble", "https://x/w"), Ok(false));
    assert!(setup.runs.borrow().is_empty());
    assert_eq!(*setup.asked.borrow(), vec![WIBBLE.to_string()]);
}

#[test]
fn missing_repository_is_cloned() {
    let setup = setup(&[], always_fine);
    assert_eq!(setup.downloader.ensure_package_repository_cloned("wibble", "https://x/w"), Ok(true));
    assert_eq!(*setup.runs.borrow(), vec![run(&["clone", "--", "https://x/w", WIBBLE], None)]);
}

#[test]
fn failed_clone_is_handed_back() {
    let setup = setup(&[], clone_fails);
    assert_eq!(
        setup.downloader.ensure_package_repository_cloned("wibble", "https://x/w"),
        Err(failure("clone"))
    );
    assert_eq!(
        setup.downloader.ensure_git_package_in_build_directory("wibble", "https://x/w", Some("abc")),
        Err(failure("clone"))
    );
    // No checkout after a failed clone.
    assert_eq!(setup.runs.borrow().len(), 2);
}

#[test]
fn known_commit_is_checked_out_without_fetching() {
    let setup = setup(&[WIBBLE], always_fine);
    assert_eq!(setup.downloader.checkout_package_repository_to_commit("wibble", "abc"), Ok(true));
    assert_eq!(
        *setup.runs.borrow(),
        vec![
            run(&["cat-file", "commit", "--", "abc"], Some(WIBBLE)),
            run(&["symbolic-ref", "--quiet", "HEAD"], Some(WIBBLE)),
            run(&["checkout", "--detach", "--", "abc"], Some(WIBBLE)),
        ]
    );
}

fn detached_at_the_commit(command: &str, _: &[String]) -> Result<i32, Error> {
    if command == "symbolic-ref" { Ok(1) } else { Ok(0) }
}

fn detached_at_a_descendant(command: &str, args: &[String]) -> Result<i32, Error> {
    match command {
        "symbolic-ref" => Ok(1),
        // The commit is an ancestor of HEAD, but HEAD is none of the commit.
        "merge-base" if args[3] == "HEAD" => Ok(1),
        _ => Ok(0),
    }
}

fn detached_elsewhere(command: &str, _: &[String]) -> Result<i32, Error> {
    match command {
        "symbolic-ref" => Ok(1),
        "merge-base" => Ok(1),
        _ => Ok(0),
    }
}

fn cannot_tell_whether_detached(command: &str, _: &[String]) -> Result<i32, Error> {
    if command == "symbolic-ref" { Err(failure("symbolic-ref")) } else { Ok(0) }
}

#[test]
fn checkout_is_skipped_where_the_repository_is_detached_at_the_commit() {
    let setup = setup(&[WIBBLE], detached_at_the_commit);
    assert_eq!(setup.downloader.checkout_package_repository_to_commit("wibble", "abc"), Ok(false));
    assert_eq!(
        *setup.runs.borrow(),
        vec![
            run(&["cat-file", "commit", "--", "abc"], Some(WIBBLE)),
            run(&["symbolic-ref", "--quiet", "HEAD"], Some(WIBBLE)),
            run(&["merge-base", "--is-ancestor", "--", "abc", "HEAD"], Some(WIBBLE)),
            run(&["merge-base", "--is-ancestor", "--", "HEAD", "abc"], Some(WIBBLE)),
        ]
    );
    // A repeated call changes nothing either.
    assert_eq!(
        setup.downloader.ensure_git_package_in_build_directory("wibble", "https://x/w", Some("abc")),
        Ok(false)
    );
}

#[test]
fn checkout_is_run_where_the_repository_is_detached_at_another_commit() {
    let setup = setup(&[WIBBLE], detached_at_a_descendant);
    assert_eq!(setup.downloader.checkout_package_repository_to_commit("wibble", "abc"), Ok(true));
    assert_eq!(setup.runs.borrow().len(), 5);
    assert_eq!(setup.runs.borrow()[4], run(&["checkout", "--detach", "--", "abc"], Some(WIBBLE)));
    let setup = setup_with(detached_elsewhere);
    assert_eq!(setup.downloader.checkout_package_repository_to_commit("wibble", "abc"), Ok(true));
    assert_eq!(setup.runs.borrow().len(), 4);
    let setup = setup_with(cannot_tell_whether_detached);
    assert_eq!(setup.downloader.checkout_package_repository_to_commit("wibble", "abc"), Ok(true));
    assert_eq!(setup.runs.borrow().len(), 3);
}

fn setup_with(answer: fn(&str, &[String]) -> Result<i32, Error>) -> Setup {
    setup(&[WIBBLE], answer)
}

#[test]
fn unknown_commit_is_fetched_first() {
    for answer in [commit_unknown, lookup_cannot_run] {
        let setup = setup(&[WIBBLE], answer);
        assert_eq!(setup.downloader.checkout_package_repository_to_commit("wibble", "abc"), Ok(true));
        assert_eq!(
            *setup.runs.borrow(),
            vec![
                run(&["cat-file", "commit", "--", "abc"], Some(WIBBLE)),
                run(&["fetch"], Some(WIBBLE)),
                run(&["checkout", "--detach", "--", "abc"], Some(WIBBLE)),
            ]
        );
    }
}

#[test]
fn failed_fetch_ends_the_checkout() {
    let setup = setup(&[WIBBLE], fetch_fails);
    assert_eq!(
        setup.downloader.checkout_package_repository_to_commit("wibble", "abc"),
        Err(failure("fetch"))
    );
    assert_eq!(setup.runs.borrow().len(), 2);
}

#[test]
fn failed_checkout_is_handed_back() {
    let setup = setup(&[WIBBLE], checkout_fails);
    assert_eq!(
        setup.downloader.checkout_package_repository_to_commit("wibble", "abc"),
        Err(failure("checkout"))
    );
}

#[test]
fn package_without_commit_is_only_cloned() {
    let setup = setup(&[], always_fine);
    assert_eq!(
        setup.downloader.ensure_git_package_in_build_directory("wibble", "https://x/w", None),
        Ok(true)
    );
    assert_eq!(setup.runs.borrow().len(), 1);
    let setup = setup_present();
    assert_eq!(
        setup.downloader.ensure_git_package_in_build_directory("wibble", "https://x/w", None),
        Ok(false)
    );
    assert!(setup.runs.borrow().is_empty());
}

fn setup_present() -> Setup {
    setup(&[WIBBLE], always_fine)
}

#[test]
fn package_with_commit_is_cloned_and_checked_out() {
    let setup = setup(&[], always_fine);
    assert_eq!(
        setup.downloader.ensure_git_package_in_build_directory("wibble", "https://x/w", Some("abc")),
        Ok(true)
    );
    assert_eq!(
        *setup.runs.borrow(),
        vec![
            run(&["clone", "--", "https://x/w", WIBBLE], None),
            run(&["cat-file", "commit", "--", "abc"], Some(WIBBLE)),
            run(&["symbolic-ref", "--quiet", "HEAD"], Some(WIBBLE)),
            run(&["checkout", "--detach", "--", "abc"], Some(WIBBLE)),
        ]
    );
    let setup = setup_present();
    assert_eq!(
        setup.downloader.ensure_git_package_in_build_directory("wibble", "https://x/w", Some("abc")),
        Ok(true)
    );
}

fn git_package(name: &str) -> ManifestPackage {
    ManifestPackage {
        name: name.to_string(),
        source: ManifestPackageSource::Git {
            repo: format!("https://example.com/{}", name),
            commit: "abc".to_string(),
        },
    }
}

#[test]
fn every_package_but_the_project_is_fetched() {
    let setup = setup(&[], always_fine);
    let project = ManifestPackage { name: "app".to_string(), source: ManifestPackageSource::Hex };
    let packages = vec![git_package("one"), project, git_package("two")];
    assert_eq!(setup.downloader.download_git_packages(&packages, &"app".to_string()), Ok(()));
    let cloned: Vec<String> = setup
        .runs
        .borrow()
        .iter()
        .filter(|run| run.args[0] == "clone")
        .map(|run| run.args[2].clone())
        .collect();
    assert_eq!(cloned, vec!["https://example.com/one", "https://example.com/two"]);
    assert_eq!(setup.runs.borrow().len(), 8);
}

#[test]
fn first_failure_is_handed_back_and_the_other_packages_are_still_fetched() {
    let setup = setup(&[], clone_of_bad_fails);
    let packages = vec![git_package("good"), git_package("bad"), git_package("worse"), git_package("fine")];
    assert_eq!(
        setup.downloader.download_git_packages(&packages, &"app".to_string()),
        Err(failure("clone bad"))
    );
    let cloned = setup.runs.borrow().iter().filter(|run| run.args[0] == "clone").count();
    assert_eq!(cloned, 4);
    let checked_out = setup.runs.borrow().iter().filter(|run| run.args[0] == "checkout").count();
    assert_eq!(checked_out, 2);
}

#[test]
fn no_package_means_success() {
    let setup = setup(&[], clone_fails);
    assert_eq!(setup.downloader.download_git_packages(&vec![], &"app".to_string()), Ok(()));
    assert!(setup.runs.borrow().is_empty());
}

#[test]
fn first_failure_of_results() {
    assert_eq!(first_failure(vec![]), Ok(()));
    assert_eq!(first_failure(vec![Ok(true), Ok(false)]), Ok(()));
    assert_eq!(
        first_failure(vec![Ok(true), Err(failure("a")), Ok(false), Err(failure("b"))]),
        Err(failure("a"))
    );
    assert_eq!(first_failure(vec![Err(failure("b")), Err(failure("a"))]), Err(failure("b")));
}

#[test]
fn a_command_that_ran_changed_something() {
    assert_eq!(change_result(Ok(0)), Ok(true));
    assert_eq!(change_result(Ok(1)), Ok(true));
    assert_eq!(change_result(Err(failure("git"))), Err(failure("git")));
}

#[test]
fn a_package_changed_if_the_clone_or_the_checkout_did() {
    assert_eq!(package_result(Ok(false), None), Ok(false));
    assert_eq!(package_result(Ok(true), None), Ok(true));
    assert_eq!(package_result(Ok(false), Some(Ok(false))), Ok(false));
    assert_eq!(package_result(Ok(false), Some(Ok(true))), Ok(true));
    assert_eq!(package_result(Ok(true), Some(Ok(false))), Ok(true));
    assert_eq!(package_result(Ok(true), Some(Err(failure("b")))), Err(failure("b")));
    assert_eq!(package_result(Err(failure("a")), Some(Err(failure("b")))), Err(failure("a")));
    assert_eq!(package_result(Err(failure("a")), None), Err(failure("a")));
}

#[test]
fn more_git_arguments() {
    assert_eq!(detached_arguments(), vec!["symbolic-ref", "--quiet", "HEAD"]);
    assert_eq!(
        ancestor_arguments("abc", "HEAD"),
        vec!["merge-base", "--is-ancestor", "--", "abc", "HEAD"]
    );
}

fn git(args: &[&str], cwd: Option<&str>) -> Command {
    Command {
        program: "git".to_string(),
        args: args.iter().map(|arg| arg.to_string()).collect(),
        env: vec![],
        cwd: cwd.map(|cwd| cwd.to_string()),
        stdio: Stdio::Null,
    }
}

#[test]
fn git_commands() {
    assert_eq!(clone_command("https://x/y", "/p/w"), git(&["clone", "--", "https://x/y", "/p/w"], None));
    assert_eq!(lookup_command("abc", "/p/w"), git(&["cat-file", "commit", "--", "abc"], Some("/p/w")));
    assert_eq!(fetch_command("/p/w"), git(&["fetch"], Some("/p/w")));
    assert_eq!(
        checkout_command("abc", "/p/w"),
        git(&["checkout", "--detach", "--", "abc"], Some("/p/w"))
    );
    assert_eq!(detached_command("/p/w"), git(&["symbolic-ref", "--quiet", "HEAD"], Some("/p/w")));
    assert_eq!(
        ancestor_command("HEAD", "abc", "/p/w"),
        git(&["merge-base", "--is-ancestor", "--", "HEAD", "abc"], Some("/p/w"))
    );
}

#[test]
fn an_existing_directory_is_not_cloned_into() {
    assert_eq!(clone_result(true, None), Ok(false));
    assert_eq!(clone_result(true, Some(Err(failure("clone")))), Ok(false));
    assert_eq!(clone_result(false, Some(Ok(0))), Ok(true));
    assert_eq!(clone_result(false, Some(Ok(3))), Ok(true));
    assert_eq!(clone_result(false, Some(Err(failure("clone")))), Err(failure("clone")));
    assert_eq!(clone_result(false, None), Ok(false));
}

#[test]
fn head_is_detached_when_git_ends_with_one() {
    assert!(head_is_detached(&Ok(1)));
    assert!(!head_is_detached(&Ok(0)));
    assert!(!head_is_detached(&Ok(128)));
    assert!(!head_is_detached(&Err(failure("git"))));
}

#[test]
fn a_failed_fetch_ends_the_run() {
    assert_eq!(fetch_result(Ok(0)), Ok(()));
    assert_eq!(fetch_result(Ok(1)), Ok(()));
    assert_eq!(fetch_result(Err(failure("fetch"))), Err(failure("fetch")));
    assert_eq!(step_after_fetch(Ok(0)), CheckoutStep::CheckOut);
    assert_eq!(
        step_after_fetch(Err(failure("fetch"))),
        CheckoutStep::Done(Err(failure("fetch")))
    );
}

#[test]
fn steps_of_a_checkout() {
    assert_eq!(step_after_lookup(&Ok(0)), CheckoutStep::Compare);
    assert_eq!(step_after_lookup(&Ok(1)), CheckoutStep::Fetch);
    assert_eq!(step_after_lookup(&Err(failure("git"))), CheckoutStep::Fetch);
    assert_eq!(step_after_comparison(true), CheckoutStep::Done(Ok(false)));
    assert_eq!(step_after_comparison(false), CheckoutStep::CheckOut);
}

#[test]
fn packages_that_git_fetches() {
    let project = ManifestPackage { name: "app".to_string(), source: ManifestPackageSource::Hex };
    let packages = vec![git_package("one"), project, git_package("two")];
    assert_eq!(
        packages_to_fetch(&packages, "app"),
        vec![
            GitPackage {
                name: "one".to_string(),
                repo: "https://example.com/one".to_string(),
                commit: "abc".to_string()
            },
            GitPackage {
                name: "two".to_string(),
                repo: "https://example.com/two".to_string(),
                commit: "abc".to_string()
            },
        ]
    );
    assert_eq!(packages_to_fetch(&vec![], "app"), vec![]);
}
