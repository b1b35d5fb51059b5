use mini_shell::commands::{parse_package_command, parse_rm_args, rm_step, Entry, PkgCommand, RmStep};
use mini_shell::invocation::{command_line, probe_command, requires_elevation, shell_command};
use mini_shell::orchestrator::{remediation_hint, Event, Mode, PackageTask, RunOutcome, Step};
use mini_shell::paths::{join_path, normalize, resolve, resolve_path};
use mini_shell::platform::{get_current_platform, get_platform_name, Platform};
use mini_shell::registry::{package_managers, usable_for, PackageManager};
use mini_shell::router::{builtin_for, route, Action, Builtin};
use mini_shell::text::{same_text, split_by, trim_text, Delim};

fn words(v: &[&str]) -> Vec<String> {
    v.iter().map(|s| s.to_string()).collect()
}

fn names(v: &[PackageManager]) -> Vec<&'static str> {
    v.iter().map(|m| m.name).collect()
}

fn manager(name: &'static str, platform: Platform) -> PackageManager {
    PackageManager {
        name,
        install_cmd: name,
        search_cmd: name,
        update_cmd: name,
        probe: name,
        platform,
    }
}

/// Drives a task against a fake host; returns the commands run and the result.
fn drive(
    mut task: PackageTask,
    available: &dyn Fn(&str) -> bool,
    outcome: &dyn Fn(&str) -> RunOutcome,
) -> (Vec<Vec<String>>, bool) {
    let mut runs = Vec::new();
    loop {
        match task.next_step() {
            Step::Probe(cmd) => {
                let found = available(&cmd[1]);
                task.advance(Event::Probed(found));
            }
            Step::Run(cmd) => {
                let o = outcome(&cmd[0]);
                runs.push(cmd);
                task.advance(Event::Exited(o));
            }
            Step::Done(ok) => return (runs, ok),
        }
    }
}

#[test]
fn platform_detection() {
    assert_eq!(get_current_platform("linux"), Platform::Linux);
    assert_eq!(get_current_platform("windows"), Platform::Windows);
    assert_eq!(get_current_platform("macos"), Platform::MacOS);
    assert_eq!(get_current_platform("freebsd"), Platform::Any);
    assert_eq!(get_current_platform("Linux"), Platform::Any);
    assert_eq!(get_platform_name(&Platform::MacOS), "MacOS");
    assert_eq!(get_platform_name(&Platform::Any), "Any");
    assert_eq!(get_platform_name(&Platform::Windows), "Windows");
    assert_eq!(get_platform_name(&Platform::Linux), "Linux");
}

#[test]
fn same_text_compares_characters() {
    assert!(same_text("apt", "apt"));
    assert!(!same_text("apt", "apt "));
    assert!(!same_text("dnf", "apt"));
    assert!(same_text("", ""));
}

#[test]
fn registry_names_are_distinct() {
    let all = package_managers();
    assert_eq!(all.len(), 11);
    for i in 0..all.len() {
        for j in 0..all.len() {
            if i != j {
                assert_ne!(all[i].name, all[j].name);
            }
        }
    }
    assert_eq!(all[0].name, "chocolatey");
    assert_eq!(all[7].install_cmd, "pacman -S");
    assert_eq!(all[10].name, "flatpak");
}

#[test]
fn usable_managers_keep_registry_order() {
    let all = package_managers();
    assert_eq!(
        names(&usable_for(&all, Platform::Linux)),
        vec!["apt", "dnf", "pacman", "zypper", "snap", "flatpak"]
    );
    assert_eq!(
        names(&usable_for(&all, Platform::Windows)),
        vec!["chocolatey", "winget", "scoop", "snap", "flatpak"]
    );
    assert_eq!(
        names(&usable_for(&all, Platform::MacOS)),
        vec!["homebrew", "macports", "snap", "flatpak"]
    );
    assert_eq!(names(&usable_for(&all, Platform::Any)), vec!["snap", "flatpak"]);
    for p in [Platform::Linux, Platform::Windows, Platform::MacOS, Platform::Any] {
        for m in usable_for(&all, p) {
            assert!(m.platform == p || m.platform == Platform::Any);
        }
    }
}

#[test]
fn splitting_on_whitespace() {
    assert_eq!(split_by("  ls \t -la\n/tmp  ", Delim::Space), words(&["ls", "-la", "/tmp"]));
    assert_eq!(split_by("", Delim::Space), Vec::<String>::new());
    assert_eq!(split_by(" \t ", Delim::Space), Vec::<String>::new());
    assert_eq!(split_by("a\u{3000}b\u{a0}c", Delim::Space), words(&["a", "b", "c"]));
    assert_eq!(split_by("/home//u/", Delim::Slash), words(&["home", "u"]));
    assert_eq!(trim_text("  git  status \n"), "git  status");
    assert_eq!(trim_text("   "), "");
    assert_eq!(trim_text("x"), "x");
}

#[test]
fn routing_builtins_and_synonyms() {
    match route("  ls  -la /tmp ") {
        Action::Builtin(Builtin::Ls, args) => assert_eq!(args, words(&["-la", "/tmp"])),
        other => panic!("{:?}", other),
    }
    assert!(matches!(route("exit"), Action::Builtin(Builtin::Exit, _)));
    assert!(matches!(route("quit"), Action::Builtin(Builtin::Exit, _)));
    assert!(matches!(route("clear"), Action::Builtin(Builtin::Clear, _)));
    match route("package install vim") {
        Action::Package(args) => assert_eq!(args, words(&["install", "vim"])),
        other => panic!("{:?}", other),
    }
    assert!(matches!(route("pkg"), Action::Package(ref a) if a.is_empty()));
    assert_eq!(builtin_for("touch"), Some(Builtin::Touch));
    assert_eq!(builtin_for("Touch"), None);
}

#[test]
fn routing_blank_and_external() {
    assert!(matches!(route(""), Action::Nothing));
    assert!(matches!(route(" \t "), Action::Nothing));
    match route("  git   commit -m 'a  b' ") {
        Action::External(line) => assert_eq!(line, "git   commit -m 'a  b'"),
        other => panic!("{:?}", other),
    }
    match route("LS") {
        Action::External(line) => assert_eq!(line, "LS"),
        other => panic!("{:?}", other),
    }
}

#[test]
fn routing_is_deterministic() {
    for line in ["ls a", "pkg s vim", "echo  hi  there", "cargo build", "", "rm -rf x"] {
        let a = format!("{:?}", route(line));
        let b = format!("{:?}", route(line));
        assert_eq!(a, b);
    }
}

#[test]
fn path_resolution_rules() {
    let home = Some("/home/u");
    assert_eq!(resolve_path("/home/u", "../x", home), Some("/home/x".to_string()));
    assert_eq!(resolve_path("/home/u", "~", home), Some("/home/u".to_string()));
    assert_eq!(resolve_path("/srv", "~", Some("/root")), Some("/root".to_string()));
    assert_eq!(resolve_path("/home/u", "/abs/path", home), Some("/abs/path".to_string()));
    assert_eq!(resolve_path("/home/u", "~/docs", home), Some("/home/u/docs".to_string()));
    assert_eq!(resolve_path("/home/u", "~", None), None);
    assert_eq!(resolve_path("/home/u", "~/docs", None), None);
    assert_eq!(resolve_path("/home/u", "C:\\tmp", None), Some("C:\\tmp".to_string()));
    assert_eq!(resolve_path("/home/u", "\\share", None), Some("\\share".to_string()));
    assert_eq!(resolve_path("/home/u", "./a/./b", None), Some("/home/u/a/b".to_string()));
    assert_eq!(resolve_path("/", "../..", None), Some("/".to_string()));
    assert_eq!(resolve_path("/home/u/", "d", None), Some("/home/u/d".to_string()));
    assert_eq!(resolve_path("/home/u", "~user", None), Some("/home/u/~user".to_string()));
}

#[test]
fn path_helpers() {
    assert_eq!(join_path("/a", "b"), "/a/b");
    assert_eq!(join_path("/a/", "b"), "/a/b");
    assert_eq!(normalize("/a/b/../../c//./d"), "/c/d");
    assert_eq!(normalize("rel/../x"), "rel/../x");
    assert_eq!(resolve("/home/u", "/etc"), Some("/etc".to_string()));
    assert_eq!(resolve("/home/u", "a/../b"), Some("/home/u/b".to_string()));
}

#[test]
fn rm_force_on_missing_file_is_silent() {
    let req = parse_rm_args(&words(&["-rf", "missing_file"])).unwrap();
    assert!(req.recursive);
    assert!(req.force);
    assert_eq!(req.targets, words(&["missing_file"]));
    assert_eq!(rm_step(Entry::Missing, req.recursive, req.force), RmStep::Skip);
    assert!(!req.reports_failures());
}

#[test]
fn rm_directory_without_recursive_is_reported() {
    let req = parse_rm_args(&words(&["missing_dir"])).unwrap();
    assert!(!req.recursive);
    assert!(!req.force);
    assert_eq!(rm_step(Entry::Directory, req.recursive, req.force), RmStep::ReportIsDirectory);
    assert_eq!(rm_step(Entry::Directory, true, false), RmStep::RemoveTree);
    assert_eq!(rm_step(Entry::File, false, false), RmStep::RemoveFile);
    assert_eq!(rm_step(Entry::Missing, false, false), RmStep::ReportLookupError);
    assert!(req.reports_failures());
}

#[test]
fn rm_flag_parsing() {
    assert!(parse_rm_args(&words(&[])).is_none());
    assert!(parse_rm_args(&words(&["-r", "-f"])).is_none());
    let req = parse_rm_args(&words(&["--force", "a", "-R", "b"])).unwrap();
    assert!(req.force);
    assert!(req.recursive);
    assert_eq!(req.targets, words(&["a", "b"]));
    let req = parse_rm_args(&words(&["--force", "a"])).unwrap();
    assert!(req.force);
    assert!(!req.recursive);
    let req = parse_rm_args(&words(&["-v", "a"])).unwrap();
    assert!(!req.force && !req.recursive);
    let req = parse_rm_args(&words(&["-fR", "a"])).unwrap();
    assert!(req.force && req.recursive);
}

#[test]
fn package_subcommands() {
    assert!(matches!(parse_package_command(&words(&[])), PkgCommand::MissingSubcommand));
    assert!(matches!(parse_package_command(&words(&["install"])), PkgCommand::MissingPackage));
    assert!(matches!(parse_package_command(&words(&["s"])), PkgCommand::MissingQuery));
    match parse_package_command(&words(&["i", "vim", "extra"])) {
        PkgCommand::Install(p) => assert_eq!(p, "vim"),
        other => panic!("{:?}", other),
    }
    match parse_package_command(&words(&["search", "editor"])) {
        PkgCommand::Search(q) => assert_eq!(q, "editor"),
        other => panic!("{:?}", other),
    }
    match parse_package_command(&words(&["upgrade", "git"])) {
        PkgCommand::Update(Some(p)) => assert_eq!(p, "git"),
        other => panic!("{:?}", other),
    }
    assert!(matches!(parse_package_command(&words(&["u"])), PkgCommand::Update(None)));
    assert!(matches!(parse_package_command(&words(&["ls"])), PkgCommand::List));
    match parse_package_command(&words(&["remove", "x"])) {
        PkgCommand::Unknown(w) => assert_eq!(w, "remove"),
        other => panic!("{:?}", other),
    }
}

#[test]
fn elevation_policy() {
    assert!(requires_elevation(Platform::Linux, "apt", false));
    assert!(!requires_elevation(Platform::Linux, "apt", true));
    assert!(!requires_elevation(Platform::Linux, "snap", false));
    assert!(requires_elevation(Platform::MacOS, "port", false));
    assert!(!requires_elevation(Platform::MacOS, "homebrew", false));
    assert!(!requires_elevation(Platform::Windows, "apt", false));
    assert!(!requires_elevation(Platform::Any, "dnf", false));
}

#[test]
fn command_lines() {
    assert_eq!(
        command_line("apt install", Some("vim"), true),
        words(&["sudo", "apt", "install", "vim"])
    );
    assert_eq!(command_line("pacman -Syu", None, false), words(&["pacman", "-Syu"]));
    assert_eq!(probe_command(Platform::Linux, "apt"), words(&["which", "apt"]));
    assert_eq!(probe_command(Platform::Windows, "choco"), words(&["where", "choco"]));
    assert_eq!(shell_command(Platform::Linux, "ls | wc"), words(&["sh", "-c", "ls | wc"]));
    assert_eq!(shell_command(Platform::Windows, "dir"), words(&["cmd", "/C", "dir"]));
}

#[test]
fn install_with_nothing_available_runs_nothing() {
    let all = package_managers();
    let task = PackageTask::new(Mode::Install, "vim".to_string(), Platform::Linux, &all, false);
    let (runs, ok) = drive(task, &|_| false, &|_| RunOutcome::Success);
    assert!(runs.is_empty());
    assert!(!ok);
}

#[test]
fn install_stops_at_first_success() {
    let reg = vec![
        manager("one", Platform::Linux),
        manager("two", Platform::Linux),
        manager("three", Platform::Any),
    ];
    let task = PackageTask::new(Mode::Install, "pkg".to_string(), Platform::Linux, &reg, true);
    let (runs, ok) = drive(task, &|_| true, &|_| RunOutcome::Success);
    assert!(ok);
    assert_eq!(runs, vec![words(&["one", "pkg"])]);
}

#[test]
fn install_falls_through_failures() {
    let all = package_managers();
    let task = PackageTask::new(Mode::Install, "vim".to_string(), Platform::Linux, &all, false);
    let (runs, ok) = drive(
        task,
        &|p| p == "apt" || p == "snap",
        &|c| if c == "snap" { RunOutcome::Success } else { RunOutcome::Failure },
    );
    assert!(ok);
    assert_eq!(
        runs,
        vec![words(&["sudo", "apt", "install", "vim"]), words(&["snap", "install", "vim"])]
    );
}

#[test]
fn update_all_tries_every_available_manager() {
    let reg = vec![
        manager("one", Platform::Linux),
        manager("two", Platform::Linux),
        manager("three", Platform::Any),
        manager("four", Platform::Windows),
    ];
    let task = PackageTask::new(Mode::UpdateAll, String::new(), Platform::Linux, &reg, false);
    let (runs, ok) = drive(task, &|p| p != "two", &|_| RunOutcome::Failure);
    assert!(ok);
    assert_eq!(runs, vec![words(&["one"]), words(&["three"])]);
}

#[test]
fn update_one_stops_at_first_success() {
    let all = package_managers();
    let task = PackageTask::new(Mode::UpdateOne, "git".to_string(), Platform::Linux, &all, false);
    let (runs, ok) = drive(task, &|_| true, &|_| RunOutcome::Success);
    assert!(ok);
    assert_eq!(runs, vec![words(&["sudo", "apt", "upgrade", "git"])]);
}

#[test]
fn search_queries_every_available_manager() {
    let all = package_managers();
    let task = PackageTask::new(Mode::Search, "vim".to_string(), Platform::Linux, &all, false);
    let (runs, ok) = drive(
        task,
        &|p| p == "apt" || p == "pacman" || p == "flatpak",
        &|c| if c == "apt" { RunOutcome::Failure } else { RunOutcome::NotStarted },
    );
    assert!(ok);
    assert_eq!(
        runs,
        vec![
            words(&["apt", "search", "vim"]),
            words(&["pacman", "-Ss", "vim"]),
            words(&["flatpak", "search", "vim"]),
        ]
    );
    let task = PackageTask::new(Mode::Search, "vim".to_string(), Platform::Linux, &all, false);
    let (runs, ok) = drive(task, &|_| true, &|_| RunOutcome::NotStarted);
    assert_eq!(runs.len(), 6);
    assert!(!ok);
}

#[test]
fn install_skips_unavailable_and_succeeds_with_next() {
    let reg = vec![manager("a", Platform::Linux), manager("b", Platform::Any)];
    let task = PackageTask::new(Mode::Install, "foo".to_string(), Platform::Linux, &reg, false);
    let (runs, ok) = drive(task, &|p| p == "b", &|_| RunOutcome::Success);
    assert!(ok);
    assert_eq!(runs, vec![words(&["b", "foo"])]);
}

#[test]
fn empty_usable_set_is_done_at_once() {
    let reg = vec![manager("w", Platform::Windows)];
    let task = PackageTask::new(Mode::Install, "x".to_string(), Platform::Linux, &reg, false);
    assert!(matches!(task.next_step(), Step::Done(false)));
}

#[test]
fn started_task_covers_usable_managers() {
    let all = package_managers();
    let task = PackageTask::start(Mode::Search, "x".to_string(), Platform::MacOS, &all);
    assert_eq!(names(&task.managers), vec!["homebrew", "macports", "snap", "flatpak"]);
    assert_eq!(task.pos, 0);
}

#[test]
fn hints_per_platform() {
    assert_eq!(
        remediation_hint(Mode::Install, Platform::MacOS),
        "You may need to install a package manager first (homebrew or macports)."
    );
    assert_eq!(
        remediation_hint(Mode::Search, Platform::Linux),
        "Your distribution's package manager might not be supported."
    );
    assert_eq!(
        remediation_hint(Mode::UpdateAll, Platform::Any),
        "Please install a package manager appropriate for your platform."
    );
}
