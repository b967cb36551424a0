use breathes::detect::{add_if_exists, detect, matches_marker, Entry};
use breathes::hooks::Hook;
use breathes::language::Language;
use breathes::report::{
    conclude, overall_passed, plan, render_report, report_rows, run_hook, RunError,
};
use breathes::runner::{hook_passed, outcome_message, EcosystemResult, EcosystemRun};

fn file(name: &str) -> Entry {
    Entry { name: String::from(name), is_file: true }
}

fn dir(name: &str) -> Entry {
    Entry { name: String::from(name), is_file: false }
}

/// Drives a run to its end, taking exit codes from `codes` in turn; returns
/// the commands that were handed out.
fn drive(run: &mut EcosystemRun, codes: &[Option<i32>]) -> Vec<&'static str> {
    let mut ran = Vec::new();
    let mut next = codes.iter();
    while let Some(hook) = run.next_hook() {
        ran.push(hook.command);
        run.record(*next.next().expect("one exit code per hook"));
    }
    ran
}

#[test]
fn exit_code_zero_alone_passes() {
    assert!(hook_passed(Some(0)));
    assert!(!hook_passed(Some(1)));
    assert!(!hook_passed(Some(-1)));
    assert!(!hook_passed(None));
}

#[test]
fn outcome_message_picks_success_or_failure() {
    let hook = Hook::get(Language::Go)[0];
    assert_eq!(outcome_message(&hook, true), "Tests passed");
    assert_eq!(outcome_message(&hook, false), "Tests failed");
}

#[test]
fn no_hooks_passes_at_once() {
    let run = EcosystemRun::for_language(Language::Kotlin);
    assert!(run.is_done());
    assert!(run.next_hook().is_none());
    let result = run.finish(0);
    assert_eq!(result, EcosystemResult { language: Language::Kotlin, passed: true, elapsed: 0 });
}

#[test]
fn every_hook_runs_despite_failures() {
    let mut run = EcosystemRun::for_language(Language::Rust);
    let codes = [Some(1), None, Some(2), Some(0), Some(1), Some(0), Some(3), Some(1)];
    let ran = drive(&mut run, &codes);
    assert_eq!(ran.len(), 8);
    assert_eq!(ran[0], "cargo verify-project");
    assert_eq!(ran[7], "cargo outdated");
    assert!(run.is_done());
    assert!(!run.finish(5).passed);
}

#[test]
fn passed_when_all_pass_failed_when_all_or_some_fail() {
    let mut all_pass = EcosystemRun::for_language(Language::Php);
    drive(&mut all_pass, &[Some(0), Some(0), Some(0), Some(0)]);
    assert!(all_pass.finish(1).passed);

    let mut all_fail = EcosystemRun::for_language(Language::Php);
    drive(&mut all_fail, &[Some(1), Some(1), Some(1), Some(1)]);
    assert!(!all_fail.finish(1).passed);

    let mut mixed = EcosystemRun::for_language(Language::Php);
    drive(&mut mixed, &[Some(0), Some(0), Some(2), Some(0)]);
    assert!(!mixed.finish(1).passed);
}

#[test]
fn record_reports_each_verdict() {
    let mut run = EcosystemRun::for_language(Language::Go);
    assert_eq!(run.language(), Language::Go);
    assert!(run.record(Some(0)));
    assert!(!run.is_done());
    assert!(!run.record(Some(1)));
    assert!(run.is_done());
}

#[test]
fn custom_hook_sequence() {
    let mut hooks = Vec::new();
    Hook::python(&mut hooks);
    Hook::go(&mut hooks);
    let mut run = EcosystemRun::new(Language::Python, hooks);
    let ran = drive(&mut run, &[Some(0), Some(0), Some(0), Some(0)]);
    assert_eq!(ran, vec!["pip list --outdated", "pip audit", "go test -v", "go list -u -m -json all"]);
    assert!(run.finish(2).passed);
}

#[test]
fn marker_matching() {
    assert!(matches_marker("*.csproj", "App.csproj"));
    assert!(!matches_marker("*.csproj", "App.csproj.bak"));
    assert!(matches_marker("*.cabal", "lib.cabal"));
    assert!(matches_marker("Cargo.toml", "Cargo.toml"));
    assert!(!matches_marker("Cargo.toml", "cargo.toml"));
    assert!(!matches_marker("go.mod", "go.modx"));
}

#[test]
fn detection_follows_registry_order() {
    let entries = vec![file("package.json"), file("README.md"), file("tsconfig.json"), file("Cargo.toml")];
    assert_eq!(detect(&entries), vec![Language::Rust, Language::Typescript, Language::Javascript]);
}

#[test]
fn detection_by_glob_counts_once() {
    let entries = vec![file("a.csproj"), file("b.csproj"), file("x.cabal")];
    assert_eq!(detect(&entries), vec![Language::Haskell, Language::CSharp]);
}

#[test]
fn detection_ignores_directories() {
    let entries = vec![dir("Cargo.toml"), dir("go.mod"), file("main.go")];
    assert!(detect(&entries).is_empty());
}

#[test]
fn add_if_exists_pushes_once() {
    let entries = vec![file("a.csproj"), file("b.csproj")];
    let mut found = vec![Language::Rust];
    add_if_exists("*.csproj", Language::CSharp, &mut found, &entries);
    assert_eq!(found, vec![Language::Rust, Language::CSharp]);
    add_if_exists("go.mod", Language::Go, &mut found, &entries);
    assert_eq!(found, vec![Language::Rust, Language::CSharp]);
}

#[test]
fn no_marker_no_ecosystem() {
    let entries = vec![file("README.md"), dir("src")];
    assert_eq!(plan(&entries).unwrap_err(), RunError::NoEcosystemDetected);
    assert_eq!(plan(&Vec::new()).unwrap_err(), RunError::NoEcosystemDetected);
    assert_eq!(RunError::NoEcosystemDetected.message(), "No language detected");
}

fn texts(rows: &[Vec<String>]) -> Vec<Vec<&str>> {
    rows.iter().map(|r| r.iter().map(|c| c.as_str()).collect()).collect()
}

#[test]
fn go_with_failing_audit() {
    let entries = vec![file("go.mod")];
    let detected = plan(&entries).unwrap();
    assert_eq!(detected, vec![Language::Go]);
    let mut all = Vec::new();
    let mut run = EcosystemRun::for_language(Language::Go);
    drive(&mut run, &[Some(0), Some(1)]);
    run_hook(&run, &mut all, 4);
    assert_eq!(all, vec![EcosystemResult { language: Language::Go, passed: false, elapsed: 4 }]);
    let rows = report_rows(&all, 5);
    assert_eq!(
        texts(&rows),
        vec![
            vec!["Language", "Status", "Take"],
            vec!["Go", "Failure", "4s"],
            vec!["All", "Failure", "5s"],
        ]
    );
    assert_eq!(conclude(&all), Err(RunError::SomeChecksFailed));
    assert_eq!(RunError::SomeChecksFailed.message(), "Some checks failed.");
}

#[test]
fn rust_all_passing() {
    let entries = vec![file("Cargo.toml"), dir("src")];
    let detected = plan(&entries).unwrap();
    assert_eq!(detected, vec![Language::Rust]);
    let mut all = Vec::new();
    let mut run = EcosystemRun::for_language(Language::Rust);
    let ran = drive(&mut run, &[Some(0); 8]);
    assert_eq!(ran.len(), 8);
    run_hook(&run, &mut all, 61);
    assert!(all[0].passed);
    assert!(overall_passed(&all));
    let rows = report_rows(&all, 62);
    assert_eq!(texts(&rows)[1], vec!["Rust", "Success", "61s"]);
    assert_eq!(texts(&rows)[2], vec!["All", "Success", "62s"]);
    assert_eq!(conclude(&all), Ok(0));
}

#[test]
fn two_runs_same_codes_same_report() {
    let once = || {
        let mut all = Vec::new();
        for language in [Language::Go, Language::Python] {
            let mut run = EcosystemRun::for_language(language);
            drive(&mut run, &[Some(0), Some(3)]);
            run_hook(&run, &mut all, 1);
        }
        (report_rows(&all, 2), conclude(&all), render_report(&all, 2))
    };
    let (rows_a, status_a, table_a) = once();
    let (rows_b, status_b, table_b) = once();
    assert_eq!(rows_a, rows_b);
    assert_eq!(status_a, status_b);
    assert_eq!(table_a, table_b);
}

#[test]
fn rendered_table_shows_every_cell() {
    let all = vec![
        EcosystemResult { language: Language::Dart, passed: true, elapsed: 3 },
        EcosystemResult { language: Language::Elixir, passed: false, elapsed: 7 },
    ];
    let table = render_report(&all, 11);
    for cell in ["Language", "Status", "Take", "Dart", "Success", "3s", "Elixir", "Failure", "7s", "All", "11s"] {
        assert!(table.contains(cell), "{cell} missing from {table}");
    }
    assert!(table.contains('╭'));
    let dart = table.find("Dart").unwrap();
    let elixir = table.find("Elixir").unwrap();
    assert!(dart < elixir);
}

#[test]
fn empty_report_passes() {
    let all: Vec<EcosystemResult> = Vec::new();
    assert!(overall_passed(&all));
    assert_eq!(conclude(&all), Ok(0));
    assert_eq!(texts(&report_rows(&all, 0)), vec![vec!["Language", "Status", "Take"], vec!["All", "Success", "0s"]]);
}
