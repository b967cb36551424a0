use breathes::hooks::Hook;
use breathes::language::{languages, Language};

fn commands(hooks: &[Hook]) -> Vec<&'static str> {
    hooks.iter().map(|h| h.command).collect()
}

#[test]
fn typescript_is_javascript_then_two_checks() {
    let js = Hook::get(Language::Javascript);
    let ts = Hook::get(Language::Typescript);
    assert_eq!(js.len(), 4);
    assert_eq!(ts.len(), 6);
    assert_eq!(commands(&ts[..4]), commands(&js));
    assert_eq!(ts[4].command, "npx tsc --noEmit");
    assert_eq!(ts[5].command, "npx prettier --check .");
    assert_eq!(ts[4].language, Language::Typescript);
    assert_eq!(ts[0].language, Language::Javascript);
}

#[test]
fn rust_has_eight_hooks_in_order() {
    let hooks = Hook::get(Language::Rust);
    assert_eq!(
        commands(&hooks),
        vec![
            "cargo verify-project",
            "cargo check",
            "cargo audit",
            "cargo fmt --check",
            "cargo clippy -- -D clippy::all -W warnings -D clippy::pedantic -D clippy::nursery -A clippy::multiple_crate_versions",
            "cargo test --no-fail-fast",
            "cargo doc --no-deps --document-private-items",
            "cargo outdated",
        ]
    );
    assert!(hooks.iter().all(|h| h.language == Language::Rust));
    assert_eq!(hooks[3].file, "fmt.log");
    assert_eq!(hooks[5].success, "Tests passed");
    assert_eq!(hooks[5].failure, "Tests failed");
}

#[test]
fn go_hooks_are_test_then_audit() {
    let hooks = Hook::get(Language::Go);
    assert_eq!(commands(&hooks), vec!["go test -v", "go list -u -m -json all"]);
    assert_eq!(hooks[0].file, "test.log");
    assert_eq!(hooks[1].file, "audit.log");
}

#[test]
fn unverified_ecosystems_have_no_hooks() {
    assert!(Hook::get(Language::Unknown).is_empty());
    assert!(Hook::get(Language::R).is_empty());
    assert!(Hook::get(Language::Kotlin).is_empty());
}

#[test]
fn catalog_sizes() {
    let sizes = [
        (Language::D, 2),
        (Language::Haskell, 3),
        (Language::Maven, 4),
        (Language::Gradle, 3),
        (Language::Python, 2),
        (Language::Php, 4),
        (Language::Ruby, 3),
        (Language::CMake, 3),
        (Language::CSharp, 5),
        (Language::Swift, 5),
        (Language::Dart, 4),
        (Language::Elixir, 5),
    ];
    for (language, n) in sizes {
        let hooks = Hook::get(language);
        assert_eq!(hooks.len(), n, "{language:?}");
        assert!(hooks.iter().all(|h| h.language == language));
    }
}

#[test]
fn builders_append_to_what_is_there() {
    let mut hooks = Hook::get(Language::Go);
    Hook::d(&mut hooks);
    assert_eq!(
        commands(&hooks),
        vec!["go test -v", "go list -u -m -json all", "dub build", "dub test"]
    );
}

#[test]
fn markers_and_names() {
    assert_eq!(Language::get_file(Language::Rust), "Cargo.toml");
    assert_eq!(Language::get_file(Language::CSharp), "*.csproj");
    assert_eq!(Language::get_file(Language::Haskell), "*.cabal");
    assert_eq!(Language::get_file(Language::Kotlin), "build.gradle.kts");
    assert_eq!(Language::get_file(Language::R), "");
    assert_eq!(Language::get_file(Language::Unknown), "");
    assert_eq!(Language::CMake.name(), "CMake");
    assert_eq!(Language::CSharp.name(), "CSharp");
    assert_eq!(Language::Unknown.name(), "Unknown");
}

#[test]
fn language_from_name() {
    assert_eq!(Language::from(String::from("Go")), Language::Go);
    assert_eq!(Language::from(String::from("Typescript")), Language::Typescript);
    assert_eq!(Language::from(String::from("Haskell")), Language::Haskell);
    assert_eq!(Language::from(String::from("go")), Language::Unknown);
    assert_eq!(Language::from(String::from("R")), Language::Unknown);
    assert_eq!(Language::from(String::new()), Language::Unknown);
}

#[test]
fn registry_order_and_markers() {
    let table = languages();
    assert_eq!(table.len(), 17);
    assert_eq!(table[0], (Language::Rust, "Cargo.toml"));
    assert_eq!(table[1], (Language::Typescript, "tsconfig.json"));
    assert_eq!(table[16], (Language::Python, "requirements.txt"));
    for (language, marker) in table {
        assert_eq!(Language::get_file(language), marker);
        assert_ne!(marker, "");
    }
}
