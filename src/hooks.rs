use crate::language::Language;
use vstd::prelude::*;

verus! {

/// One verification step of an ecosystem: a shell command with the messages
/// shown while and after it runs, and the name of the log files that keep its
/// output.
#[derive(Clone, Copy, Debug)]
pub struct Hook {
    pub language: Language,
    pub description: &'static str,
    pub success: &'static str,
    pub failure: &'static str,
    pub file: &'static str,
    pub command: &'static str,
}

/// The catalog sequence of `D`.
pub open spec fn d_hooks() -> Seq<Hook> {
    seq![
        Hook {
            language: Language::D,
            description: "Building your project",
            success: "Build successful",
            failure: "Build failed",
            file: "build.log",
            command: "dub build",
        },
        Hook {
            language: Language::D,
            description: "Testing your project",
            success: "Tests passed",
            failure: "Tests failed",
            file: "test.log",
            command: "dub test",
        },
    ]
}

/// The catalog sequence of `Haskell`.
pub open spec fn haskell_hooks() -> Seq<Hook> {
    seq![
        Hook {
            language: Language::Haskell,
            description: "Checking for outdated packages in your project",
            success: "No outdated packages found",
            failure: "Outdated packages found",
            file: "outdated.log",
            command: "cabal outdated",
        },
        Hook {
            language: Language::Haskell,
            description: "Checking for security vulnerabilities",
            success: "No vulnerabilities found",
            failure: "Vulnerabilities found",
            file: "audit.log",
            command: "cabal audit",
        },
        Hook {
            language: Language::Haskell,
            description: "Running tests for your Haskell project",
            success: "Tests passed",
            failure: "Tests failed",
            file: "test.log",
            command: "cabal test",
        },
    ]
}

/// The checks that `Typescript` adds after the `Javascript` sequence.
pub open spec fn typescript_checks() -> Seq<Hook> {
    seq![
        Hook {
            language: Language::Typescript,
            description: "Checking for type in your project",
            success: "Types are valid",
            failure: "Type errors found",
            file: "types.log",
            command: "npx tsc --noEmit",
        },
        Hook {
            language: Language::Typescript,
            description: "Checking for code formatting in your project",
            success: "Code is formatted correctly",
            failure: "Code formating issues found",
            file: "fmt.log",
            command: "npx prettier --check .",
        },
    ]
}

/// The catalog sequence of `Maven`.
pub open spec fn maven_hooks() -> Seq<Hook> {
    seq![
        Hook {
            language: Language::Maven,
            description: "Checking for outdated dependencies",
            success: "No outdated dependencies found",
            failure: "Outdated dependencies found",
            file: "outdated.log",
            command: "mvn dependency:tree",
        },
        Hook {
            language: Language::Maven,
            description: "Checking for security vulnerabilities",
            success: "No vulnerabilities found",
            failure: "Vulnerabilities found",
            file: "audit.log",
            command: "mvn dependency-check:check",
        },
        Hook {
            language: Language::Maven,
            description: "Running tests for your Maven project",
            success: "Tests passed",
            failure: "Tests failed",
            file: "test.log",
            command: "mvn test",
        },
        Hook {
            language: Language::Maven,
            description: "Checking for outdated packages in your project",
            success: "No outdated packages found",
            failure: "Outdated packages found",
            file: "outdated.log",
            command: "mvn versions:display-dependency-updates",
        },
    ]
}

/// The catalog sequence of `Gradle`.
pub open spec fn gradle_hooks() -> Seq<Hook> {
    seq![
        Hook {
            language: Language::Gradle,
            description: "Checking for outdated dependencies",
            success: "No outdated dependencies found",
            failure: "Outdated dependencies found",
            file: "outdated.log",
            command: "gradle dependencyUpdates",
        },
        Hook {
            language: Language::Gradle,
            description: "Checking for security vulnerabilities",
            success: "No vulnerabilities found",
            failure: "Vulnerabilities found",
            file: "audit.log",
            command: "gradle dependencyCheckAnalyze",
        },
        Hook {
            language: Language::Gradle,
            description: "Running tests for your Gradle project",
            success: "Tests passed",
            failure: "Tests failed",
            file: "test.log",
            command: "gradle test",
        },
    ]
}

/// The catalog sequence of `Javascript`.
pub open spec fn javascript_hooks() -> Seq<Hook> {
    seq![
        Hook {
            language: Language::Javascript,
            description: "Checking for outdated packages in your project",
            success: "No outdated packages found",
            failure: "Outdated packages found",
            file: "outdated.log",
            command: "npm outdated",
        },
        Hook {
            language: Language::Javascript,
            description: "Testing your project",
            success: "Tests passed",
            failure: "Tests failed",
            file: "test.log",
            command: "npm run test",
        },
        Hook {
            language: Language::Javascript,
            description: "Auditing your project",
            success: "No vulnerabilities found",
            failure: "Vulnerabilities found",
            file: "audit.log",
            command: "npm audit",
        },
        Hook {
            language: Language::Javascript,
            description: "Checking for code formatting in your project",
            success: "Linting passed",
            failure: "Lint error found",
            file: "lint.log",
            command: "npm run lint",
        },
    ]
}

/// The catalog sequence of `Rust`.
pub open spec fn rust_hooks() -> Seq<Hook> {
    seq![
        Hook {
            language: Language::Rust,
            description: "Checking the configuration",
            success: "Project is valid",
            failure: "Project not valid",
            file: "project.log",
            command: "cargo verify-project",
        },
        Hook {
            language: Language::Rust,
            description: "Checking build capability",
            success: "Can build the project",
            failure: "Cargo check detect failure",
            file: "check.log",
            command: "cargo check",
        },
        Hook {
            language: Language::Rust,
            description: "Checking for security vulnerabilities",
            success: "No vulnerabilities found",
            failure: "Vulnerabilities found",
            file: "audit.log",
            command: "cargo audit",
        },
        Hook {
            language: Language::Rust,
            description: "Checks for formatting issues in your Rust code",
            success: "Code format standard respected",
            failure: "Code format standard not respected",
            file: "fmt.log",
            command: "cargo fmt --check",
        },
        Hook {
            language: Language::Rust,
            description: "Checks for linting issues and suggests code improvements",
            success: "No warning founded",
            failure: "Warnings founded",
            file: "clippy.log",
            command: "cargo clippy -- -D clippy::all -W warnings -D clippy::pedantic -D clippy::nursery -A clippy::multiple_crate_versions",
        },
        Hook {
            language: Language::Rust,
            description: "Testing your project",
            success: "Tests passed",
            failure: "Tests failed",
            file: "test.log",
            command: "cargo test --no-fail-fast",
        },
        Hook {
            language: Language::Rust,
            description: "Generating documentation for your project",
            success: "Documentation generated",
            failure: "Failed to generate documentation",
            file: "doc.log",
            command: "cargo doc --no-deps --document-private-items",
        },
        Hook {
            language: Language::Rust,
            description: "Checking for outdated packages in your project",
            success: "No outdated packages found",
            failure: "Outdated packages found",
            file: "outdated.log",
            command: "cargo outdated",
        },
    ]
}

/// The catalog sequence of `Python`.
pub open spec fn python_hooks() -> Seq<Hook> {
    seq![
        Hook {
            language: Language::Python,
            description: "Checking for outdated packages in your project",
            success: "No outdated packages found",
            failure: "Outdated packages found",
            file: "outdated.log",
            command: "pip list --outdated",
        },
        Hook {
            language: Language::Python,
            description: "Checking for security vulnerabilities",
            success: "No vulnerabilities found",
            failure: "Vulnerabilities found",
            file: "audit.log",
            command: "pip audit",
        },
    ]
}

/// The catalog sequence of `Go`.
pub open spec fn go_hooks() -> Seq<Hook> {
    seq![
        Hook {
            language: Language::Go,
            description: "Testing your project",
            success: "Tests passed",
            failure: "Tests failed",
            file: "test.log",
            command: "go test -v",
        },
        Hook {
            language: Language::Go,
            description: "Checking for security vulnerabilities",
            success: "No vulnerabilities found",
            failure: "Vulnerabilities found",
            file: "audit.log",
            command: "go list -u -m -json all",
        },
    ]
}

/// The catalog sequence of `Php`.
pub open spec fn php_hooks() -> Seq<Hook> {
    seq![
        Hook {
            language: Language::Php,
            description: "Checking platform requirements",
            success: "All requirements are met",
            failure: "Missing requirements found",
            file: "reqs.log",
            command: "composer check-platform-reqs",
        },
        Hook {
            language: Language::Php,
            description: "Checking for security vulnerabilities",
            success: "No vulnerabilities found",
            failure: "Vulnerabilities found",
            file: "audit.log",
            command: "composer audit",
        },
        Hook {
            language: Language::Php,
            description: "Checking outdated packages",
            success: "No outdated packages found",
            failure: "Outdated packages found",
            file: "outdated.log",
            command: "composer outdated",
        },
        Hook {
            language: Language::Php,
            description: "Running tests for your PHP project",
            success: "Tests passed",
            failure: "Tests failed",
            file: "test.log",
            command: "composer run test",
        },
    ]
}

/// The catalog sequence of `Ruby`.
pub open spec fn ruby_hooks() -> Seq<Hook> {
    seq![
        Hook {
            language: Language::Ruby,
            description: "Checking for outdated gems",
            success: "No outdated gems found",
            failure: "Outdated gems found",
            file: "outdated.log",
            command: "bundle outdated",
        },
        Hook {
            language: Language::Ruby,
            description: "Checking for security vulnerabilities",
            success: "No vulnerabilities found",
            failure: "Vulnerabilities found",
            file: "audit.log",
            command: "bundle audit",
        },
        Hook {
            language: Language::Ruby,
            description: "Running tests for your Ruby project",
            success: "Tests passed",
            failure: "Tests failed",
            file: "test.log",
            command: "bundle exec rspec",
        },
    ]
}

/// The catalog sequence of `CMake`.
pub open spec fn cmake_hooks() -> Seq<Hook> {
    seq![
        Hook {
            language: Language::CMake,
            description: "Generate Makefile",
            success: "Makefile generation success.",
            failure: "Makefile generation failed",
            file: "cmake.log",
            command: "cmake .",
        },
        Hook {
            language: Language::CMake,
            description: "Building",
            success: "Build success",
            failure: "Build failed",
            file: "make.log",
            command: "make",
        },
        Hook {
            language: Language::CMake,
            description: "Testing",
            success: "Tests passed",
            failure: "Tests failed",
            file: "test.log",
            command: "make test",
        },
    ]
}

/// The catalog sequence of `CSharp`.
pub open spec fn csharp_hooks() -> Seq<Hook> {
    seq![
        Hook {
            language: Language::CSharp,
            description: "Checking for code formatting",
            success: "Code formatting is correct",
            failure: "Code formatting issues found",
            file: "format.log",
            command: "dotnet format --verify-no-changes",
        },
        Hook {
            language: Language::CSharp,
            description: "Running unit tests",
            success: "All tests passed",
            failure: "Some tests failed",
            file: "test.log",
            command: "dotnet test",
        },
        Hook {
            language: Language::CSharp,
            description: "Building the project",
            success: "Build successful",
            failure: "Build failed",
            file: "build.log",
            command: "dotnet build",
        },
        Hook {
            language: Language::CSharp,
            description: "Checking for dependency updates",
            success: "Dependencies are up to date",
            failure: "Dependency updates available",
            file: "deps.log",
            command: "dotnet restore",
        },
        Hook {
            language: Language::CSharp,
            description: "Checking for security vulnerabilities",
            success: "No vulnerabilities found",
            failure: "Vulnerabilities found",
            file: "audit.log",
            command: "dotnet audit",
        },
    ]
}

/// The catalog sequence of `Swift`.
pub open spec fn swift_hooks() -> Seq<Hook> {
    seq![
        Hook {
            language: Language::Swift,
            description: "Checking for code formatting",
            success: "Code formatting is correct",
            failure: "Code formatting issues found",
            file: "format.log",
            command: "swiftformat --lint .",
        },
        Hook {
            language: Language::Swift,
            description: "Running unit tests",
            success: "All tests passed",
            failure: "Some tests failed",
            file: "test.log",
            command: "swift test",
        },
        Hook {
            language: Language::Swift,
            description: "Checking for security vulnerabilities",
            success: "No vulnerabilities found",
            failure: "Vulnerabilities found",
            file: "audit.log",
            command: "swift package audit",
        },
        Hook {
            language: Language::Swift,
            description: "Building the project",
            success: "Build successful",
            failure: "Build failed",
            file: "build.log",
            command: "swift build",
        },
        Hook {
            language: Language::Swift,
            description: "Running integration tests",
            success: "All integration tests passed",
            failure: "Some integration tests failed",
            file: "integration.log",
            command: "swift test --parallel",
        },
    ]
}

/// The catalog sequence of `Dart`.
pub open spec fn dart_hooks() -> Seq<Hook> {
    seq![
        Hook {
            language: Language::Dart,
            description: "Checking for code formatting",
            success: "Code formatting is correct",
            failure: "Code formatting issues found",
            file: "format.log",
            command: "dart format --set-exit-if-changed",
        },
        Hook {
            language: Language::Dart,
            description: "Running unit tests",
            success: "All tests passed",
            failure: "Some tests failed",
            file: "test.log",
            command: "dart test",
        },
        Hook {
            language: Language::Dart,
            description: "Checking for security vulnerabilities",
            success: "No vulnerabilities found",
            failure: "Vulnerabilities found",
            file: "audit.log",
            command: "dart pub audit",
        },
        Hook {
            language: Language::Dart,
            description: "Building the project",
            success: "Build successful",
            failure: "Build failed",
            file: "build.log",
            command: "dart compile exe bin/main.dart",
        },
    ]
}

/// The catalog sequence of `Elixir`.
pub open spec fn elixir_hooks() -> Seq<Hook> {
    seq![
        Hook {
            language: Language::Elixir,
            description: "Checking for code formatting",
            success: "Code formatting is correct",
            failure: "Code formatting issues found",
            file: "format.log",
            command: "mix format --check-formatted",
        },
        Hook {
            language: Language::Elixir,
            description: "Running unit tests",
            success: "All tests passed",
            failure: "Some tests failed",
            file: "test.log",
            command: "mix test",
        },
        Hook {
            language: Language::Elixir,
            description: "Generating documentation",
            success: "Documentation generated successfully",
            failure: "Documentation generation failed",
            file: "docs.log",
            command: "mix docs",
        },
        Hook {
            language: Language::Elixir,
            description: "Checking for security vulnerabilities",
            success: "No vulnerabilities found",
            failure: "Vulnerabilities found",
            file: "audit.log",
            command: "mix audit",
        },
        Hook {
            language: Language::Elixir,
            description: "Building the project",
            success: "Build successful",
            failure: "Build failed",
            file: "build.log",
            command: "mix compile",
        },
    ]
}

/// The ordered hook sequence of `language`; empty for the ecosystems that are
/// detected but not verified.
pub open spec fn hooks_for(language: Language) -> Seq<Hook> {
    match language {
        Language::Unknown | Language::R | Language::Kotlin => Seq::empty(),
        Language::Typescript => javascript_hooks() + typescript_checks(),
        Language::D => d_hooks(),
        Language::Haskell => haskell_hooks(),
        Language::Maven => maven_hooks(),
        Language::Gradle => gradle_hooks(),
        Language::Javascript => javascript_hooks(),
        Language::Rust => rust_hooks(),
        Language::Python => python_hooks(),
        Language::Go => go_hooks(),
        Language::Php => php_hooks(),
        Language::Ruby => ruby_hooks(),
        Language::CMake => cmake_hooks(),
        Language::CSharp => csharp_hooks(),
        Language::Swift => swift_hooks(),
        Language::Dart => dart_hooks(),
        Language::Elixir => elixir_hooks(),
    }
}

/// The `Typescript` sequence is the four `Javascript` hooks followed by exactly
/// two checks of its own: the type check, then the format check.
pub proof fn lemma_typescript_extends_javascript()
    ensures
        hooks_for(Language::Typescript) == hooks_for(Language::Javascript)
            + typescript_checks(),
        hooks_for(Language::Javascript).len() == 4,
        typescript_checks().len() == 2,
        hooks_for(Language::Typescript).len() == 6,
        typescript_checks()[0].command@ == "npx tsc --noEmit"@,
        typescript_checks()[1].command@ == "npx prettier --check ."@,
{
}

impl Hook {
    /// Appends the catalog sequence of `D`.
    pub fn d(hooks: &mut Vec<Self>)
        ensures
            final(hooks)@ == old(hooks)@ + d_hooks(),
    {
        hooks.push(
            Hook {
                language: Language::D,
                description: "Building your project",
                success: "Build successful",
                failure: "Build failed",
                file: "build.log",
                command: "dub build",
            },
        );
        hooks.push(
            Hook {
                language: Language::D,
                description: "Testing your project",
                success: "Tests passed",
                failure: "Tests failed",
                file: "test.log",
                command: "dub test",
            },
        );
    }

    /// Appends the catalog sequence of `Haskell`.
    pub fn haskell(hooks: &mut Vec<Self>)
        ensures
            final(hooks)@ == old(hooks)@ + haskell_hooks(),
    {
        hooks.push(
            Hook {
                language: Language::Haskell,
                description: "Checking for outdated packages in your project",
                success: "No outdated packages found",
                failure: "Outdated packages found",
                file: "outdated.log",
                command: "cabal outdated",
            },
        );
        hooks.push(
            Hook {
                language: Language::Haskell,
                description: "Checking for security vulnerabilities",
                success: "No vulnerabilities found",
                failure: "Vulnerabilities found",
                file: "audit.log",
                command: "cabal audit",
            },
        );
        hooks.push(
            Hook {
                language: Language::Haskell,
                description: "Running tests for your Haskell project",
                success: "Tests passed",
                failure: "Tests failed",
                file: "test.log",
                command: "cabal test",
            },
        );
    }

    /// Appends the `Javascript` sequence, then the checks that `Typescript` adds.
    pub fn typescript(hooks: &mut Vec<Self>)
        ensures
            final(hooks)@ == old(hooks)@ + javascript_hooks() + typescript_checks(),
    {
        Self::javascript(hooks);
        hooks.push(
            Hook {
                language: Language::Typescript,
                description: "Checking for type in your project",
                success: "Types are valid",
                failure: "Type errors found",
                file: "types.log",
                command: "npx tsc --noEmit",
            },
        );
        hooks.push(
            Hook {
                language: Language::Typescript,
                description: "Checking for code formatting in your project",
                success: "Code is formatted correctly",
                failure: "Code formating issues found",
                file: "fmt.log",
                command: "npx prettier --check .",
            },
        );
    }

    /// Appends the catalog sequence of `Maven`.
    pub fn maven(hooks: &mut Vec<Self>)
        ensures
            final(hooks)@ == old(hooks)@ + maven_hooks(),
    {
        hooks.push(
            Hook {
                language: Language::Maven,
                description: "Checking for outdated dependencies",
                success: "No outdated dependencies found",
                failure: "Outdated dependencies found",
                file: "outdated.log",
                command: "mvn dependency:tree",
            },
        );
        hooks.push(
            Hook {
                language: Language::Maven,
                description: "Checking for security vulnerabilities",
                success: "No vulnerabilities found",
                failure: "Vulnerabilities found",
                file: "audit.log",
                command: "mvn dependency-check:check",
            },
        );
        hooks.push(
            Hook {
                language: Language::Maven,
                description: "Running tests for your Maven project",
                success: "Tests passed",
                failure: "Tests failed",
                file: "test.log",
                command: "mvn test",
            },
        );
        hooks.push(
            Hook {
                language: Language::Maven,
                description: "Checking for outdated packages in your project",
                success: "No outdated packages found",
                failure: "Outdated packages found",
                file: "outdated.log",
                command: "mvn versions:display-dependency-updates",
            },
        );
    }

    /// Appends the catalog sequence of `Gradle`.
    pub fn gradle(hooks: &mut Vec<Self>)
        ensures
            final(hooks)@ == old(hooks)@ + gradle_hooks(),
    {
        hooks.push(
            Hook {
                language: Language::Gradle,
                description: "Checking for outdated dependencies",
                success: "No outdated dependencies found",
                failure: "Outdated dependencies found",
                file: "outdated.log",
                command: "gradle dependencyUpdates",
            },
        );
        hooks.push(
            Hook {
                language: Language::Gradle,
                description: "Checking for security vulnerabilities",
                success: "No vulnerabilities found",
                failure: "Vulnerabilities found",
                file: "audit.log",
                command: "gradle dependencyCheckAnalyze",
            },
        );
        hooks.push(
            Hook {
                language: Language::Gradle,
                description: "Running tests for your Gradle project",
                success: "Tests passed",
                failure: "Tests failed",
                file: "test.log",
                command: "gradle test",
            },
        );
    }

    /// Appends the catalog sequence of `Javascript`.
    pub fn javascript(hooks: &mut Vec<Self>)
        ensures
            final(hooks)@ == old(hooks)@ + javascript_hooks(),
    {
        hooks.push(
            Hook {
                language: Language::Javascript,
                description: "Checking for outdated packages in your project",
                success: "No outdated packages found",
                failure: "Outdated packages found",
                file: "outdated.log",
                command: "npm outdated",
            },
        );
        hooks.push(
            Hook {
                language: Language::Javascript,
                description: "Testing your project",
                success: "Tests passed",
                failure: "Tests failed",
                file: "test.log",
                command: "npm run test",
            },
        );
        hooks.push(
            Hook {
                language: Language::Javascript,
                description: "Auditing your project",
                success: "No vulnerabilities found",
                failure: "Vulnerabilities found",
                file: "audit.log",
                command: "npm audit",
            },
        );
        hooks.push(
            Hook {
                language: Language::Javascript,
                description: "Checking for code formatting in your project",
                success: "Linting passed",
                failure: "Lint error found",
                file: "lint.log",
                command: "npm run lint",
            },
        );
    }

    /// Appends the catalog sequence of `Rust`.
    pub fn rust(hooks: &mut Vec<Self>)
        ensures
            final(hooks)@ == old(hooks)@ + rust_hooks(),
    {
        hooks.push(
            Hook {
                language: Language::Rust,
                description: "Checking the configuration",
                success: "Project is valid",
                failure: "Project not valid",
                file: "project.log",
                command: "cargo verify-project",
            },
        );
        hooks.push(
            Hook {
                language: Language::Rust,
                description: "Checking build capability",
                success: "Can build the project",
                failure: "Cargo check detect failure",
                file: "check.log",
                command: "cargo check",
            },
        );
        hooks.push(
            Hook {
                language: Language::Rust,
                description: "Checking for security vulnerabilities",
                success: "No vulnerabilities found",
                failure: "Vulnerabilities found",
                file: "audit.log",
                command: "cargo audit",
            },
        );
        hooks.push(
            Hook {
                language: Language::Rust,
                description: "Checks for formatting issues in your Rust code",
                success: "Code format standard respected",
                failure: "Code format standard not respected",
                file: "fmt.log",
                command: "cargo fmt --check",
            },
        );
        hooks.push(
            Hook {
                language: Language::Rust,
                description: "Checks for linting issues and suggests code improvements",
                success: "No warning founded",
                failure: "Warnings founded",
                file: "clippy.log",
                command: "cargo clippy -- -D clippy::all -W warnings -D clippy::pedantic -D clippy::nursery -A clippy::multiple_crate_versions",
            },
        );
        hooks.push(
            Hook {
                language: Language::Rust,
                description: "Testing your project",
                success: "Tests passed",
                failure: "Tests failed",
                file: "test.log",
                command: "cargo test --no-fail-fast",
            },
        );
        hooks.push(
            Hook {
                language: Language::Rust,
                description: "Generating documentation for your project",
                success: "Documentation generated",
                failure: "Failed to generate documentation",
                file: "doc.log",
                command: "cargo doc --no-deps --document-private-items",
            },
        );
        hooks.push(
            Hook {
                language: Language::Rust,
                description: "Checking for outdated packages in your project",
                success: "No outdated packages found",
                failure: "Outdated packages found",
                file: "outdated.log",
                command: "cargo outdated",
            },
        );
    }

    /// Appends the catalog sequence of `Python`.
    pub fn python(hooks: &mut Vec<Self>)
        ensures
            final(hooks)@ == old(hooks)@ + python_hooks(),
    {
        hooks.push(
            Hook {
                language: Language::Python,
                description: "Checking for outdated packages in your project",
                success: "No outdated packages found",
                failure: "Outdated packages found",
                file: "outdated.log",
                command: "pip list --outdated",
            },
        );
        hooks.push(
            Hook {
                language: Language::Python,
                description: "Checking for security vulnerabilities",
                success: "No vulnerabilities found",
                failure: "Vulnerabilities found",
                file: "audit.log",
                command: "pip audit",
            },
        );
    }

    /// Appends the catalog sequence of `Go`.
    pub fn go(hooks: &mut Vec<Self>)
        ensures
            final(hooks)@ == old(hooks)@ + go_hooks(),
    {
        hooks.push(
            Hook {
                language: Language::Go,
                description: "Testing your project",
                success: "Tests passed",
                failure: "Tests failed",
                file: "test.log",
                command: "go test -v",
            },
        );
        hooks.push(
            Hook {
                language: Language::Go,
                description: "Checking for security vulnerabilities",
                success: "No vulnerabilities found",
                failure: "Vulnerabilities found",
                file: "audit.log",
                command: "go list -u -m -json all",
            },
        );
    }

    /// Appends the catalog sequence of `Php`.
    pub fn php(hooks: &mut Vec<Self>)
        ensures
            final(hooks)@ == old(hooks)@ + php_hooks(),
    {
        hooks.push(
            Hook {
                language: Language::Php,
                description: "Checking platform requirements",
                success: "All requirements are met",
                failure: "Missing requirements found",
                file: "reqs.log",
                command: "composer check-platform-reqs",
            },
        );
        hooks.push(
            Hook {
                language: Language::Php,
                description: "Checking for security vulnerabilities",
                success: "No vulnerabilities found",
                failure: "Vulnerabilities found",
                file: "audit.log",
                command: "composer audit",
            },
        );
        hooks.push(
            Hook {
                language: Language::Php,
                description: "Checking outdated packages",
                success: "No outdated packages found",
                failure: "Outdated packages found",
                file: "outdated.log",
                command: "composer outdated",
            },
        );
        hooks.push(
            Hook {
                language: Language::Php,
                description: "Running tests for your PHP project",
                success: "Tests passed",
                failure: "Tests failed",
                file: "test.log",
                command: "composer run test",
            },
        );
    }

    /// Appends the catalog sequence of `Ruby`.
    pub fn ruby(hooks: &mut Vec<Self>)
        ensures
            final(hooks)@ == old(hooks)@ + ruby_hooks(),
    {
        hooks.push(
            Hook {
                language: Language::Ruby,
                description: "Checking for outdated gems",
                success: "No outdated gems found",
                failure: "Outdated gems found",
                file: "outdated.log",
                command: "bundle outdated",
            },
        );
        hooks.push(
            Hook {
                language: Language::Ruby,
                description: "Checking for security vulnerabilities",
                success: "No vulnerabilities found",
                failure: "Vulnerabilities found",
                file: "audit.log",
                command: "bundle audit",
            },
        );
        hooks.push(
            Hook {
                language: Language::Ruby,
                description: "Running tests for your Ruby project",
                success: "Tests passed",
                failure: "Tests failed",
                file: "test.log",
                command: "bundle exec rspec",
            },
        );
    }

    /// Appends the catalog sequence of `CMake`.
    pub fn cmake(hooks: &mut Vec<Self>)
        ensures
            final(hooks)@ == old(hooks)@ + cmake_hooks(),
    {
        hooks.push(
            Hook {
                language: Language::CMake,
                description: "Generate Makefile",
                success: "Makefile generation success.",
                failure: "Makefile generation failed",
                file: "cmake.log",
                command: "cmake .",
            },
        );
        hooks.push(
            Hook {
                language: Language::CMake,
                description: "Building",
                success: "Build success",
                failure: "Build failed",
                file: "make.log",
                command: "make",
            },
        );
        hooks.push(
            Hook {
                language: Language::CMake,
                description: "Testing",
                success: "Tests passed",
                failure: "Tests failed",
                file: "test.log",
                command: "make test",
            },
        );
    }

    /// Appends the catalog sequence of `CSharp`.
    pub fn csharp(hooks: &mut Vec<Self>)
        ensures
            final(hooks)@ == old(hooks)@ + csharp_hooks(),
    {
        hooks.push(
            Hook {
                language: Language::CSharp,
                description: "Checking for code formatting",
                success: "Code formatting is correct",
                failure: "Code formatting issues found",
                file: "format.log",
                command: "dotnet format --verify-no-changes",
            },
        );
        hooks.push(
            Hook {
                language: Language::CSharp,
                description: "Running unit tests",
                success: "All tests passed",
                failure: "Some tests failed",
                file: "test.log",
                command: "dotnet test",
            },
        );
        hooks.push(
            Hook {
                language: Language::CSharp,
                description: "Building the project",
                success: "Build successful",
                failure: "Build failed",
                file: "build.log",
                command: "dotnet build",
            },
        );
        hooks.push(
            Hook {
                language: Language::CSharp,
                description: "Checking for dependency updates",
                success: "Dependencies are up to date",
                failure: "Dependency updates available",
                file: "deps.log",
                command: "dotnet restore",
            },
        );
        hooks.push(
            Hook {
                language: Language::CSharp,
                description: "Checking for security vulnerabilities",
                success: "No vulnerabilities found",
                failure: "Vulnerabilities found",
                file: "audit.log",
                command: "dotnet audit",
            },
        );
    }

    /// Appends the catalog sequence of `Swift`.
    pub fn swift(hooks: &mut Vec<Self>)
        ensures
            final(hooks)@ == old(hooks)@ + swift_hooks(),
    {
        hooks.push(
            Hook {
                language: Language::Swift,
                description: "Checking for code formatting",
                success: "Code formatting is correct",
                failure: "Code formatting issues found",
                file: "format.log",
                command: "swiftformat --lint .",
            },
        );
        hooks.push(
            Hook {
                language: Language::Swift,
                description: "Running unit tests",
                success: "All tests passed",
                failure: "Some tests failed",
                file: "test.log",
                command: "swift test",
            },
        );
        hooks.push(
            Hook {
                language: Language::Swift,
                description: "Checking for security vulnerabilities",
                success: "No vulnerabilities found",
                failure: "Vulnerabilities found",
                file: "audit.log",
                command: "swift package audit",
            },
        );
        hooks.push(
            Hook {
                language: Language::Swift,
                description: "Building the project",
                success: "Build successful",
                failure: "Build failed",
                file: "build.log",
                command: "swift build",
            },
        );
        hooks.push(
            Hook {
                language: Language::Swift,
                description: "Running integration tests",
                success: "All integration tests passed",
                failure: "Some integration tests failed",
                file: "integration.log",
                command: "swift test --parallel",
            },
        );
    }

    /// Appends the catalog sequence of `Dart`.
    pub fn dart(hooks: &mut Vec<Self>)
        ensures
            final(hooks)@ == old(hooks)@ + dart_hooks(),
    {
        hooks.push(
            Hook {
                language: Language::Dart,
                description: "Checking for code formatting",
                success: "Code formatting is correct",
                failure: "Code formatting issues found",
                file: "format.log",
                command: "dart format --set-exit-if-changed",
            },
        );
        hooks.push(
            Hook {
                language: Language::Dart,
                description: "Running unit tests",
                success: "All tests passed",
                failure: "Some tests failed",
                file: "test.log",
                command: "dart test",
            },
        );
        hooks.push(
            Hook {
                language: Language::Dart,
                description: "Checking for security vulnerabilities",
                success: "No vulnerabilities found",
                failure: "Vulnerabilities found",
                file: "audit.log",
                command: "dart pub audit",
            },
        );
        hooks.push(
            Hook {
                language: Language::Dart,
                description: "Building the project",
                success: "Build successful",
                failure: "Build failed",
                file: "build.log",
                command: "dart compile exe bin/main.dart",
            },
        );
    }

    /// Appends the catalog sequence of `Elixir`.
    pub fn elixir(hooks: &mut Vec<Self>)
        ensures
            final(hooks)@ == old(hooks)@ + elixir_hooks(),
    {
        hooks.push(
            Hook {
                language: Language::Elixir,
                description: "Checking for code formatting",
                success: "Code formatting is correct",
                failure: "Code formatting issues found",
                file: "format.log",
                command: "mix format --check-formatted",
            },
        );
        hooks.push(
            Hook {
                language: Language::Elixir,
                description: "Running unit tests",
                success: "All tests passed",
                failure: "Some tests failed",
                file: "test.log",
                command: "mix test",
            },
        );
        hooks.push(
            Hook {
                language: Language::Elixir,
                description: "Generating documentation",
                success: "Documentation generated successfully",
                failure: "Documentation generation failed",
                file: "docs.log",
                command: "mix docs",
            },
        );
        hooks.push(
            Hook {
                language: Language::Elixir,
                description: "Checking for security vulnerabilities",
                success: "No vulnerabilities found",
                failure: "Vulnerabilities found",
                file: "audit.log",
                command: "mix audit",
            },
        );
        hooks.push(
            Hook {
                language: Language::Elixir,
                description: "Building the project",
                success: "Build successful",
                failure: "Build failed",
                file: "build.log",
                command: "mix compile",
            },
        );
    }

    /// The ordered hook sequence of `language`.
    pub fn get(language: Language) -> (r: Vec<Self>)
        ensures
            r@ == hooks_for(language),
    {
        let mut hooks: Vec<Self> = Vec::new();
        match language {
            Language::Unknown | Language::R | Language::Kotlin => {},
            Language::D => Self::d(&mut hooks),
            Language::Haskell => Self::haskell(&mut hooks),
            Language::Typescript => Self::typescript(&mut hooks),
            Language::Maven => Self::maven(&mut hooks),
            Language::Gradle => Self::gradle(&mut hooks),
            Language::Javascript => Self::javascript(&mut hooks),
            Language::Rust => Self::rust(&mut hooks),
            Language::Python => Self::python(&mut hooks),
            Language::Go => Self::go(&mut hooks),
            Language::Php => Self::php(&mut hooks),
            Language::Ruby => Self::ruby(&mut hooks),
            Language::CMake => Self::cmake(&mut hooks),
            Language::CSharp => Self::csharp(&mut hooks),
            Language::Swift => Self::swift(&mut hooks),
            Language::Dart => Self::dart(&mut hooks),
            Language::Elixir => Self::elixir(&mut hooks),
        }
        proof {
            assert(hooks@ == Seq::<Hook>::empty() + hooks_for(language));
        }
        hooks
    }
}

} // verus!
