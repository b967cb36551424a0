use crate::text::same_text;
use vstd::prelude::*;

verus! {

pub const CS_PROJ: &'static str = "*.csproj";
pub const MAVEN_POM: &'static str = "pom.xml";
pub const GRADLE_BUILD: &'static str = "build.gradle";
pub const RUST_FILE: &'static str = "Cargo.toml";
pub const GO_FILE: &'static str = "go.mod";
pub const PHP_FILE: &'static str = "composer.json";
pub const NODE_FILE: &'static str = "package.json";
pub const CMAKE_FILE: &'static str = "CMakeLists.txt";
pub const ELIXIR_FILE: &'static str = "mix.exs";
pub const RUBY_FILE: &'static str = "Gemfile";
pub const DART_FILE: &'static str = "pubspec.yaml";
pub const KOTLIN_FILE: &'static str = "build.gradle.kts";
pub const SWIFT_FILE: &'static str = "Package.swift";
pub const PYTHON_FILE: &'static str = "requirements.txt";
pub const TYPESCRIPT_FILE: &'static str = "tsconfig.json";
pub const HASKELL_FILE: &'static str = "*.cabal";
pub const D_FILE: &'static str = "dub.json";

/// A language or build-tool ecosystem that a project may use.
#[derive(Clone, Copy, Debug, Hash, PartialEq, Eq, Structural)]
pub enum Language {
    Unknown,
    R,
    Javascript,
    Typescript,
    Haskell,
    D,
    Rust,
    Python,
    Go,
    Php,
    Ruby,
    CMake,
    CSharp,
    Maven,
    Kotlin,
    Gradle,
    Swift,
    Dart,
    Elixir,
}

/// The marker file name or glob pattern whose presence signals `language`;
/// empty for the ecosystems that are never detected.
pub open spec fn marker_of(language: Language) -> Seq<char> {
    match language {
        Language::Javascript => NODE_FILE@,
        Language::Typescript => TYPESCRIPT_FILE@,
        Language::Haskell => HASKELL_FILE@,
        Language::Rust => RUST_FILE@,
        Language::Python => PYTHON_FILE@,
        Language::Go => GO_FILE@,
        Language::Php => PHP_FILE@,
        Language::Ruby => RUBY_FILE@,
        Language::CMake => CMAKE_FILE@,
        Language::CSharp => CS_PROJ@,
        Language::Maven => MAVEN_POM@,
        Language::Kotlin => KOTLIN_FILE@,
        Language::Gradle => GRADLE_BUILD@,
        Language::Swift => SWIFT_FILE@,
        Language::Dart => DART_FILE@,
        Language::Elixir => ELIXIR_FILE@,
        Language::D => D_FILE@,
        Language::R | Language::Unknown => Seq::empty(),
    }
}

impl Language {
    /// The marker of `language` (see `marker_of`).
    pub fn get_file(language: Self) -> (r: &'static str)
        ensures
            r@ == marker_of(language),
    {
        match language {
            Self::Javascript => NODE_FILE,
            Self::Typescript => TYPESCRIPT_FILE,
            Self::Haskell => HASKELL_FILE,
            Self::Rust => RUST_FILE,
            Self::Python => PYTHON_FILE,
            Self::Go => GO_FILE,
            Self::Php => PHP_FILE,
            Self::Ruby => RUBY_FILE,
            Self::CMake => CMAKE_FILE,
            Self::CSharp => CS_PROJ,
            Self::Maven => MAVEN_POM,
            Self::Kotlin => KOTLIN_FILE,
            Self::Gradle => GRADLE_BUILD,
            Self::Swift => SWIFT_FILE,
            Self::Dart => DART_FILE,
            Self::Elixir => ELIXIR_FILE,
            Self::D => D_FILE,
            Self::R | Self::Unknown => {
                proof {
                    reveal_strlit("");
                }
                ""
            },
        }
    }
}


/// The display name of `language`.
pub open spec fn name_of(language: Language) -> Seq<char> {
    match language {
        Language::Javascript => "Javascript"@,
        Language::Typescript => "Typescript"@,
        Language::Rust => "Rust"@,
        Language::Python => "Python"@,
        Language::Go => "Go"@,
        Language::Php => "Php"@,
        Language::Ruby => "Ruby"@,
        Language::CMake => "CMake"@,
        Language::CSharp => "CSharp"@,
        Language::Maven => "Maven"@,
        Language::Kotlin => "Kotlin"@,
        Language::Gradle => "Gradle"@,
        Language::Swift => "Swift"@,
        Language::Dart => "Dart"@,
        Language::Elixir => "Elixir"@,
        Language::D => "D"@,
        Language::Unknown => "Unknown"@,
        Language::Haskell => "Haskell"@,
        Language::R => "R"@,
    }
}

/// The ecosystem whose display name is `s`; `Unknown` for any other text.
/// `R` has no name that leads to it.
pub open spec fn language_named(s: Seq<char>) -> Language {
    if s == "Javascript"@ {
        Language::Javascript
    }     else if s == "Typescript"@ {
        Language::Typescript
    }     else if s == "Rust"@ {
        Language::Rust
    }     else if s == "Python"@ {
        Language::Python
    }     else if s == "Go"@ {
        Language::Go
    }     else if s == "Php"@ {
        Language::Php
    }     else if s == "Ruby"@ {
        Language::Ruby
    }     else if s == "CMake"@ {
        Language::CMake
    }     else if s == "CSharp"@ {
        Language::CSharp
    }     else if s == "Maven"@ {
        Language::Maven
    }     else if s == "Kotlin"@ {
        Language::Kotlin
    }     else if s == "Gradle"@ {
        Language::Gradle
    }     else if s == "Swift"@ {
        Language::Swift
    }     else if s == "Dart"@ {
        Language::Dart
    }     else if s == "Elixir"@ {
        Language::Elixir
    }     else if s == "D"@ {
        Language::D
    }     else if s == "Haskell"@ {
        Language::Haskell
    } else {
        Language::Unknown
    }
}

/// The ecosystems that detection looks for, in the order they are reported.
pub open spec fn registry() -> Seq<Language> {
    seq![
        Language::Rust,
        Language::Typescript,
        Language::Haskell,
        Language::D,
        Language::Javascript,
        Language::CSharp,
        Language::Maven,
        Language::Go,
        Language::Ruby,
        Language::Dart,
        Language::Gradle,
        Language::Kotlin,
        Language::Swift,
        Language::Php,
        Language::CMake,
        Language::Elixir,
        Language::Python,
    ]
}

impl Language {
    /// The display name of this ecosystem.
    pub fn name(&self) -> (r: &'static str)
        ensures
            r@ == name_of(*self),
    {
        match self {
            Self::Javascript => "Javascript",
            Self::Typescript => "Typescript",
            Self::Rust => "Rust",
            Self::Python => "Python",
            Self::Go => "Go",
            Self::Php => "Php",
            Self::Ruby => "Ruby",
            Self::CMake => "CMake",
            Self::CSharp => "CSharp",
            Self::Maven => "Maven",
            Self::Kotlin => "Kotlin",
            Self::Gradle => "Gradle",
            Self::Swift => "Swift",
            Self::Dart => "Dart",
            Self::Elixir => "Elixir",
            Self::D => "D",
            Self::Unknown => "Unknown",
            Self::Haskell => "Haskell",
            Self::R => "R",
        }
    }
}

impl From<String> for Language {
    fn from(value: String) -> (r: Self) {
        let v = value.as_str();
        if same_text(v, "Javascript") {
            return Self::Javascript;
        }
        if same_text(v, "Typescript") {
            return Self::Typescript;
        }
        if same_text(v, "Rust") {
            return Self::Rust;
        }
        if same_text(v, "Python") {
            return Self::Python;
        }
        if same_text(v, "Go") {
            return Self::Go;
        }
        if same_text(v, "Php") {
            return Self::Php;
        }
        if same_text(v, "Ruby") {
            return Self::Ruby;
        }
        if same_text(v, "CMake") {
            return Self::CMake;
        }
        if same_text(v, "CSharp") {
            return Self::CSharp;
        }
        if same_text(v, "Maven") {
            return Self::Maven;
        }
        if same_text(v, "Kotlin") {
            return Self::Kotlin;
        }
        if same_text(v, "Gradle") {
            return Self::Gradle;
        }
        if same_text(v, "Swift") {
            return Self::Swift;
        }
        if same_text(v, "Dart") {
            return Self::Dart;
        }
        if same_text(v, "Elixir") {
            return Self::Elixir;
        }
        if same_text(v, "D") {
            return Self::D;
        }
        if same_text(v, "Haskell") {
            return Self::Haskell;
        }
        Self::Unknown
    }
}

impl vstd::std_specs::convert::FromSpecImpl<String> for Language {
    open spec fn obeys_from_spec() -> bool {
        true
    }

    open spec fn from_spec(value: String) -> Language {
        language_named(value@)
    }
}

/// Each ecosystem of the registry paired with its marker, in registry order.
pub fn languages() -> (r: Vec<(Language, &'static str)>)
    ensures
        r@.len() == registry().len(),
        forall|i: int| 0 <= i < r@.len() ==> {
            &&& (#[trigger] r@[i]).0 == registry()[i]
            &&& r@[i].1@ == marker_of(r@[i].0)
        },
{
    vec![
        (Language::Rust, Language::get_file(Language::Rust)),
        (Language::Typescript, Language::get_file(Language::Typescript)),
        (Language::Haskell, Language::get_file(Language::Haskell)),
        (Language::D, Language::get_file(Language::D)),
        (Language::Javascript, Language::get_file(Language::Javascript)),
        (Language::CSharp, Language::get_file(Language::CSharp)),
        (Language::Maven, Language::get_file(Language::Maven)),
        (Language::Go, Language::get_file(Language::Go)),
        (Language::Ruby, Language::get_file(Language::Ruby)),
        (Language::Dart, Language::get_file(Language::Dart)),
        (Language::Gradle, Language::get_file(Language::Gradle)),
        (Language::Kotlin, Language::get_file(Language::Kotlin)),
        (Language::Swift, Language::get_file(Language::Swift)),
        (Language::Php, Language::get_file(Language::Php)),
        (Language::CMake, Language::get_file(Language::CMake)),
        (Language::Elixir, Language::get_file(Language::Elixir)),
        (Language::Python, Language::get_file(Language::Python)),
    ]
}

} // verus!
