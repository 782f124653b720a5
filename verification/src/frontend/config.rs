//! Configuration handling for the rules compiler.

use crate::config::{lowercase_of, to_lowercase};
use crate::frontend::error::CompilerError;
use crate::paths::{extension_of, path_extension};
use crate::text::{concat, owned, same_text};
use vstd::prelude::*;

verus! {

/// Supported configuration formats.
#[derive(Debug, Clone, Copy, PartialEq, Eq, Structural)]
pub enum ConfigFormat {
    Json,
    Yaml,
    Toml,
}

impl ConfigFormat {
    /// The format that a name stands for: `json`, `yaml` or `yml`, `toml`.
    pub open spec fn named(name: Seq<char>) -> Option<ConfigFormat> {
        if name == "json"@ {
            Some(ConfigFormat::Json)
        } else if name == "yaml"@ || name == "yml"@ {
            Some(ConfigFormat::Yaml)
        } else if name == "toml"@ {
            Some(ConfigFormat::Toml)
        } else {
            None
        }
    }

    /// The format that `name` stands for, letter for letter.
    pub fn from_name(name: &str) -> (r: Option<Self>)
        ensures
            r == Self::named(name@),
    {
        if same_text(name, "json") {
            Some(ConfigFormat::Json)
        } else if same_text(name, "yaml") || same_text(name, "yml") {
            Some(ConfigFormat::Yaml)
        } else if same_text(name, "toml") {
            Some(ConfigFormat::Toml)
        } else {
            None
        }
    }

    /// Detect format from file extension, which is told from the format's
    /// name letter for letter.
    ///
    /// # Errors
    ///
    /// Returns `InvalidFormat` where the path has no extension, or one that
    /// names no format.
    pub fn from_path(path: &str) -> (r: Result<Self, CompilerError>)
        ensures
            match extension_of(path@) {
                Some(ext) => match Self::named(ext) {
                    Some(format) => r matches Ok(f) && f == format,
                    None => r matches Err(CompilerError::InvalidFormat(m)) && m@
                        == "Unknown extension: ."@ + ext,
                },
                None => r matches Err(CompilerError::InvalidFormat(m)) && m@
                    == "No file extension"@,
            },
    {
        match path_extension(path) {
            Some(ext) => match Self::from_name(ext.as_str()) {
                Some(format) => Ok(format),
                None => Err(
                    CompilerError::InvalidFormat(concat("Unknown extension: .", ext.as_str())),
                ),
            },
            None => Err(CompilerError::InvalidFormat(owned("No file extension"))),
        }
    }

    /// Parse from string, whatever the case of its letters.
    ///
    /// # Errors
    ///
    /// Returns `InvalidFormat`, with the string as given, where it names no
    /// format.
    pub fn from_str(s: &str) -> (r: Result<Self, CompilerError>)
        ensures
            match Self::named(lowercase_of(s@)) {
                Some(format) => r matches Ok(f) && f == format,
                None => r matches Err(CompilerError::InvalidFormat(m)) && m@
                    == "Unknown format: "@ + s@,
            },
    {
        let lowered = to_lowercase(s);
        match Self::from_name(lowered.as_str()) {
            Some(format) => Ok(format),
            None => Err(CompilerError::InvalidFormat(concat("Unknown format: ", s))),
        }
    }
}

/// A filter source in the configuration.
#[derive(Debug, Clone)]
pub struct FilterSource {
    /// Source name
    pub name: String,
    /// Source type (file, url, inline)
    pub source_type: String,
    /// Source URL (for url type)
    pub source: Option<String>,
    /// Inline content (for inline type)
    pub content: Option<Vec<String>>,
}

/// Compiler configuration.
#[derive(Debug, Clone)]
pub struct CompilerConfig {
    /// Filter name
    pub name: String,
    /// Filter version
    pub version: String,
    /// Description
    pub description: Option<String>,
    /// License
    pub license: Option<String>,
    /// Homepage URL
    pub homepage: Option<String>,
    /// Filter sources
    pub sources: Vec<FilterSource>,
    /// Transformations to apply
    pub transformations: Vec<String>,
}

/// The paths at which a configuration is looked for, in the order in which
/// they are tried.
pub open spec fn search_paths() -> Seq<Seq<char>> {
    seq![
        "compiler-config.json"@,
        "compiler-config.yaml"@,
        "compiler-config.yml"@,
        "compiler-config.toml"@,
        "../compiler-config.json"@,
    ]
}

/// The paths at which a configuration is looked for, in the order in which
/// they are tried.
pub fn default_config_paths() -> (r: Vec<&'static str>)
    ensures
        r@.map_values(|s: &'static str| s@) == search_paths(),
        r@.len() == 5,
{
    let mut r: Vec<&'static str> = Vec::new();
    r.push("compiler-config.json");
    r.push("compiler-config.yaml");
    r.push("compiler-config.yml");
    r.push("compiler-config.toml");
    r.push("../compiler-config.json");
    assert(r@.map_values(|s: &'static str| s@) =~= search_paths());
    r
}

/// The first of the search paths that is there, where `present` tells of
/// each search path, in their order, whether a file is there; a path that
/// `present` does not reach counts as absent.
pub open spec fn first_present(present: Seq<bool>) -> Option<Seq<char>> {
    if exists|i: int| 0 <= i < search_paths().len() && i < present.len() && present[i] {
        Some(
            search_paths()[choose|i: int|
                0 <= i < search_paths().len() && i < present.len() && present[i] && forall|j: int|
                    0 <= j < i ==> !present[j]],
        )
    } else {
        None
    }
}

/// Find default configuration file: the first of the search paths at which
/// a file is present.
pub fn find_default_config(present: &Vec<bool>) -> (r: Option<String>)
    ensures
        match r {
            Some(p) => first_present(present@) == Some(p@),
            None => first_present(present@) is None,
        },
{
    let paths = default_config_paths();
    let mut i: usize = 0;
    while i < paths.len()
        invariant
            i <= paths.len(),
            paths@.len() == 5,
            paths@.map_values(|s: &'static str| s@) == search_paths(),
            forall|j: int| 0 <= j < i && j < present@.len() ==> !present@[j],
        decreases paths.len() - i,
    {
        if i < present.len() && present[i] {
            proof {
                let c = choose|c: int|
                    0 <= c < search_paths().len() && c < present@.len() && present@[c] && forall|
                        j: int,
                    |
                        0 <= j < c ==> !present@[j];
                assert(c == i) by {
                    if c < i {
                        assert(!present@[c]);
                    }
                    if c > i {
                        assert(!present@[i as int]);
                    }
                }
                assert(paths@.map_values(|s: &'static str| s@)[i as int] == paths@[i as int]@);
            }
            return Some(paths[i].to_owned());
        }
        i = i + 1;
    }
    None
}

} // verus!
