//! The configuration of a compilation: its sources, its format, and the
//! checks that it must pass before it is compiled.

use crate::error::CompilerError;
use crate::paths::{extension_of, joined_path, path_extension, path_join};
use crate::text::{
    concat, copy_optional_text, copy_texts, count_where, decimal, decimal_string, has_prefix,
    lemma_count_where_step, optional_text, owned, same_text, starts_with,
    texts,
};
use vstd::prelude::*;

verus! {

/// What `str::to_lowercase` returns for a text: its lower-case form by the
/// Unicode case mappings.
pub uninterp spec fn lowercase_of(s: Seq<char>) -> Seq<char>;

/// Calls `str::to_lowercase`. The contract only gives the result its name.
#[verifier::external_body]
pub(crate) fn to_lowercase(s: &str) -> (r: String)
    ensures
        r@ == lowercase_of(s@),
{
    s.to_lowercase()
}

/// Supported configuration file formats.
#[derive(Debug, Clone, Copy, PartialEq, Eq, Hash, Structural)]
pub enum ConfigFormat {
    /// JSON format (.json)
    Json,
    /// YAML format (.yaml, .yml)
    Yaml,
    /// TOML format (.toml)
    Toml,
}

impl Default for ConfigFormat {
    fn default() -> (r: Self)
        ensures
            r == ConfigFormat::Json,
    {
        ConfigFormat::Json
    }
}

impl ConfigFormat {
    /// The format that a lower-case extension names.
    pub open spec fn of_lowercase(lowered: Seq<char>) -> Option<ConfigFormat> {
        if lowered == "json"@ {
            Some(ConfigFormat::Json)
        } else if lowered == "yaml"@ || lowered == "yml"@ {
            Some(ConfigFormat::Yaml)
        } else if lowered == "toml"@ {
            Some(ConfigFormat::Toml)
        } else {
            None
        }
    }

    /// The file extensions associated with each format.
    pub open spec fn extension_list(self) -> Seq<Seq<char>> {
        match self {
            ConfigFormat::Json => seq!["json"@],
            ConfigFormat::Yaml => seq!["yaml"@, "yml"@],
            ConfigFormat::Toml => seq!["toml"@],
        }
    }

    /// Get the file extensions associated with this format.
    #[must_use]
    pub fn extensions(&self) -> (r: Vec<&'static str>)
        ensures
            r@.map_values(|s: &'static str| s@) == self.extension_list(),
    {
        let mut r: Vec<&'static str> = Vec::new();
        match self {
            ConfigFormat::Json => {
                r.push("json");
            },
            ConfigFormat::Yaml => {
                r.push("yaml");
                r.push("yml");
            },
            ConfigFormat::Toml => {
                r.push("toml");
            },
        }
        assert(r@.map_values(|s: &'static str| s@) =~= self.extension_list());
        r
    }

    /// The format that a lower-case name or extension stands for: `json`,
    /// `yaml` or `yml`, `toml`.
    pub fn from_lowercase(lowered: &str) -> (r: Option<Self>)
        ensures
            r == Self::of_lowercase(lowered@),
    {
        if same_text(lowered, "json") {
            Some(ConfigFormat::Json)
        } else if same_text(lowered, "yaml") || same_text(lowered, "yml") {
            Some(ConfigFormat::Yaml)
        } else if same_text(lowered, "toml") {
            Some(ConfigFormat::Toml)
        } else {
            None
        }
    }

    /// Detect format from file extension, whatever the case of its letters.
    ///
    /// # Errors
    ///
    /// Returns `UnknownExtension`, with the extension as given, if the
    /// extension is not recognized.
    pub fn from_extension(ext: &str) -> (r: Result<Self, CompilerError>)
        ensures
            match r {
                Ok(format) => Self::of_lowercase(lowercase_of(ext@)) == Some(format),
                Err(e) => Self::of_lowercase(lowercase_of(ext@)) is None && (e matches CompilerError::UnknownExtension {
                    extension,
                } && extension@ == ext@),
            },
    {
        let lowered = to_lowercase(ext);
        match Self::from_lowercase(lowered.as_str()) {
            Some(format) => Ok(format),
            None => Err(CompilerError::unknown_extension(ext)),
        }
    }

    /// The extension by which the format of a path is told: that of its file
    /// name, or the empty text where it has none.
    pub open spec fn detected_extension(path: Seq<char>) -> Seq<char> {
        match extension_of(path) {
            Some(e) => e,
            None => Seq::empty(),
        }
    }

    /// Detect format from file path.
    ///
    /// # Errors
    ///
    /// Returns `UnknownExtension` if the extension is missing or not recognized.
    pub fn from_path(path: &str) -> (r: Result<Self, CompilerError>)
        ensures
            match r {
                Ok(format) => Self::of_lowercase(lowercase_of(Self::detected_extension(path@)))
                    == Some(format),
                Err(e) => Self::of_lowercase(lowercase_of(Self::detected_extension(path@))) is None
                    && (e matches CompilerError::UnknownExtension { extension } && extension@
                    == Self::detected_extension(path@)),
            },
    {
        match path_extension(path) {
            Some(ext) => Self::from_extension(ext.as_str()),
            None => {
                let r = Self::from_extension("");
                proof {
                    reveal_strlit("");
                    assert(""@ =~= Seq::<char>::empty());
                }
                r
            },
        }
    }

    /// The name of the format, in capitals.
    pub open spec fn label(self) -> Seq<char> {
        match self {
            ConfigFormat::Json => "JSON"@,
            ConfigFormat::Yaml => "YAML"@,
            ConfigFormat::Toml => "TOML"@,
        }
    }

    /// The name of the format, in capitals.
    pub fn to_string(&self) -> (r: String)
        ensures
            r@ == self.label(),
    {
        match self {
            ConfigFormat::Json => owned("JSON"),
            ConfigFormat::Yaml => owned("YAML"),
            ConfigFormat::Toml => owned("TOML"),
        }
    }
}

/// Available transformations that can be applied during compilation.
#[derive(Debug, Clone, Copy, PartialEq, Eq, Structural)]
pub enum Transformation {
    /// Remove comment lines from the output.
    RemoveComments,
    /// Compress the output by removing unnecessary whitespace.
    Compress,
    /// Remove rule modifiers.
    RemoveModifiers,
    /// Validate rules and remove invalid ones.
    Validate,
    /// Validate and allow IP addresses in rules.
    ValidateAllowIp,
    /// Remove duplicate rules.
    Deduplicate,
    /// Invert allow rules.
    InvertAllow,
    /// Remove empty lines.
    RemoveEmptyLines,
    /// Trim whitespace from line beginnings and ends.
    TrimLines,
    /// Insert a final newline at the end of output.
    InsertFinalNewLine,
    /// Convert internationalized domain names to ASCII.
    ConvertToAscii,
}

impl Transformation {
    /// The name under which a configuration lists the transformation.
    pub open spec fn label(self) -> Seq<char> {
        match self {
            Transformation::RemoveComments => "RemoveComments"@,
            Transformation::Compress => "Compress"@,
            Transformation::RemoveModifiers => "RemoveModifiers"@,
            Transformation::Validate => "Validate"@,
            Transformation::ValidateAllowIp => "ValidateAllowIp"@,
            Transformation::Deduplicate => "Deduplicate"@,
            Transformation::InvertAllow => "InvertAllow"@,
            Transformation::RemoveEmptyLines => "RemoveEmptyLines"@,
            Transformation::TrimLines => "TrimLines"@,
            Transformation::InsertFinalNewLine => "InsertFinalNewLine"@,
            Transformation::ConvertToAscii => "ConvertToAscii"@,
        }
    }

    /// The name under which a configuration lists the transformation.
    pub fn to_string(&self) -> (r: String)
        ensures
            r@ == self.label(),
    {
        match self {
            Transformation::RemoveComments => owned("RemoveComments"),
            Transformation::Compress => owned("Compress"),
            Transformation::RemoveModifiers => owned("RemoveModifiers"),
            Transformation::Validate => owned("Validate"),
            Transformation::ValidateAllowIp => owned("ValidateAllowIp"),
            Transformation::Deduplicate => owned("Deduplicate"),
            Transformation::InvertAllow => owned("InvertAllow"),
            Transformation::RemoveEmptyLines => owned("RemoveEmptyLines"),
            Transformation::TrimLines => owned("TrimLines"),
            Transformation::InsertFinalNewLine => owned("InsertFinalNewLine"),
            Transformation::ConvertToAscii => owned("ConvertToAscii"),
        }
    }
}

/// Source type for filter lists.
#[derive(Debug, Clone, Copy, PartialEq, Eq, Structural)]
pub enum SourceType {
    /// AdBlock-style filter list.
    Adblock,
    /// Hosts file format.
    Hosts,
}

impl Default for SourceType {
    fn default() -> (r: Self)
        ensures
            r == SourceType::Adblock,
    {
        SourceType::Adblock
    }
}

impl SourceType {
    /// The name of the source type, in lower case.
    pub open spec fn label(self) -> Seq<char> {
        match self {
            SourceType::Adblock => "adblock"@,
            SourceType::Hosts => "hosts"@,
        }
    }

    /// The name of the source type, in lower case.
    pub fn to_string(&self) -> (r: String)
        ensures
            r@ == self.label(),
    {
        match self {
            SourceType::Adblock => owned("adblock"),
            SourceType::Hosts => owned("hosts"),
        }
    }
}

/// A source filter list to compile.
#[derive(Debug)]
pub struct FilterSource {
    /// Name of the source.
    pub name: String,
    /// Source URL or file path.
    pub source: String,
    /// Type of the source.
    pub source_type: SourceType,
    /// Transformations to apply to this source only.
    pub transformations: Vec<String>,
    /// Inclusion patterns for this source.
    pub inclusions: Vec<String>,
    /// Exclusion patterns for this source.
    pub exclusions: Vec<String>,
}

/// What a source holds, as plain text.
pub struct FilterSourceView {
    pub name: Seq<char>,
    pub source: Seq<char>,
    pub source_type: SourceType,
    pub transformations: Seq<Seq<char>>,
    pub inclusions: Seq<Seq<char>>,
    pub exclusions: Seq<Seq<char>>,
}

impl View for FilterSource {
    type V = FilterSourceView;

    open spec fn view(&self) -> FilterSourceView {
        FilterSourceView {
            name: self.name@,
            source: self.source@,
            source_type: self.source_type,
            transformations: texts(self.transformations@),
            inclusions: texts(self.inclusions@),
            exclusions: texts(self.exclusions@),
        }
    }
}

impl FilterSourceView {
    /// The source is fetched over HTTP or HTTPS.
    pub open spec fn is_url(self) -> bool {
        has_prefix(self.source, "http://"@) || has_prefix(self.source, "https://"@)
    }
}

impl Clone for FilterSource {
    fn clone(&self) -> (r: Self)
        ensures
            r@ == self@,
    {
        FilterSource {
            name: self.name.clone(),
            source: self.source.clone(),
            source_type: self.source_type,
            transformations: copy_texts(&self.transformations),
            inclusions: copy_texts(&self.inclusions),
            exclusions: copy_texts(&self.exclusions),
        }
    }
}

impl Default for FilterSource {
    fn default() -> (r: Self)
        ensures
            r@ == (FilterSourceView {
                name: Seq::empty(),
                source: Seq::empty(),
                source_type: SourceType::Adblock,
                transformations: Seq::empty(),
                inclusions: Seq::empty(),
                exclusions: Seq::empty(),
            }),
    {
        let r = FilterSource {
            name: String::new(),
            source: String::new(),
            source_type: SourceType::Adblock,
            transformations: Vec::new(),
            inclusions: Vec::new(),
            exclusions: Vec::new(),
        };
        assert(texts(r.transformations@) =~= Seq::empty());
        assert(texts(r.inclusions@) =~= Seq::empty());
        assert(texts(r.exclusions@) =~= Seq::empty());
        r
    }
}

impl FilterSource {
    /// Create a new filter source: an adblock list without transformations or
    /// patterns of its own.
    #[must_use]
    pub fn new(name: &str, source: &str) -> (r: Self)
        ensures
            r@ == (FilterSourceView {
                name: name@,
                source: source@,
                source_type: SourceType::Adblock,
                transformations: Seq::empty(),
                inclusions: Seq::empty(),
                exclusions: Seq::empty(),
            }),
    {
        let r = FilterSource {
            name: owned(name),
            source: owned(source),
            source_type: SourceType::Adblock,
            transformations: Vec::new(),
            inclusions: Vec::new(),
            exclusions: Vec::new(),
        };
        assert(texts(r.transformations@) =~= Seq::empty());
        assert(texts(r.inclusions@) =~= Seq::empty());
        assert(texts(r.exclusions@) =~= Seq::empty());
        r
    }

    /// Set the source type.
    #[must_use]
    pub fn with_type(self, source_type: SourceType) -> (r: Self)
        ensures
            r@ == (FilterSourceView { source_type, ..self@ }),
    {
        let mut r = self;
        r.source_type = source_type;
        r
    }

    /// Check if the source is a URL.
    #[must_use]
    pub fn is_url(&self) -> (r: bool)
        ensures
            r == self@.is_url(),
    {
        starts_with(self.source.as_str(), "http://") || starts_with(
            self.source.as_str(),
            "https://",
        )
    }

    /// Check if the source is a local file.
    #[must_use]
    pub fn is_local(&self) -> (r: bool)
        ensures
            r == !self@.is_url(),
    {
        !self.is_url()
    }
}

/// The views of a list of sources.
pub open spec fn source_views(v: Seq<FilterSource>) -> Seq<FilterSourceView> {
    v.map_values(|s: FilterSource| s@)
}

/// A copy of `v[from..to]`.
pub fn copy_sources(v: &Vec<FilterSource>, from: usize, to: usize) -> (r: Vec<FilterSource>)
    requires
        from <= to <= v.len(),
    ensures
        source_views(r@) == source_views(v@).subrange(from as int, to as int),
{
    let mut r: Vec<FilterSource> = Vec::new();
    let mut i: usize = from;
    while i < to
        invariant
            from <= i <= to <= v.len(),
            r@.len() == i - from,
            forall|j: int| 0 <= j < i - from ==> (#[trigger] r@[j])@ == v@[from + j]@,
        decreases to - i,
    {
        r.push(v[i].clone());
        i = i + 1;
    }
    assert(source_views(r@) =~= source_views(v@).subrange(from as int, to as int));
    r
}

/// Configuration for the hostlist-compiler.
#[derive(Debug)]
pub struct CompilerConfig {
    /// Name of the filter list.
    pub name: String,
    /// Description of the filter list.
    pub description: String,
    /// Homepage URL.
    pub homepage: String,
    /// License identifier.
    pub license: String,
    /// Version of the filter list.
    pub version: String,
    /// List of source filter lists to compile.
    pub sources: Vec<FilterSource>,
    /// Global transformations to apply.
    pub transformations: Vec<String>,
    /// Global inclusion patterns.
    pub inclusions: Vec<String>,
    /// Global exclusion patterns.
    pub exclusions: Vec<String>,
    /// The format that the configuration was read in.
    pub source_format: Option<ConfigFormat>,
    /// The path that the configuration was read from.
    pub source_path: Option<String>,
}

/// What a configuration holds, as plain text.
pub struct CompilerConfigView {
    pub name: Seq<char>,
    pub description: Seq<char>,
    pub homepage: Seq<char>,
    pub license: Seq<char>,
    pub version: Seq<char>,
    pub sources: Seq<FilterSourceView>,
    pub transformations: Seq<Seq<char>>,
    pub inclusions: Seq<Seq<char>>,
    pub exclusions: Seq<Seq<char>>,
    pub source_format: Option<ConfigFormat>,
    pub source_path: Option<Seq<char>>,
}

impl View for CompilerConfig {
    type V = CompilerConfigView;

    open spec fn view(&self) -> CompilerConfigView {
        CompilerConfigView {
            name: self.name@,
            description: self.description@,
            homepage: self.homepage@,
            license: self.license@,
            version: self.version@,
            sources: source_views(self.sources@),
            transformations: texts(self.transformations@),
            inclusions: texts(self.inclusions@),
            exclusions: texts(self.exclusions@),
            source_format: self.source_format,
            source_path: optional_text(self.source_path),
        }
    }
}

impl CompilerConfigView {
    /// The configuration that holds nothing.
    pub open spec fn empty() -> Self {
        CompilerConfigView {
            name: Seq::empty(),
            description: Seq::empty(),
            homepage: Seq::empty(),
            license: Seq::empty(),
            version: Seq::empty(),
            sources: Seq::empty(),
            transformations: Seq::empty(),
            inclusions: Seq::empty(),
            exclusions: Seq::empty(),
            source_format: None,
            source_path: None,
        }
    }

    /// The first source without a location, if there is one.
    pub open spec fn first_unlocated(self) -> Option<int> {
        if exists|i: int| 0 <= i < self.sources.len() && self.sources[i].source.len() == 0 {
            Some(
                choose|i: int|
                    0 <= i < self.sources.len() && self.sources[i].source.len() == 0 && forall|
                        j: int,
                    |
                        0 <= j < i ==> self.sources[j].source.len() != 0,
            )
        } else {
            None
        }
    }

    /// Why the configuration is refused, if it is: it has no name, no source,
    /// or a source without a location (the first such source is named).
    pub open spec fn defect(self) -> Option<Seq<char>> {
        if self.name.len() == 0 {
            Some("configuration 'name' is required"@)
        } else if self.sources.len() == 0 {
            Some("at least one source is required"@)
        } else {
            match self.first_unlocated() {
                Some(i) => Some("source["@ + decimal(i as nat) + "].source is required"@),
                None => None,
            }
        }
    }

    /// How many sources are fetched from a URL.
    pub open spec fn remote_sources(self) -> nat {
        count_where(self.sources, |s: FilterSourceView| s.is_url())
    }

    /// How many sources are local files.
    pub open spec fn local_sources(self) -> nat {
        count_where(self.sources, |s: FilterSourceView| !s.is_url())
    }
}

impl Clone for CompilerConfig {
    fn clone(&self) -> (r: Self)
        ensures
            r@ == self@,
    {
        let sources = copy_sources(&self.sources, 0, self.sources.len());
        assert(source_views(self.sources@).subrange(0, self.sources.len() as int) =~= source_views(
            self.sources@,
        ));
        CompilerConfig {
            name: self.name.clone(),
            description: self.description.clone(),
            homepage: self.homepage.clone(),
            license: self.license.clone(),
            version: self.version.clone(),
            sources,
            transformations: copy_texts(&self.transformations),
            inclusions: copy_texts(&self.inclusions),
            exclusions: copy_texts(&self.exclusions),
            source_format: self.source_format,
            source_path: copy_optional_text(&self.source_path),
        }
    }
}

impl Default for CompilerConfig {
    fn default() -> (r: Self)
        ensures
            r@ == CompilerConfigView::empty(),
    {
        let r = CompilerConfig {
            name: String::new(),
            description: String::new(),
            homepage: String::new(),
            license: String::new(),
            version: String::new(),
            sources: Vec::new(),
            transformations: Vec::new(),
            inclusions: Vec::new(),
            exclusions: Vec::new(),
            source_format: None,
            source_path: None,
        };
        assert(source_views(r.sources@) =~= Seq::empty());
        assert(texts(r.transformations@) =~= Seq::empty());
        assert(texts(r.inclusions@) =~= Seq::empty());
        assert(texts(r.exclusions@) =~= Seq::empty());
        r
    }
}

impl CompilerConfig {
    /// Create a new empty configuration.
    #[must_use]
    pub fn new(name: &str) -> (r: Self)
        ensures
            r@ == (CompilerConfigView { name: name@, ..CompilerConfigView::empty() }),
    {
        let mut r = CompilerConfig::default();
        r.name = owned(name);
        r
    }

    /// Set the description.
    #[must_use]
    pub fn with_description(self, description: &str) -> (r: Self)
        ensures
            r@ == (CompilerConfigView { description: description@, ..self@ }),
    {
        let mut r = self;
        r.description = owned(description);
        r
    }

    /// Set the version.
    #[must_use]
    pub fn with_version(self, version: &str) -> (r: Self)
        ensures
            r@ == (CompilerConfigView { version: version@, ..self@ }),
    {
        let mut r = self;
        r.version = owned(version);
        r
    }

    /// Add a source, after those that are there.
    #[must_use]
    pub fn with_source(self, source: FilterSource) -> (r: Self)
        ensures
            r@ == (CompilerConfigView { sources: self@.sources.push(source@), ..self@ }),
    {
        let mut r = self;
        r.sources.push(source);
        assert(source_views(r.sources@) =~= source_views(self.sources@).push(source@));
        r
    }

    /// Add a transformation, after those that are there.
    #[must_use]
    pub fn with_transformation(self, transformation: &str) -> (r: Self)
        ensures
            r@ == (CompilerConfigView {
                transformations: self@.transformations.push(transformation@),
                ..self@
            }),
    {
        let mut r = self;
        r.transformations.push(owned(transformation));
        assert(texts(r.transformations@) =~= texts(self.transformations@).push(transformation@));
        r
    }

    /// Put down where the configuration was read from, and in which format.
    #[must_use]
    pub fn with_origin(self, format: ConfigFormat, path: &str) -> (r: Self)
        ensures
            r@ == (CompilerConfigView {
                source_format: Some(format),
                source_path: Some(path@),
                ..self@
            }),
    {
        let mut r = self;
        r.source_format = Some(format);
        r.source_path = Some(owned(path));
        r
    }

    /// Get the source format.
    #[must_use]
    pub fn format(&self) -> (r: Option<ConfigFormat>)
        ensures
            r == self@.source_format,
    {
        self.source_format
    }

    /// Get the source file path.
    #[must_use]
    pub fn path(&self) -> (r: Option<&str>)
        ensures
            match r {
                Some(p) => self@.source_path == Some(p@),
                None => self@.source_path is None,
            },
    {
        match &self.source_path {
            Some(p) => Some(p.as_str()),
            None => None,
        }
    }

    /// Validate the configuration.
    ///
    /// # Errors
    ///
    /// Returns `ValidationFailed` with the reason if the configuration has no
    /// name, no source, or a source without a location.
    pub fn validate(&self) -> (r: Result<(), CompilerError>)
        ensures
            match r {
                Ok(_) => self@.defect() is None,
                Err(e) => e matches CompilerError::ValidationFailed { message }
                    && self@.defect() == Some(message@),
            },
    {
        if self.name.as_str().is_empty() {
            return Err(CompilerError::validation_failed("configuration 'name' is required"));
        }
        if self.sources.len() == 0 {
            return Err(CompilerError::validation_failed("at least one source is required"));
        }
        let mut i: usize = 0;
        while i < self.sources.len()
            invariant
                i <= self.sources.len(),
                self@.name.len() != 0,
                self@.sources.len() != 0,
                forall|j: int| 0 <= j < i ==> (#[trigger] self@.sources[j]).source.len() != 0,
            decreases self.sources.len() - i,
        {
            if self.sources[i].source.as_str().is_empty() {
                let mut message = concat("source[", decimal_string(i as u128).as_str());
                message.append("].source is required");
                proof {
                    let v = self@;
                    assert(v.sources[i as int].source.len() == 0);
                    let k = v.first_unlocated()->0;
                    assert(k == i) by {
                        if k < i {
                            assert(v.sources[k].source.len() != 0);
                        }
                    }
                }
                return Err(CompilerError::validation_failed(message.as_str()));
            }
            i = i + 1;
        }
        Ok(())
    }

    /// Get local sources count.
    #[must_use]
    pub fn local_sources_count(&self) -> (r: usize)
        ensures
            r == self@.local_sources(),
    {
        let ghost f = |s: FilterSourceView| !s.is_url();
        let mut n: usize = 0;
        let mut i: usize = 0;
        while i < self.sources.len()
            invariant
                i <= self.sources.len(),
                n <= i,
                f == |s: FilterSourceView| !s.is_url(),
                n == count_where(self@.sources.subrange(0, i as int), f),
            decreases self.sources.len() - i,
        {
            proof {
                lemma_count_where_step(self@.sources, i as int, f);
            }
            if self.sources[i].is_local() {
                n = n + 1;
            }
            i = i + 1;
        }
        assert(self@.sources.subrange(0, i as int) =~= self@.sources);
        n
    }

    /// Get remote sources count.
    #[must_use]
    pub fn remote_sources_count(&self) -> (r: usize)
        ensures
            r == self@.remote_sources(),
    {
        let ghost f = |s: FilterSourceView| s.is_url();
        let mut n: usize = 0;
        let mut i: usize = 0;
        while i < self.sources.len()
            invariant
                i <= self.sources.len(),
                n <= i,
                f == |s: FilterSourceView| s.is_url(),
                n == count_where(self@.sources.subrange(0, i as int), f),
            decreases self.sources.len() - i,
        {
            proof {
                lemma_count_where_step(self@.sources, i as int, f);
            }
            if self.sources[i].is_url() {
                n = n + 1;
            }
            i = i + 1;
        }
        assert(self@.sources.subrange(0, i as int) =~= self@.sources);
        n
    }
}

/// The format in which the file at `path` is read: the one that the caller
/// names; else the one that the extension of the path tells; else JSON.
pub open spec fn reading_format(path: Seq<char>, format: Option<ConfigFormat>) -> ConfigFormat {
    match format {
        Some(f) => f,
        None => match ConfigFormat::of_lowercase(
            lowercase_of(ConfigFormat::detected_extension(path)),
        ) {
            Some(f) => f,
            None => ConfigFormat::Json,
        },
    }
}

/// Tells in which format the file at `path` is read.
pub fn config_format_for(path: &str, format: Option<ConfigFormat>) -> (r: ConfigFormat)
    ensures
        r == reading_format(path@, format),
{
    match format {
        Some(f) => f,
        None => match ConfigFormat::from_path(path) {
            Ok(f) => f,
            Err(_) => ConfigFormat::Json,
        },
    }
}

/// Parse format string to `ConfigFormat`, whatever the case of its letters.
pub fn parse_format(format: &str) -> (r: Option<ConfigFormat>)
    ensures
        r == ConfigFormat::of_lowercase(lowercase_of(format@)),
{
    let lowered = to_lowercase(format);
    ConfigFormat::from_lowercase(lowered.as_str())
}

/// The names under which a configuration is looked for in a directory, in
/// the order in which they are tried.
pub open spec fn config_names() -> Seq<Seq<char>> {
    seq!["compiler-config.json"@, "compiler-config.yaml"@, "compiler-config.toml"@]
}

/// The paths at which a configuration is looked for from the current
/// directory, in the order in which they are tried.
pub open spec fn default_config_paths() -> Seq<Seq<char>> {
    config_names().push("src/rules-compiler-typescript/compiler-config.json"@)
}

/// The paths at which a configuration is looked for in the directory `dir`.
pub fn config_candidates(dir: &str) -> (r: Vec<String>)
    ensures
        r@.len() == 3,
        texts(r@) == Seq::new(3, |i: int| joined_path(dir@, config_names()[i])),
{
    let mut r: Vec<String> = Vec::new();
    r.push(path_join(dir, "compiler-config.json"));
    r.push(path_join(dir, "compiler-config.yaml"));
    r.push(path_join(dir, "compiler-config.toml"));
    assert(texts(r@) =~= Seq::new(3, |i: int| joined_path(dir@, config_names()[i])));
    r
}

/// Find default configuration file in the current directory: the first of
/// the default paths at which a file is present, where `present` tells so of
/// each path, in their order; a path that `present` does not reach counts as
/// absent. Where none is present, the search goes on in the directories
/// above.
pub fn find_default_config(present: &Vec<bool>) -> (r: Option<String>)
    ensures
        match r {
            Some(p) => exists|i: int|
                0 <= i < 4 && i < present@.len() && #[trigger] present@[i] && p@
                    == default_config_paths()[i] && forall|j: int| 0 <= j < i ==> !present@[j],
            None => forall|i: int| 0 <= i < 4 && i < present@.len() ==> !present@[i],
        },
{
    let mut paths: Vec<&'static str> = Vec::new();
    paths.push("compiler-config.json");
    paths.push("compiler-config.yaml");
    paths.push("compiler-config.toml");
    paths.push("src/rules-compiler-typescript/compiler-config.json");
    assert(paths@.map_values(|s: &'static str| s@) =~= default_config_paths());
    let mut i: usize = 0;
    while i < paths.len()
        invariant
            i <= paths.len(),
            paths@.len() == 4,
            paths@.map_values(|s: &'static str| s@) == default_config_paths(),
            forall|j: int| 0 <= j < i && j < present@.len() ==> !present@[j],
        decreases paths.len() - i,
    {
        if i < present.len() && present[i] {
            assert(paths@.map_values(|s: &'static str| s@)[i as int] == paths@[i as int]@);
            return Some(paths[i].to_owned());
        }
        i = i + 1;
    }
    None
}

} // verus!
