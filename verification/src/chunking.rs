//! Chunked compilation: the plan that splits a configuration into chunks, the
//! merge of what the chunks produced, and the bookkeeping of a run.

use crate::config::{
    copy_sources, source_views, CompilerConfig, CompilerConfigView, FilterSource, FilterSourceView,
};
use crate::text::{
    copy_optional_text, copy_texts, decimal, decimal_string, is_rule_line, line_is_rule,
    optional_text, texts,
};
use vstd::hash_set::StringHashSet;
use vstd::prelude::*;

verus! {

/// The chunk size of options that name none.
pub const DEFAULT_CHUNK_SIZE: usize = 100_000;

/// The number of workers of options that name none.
pub const DEFAULT_MAX_PARALLEL: usize = 4;

/// Strategy for splitting sources into chunks.
#[derive(Debug, Clone, Copy, PartialEq, Eq, Structural)]
pub enum ChunkingStrategy {
    /// Distribute sources evenly across chunks.
    Source,
    /// Balance chunks by estimated line count. The plan does not implement
    /// it: it splits by source whichever strategy is named.
    LineCount,
}

impl Default for ChunkingStrategy {
    fn default() -> (r: Self)
        ensures
            r == ChunkingStrategy::Source,
    {
        ChunkingStrategy::Source
    }
}

impl ChunkingStrategy {
    /// Whether the plan follows the strategy: it does not follow
    /// `LineCount`, and splits by source in its place.
    pub fn is_implemented(&self) -> (r: bool)
        ensures
            r == (*self == ChunkingStrategy::Source),
    {
        match self {
            ChunkingStrategy::Source => true,
            ChunkingStrategy::LineCount => false,
        }
    }
}

/// Configuration options for chunked parallel compilation.
#[derive(Debug, Clone, Copy)]
pub struct ChunkingOptions {
    /// Whether chunking is enabled.
    pub enabled: bool,
    /// Maximum estimated rules per chunk.
    pub chunk_size: usize,
    /// Maximum number of parallel workers.
    pub max_parallel: usize,
    /// Chunking strategy.
    pub strategy: ChunkingStrategy,
}

impl Default for ChunkingOptions {
    fn default() -> (r: Self)
        ensures
            r == ChunkingOptions::disabled(),
    {
        ChunkingOptions {
            enabled: false,
            chunk_size: DEFAULT_CHUNK_SIZE,
            max_parallel: DEFAULT_MAX_PARALLEL,
            strategy: ChunkingStrategy::Source,
        }
    }
}

impl ChunkingOptions {
    /// The options that a caller starts from: chunking off, by source, with
    /// the default chunk size and number of workers.
    pub open spec fn disabled() -> Self {
        ChunkingOptions {
            enabled: false,
            chunk_size: DEFAULT_CHUNK_SIZE,
            max_parallel: DEFAULT_MAX_PARALLEL,
            strategy: ChunkingStrategy::Source,
        }
    }

    /// Options are valid when they allow at least one worker.
    pub open spec fn is_valid(&self) -> bool {
        self.max_parallel >= 1
    }

    /// Create new chunking options with default values (disabled).
    #[must_use]
    pub fn new() -> (r: Self)
        ensures
            r == Self::disabled(),
            r.is_valid(),
    {
        ChunkingOptions {
            enabled: false,
            chunk_size: DEFAULT_CHUNK_SIZE,
            max_parallel: DEFAULT_MAX_PARALLEL,
            strategy: ChunkingStrategy::Source,
        }
    }

    /// Create chunking options for large filter lists on a machine that runs
    /// `parallelism` threads at once: chunking on, with at least two workers.
    #[must_use]
    pub fn for_large_lists(parallelism: usize) -> (r: Self)
        ensures
            r == (ChunkingOptions {
                enabled: true,
                max_parallel: if parallelism < 2 {
                    2
                } else {
                    parallelism
                },
                ..Self::disabled()
            }),
            r.is_valid(),
    {
        ChunkingOptions {
            enabled: true,
            chunk_size: DEFAULT_CHUNK_SIZE,
            max_parallel: if parallelism < 2 {
                2
            } else {
                parallelism
            },
            strategy: ChunkingStrategy::Source,
        }
    }

    /// Enable or disable chunking.
    #[must_use]
    pub fn with_enabled(self, enabled: bool) -> (r: Self)
        ensures
            r == (ChunkingOptions { enabled, ..self }),
    {
        ChunkingOptions { enabled, ..self }
    }

    /// Set the chunk size.
    #[must_use]
    pub fn with_chunk_size(self, chunk_size: usize) -> (r: Self)
        ensures
            r == (ChunkingOptions { chunk_size, ..self }),
    {
        ChunkingOptions { chunk_size, ..self }
    }

    /// Set the maximum parallel workers.
    #[must_use]
    pub fn with_max_parallel(self, max_parallel: usize) -> (r: Self)
        ensures
            r == (ChunkingOptions { max_parallel, ..self }),
    {
        ChunkingOptions { max_parallel, ..self }
    }

    /// Set the chunking strategy.
    #[must_use]
    pub fn with_strategy(self, strategy: ChunkingStrategy) -> (r: Self)
        ensures
            r == (ChunkingOptions { strategy, ..self }),
    {
        ChunkingOptions { strategy, ..self }
    }
}

/// Metadata about a compilation chunk.
#[derive(Debug)]
pub struct ChunkMetadata {
    /// Chunk index (0-based).
    pub index: usize,
    /// Total number of chunks.
    pub total: usize,
    /// Estimated rule count for this chunk.
    pub estimated_rules: usize,
    /// Actual rule count after compilation.
    pub actual_rules: Option<usize>,
    /// Sources included in this chunk.
    pub sources: Vec<FilterSource>,
    /// Compilation duration in milliseconds.
    pub elapsed_ms: Option<u64>,
    /// Whether this chunk compiled successfully.
    pub success: bool,
    /// Error message if compilation failed.
    pub error_message: Option<String>,
    /// Path to the chunk's output file.
    pub output_path: Option<String>,
}

/// What the metadata of a chunk holds, as plain values.
pub struct ChunkMetadataView {
    pub index: nat,
    pub total: nat,
    pub estimated_rules: nat,
    pub actual_rules: Option<nat>,
    pub sources: Seq<FilterSourceView>,
    pub elapsed_ms: Option<nat>,
    pub success: bool,
    pub error_message: Option<Seq<char>>,
    pub output_path: Option<Seq<char>>,
}

impl View for ChunkMetadata {
    type V = ChunkMetadataView;

    open spec fn view(&self) -> ChunkMetadataView {
        ChunkMetadataView {
            index: self.index as nat,
            total: self.total as nat,
            estimated_rules: self.estimated_rules as nat,
            actual_rules: match self.actual_rules {
                Some(n) => Some(n as nat),
                None => None,
            },
            sources: source_views(self.sources@),
            elapsed_ms: match self.elapsed_ms {
                Some(n) => Some(n as nat),
                None => None,
            },
            success: self.success,
            error_message: optional_text(self.error_message),
            output_path: optional_text(self.output_path),
        }
    }
}

impl ChunkMetadataView {
    /// The metadata of a chunk that has not run: chunk `index` of `total`,
    /// with its sources and nothing else.
    pub open spec fn planned(index: nat, total: nat, sources: Seq<FilterSourceView>) -> Self {
        ChunkMetadataView {
            index,
            total,
            estimated_rules: 0,
            actual_rules: None,
            sources,
            elapsed_ms: None,
            success: false,
            error_message: None,
            output_path: None,
        }
    }
}

impl Clone for ChunkMetadata {
    fn clone(&self) -> (r: Self)
        ensures
            r@ == self@,
    {
        let sources = copy_sources(&self.sources, 0, self.sources.len());
        assert(source_views(self.sources@).subrange(0, self.sources.len() as int) =~= source_views(
            self.sources@,
        ));
        ChunkMetadata {
            index: self.index,
            total: self.total,
            estimated_rules: self.estimated_rules,
            actual_rules: self.actual_rules,
            sources,
            elapsed_ms: self.elapsed_ms,
            success: self.success,
            error_message: copy_optional_text(&self.error_message),
            output_path: copy_optional_text(&self.output_path),
        }
    }
}

impl Default for ChunkMetadata {
    fn default() -> (r: Self)
        ensures
            r@ == ChunkMetadataView::planned(0, 0, Seq::empty()),
    {
        let r = ChunkMetadata {
            index: 0,
            total: 0,
            estimated_rules: 0,
            actual_rules: None,
            sources: Vec::new(),
            elapsed_ms: None,
            success: false,
            error_message: None,
            output_path: None,
        };
        assert(source_views(r.sources@) =~= Seq::empty());
        r
    }
}

/// `n / d`, rounded up.
pub open spec fn ceil_div(n: nat, d: nat) -> nat
    recommends
        d > 0,
{
    if n % d == 0 {
        n / d
    } else {
        n / d + 1
    }
}

/// How many sources go to each chunk but the last, for `n` sources and `p`
/// workers: `n / p` rounded up, and at least one.
pub open spec fn sources_per_chunk(n: nat, p: nat) -> nat
    recommends
        p > 0,
{
    if ceil_div(n, p) == 0 {
        1
    } else {
        ceil_div(n, p)
    }
}

/// How many chunks the plan has for `n` sources and `p` workers.
pub open spec fn chunk_count(n: nat, p: nat) -> nat
    recommends
        p > 0,
{
    ceil_div(n, sources_per_chunk(n, p))
}

/// The index of the first source of chunk `i`.
pub open spec fn chunk_start(n: nat, p: nat, i: nat) -> nat {
    i * sources_per_chunk(n, p)
}

/// The index after the last source of chunk `i`.
pub open spec fn chunk_end(n: nat, p: nat, i: nat) -> nat {
    if (i + 1) * sources_per_chunk(n, p) < n {
        (i + 1) * sources_per_chunk(n, p)
    } else {
        n
    }
}

/// The name of chunk `i` (0-based) of `total`, for a configuration called `name`.
pub open spec fn chunk_name(name: Seq<char>, i: nat, total: nat) -> Seq<char> {
    name + " (chunk "@ + decimal(i + 1) + "/"@ + decimal(total) + ")"@
}

/// The sources of chunk `i` in the plan for `config` with `p` workers.
pub open spec fn planned_sources(config: CompilerConfigView, p: nat, i: nat) -> Seq<
    FilterSourceView,
> {
    let n = config.sources.len();
    config.sources.subrange(chunk_start(n, p, i) as int, chunk_end(n, p, i) as int)
}

/// The configuration of chunk `i` in the plan for `config` with `p` workers:
/// that of the whole job, with the chunk's name and the chunk's sources.
pub open spec fn planned_config(config: CompilerConfigView, p: nat, i: nat) -> CompilerConfigView {
    CompilerConfigView {
        name: chunk_name(config.name, i, chunk_count(config.sources.len(), p)),
        sources: planned_sources(config, p, i),
        ..config
    }
}

/// The metadata of chunk `i` in the plan for `config` with `p` workers.
pub open spec fn planned_metadata(config: CompilerConfigView, p: nat, i: nat) -> ChunkMetadataView {
    ChunkMetadataView::planned(i, chunk_count(config.sources.len(), p), planned_sources(config, p, i))
}

/// Whether a job is split into chunks: never when it has no source; as the
/// options say where there are options; else when it has more than one source.
pub open spec fn should_chunk(sources: nat, options: Option<ChunkingOptions>) -> bool {
    if sources == 0 {
        false
    } else {
        match options {
            Some(o) => o.enabled,
            None => sources > 1,
        }
    }
}

/// Determine if chunking should be enabled for the given configuration.
#[must_use]
pub fn should_enable_chunking(config: &CompilerConfig, options: Option<&ChunkingOptions>) -> (r:
    bool)
    ensures
        r == should_chunk(
            config@.sources.len(),
            match options {
                Some(o) => Some(*o),
                None => None,
            },
        ),
{
    if config.sources.len() == 0 {
        return false;
    }
    match options {
        Some(opts) => opts.enabled,
        None => config.sources.len() > 1,
    }
}

/// The shape of a plan for `n >= 1` sources and `p >= 1` workers: there are
/// `ceil(n / ceil(n / p))` chunks, and no more than `p`; every chunk but the
/// last holds `ceil(n / p)` sources; the last holds the rest, at least one
/// source and no more than the others; the chunks follow one another without
/// a gap, from the first source to the last.
pub proof fn lemma_plan_shape(n: nat, p: nat)
    requires
        n >= 1,
        p >= 1,
    ensures
        sources_per_chunk(n, p) == ceil_div(n, p),
        chunk_count(n, p) == ceil_div(n, ceil_div(n, p)),
        1 <= chunk_count(n, p) <= p,
        forall|i: nat|
            i + 1 < chunk_count(n, p) ==> #[trigger] chunk_end(n, p, i) - chunk_start(n, p, i)
                == ceil_div(n, p),
        chunk_end(n, p, (chunk_count(n, p) - 1) as nat) == n,
        1 <= n - chunk_start(n, p, (chunk_count(n, p) - 1) as nat) <= ceil_div(n, p),
        chunk_start(n, p, 0) == 0,
        forall|i: nat|
            i + 1 < chunk_count(n, p) ==> #[trigger] chunk_end(n, p, i) == chunk_start(
                n,
                p,
                i + 1,
            ),
{
    let per = sources_per_chunk(n, p);
    let total = chunk_count(n, p);
    lemma_ceil_div(n, p);
    assert(per == ceil_div(n, p));
    lemma_ceil_div(n, per);
    assert(total <= p) by {
        // p * per >= n, so p chunks of `per` sources cover everything
        assert((total - 1) * per < n);
        assert(p * per == per * p) by (nonlinear_arith);
        if total > p {
            assert((total - 1) * per >= p * per) by (nonlinear_arith)
                requires
                    total - 1 >= p,
                    per >= 0,
            ;
        }
    }
    assert forall|i: nat| i + 1 < total implies #[trigger] chunk_end(n, p, i) - chunk_start(n, p, i)
        == per && chunk_end(n, p, i) == chunk_start(n, p, i + 1) by {
        assert((i + 1) * per <= (total - 1) * per) by (nonlinear_arith)
            requires
                i + 1 <= total - 1,
                per >= 0,
        ;
        assert((i + 1) * per == i * per + per) by (nonlinear_arith);
    }
    assert(((total - 1) + 1) * per == (total - 1) * per + per) by (nonlinear_arith);
    assert(0 * per == 0);
}

/// The sources of the first `k` chunks of a plan, chunk after chunk.
pub open spec fn planned_prefix(config: CompilerConfigView, p: nat, k: nat) -> Seq<
    FilterSourceView,
>
    decreases k,
{
    if k == 0 {
        Seq::empty()
    } else {
        planned_prefix(config, p, (k - 1) as nat) + planned_sources(config, p, (k - 1) as nat)
    }
}

/// The chunks of a plan hold the sources of the job, each source once and in
/// the order of the job: every chunk but the last holds `ceil(n / p)` of
/// them, the last holds the rest, and that is at least one.
pub proof fn lemma_plan_partitions_sources(config: CompilerConfigView, p: nat)
    requires
        config.sources.len() >= 1,
        p >= 1,
    ensures
        forall|i: nat|
            i + 1 < chunk_count(config.sources.len(), p) ==> (#[trigger] planned_sources(
                config,
                p,
                i,
            )).len() == ceil_div(config.sources.len(), p),
        1 <= planned_sources(
            config,
            p,
            (chunk_count(config.sources.len(), p) - 1) as nat,
        ).len() <= ceil_div(config.sources.len(), p),
        planned_prefix(config, p, chunk_count(config.sources.len(), p)) == config.sources,
{
    let n = config.sources.len();
    let total = chunk_count(n, p);
    lemma_plan_shape(n, p);
    lemma_ceil_div(n, p);
    lemma_ceil_div(n, sources_per_chunk(n, p));
    assert forall|i: nat| i + 1 < total implies (#[trigger] planned_sources(config, p, i)).len()
        == ceil_div(n, p) by {
        lemma_chunk_bounds(n, p, i);
    }
    lemma_chunk_bounds(n, p, (total - 1) as nat);
    lemma_planned_prefix(config, p, total);
    assert(config.sources.subrange(0, n as int) =~= config.sources);
}

/// A chunk of a plan lies within the sources of the job.
pub proof fn lemma_chunk_bounds(n: nat, p: nat, i: nat)
    requires
        n >= 1,
        p >= 1,
        i < chunk_count(n, p),
    ensures
        chunk_start(n, p, i) < chunk_end(n, p, i) <= n,
{
    let per = sources_per_chunk(n, p);
    let total = chunk_count(n, p);
    lemma_ceil_div(n, p);
    lemma_ceil_div(n, per);
    assert(i * per <= (total - 1) * per) by (nonlinear_arith)
        requires
            i <= total - 1,
            per >= 0,
    ;
    assert((i + 1) * per == i * per + per) by (nonlinear_arith);
}

/// The first `k` chunks of a plan hold the first sources of the job, up to
/// the end of chunk `k - 1`.
pub proof fn lemma_planned_prefix(config: CompilerConfigView, p: nat, k: nat)
    requires
        config.sources.len() >= 1,
        p >= 1,
        k <= chunk_count(config.sources.len(), p),
    ensures
        planned_prefix(config, p, k) == config.sources.subrange(
            0,
            if k == 0 {
                0
            } else {
                chunk_end(config.sources.len(), p, (k - 1) as nat) as int
            },
        ),
    decreases k,
{
    let n = config.sources.len();
    if k == 0 {
        assert(config.sources.subrange(0, 0) =~= Seq::empty());
    } else {
        let i = (k - 1) as nat;
        lemma_planned_prefix(config, p, i);
        lemma_chunk_bounds(n, p, i);
        lemma_plan_shape(n, p);
        if i > 0 {
            lemma_chunk_bounds(n, p, (i - 1) as nat);
            assert(chunk_end(n, p, (i - 1) as nat) == chunk_start(n, p, ((i - 1) + 1) as nat));
        } else {
            assert(chunk_start(n, p, 0) == 0);
        }
        assert(planned_prefix(config, p, k) =~= config.sources.subrange(
            0,
            chunk_end(n, p, i) as int,
        ));
    }
}

/// `ceil_div(n, d)` is the least count of groups of `d` that cover `n`.
pub proof fn lemma_ceil_div(n: nat, d: nat)
    requires
        d >= 1,
    ensures
        ceil_div(n, d) * d >= n,
        n >= 1 ==> ceil_div(n, d) >= 1 && (ceil_div(n, d) - 1) * d < n,
        n == 0 ==> ceil_div(n, d) == 0,
        ceil_div(n, d) <= n,
{
    let q = n / d;
    let r = n % d;
    assert(n == q * d + r) by {
        vstd::arithmetic::div_mod::lemma_fundamental_div_mod(n as int, d as int);
        assert(d * q == q * d) by (nonlinear_arith);
    }
    assert(0 <= r < d);
    assert((q + 1) * d == q * d + d) by (nonlinear_arith);
    assert((q - 1) * d == q * d - d) by (nonlinear_arith);
    assert(q <= q * d) by (nonlinear_arith)
        requires
            d >= 1,
            q >= 0,
    ;
    if n == 0 {
        assert(q == 0) by (nonlinear_arith)
            requires
                0 == q * d + r,
                q >= 0,
                r >= 0,
                d >= 1,
        ;
    }
}

/// Split a configuration into chunks for parallel compilation.
///
/// The sources go to the chunks in their order, each chunk a run of
/// neighbours. Every chunk's configuration is that of the job, but for its
/// name and its sources. A job without sources has no chunks. Both
/// strategies split by source.
#[must_use]
pub fn split_into_chunks(config: &CompilerConfig, options: &ChunkingOptions) -> (r: Vec<
    (CompilerConfig, ChunkMetadata),
>)
    requires
        options.is_valid(),
    ensures
        r@.len() == chunk_count(config@.sources.len(), options.max_parallel as nat),
        forall|i: int|
            0 <= i < r@.len() ==> (#[trigger] r@[i]).0@ == planned_config(
                config@,
                options.max_parallel as nat,
                i as nat,
            ) && r@[i].1@ == planned_metadata(config@, options.max_parallel as nat, i as nat),
{
    if config.sources.len() == 0 {
        proof {
            lemma_ceil_div(0, options.max_parallel as nat);
            lemma_ceil_div(0, 1);
        }
        return Vec::new();
    }
    match options.strategy {
        ChunkingStrategy::Source => split_by_source(config, options),
        ChunkingStrategy::LineCount => split_by_source(config, options),
    }
}

/// The plan by source: chunks of `ceil(n / p)` neighbouring sources each.
pub fn split_by_source(config: &CompilerConfig, options: &ChunkingOptions) -> (r: Vec<
    (CompilerConfig, ChunkMetadata),
>)
    requires
        options.is_valid(),
    ensures
        r@.len() == chunk_count(config@.sources.len(), options.max_parallel as nat),
        forall|i: int|
            0 <= i < r@.len() ==> (#[trigger] r@[i]).0@ == planned_config(
                config@,
                options.max_parallel as nat,
                i as nat,
            ) && r@[i].1@ == planned_metadata(config@, options.max_parallel as nat, i as nat),
{
    let n: usize = config.sources.len();
    let p: usize = options.max_parallel;
    proof {
        lemma_ceil_div(n as nat, p as nat);
    }
    let rounded: usize = if n % p == 0 {
        n / p
    } else {
        n / p + 1
    };
    let per: usize = if rounded == 0 {
        1
    } else {
        rounded
    };
    proof {
        lemma_ceil_div(n as nat, per as nat);
    }
    let total: usize = if n % per == 0 {
        n / per
    } else {
        n / per + 1
    };
    assert(per == sources_per_chunk(n as nat, p as nat));
    assert(total == chunk_count(n as nat, p as nat));
    assert(source_views(config.sources@).len() == n);
    let mut chunks: Vec<(CompilerConfig, ChunkMetadata)> = Vec::new();
    let mut i: usize = 0;
    while i < total
        invariant
            i <= total,
            n == config.sources.len(),
            n == config@.sources.len(),
            p == options.max_parallel,
            per >= 1,
            per == sources_per_chunk(n as nat, p as nat),
            total == chunk_count(n as nat, p as nat),
            total <= n,
            n >= 1 ==> (total - 1) * per < n,
            n == 0 ==> total == 0,
            chunks@.len() == i,
            forall|k: int|
                0 <= k < i ==> (#[trigger] chunks@[k]).0@ == planned_config(
                    config@,
                    p as nat,
                    k as nat,
                ) && chunks@[k].1@ == planned_metadata(config@, p as nat, k as nat),
        decreases total - i,
    {
        assert(i * per <= (total - 1) * per) by (nonlinear_arith)
            requires
                i <= total - 1,
                per >= 0,
        ;
        let start_idx: usize = i * per;
        assert((i + 1) * per == i * per + per) by (nonlinear_arith);
        let end_idx: usize = if n - start_idx <= per {
            n
        } else {
            start_idx + per
        };
        assert(start_idx == chunk_start(n as nat, p as nat, i as nat));
        assert(end_idx == chunk_end(n as nat, p as nat, i as nat));
        let chunk_sources = copy_sources(&config.sources, start_idx, end_idx);
        let sources_again = copy_sources(&config.sources, start_idx, end_idx);
        let mut name = config.name.clone();
        name.append(" (chunk ");
        name.append(decimal_string((i + 1) as u128).as_str());
        name.append("/");
        name.append(decimal_string(total as u128).as_str());
        name.append(")");
        let chunk_config = CompilerConfig {
            name,
            description: config.description.clone(),
            homepage: config.homepage.clone(),
            license: config.license.clone(),
            version: config.version.clone(),
            sources: sources_again,
            transformations: copy_texts(&config.transformations),
            inclusions: copy_texts(&config.inclusions),
            exclusions: copy_texts(&config.exclusions),
            source_format: config.source_format,
            source_path: copy_optional_text(&config.source_path),
        };
        let metadata = ChunkMetadata {
            index: i,
            total,
            estimated_rules: 0,
            actual_rules: None,
            sources: chunk_sources,
            elapsed_ms: None,
            success: false,
            error_message: None,
            output_path: None,
        };
        assert(chunk_config@ == planned_config(config@, p as nat, i as nat));
        assert(metadata@ == planned_metadata(config@, p as nat, i as nat));
        chunks.push((chunk_config, metadata));
        i = i + 1;
    }
    chunks
}

/// The lines of several chunks, one chunk after the other.
pub open spec fn flattened(chunks: Seq<Seq<Seq<char>>>) -> Seq<Seq<char>>
    decreases chunks.len(),
{
    if chunks.len() == 0 {
        Seq::empty()
    } else {
        flattened(chunks.drop_last()) + chunks.last()
    }
}

/// The merge of a list of lines: every comment and blank line stays; a rule
/// stays where it stands for the first time, and goes where the same line
/// came before it.
pub open spec fn merged(lines: Seq<Seq<char>>) -> Seq<Seq<char>>
    decreases lines.len(),
{
    if lines.len() == 0 {
        Seq::empty()
    } else if is_rule_line(lines.last()) && lines.drop_last().contains(lines.last()) {
        merged(lines.drop_last())
    } else {
        merged(lines.drop_last()).push(lines.last())
    }
}

/// The texts of the lines of each chunk.
pub open spec fn chunk_texts(chunks: Seq<Vec<String>>) -> Seq<Seq<Seq<char>>> {
    chunks.map_values(|c: Vec<String>| texts(c@))
}

/// A count as a `usize` holds it: the count itself, or the largest `usize`
/// where the count is larger.
pub open spec fn saturated(count: nat) -> nat {
    if count > usize::MAX {
        usize::MAX as nat
    } else {
        count
    }
}

/// Merge compiled rules from multiple chunks.
///
/// Returns the merge of the chunks' lines, taken in the order of the chunks,
/// and the number of lines that the merge left out. The line as it stands,
/// untrimmed, decides whether two rules are the same.
#[must_use]
pub fn merge_chunks(chunk_results: &[Vec<String>]) -> (r: (Vec<String>, usize))
    ensures
        texts(r.0@) == merged(flattened(chunk_texts(chunk_results@))),
        r.1 == saturated((flattened(chunk_texts(chunk_results@)).len() - r.0@.len()) as nat),
        r.0@.len() <= flattened(chunk_texts(chunk_results@)).len(),
{
    let ghost all = chunk_texts(chunk_results@);
    let mut seen = StringHashSet::new();
    let mut deduplicated: Vec<String> = Vec::new();
    let mut removed: usize = 0;
    let ghost mut prefix: Seq<Seq<char>> = Seq::empty();
    let mut c: usize = 0;
    assert(all.subrange(0, 0) =~= Seq::empty());
    while c < chunk_results.len()
        invariant
            c <= chunk_results.len(),
            all == chunk_texts(chunk_results@),
            prefix == flattened(all.subrange(0, c as int)),
            texts(deduplicated@) == merged(prefix),
            deduplicated@.len() <= prefix.len(),
            removed == saturated((prefix.len() - deduplicated@.len()) as nat),
            forall|x: Seq<char>| #[trigger] seen@.contains(x) <==> (prefix.contains(x) && is_rule_line(x)),
        decreases chunk_results.len() - c,
    {
        let chunk = &chunk_results[c];
        let ghost base = prefix;
        proof {
            assert(all.subrange(0, c + 1).drop_last() =~= all.subrange(0, c as int));
            assert(all.subrange(0, c + 1).last() == texts(chunk@));
            assert(flattened(all.subrange(0, c + 1)) == base + texts(chunk@));
        }
        let mut k: usize = 0;
        while k < chunk.len()
            invariant
                k <= chunk.len(),
                prefix == base + texts(chunk@).subrange(0, k as int),
                texts(deduplicated@) == merged(prefix),
                deduplicated@.len() <= prefix.len(),
                removed == saturated((prefix.len() - deduplicated@.len()) as nat),
                forall|x: Seq<char>| #[trigger] seen@.contains(x) <==> (prefix.contains(x) && is_rule_line(x)),
            decreases chunk.len() - k,
        {
            let rule = &chunk[k];
            let ghost before = prefix;
            let ghost kept = deduplicated@;
            proof {
                prefix = prefix.push(rule@);
                assert(prefix.drop_last() =~= before);
                assert(prefix.last() == rule@);
                assert(prefix =~= base + texts(chunk@).subrange(0, k + 1));
                assert forall|x: Seq<char>| prefix.contains(x) <==> (before.contains(x) || x
                    == rule@) by {
                    if before.contains(x) {
                        let j = choose|j: int| 0 <= j < before.len() && before[j] == x;
                        assert(prefix[j] == x);
                    }
                    if x == rule@ {
                        assert(prefix[prefix.len() - 1] == x);
                    }
                }
            }
            if !line_is_rule(rule.as_str()) {
                deduplicated.push(rule.clone());
                assert(texts(deduplicated@) =~= texts(kept).push(rule@));
            } else if seen.insert(rule.clone()) {
                deduplicated.push(rule.clone());
                assert(texts(deduplicated@) =~= texts(kept).push(rule@));
            } else if removed < usize::MAX {
                removed = removed + 1;
            }
            k = k + 1;
        }
        assert(texts(chunk@).subrange(0, chunk.len() as int) =~= texts(chunk@));
        c = c + 1;
    }
    assert(all.subrange(0, c as int) =~= all);
    (deduplicated, removed)
}

/// The comment and blank lines of a list of lines, in their order.
pub open spec fn structural_lines(lines: Seq<Seq<char>>) -> Seq<Seq<char>>
    decreases lines.len(),
{
    if lines.len() == 0 {
        Seq::empty()
    } else if is_rule_line(lines.last()) {
        structural_lines(lines.drop_last())
    } else {
        structural_lines(lines.drop_last()).push(lines.last())
    }
}

/// Where in `lines` the lines of `merged(lines)` stand, in their order.
pub open spec fn kept_positions(lines: Seq<Seq<char>>) -> Seq<int>
    decreases lines.len(),
{
    if lines.len() == 0 {
        Seq::empty()
    } else if is_rule_line(lines.last()) && lines.drop_last().contains(lines.last()) {
        kept_positions(lines.drop_last())
    } else {
        kept_positions(lines.drop_last()).push(lines.len() - 1)
    }
}

/// A merge holds the lines of its input, each of them, and no other; and it
/// is no longer than its input.
pub proof fn lemma_merged_same_lines(lines: Seq<Seq<char>>)
    ensures
        forall|x: Seq<char>| #[trigger] merged(lines).contains(x) <==> lines.contains(x),
        merged(lines).len() <= lines.len(),
    decreases lines.len(),
{
    if lines.len() > 0 {
        let before = lines.drop_last();
        let last = lines.last();
        lemma_merged_same_lines(before);
        assert forall|x: Seq<char>| #[trigger] merged(lines).contains(x) <==> lines.contains(
            x,
        ) by {
            if merged(lines).contains(x) {
                let a = choose|a: int| 0 <= a < merged(lines).len() && merged(lines)[a] == x;
                if a < merged(before).len() {
                    assert(merged(before)[a] == x);
                    assert(merged(before).contains(x));
                    let j = choose|j: int| 0 <= j < before.len() && before[j] == x;
                    assert(lines[j] == x);
                } else {
                    assert(lines[lines.len() - 1] == x);
                }
            }
            if lines.contains(x) {
                let j = choose|j: int| 0 <= j < lines.len() && lines[j] == x;
                if j < before.len() {
                    assert(before[j] == x);
                    assert(before.contains(x));
                    assert(merged(before).contains(x));
                    let a = choose|a: int| 0 <= a < merged(before).len() && merged(before)[a] == x;
                    assert(merged(lines)[a] == x);
                } else if is_rule_line(last) && before.contains(last) {
                    assert(merged(before).contains(x));
                } else {
                    assert(merged(lines)[merged(lines).len() - 1] == x);
                }
            }
        }
    }
}

/// Merging the output of a merge, as one chunk, changes nothing and removes
/// nothing.
pub proof fn lemma_merge_idempotent(chunks: Seq<Seq<Seq<char>>>)
    ensures
        merged(flattened(seq![merged(flattened(chunks))])) == merged(flattened(chunks)),
        flattened(seq![merged(flattened(chunks))]).len() - merged(
            flattened(seq![merged(flattened(chunks))]),
        ).len() == 0,
{
    let once = merged(flattened(chunks));
    assert(seq![once].drop_last() =~= Seq::<Seq<Seq<char>>>::empty());
    assert(flattened(seq![once].drop_last()) =~= Seq::<Seq<char>>::empty());
    assert(flattened(seq![once]) =~= once);
    lemma_merged_twice(flattened(chunks));
}

/// A merge is its own merge.
pub proof fn lemma_merged_twice(lines: Seq<Seq<char>>)
    ensures
        merged(merged(lines)) == merged(lines),
    decreases lines.len(),
{
    if lines.len() > 0 {
        let before = lines.drop_last();
        let last = lines.last();
        lemma_merged_twice(before);
        lemma_merged_same_lines(before);
        if !(is_rule_line(last) && before.contains(last)) {
            let m = merged(before).push(last);
            assert(m.drop_last() =~= merged(before));
            assert(m.last() == last);
        }
    }
}

/// A merge keeps every comment and blank line, repeated or not, in its place
/// among the others.
pub proof fn lemma_merge_keeps_structural_lines(lines: Seq<Seq<char>>)
    ensures
        structural_lines(merged(lines)) == structural_lines(lines),
    decreases lines.len(),
{
    if lines.len() > 0 {
        let before = lines.drop_last();
        let last = lines.last();
        lemma_merge_keeps_structural_lines(before);
        if !(is_rule_line(last) && before.contains(last)) {
            let m = merged(before).push(last);
            assert(m.drop_last() =~= merged(before));
            assert(m.last() == last);
        }
    }
}

/// A merge of lines among which no rule stands twice is the lines themselves.
pub proof fn lemma_merge_without_duplicates(lines: Seq<Seq<char>>)
    requires
        forall|i: int, j: int|
            0 <= i < j < lines.len() && is_rule_line(lines[j]) ==> lines[i] != lines[j],
    ensures
        merged(lines) == lines,
    decreases lines.len(),
{
    if lines.len() > 0 {
        let before = lines.drop_last();
        let last = lines.last();
        lemma_merge_without_duplicates(before);
        if is_rule_line(last) && before.contains(last) {
            let i = choose|i: int| 0 <= i < before.len() && before[i] == last;
            assert(lines[i] == lines[lines.len() - 1]);
        }
        assert(before.push(last) =~= lines);
    }
}

/// A merge keeps the first of equal rules and the order of what it keeps:
/// its lines stand in the input at `kept_positions`, which go upwards; a rule
/// of the merge stands there for the first time in the input, and only once
/// in the merge.
pub proof fn lemma_merge_first_seen_order(lines: Seq<Seq<char>>)
    ensures
        kept_positions(lines).len() == merged(lines).len(),
        forall|a: int|
            0 <= a < merged(lines).len() ==> 0 <= #[trigger] kept_positions(lines)[a] < lines.len()
                && lines[kept_positions(lines)[a]] == merged(lines)[a],
        forall|a: int, b: int|
            0 <= a < b < merged(lines).len() ==> #[trigger] kept_positions(lines)[a]
                < #[trigger] kept_positions(lines)[b],
        forall|a: int, j: int|
            0 <= a < merged(lines).len() && is_rule_line(merged(lines)[a]) && 0 <= j
                < #[trigger] kept_positions(lines)[a] ==> #[trigger] lines[j] != merged(lines)[a],
        forall|a: int, b: int|
            0 <= a < b < merged(lines).len() && is_rule_line(#[trigger] merged(lines)[b])
                ==> #[trigger] merged(lines)[a] != merged(lines)[b],
    decreases lines.len(),
{
    if lines.len() > 0 {
        let before = lines.drop_last();
        let last = lines.last();
        lemma_merge_first_seen_order(before);
        lemma_merged_same_lines(before);
        let pos = kept_positions(lines);
        let m = merged(lines);
        if !(is_rule_line(last) && before.contains(last)) {
            assert forall|a: int, j: int|
                0 <= a < m.len() && is_rule_line(m[a]) && 0 <= j < #[trigger] pos[a] implies #[trigger] lines[j]
                != m[a] by {
                if a == m.len() - 1 {
                    if lines[j] == m[a] {
                        assert(before[j] == last);
                        assert(before.contains(last));
                    }
                } else {
                    assert(before[j] == lines[j]);
                }
            }
            assert forall|a: int, b: int|
                0 <= a < b < m.len() && is_rule_line(#[trigger] m[b]) implies #[trigger] m[a]
                != m[b] by {
                if b == m.len() - 1 {
                    if m[a] == m[b] {
                        assert(merged(before)[a] == last);
                        assert(merged(before).contains(last));
                    }
                }
            }
        } else {
            assert forall|a: int, j: int|
                0 <= a < m.len() && is_rule_line(m[a]) && 0 <= j < #[trigger] pos[a] implies #[trigger] lines[j]
                != m[a] by {
                assert(before[j] == lines[j]);
            }
        }
    }
}

/// Result of chunked compilation.
#[derive(Debug)]
pub struct ChunkedCompilationResult {
    /// Whether all chunks compiled successfully.
    pub success: bool,
    /// Total compilation time in milliseconds.
    pub total_elapsed_ms: u64,
    /// Metadata for each chunk.
    pub chunks: Vec<ChunkMetadata>,
    /// Total rule count across all chunks.
    pub total_rules: usize,
    /// Final rule count after deduplication.
    pub final_rule_count: usize,
    /// Number of duplicate rules removed.
    pub duplicates_removed: usize,
    /// Merged output content.
    pub merged_rules: Option<Vec<String>>,
    /// Errors from failed chunks.
    pub errors: Vec<String>,
}

/// What the result of a chunked compilation holds, as plain values.
pub struct ChunkedCompilationResultView {
    pub success: bool,
    pub total_elapsed_ms: nat,
    pub chunks: Seq<ChunkMetadataView>,
    pub total_rules: nat,
    pub final_rule_count: nat,
    pub duplicates_removed: nat,
    pub merged_rules: Option<Seq<Seq<char>>>,
    pub errors: Seq<Seq<char>>,
}

/// The views of a list of chunk metadata.
pub open spec fn metadata_views(v: Seq<ChunkMetadata>) -> Seq<ChunkMetadataView> {
    v.map_values(|m: ChunkMetadata| m@)
}

impl View for ChunkedCompilationResult {
    type V = ChunkedCompilationResultView;

    open spec fn view(&self) -> ChunkedCompilationResultView {
        ChunkedCompilationResultView {
            success: self.success,
            total_elapsed_ms: self.total_elapsed_ms as nat,
            chunks: metadata_views(self.chunks@),
            total_rules: self.total_rules as nat,
            final_rule_count: self.final_rule_count as nat,
            duplicates_removed: self.duplicates_removed as nat,
            merged_rules: match self.merged_rules {
                Some(lines) => Some(texts(lines@)),
                None => None,
            },
            errors: texts(self.errors@),
        }
    }
}

impl ChunkedCompilationResultView {
    /// The result that holds nothing.
    pub open spec fn empty() -> Self {
        ChunkedCompilationResultView {
            success: false,
            total_elapsed_ms: 0,
            chunks: Seq::empty(),
            total_rules: 0,
            final_rule_count: 0,
            duplicates_removed: 0,
            merged_rules: None,
            errors: Seq::empty(),
        }
    }

    /// The speedup over compiling the chunks one after the other, as a
    /// fraction: the chunks' times added up, over the time of the whole run;
    /// one over one where there is no chunk or the run took no time.
    pub open spec fn speedup(self) -> (nat, nat) {
        if self.chunks.len() == 0 || self.total_elapsed_ms == 0 {
            (1, 1)
        } else {
            (total_chunk_time(self.chunks), self.total_elapsed_ms)
        }
    }
}

/// The times of the chunks that have one, added up.
pub open spec fn total_chunk_time(chunks: Seq<ChunkMetadataView>) -> nat
    decreases chunks.len(),
{
    if chunks.len() == 0 {
        0
    } else {
        total_chunk_time(chunks.drop_last()) + match chunks.last().elapsed_ms {
            Some(ms) => ms,
            None => 0,
        }
    }
}

impl Default for ChunkedCompilationResult {
    fn default() -> (r: Self)
        ensures
            r@ == ChunkedCompilationResultView::empty(),
    {
        let r = ChunkedCompilationResult {
            success: false,
            total_elapsed_ms: 0,
            chunks: Vec::new(),
            total_rules: 0,
            final_rule_count: 0,
            duplicates_removed: 0,
            merged_rules: None,
            errors: Vec::new(),
        };
        assert(metadata_views(r.chunks@) =~= Seq::empty());
        assert(texts(r.errors@) =~= Seq::empty());
        r
    }
}

impl ChunkedCompilationResult {
    /// The estimated speedup ratio compared to sequential compilation, as
    /// the two terms of a fraction.
    #[must_use]
    pub fn estimated_speedup(&self) -> (r: (u128, u64))
        ensures
            (r.0 as nat, r.1 as nat) == self@.speedup(),
    {
        if self.chunks.len() == 0 || self.total_elapsed_ms == 0 {
            return (1, 1);
        }
        let mut sum: u128 = 0;
        let mut i: usize = 0;
        while i < self.chunks.len()
            invariant
                i <= self.chunks.len(),
                sum == total_chunk_time(self@.chunks.subrange(0, i as int)),
                sum <= i * 0xFFFF_FFFF_FFFF_FFFF,
            decreases self.chunks.len() - i,
        {
            assert(self@.chunks.subrange(0, i + 1).drop_last() =~= self@.chunks.subrange(
                0,
                i as int,
            ));
            assert((i + 1) * 0xFFFF_FFFF_FFFF_FFFF == i * 0xFFFF_FFFF_FFFF_FFFF
                + 0xFFFF_FFFF_FFFF_FFFF) by (nonlinear_arith);
            assert(i * 0xFFFF_FFFF_FFFF_FFFF <= 0xFFFF_FFFF_FFFF_FFFE * 0xFFFF_FFFF_FFFF_FFFF)
                by (nonlinear_arith)
                requires
                    i <= 0xFFFF_FFFF_FFFF_FFFE,
            ;
            match self.chunks[i].elapsed_ms {
                Some(ms) => {
                    sum = sum + ms as u128;
                },
                None => {},
            }
            i = i + 1;
        }
        assert(self@.chunks.subrange(0, i as int) =~= self@.chunks);
        (sum, self.total_elapsed_ms)
    }
}

/// How many chunks of `chunk_size` rules run at once for `total_rules` rules:
/// one where chunking is off or there is no rule; else the number of chunks,
/// but no more than the workers.
pub open spec fn parallel_chunks(total_rules: nat, options: ChunkingOptions) -> nat {
    if !options.enabled || total_rules == 0 {
        1
    } else if ceil_div(total_rules, options.chunk_size as nat) < options.max_parallel {
        ceil_div(total_rules, options.chunk_size as nat)
    } else {
        options.max_parallel as nat
    }
}

/// Estimate the time savings from chunked compilation: the factor by which
/// the compilation of `total_rules` rules is expected to speed up.
#[must_use]
pub fn estimate_speedup(total_rules: usize, options: &ChunkingOptions) -> (r: usize)
    requires
        options.chunk_size >= 1,
    ensures
        r == parallel_chunks(total_rules as nat, *options),
{
    if !options.enabled || total_rules == 0 {
        return 1;
    }
    proof {
        lemma_ceil_div(total_rules as nat, options.chunk_size as nat);
    }
    let num_chunks: usize = if total_rules % options.chunk_size == 0 {
        total_rules / options.chunk_size
    } else {
        total_rules / options.chunk_size + 1
    };
    if num_chunks < options.max_parallel {
        num_chunks
    } else {
        options.max_parallel
    }
}

} // verus!
