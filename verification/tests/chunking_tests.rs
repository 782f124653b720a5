use rules_compiler::chunking::{
    estimate_speedup, merge_chunks, should_enable_chunking, split_into_chunks,
    ChunkMetadata, ChunkedCompilationResult, ChunkingOptions, ChunkingStrategy,
};
use rules_compiler::config::{CompilerConfig, FilterSource};

fn lines(items: &[&str]) -> Vec<String> {
    items.iter().map(|s| s.to_string()).collect()
}

#[test]
fn test_chunking_options_default() {
    let options = ChunkingOptions::default();
    assert!(!options.enabled);
    assert_eq!(options.chunk_size, 100_000);
    assert!(options.max_parallel >= 1);
    assert_eq!(options.strategy, ChunkingStrategy::Source);
}

#[test]
fn test_chunking_options_for_large_lists() {
    let options = ChunkingOptions::for_large_lists(1);
    assert!(options.enabled);
    assert!(options.max_parallel >= 2);
    let wide = ChunkingOptions::for_large_lists(16);
    assert!(wide.enabled);
    assert_eq!(wide.max_parallel, 16);
}

#[test]
fn test_should_enable_chunking_no_sources() {
    let config = CompilerConfig::new("Test");
    let options = ChunkingOptions::new().with_enabled(true);
    assert!(!should_enable_chunking(&config, Some(&options)));
}

#[test]
fn test_should_enable_chunking_explicitly_disabled() {
    let config = CompilerConfig::new("Test")
        .with_source(FilterSource::new("Source", "http://example.com/list.txt"));
    let options = ChunkingOptions::new().with_enabled(false);
    assert!(!should_enable_chunking(&config, Some(&options)));
}

#[test]
fn test_should_enable_chunking_explicitly_enabled() {
    let config = CompilerConfig::new("Test")
        .with_source(FilterSource::new("Source", "http://example.com/list.txt"));
    let options = ChunkingOptions::new().with_enabled(true);
    assert!(should_enable_chunking(&config, Some(&options)));
}

#[test]
fn test_should_enable_chunking_multiple_sources() {
    let config = CompilerConfig::new("Test")
        .with_source(FilterSource::new("Source1", "http://example.com/list1.txt"))
        .with_source(FilterSource::new("Source2", "http://example.com/list2.txt"));
    assert!(should_enable_chunking(&config, None));
}

#[test]
fn test_should_enable_chunking_single_source_default_options() {
    let config = CompilerConfig::new("Test")
        .with_source(FilterSource::new("Source", "http://example.com/list.txt"));
    assert!(!should_enable_chunking(&config, Some(&ChunkingOptions::default())));
    assert!(!should_enable_chunking(&config, None));
}

#[test]
fn test_split_into_chunks_empty() {
    let config = CompilerConfig::new("Test");
    let options = ChunkingOptions::new().with_max_parallel(4);
    let chunks = split_into_chunks(&config, &options);
    assert!(chunks.is_empty());
}

#[test]
fn test_split_into_chunks_four_sources_two_parallel() {
    let config = CompilerConfig::new("Test")
        .with_source(FilterSource::new("S1", "http://example.com/1.txt"))
        .with_source(FilterSource::new("S2", "http://example.com/2.txt"))
        .with_source(FilterSource::new("S3", "http://example.com/3.txt"))
        .with_source(FilterSource::new("S4", "http://example.com/4.txt"));
    let options = ChunkingOptions::new()
        .with_max_parallel(2)
        .with_strategy(ChunkingStrategy::Source);

    let chunks = split_into_chunks(&config, &options);

    assert_eq!(chunks.len(), 2);
    assert_eq!(chunks[0].0.sources.len(), 2);
    assert_eq!(chunks[1].0.sources.len(), 2);
}

#[test]
fn test_split_into_chunks_preserves_properties() {
    let config = CompilerConfig::new("Test Filter")
        .with_description("Test description")
        .with_version("1.0.0")
        .with_source(FilterSource::new("Source", "http://example.com/list.txt"))
        .with_transformation("Deduplicate");
    let options = ChunkingOptions::new().with_max_parallel(4);

    let chunks = split_into_chunks(&config, &options);

    let chunk_config = &chunks[0].0;
    assert!(chunk_config.name.contains("Test Filter"));
    assert_eq!(chunk_config.description, config.description);
    assert_eq!(chunk_config.version, config.version);
    assert_eq!(chunk_config.transformations, config.transformations);
}

#[test]
fn test_split_into_chunks_names_and_order() {
    let mut config = CompilerConfig::new("List");
    for i in 0..5 {
        config = config.with_source(FilterSource::new(&format!("S{i}"), &format!("s{i}.txt")));
    }
    let options = ChunkingOptions::new().with_max_parallel(2);
    let chunks = split_into_chunks(&config, &options);
    // ceil(5 / 2) = 3 sources per chunk, ceil(5 / 3) = 2 chunks
    assert_eq!(chunks.len(), 2);
    assert_eq!(chunks[0].0.name, "List (chunk 1/2)");
    assert_eq!(chunks[1].0.name, "List (chunk 2/2)");
    let names: Vec<&str> = chunks[0].1.sources.iter().map(|s| s.name.as_str()).collect();
    assert_eq!(names, vec!["S0", "S1", "S2"]);
    let names: Vec<&str> = chunks[1].0.sources.iter().map(|s| s.name.as_str()).collect();
    assert_eq!(names, vec!["S3", "S4"]);
    assert_eq!(chunks[1].1.index, 1);
    assert_eq!(chunks[1].1.total, 2);
    assert_eq!(chunks[1].1.estimated_rules, 0);
    assert!(!chunks[1].1.success);
    assert_eq!(chunks[1].1.actual_rules, None);
}

#[test]
fn test_split_into_chunks_line_count_falls_back_to_source() {
    let mut config = CompilerConfig::new("List");
    for i in 0..7 {
        config = config.with_source(FilterSource::new(&format!("S{i}"), &format!("s{i}.txt")));
    }
    let by_source = ChunkingOptions::new().with_max_parallel(3);
    let by_lines = by_source.with_strategy(ChunkingStrategy::LineCount);
    let a = split_into_chunks(&config, &by_source);
    let b = split_into_chunks(&config, &by_lines);
    assert_eq!(a.len(), 3);
    assert_eq!(b.len(), 3);
    for k in 0..3 {
        assert_eq!(a[k].0.name, b[k].0.name);
        assert_eq!(a[k].0.sources.len(), b[k].0.sources.len());
    }
    assert_eq!(a[0].0.sources.len(), 3);
    assert_eq!(a[1].0.sources.len(), 3);
    assert_eq!(a[2].0.sources.len(), 1);
}

#[test]
fn test_split_into_chunks_more_workers_than_sources() {
    let config = CompilerConfig::new("List")
        .with_source(FilterSource::new("A", "a.txt"))
        .with_source(FilterSource::new("B", "b.txt"));
    let chunks = split_into_chunks(&config, &ChunkingOptions::new().with_max_parallel(8));
    assert_eq!(chunks.len(), 2);
    assert_eq!(chunks[0].0.sources.len(), 1);
    assert_eq!(chunks[1].0.sources.len(), 1);
}

#[test]
fn test_merge_chunks_removes_duplicates() {
    let chunk_results = vec![
        vec!["||example.com^".to_string(), "||test.com^".to_string()],
        vec!["||example.com^".to_string(), "||other.com^".to_string()],
    ];

    let (rules, duplicates_removed) = merge_chunks(&chunk_results);

    assert_eq!(rules.len(), 3);
    assert_eq!(duplicates_removed, 1);
}

#[test]
fn test_merge_chunks_preserves_comments() {
    let chunk_results = vec![
        vec!["! Comment 1".to_string(), "||example.com^".to_string()],
        vec!["! Comment 1".to_string(), "||other.com^".to_string()],
    ];

    let (rules, duplicates_removed) = merge_chunks(&chunk_results);

    assert_eq!(rules.len(), 4); // Both comments preserved
    assert_eq!(duplicates_removed, 0);
}

#[test]
fn test_merge_chunks_preserves_empty_lines() {
    let chunk_results = vec![
        vec![
            "||example.com^".to_string(),
            String::new(),
            "||test.com^".to_string(),
        ],
        vec!["||other.com^".to_string(), String::new(), String::new()],
    ];

    let (rules, duplicates_removed) = merge_chunks(&chunk_results);

    assert_eq!(rules.len(), 6);
    assert_eq!(duplicates_removed, 0);
}

#[test]
fn test_merge_chunks_first_seen_order() {
    let chunks = vec![lines(&["a", "b"]), lines(&["a", "c"])];
    let (merged, removed) = merge_chunks(&chunks);
    assert_eq!(merged, lines(&["a", "b", "c"]));
    assert_eq!(removed, 1);
}

#[test]
fn test_merge_chunks_comment_example() {
    let chunks = vec![lines(&["! c", "a"]), lines(&["! c", "b"])];
    let (merged, removed) = merge_chunks(&chunks);
    assert_eq!(merged, lines(&["! c", "a", "! c", "b"]));
    assert_eq!(merged.len(), 4);
    assert_eq!(removed, 0);
}

#[test]
fn test_merge_chunks_is_idempotent() {
    let chunks = vec![
        lines(&["! title", "a", "", "b", "a"]),
        lines(&["# note", "b", "c", "", "# note", "a "]),
    ];
    let (once, removed) = merge_chunks(&chunks);
    assert_eq!(
        once,
        lines(&["! title", "a", "", "b", "# note", "c", "", "# note", "a "])
    );
    assert_eq!(removed, 2);
    let (twice, removed_again) = merge_chunks(&[once.clone()]);
    assert_eq!(twice, once);
    assert_eq!(removed_again, 0);
}

#[test]
fn test_merge_chunks_untrimmed_line_is_the_key() {
    let chunks = vec![lines(&["rule", " rule", "rule ", "  ! indented comment", "  ! indented comment"])];
    let (merged, removed) = merge_chunks(&chunks);
    assert_eq!(merged.len(), 5);
    assert_eq!(removed, 0);
    let chunks = vec![lines(&["\t", "\u{3000}", "\t"]), lines(&[" #x", " #x"])];
    let (merged, removed) = merge_chunks(&chunks);
    assert_eq!(merged.len(), 5);
    assert_eq!(removed, 0);
}

#[test]
fn test_merge_chunks_nothing_to_merge() {
    let (merged, removed) = merge_chunks(&[]);
    assert!(merged.is_empty());
    assert_eq!(removed, 0);
    let (merged, removed) = merge_chunks(&[Vec::new(), Vec::new()]);
    assert!(merged.is_empty());
    assert_eq!(removed, 0);
}

#[test]
fn test_estimate_speedup_disabled() {
    let options = ChunkingOptions::new().with_enabled(false);
    assert_eq!(estimate_speedup(100_000, &options), 1);
}

#[test]
fn test_estimate_speedup_zero_rules() {
    let options = ChunkingOptions::new().with_enabled(true);
    assert_eq!(estimate_speedup(0, &options), 1);
}

#[test]
fn test_estimate_speedup_many_rules() {
    let options = ChunkingOptions::new()
        .with_enabled(true)
        .with_chunk_size(100_000)
        .with_max_parallel(8);

    // 800,000 rules = 8 chunks = ~8x speedup
    let speedup = estimate_speedup(800_000, &options);
    assert_eq!(speedup, 8);
}

#[test]
fn test_estimate_speedup_limited_by_max_parallel() {
    let options = ChunkingOptions::new()
        .with_enabled(true)
        .with_chunk_size(100_000)
        .with_max_parallel(4);

    // 1,000,000 rules = 10 chunks, but limited to 4 parallel
    let speedup = estimate_speedup(1_000_000, &options);
    assert_eq!(speedup, 4);
}

#[test]
fn test_chunked_compilation_result_estimated_speedup() {
    let result = ChunkedCompilationResult {
        total_elapsed_ms: 1000,
        chunks: vec![
            ChunkMetadata {
                elapsed_ms: Some(800),
                ..Default::default()
            },
            ChunkMetadata {
                elapsed_ms: Some(900),
                ..Default::default()
            },
            ChunkMetadata {
                elapsed_ms: Some(850),
                ..Default::default()
            },
            ChunkMetadata {
                elapsed_ms: Some(750),
                ..Default::default()
            },
        ],
        ..Default::default()
    };

    // Sum: 3300ms, Parallel: 1000ms, Speedup: 3.3x
    let (sum, wall) = result.estimated_speedup();
    assert_eq!((sum, wall), (3300, 1000));
    let speedup = sum as f64 / wall as f64;
    assert!((speedup - 3.3).abs() < 0.1);
}

#[test]
fn test_chunked_compilation_result_no_chunks() {
    let result = ChunkedCompilationResult {
        total_elapsed_ms: 1000,
        chunks: Vec::new(),
        ..Default::default()
    };

    assert_eq!(result.estimated_speedup(), (1, 1));
}

#[test]
fn test_chunked_compilation_result_no_elapsed_time() {
    let result = ChunkedCompilationResult {
        total_elapsed_ms: 0,
        chunks: vec![ChunkMetadata {
            elapsed_ms: Some(800),
            ..Default::default()
        }],
        ..Default::default()
    };
    assert_eq!(result.estimated_speedup(), (1, 1));
}

#[test]
fn test_strategy_that_the_plan_follows() {
    assert!(ChunkingStrategy::Source.is_implemented());
    assert!(!ChunkingStrategy::LineCount.is_implemented());
    assert_eq!(ChunkingStrategy::default(), ChunkingStrategy::Source);
}
