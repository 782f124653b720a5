use rules_compiler::chunking::{split_into_chunks, ChunkMetadata, ChunkingOptions};
use rules_compiler::compiler::get_compiler_command;
use rules_compiler::config::{CompilerConfig, FilterSource};
use rules_compiler::error::CompilerError;
use rules_compiler::executor::{run_all, ChunkOutcome, ChunkRun};

fn lines(items: &[&str]) -> Vec<String> {
    items.iter().map(|s| s.to_string()).collect()
}

fn plan(sources: usize, max_parallel: usize) -> (Vec<ChunkMetadata>, ChunkingOptions) {
    let mut config = CompilerConfig::new("Job");
    for i in 0..sources {
        config = config.with_source(FilterSource::new(&format!("S{i}"), &format!("s{i}.txt")));
    }
    let options = ChunkingOptions::new().with_enabled(true).with_max_parallel(max_parallel);
    let chunks = split_into_chunks(&config, &options);
    (chunks.into_iter().map(|c| c.1).collect(), options)
}

fn completed(items: &[&str], elapsed_ms: u64) -> ChunkOutcome {
    ChunkOutcome::Completed {
        lines: lines(items),
        elapsed_ms,
        output_path: "/tmp/out.txt".to_string(),
    }
}

#[test]
fn test_end_to_end_four_sources_two_workers() {
    let mut config = CompilerConfig::new("Job");
    for i in 0..4 {
        config = config.with_source(FilterSource::new(&format!("S{i}"), &format!("s{i}.txt")));
    }
    let options = ChunkingOptions::new().with_max_parallel(2);
    let chunks = split_into_chunks(&config, &options);
    assert_eq!(chunks.len(), 2);
    assert_eq!(chunks[0].0.sources.len(), 2);
    assert_eq!(chunks[1].0.sources.len(), 2);

    let metadata: Vec<ChunkMetadata> = chunks.iter().map(|c| c.1.clone()).collect();
    let mut run = ChunkRun::new(&metadata, &options);
    assert_eq!(run.next_batch(), Some((0, 2)));
    run.record_batch(vec![completed(&["a", "b"], 30), completed(&["a", "c"], 40)]).unwrap();
    assert_eq!(run.next_batch(), None);
    let result = run.finish(45);

    assert_eq!(result.merged_rules, Some(lines(&["a", "b", "c"])));
    assert_eq!(result.duplicates_removed, 1);
    assert!(result.success);
    assert_eq!(result.final_rule_count, 3);
    assert_eq!(result.total_rules, 4);
    assert_eq!(result.total_elapsed_ms, 45);
    assert!(result.errors.is_empty());
    assert_eq!(result.chunks.len(), 2);
    assert_eq!(result.chunks[0].index, 0);
    assert_eq!(result.chunks[1].index, 1);
    assert_eq!(result.chunks[1].total, 2);
    assert!(result.chunks[1].success);
    assert_eq!(result.chunks[1].actual_rules, Some(2));
    assert_eq!(result.chunks[1].elapsed_ms, Some(40));
    assert_eq!(result.chunks[1].output_path.as_deref(), Some("/tmp/out.txt"));
    assert_eq!(result.chunks[1].sources.len(), 2);
    assert_eq!(result.estimated_speedup(), (70, 45));
}

#[test]
fn test_batches_follow_the_plan() {
    let (metadata, options) = plan(5, 5);
    assert_eq!(metadata.len(), 5);
    let options = options.with_max_parallel(2);
    let mut run = ChunkRun::new(&metadata, &options);
    assert_eq!(run.next_batch(), Some((0, 2)));
    run.record_batch(vec![completed(&["a"], 1), completed(&["b"], 1)]).unwrap();
    assert_eq!(run.next_batch(), Some((2, 4)));
    run.record_batch(vec![completed(&["c"], 1), completed(&["d"], 1)]).unwrap();
    assert_eq!(run.next_batch(), Some((4, 5)));
    run.record_batch(vec![completed(&["e"], 1)]).unwrap();
    assert_eq!(run.next_batch(), None);
    let result = run.finish(9);
    assert_eq!(result.merged_rules, Some(lines(&["a", "b", "c", "d", "e"])));
    let indexes: Vec<usize> = result.chunks.iter().map(|c| c.index).collect();
    assert_eq!(indexes, vec![0, 1, 2, 3, 4]);
}

#[test]
fn test_failed_chunk_does_not_stop_the_run() {
    let (metadata, options) = plan(3, 3);
    let options = options.with_max_parallel(2);
    let mut run = ChunkRun::new(&metadata, &options);
    assert_eq!(run.next_batch(), Some((0, 2)));
    run.record_batch(vec![
        ChunkOutcome::Failed {
            exit_code: Some(2),
            stderr: "  bad source\n".to_string(),
            elapsed_ms: 7,
        },
        completed(&["x", "! note", "x"], 8),
    ])
    .unwrap();
    assert_eq!(run.next_batch(), Some((2, 3)));
    run.record_batch(vec![completed(&["x", "! note", "y"], 9)]).unwrap();
    let result = run.finish(20);

    assert!(!result.success);
    assert_eq!(
        result.errors,
        vec!["Chunk 1: Compilation failed with exit code Some(2): bad source".to_string()]
    );
    assert_eq!(result.chunks.len(), 3);
    assert!(!result.chunks[0].success);
    assert_eq!(
        result.chunks[0].error_message.as_deref(),
        Some("Compilation failed with exit code Some(2): bad source")
    );
    assert_eq!(result.chunks[0].elapsed_ms, Some(7));
    assert_eq!(result.chunks[0].actual_rules, None);
    assert_eq!(result.chunks[0].output_path, None);
    assert!(result.chunks[1].success);
    assert!(result.chunks[2].success);
    assert_eq!(result.merged_rules, Some(lines(&["x", "! note", "! note", "y"])));
    assert_eq!(result.total_rules, 6);
    assert_eq!(result.final_rule_count, 4);
    assert_eq!(result.duplicates_removed, 2);
}

#[test]
fn test_chunk_failure_messages() {
    let (metadata, options) = plan(4, 4);
    let mut run = ChunkRun::new(&metadata, &options);
    assert_eq!(run.next_batch(), Some((0, 4)));
    run.record_batch(vec![
        ChunkOutcome::Failed { exit_code: None, stderr: String::new(), elapsed_ms: 1 },
        ChunkOutcome::Failed { exit_code: Some(-1), stderr: "x".to_string(), elapsed_ms: 2 },
        ChunkOutcome::OutputMissing { elapsed_ms: 3 },
        ChunkOutcome::NotRun(CompilerError::file_system("writing chunk config to /tmp/c", "denied")),
    ])
    .unwrap();
    let result = run.finish(4);
    assert_eq!(
        result.errors,
        vec![
            "Chunk 1: Compilation failed with exit code None: ".to_string(),
            "Chunk 2: Compilation failed with exit code Some(-1): x".to_string(),
            "Chunk 3: output file was not created".to_string(),
            "file system error: writing chunk config to /tmp/c".to_string(),
        ]
    );
    assert!(!result.success);
    assert_eq!(result.merged_rules, None);
    assert_eq!(result.final_rule_count, 0);
    assert_eq!(result.duplicates_removed, 0);
    assert_eq!(result.total_rules, 0);
    assert_eq!(result.chunks.len(), 4);
    assert_eq!(result.chunks[2].error_message.as_deref(), Some("output file was not created"));
    assert_eq!(result.chunks[2].elapsed_ms, Some(3));
    assert_eq!(
        result.chunks[3].error_message.as_deref(),
        Some("file system error: writing chunk config to /tmp/c")
    );
    assert_eq!(result.chunks[3].elapsed_ms, None);
    assert!(result.chunks.iter().all(|c| !c.success));
}

#[test]
fn test_compiler_not_found_ends_the_run() {
    let (metadata, options) = plan(2, 2);
    let mut run = ChunkRun::new(&metadata, &options);
    let r = run.record_batch(vec![
        completed(&["a"], 1),
        ChunkOutcome::NotRun(CompilerError::CompilerNotFound),
    ]);
    assert!(matches!(r, Err(CompilerError::CompilerNotFound)));
    // nothing of the batch was taken in
    assert_eq!(run.next_batch(), Some((0, 2)));
    assert!(run.finished.is_empty());
    assert!(run.outputs.is_empty());
    assert!(run.errors.is_empty());
}

#[test]
fn test_run_without_chunks() {
    let (metadata, options) = plan(0, 3);
    assert!(metadata.is_empty());
    let run = ChunkRun::new(&metadata, &options);
    assert_eq!(run.next_batch(), None);
    let result = run.finish(0);
    assert!(result.success);
    assert!(result.chunks.is_empty());
    assert_eq!(result.merged_rules, None);
    assert_eq!(result.estimated_speedup(), (1, 1));
}

#[test]
fn test_successful_chunk_without_lines_is_merged() {
    let (metadata, options) = plan(1, 1);
    let mut run = ChunkRun::new(&metadata, &options);
    run.record_batch(vec![completed(&[], 5)]).unwrap();
    let result = run.finish(5);
    assert!(result.success);
    assert_eq!(result.merged_rules, Some(Vec::new()));
    assert_eq!(result.chunks[0].actual_rules, Some(0));
}

#[test]
fn test_get_compiler_command() {
    let (command, arguments) =
        get_compiler_command(Some("/usr/bin/hostlist-compiler"), Some("/usr/bin/npx"), "c.json", "o.txt")
            .unwrap();
    assert_eq!(command, "/usr/bin/hostlist-compiler");
    assert_eq!(arguments, vec!["--config", "c.json", "--output", "o.txt"]);
    let (command, arguments) =
        get_compiler_command(None, Some("/usr/bin/npx"), "c.json", "o.txt").unwrap();
    assert_eq!(command, "/usr/bin/npx");
    assert_eq!(
        arguments,
        vec!["@adguard/hostlist-compiler", "--config", "c.json", "--output", "o.txt"]
    );
    let missing = get_compiler_command(None, None, "c.json", "o.txt");
    assert!(matches!(missing, Err(CompilerError::CompilerNotFound)));
    let (_, arguments) = get_compiler_command(Some("hc"), None, "", "").unwrap();
    assert_eq!(arguments, vec!["--config", "", "--output", ""]);
}

#[test]
fn test_run_ended_early_is_no_success() {
    let (metadata, options) = plan(4, 4);
    let options = options.with_max_parallel(2);
    let mut run = ChunkRun::new(&metadata, &options);
    assert_eq!(run.next_batch(), Some((0, 2)));
    run.record_batch(vec![completed(&["a"], 1), completed(&["b"], 2)]).unwrap();
    assert_eq!(run.next_batch(), Some((2, 4)));
    let result = run.finish(3);
    assert!(!result.success);
    assert!(result.errors.is_empty());
    assert_eq!(result.chunks.len(), 2);
    assert_eq!(result.merged_rules, Some(lines(&["a", "b"])));
    assert_eq!(result.total_rules, 2);
}

fn mixed_outcomes() -> Vec<ChunkOutcome> {
    vec![
        completed(&["a", "! c", "b"], 10),
        ChunkOutcome::Failed { exit_code: Some(1), stderr: "no".to_string(), elapsed_ms: 5 },
        completed(&["b", "! c", "d"], 20),
        ChunkOutcome::OutputMissing { elapsed_ms: 1 },
        completed(&["a", "e"], 30),
    ]
}

#[test]
fn test_run_all_end_to_end() {
    let (metadata, options) = plan(4, 2);
    assert_eq!(metadata.len(), 2);
    let result =
        run_all(&metadata, &options, vec![completed(&["a", "b"], 3), completed(&["a", "c"], 4)], 5)
            .unwrap();
    assert_eq!(result.merged_rules, Some(lines(&["a", "b", "c"])));
    assert_eq!(result.duplicates_removed, 1);
    assert!(result.success);
}

#[test]
fn test_result_does_not_depend_on_the_batches() {
    let (metadata, options) = plan(5, 5);
    assert_eq!(metadata.len(), 5);
    let mut seen = Vec::new();
    for workers in [1usize, 2, 3, 4, 5, 9] {
        let result =
            run_all(&metadata, &options.with_max_parallel(workers), mixed_outcomes(), 40).unwrap();
        assert!(!result.success);
        assert_eq!(result.chunks.len(), 5);
        let indexes: Vec<usize> = result.chunks.iter().map(|c| c.index).collect();
        assert_eq!(indexes, vec![0, 1, 2, 3, 4]);
        assert_eq!(result.merged_rules, Some(lines(&["a", "! c", "b", "! c", "d", "e"])));
        assert_eq!(result.duplicates_removed, 2);
        assert_eq!(result.total_rules, 8);
        assert_eq!(
            result.errors,
            vec![
                "Chunk 2: Compilation failed with exit code Some(1): no".to_string(),
                "Chunk 4: output file was not created".to_string()
            ]
        );
        seen.push(format!("{:?}", result));
    }
    assert!(seen.iter().all(|r| r == &seen[0]));
}

#[test]
fn test_run_all_stops_without_compiler() {
    let (metadata, options) = plan(3, 3);
    assert_eq!(metadata.len(), 3);
    let r = run_all(
        &metadata,
        &options.with_max_parallel(2),
        vec![
            completed(&["a"], 1),
            completed(&["b"], 1),
            ChunkOutcome::NotRun(CompilerError::CompilerNotFound),
        ],
        2,
    );
    assert!(matches!(r, Err(CompilerError::CompilerNotFound)));
}
