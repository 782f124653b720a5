//! The run of a plan: which chunks run together, what each chunk's run comes
//! to, and the result that the runs add up to.
//!
//! The library decides; the caller runs the compiler. A [`ChunkRun`] hands out
//! one batch of chunks at a time. The caller runs the chunks of the batch at
//! once, waits for all of them, and reports one [`ChunkOutcome`] per chunk, in
//! the order of the chunks. A chunk that fails is reported and does not stop
//! the others, nor the batches that follow.

use crate::chunking::{
    chunk_texts, flattened, merge_chunks, merged, metadata_views, saturated, ChunkMetadata,
    ChunkMetadataView, ChunkedCompilationResult, ChunkedCompilationResultView, ChunkingOptions,
};
use crate::error::CompilerError;
use crate::text::{
    concat, decimal, decimal_string, owned, signed_decimal, signed_decimal_string, texts, trim,
    trimmed,
};
use vstd::prelude::*;

verus! {

/// What running the compiler on one chunk came to.
#[derive(Debug)]
pub enum ChunkOutcome {
    /// The compiler could not be run on the chunk, or its output could not be
    /// read: the error that stopped it.
    NotRun(CompilerError),
    /// The compiler ran and exited with a status other than success.
    Failed {
        /// The exit code, where the process had one.
        exit_code: Option<i32>,
        /// What the compiler wrote to its standard error.
        stderr: String,
        /// How long the chunk took, in milliseconds.
        elapsed_ms: u64,
    },
    /// The compiler exited with success and left no output file.
    OutputMissing {
        /// How long the chunk took, in milliseconds.
        elapsed_ms: u64,
    },
    /// The compiler exited with success and wrote its output file.
    Completed {
        /// The lines of the output file.
        lines: Vec<String>,
        /// How long the chunk took, in milliseconds.
        elapsed_ms: u64,
        /// The path of the output file.
        output_path: String,
    },
}

/// An exit code as a failure message shows it: `Some(..)` round the number,
/// or `None`.
pub open spec fn exit_code_text(code: Option<i32>) -> Seq<char> {
    match code {
        Some(c) => "Some("@ + signed_decimal(c as int) + ")"@,
        None => "None"@,
    }
}

impl ChunkOutcome {
    /// No chunk can run after this outcome: the compiler was not found.
    pub open spec fn is_fatal(&self) -> bool {
        self matches ChunkOutcome::NotRun(e) && e is CompilerNotFound
    }

    /// The error message of the chunk, where it failed.
    pub open spec fn error_text(&self) -> Option<Seq<char>> {
        match self {
            ChunkOutcome::NotRun(e) => Some(e.message_text()),
            ChunkOutcome::Failed { exit_code, stderr, elapsed_ms } => Some(
                "Compilation failed with exit code "@ + exit_code_text(*exit_code) + ": "@
                    + trimmed(stderr@),
            ),
            ChunkOutcome::OutputMissing { elapsed_ms } => Some("output file was not created"@),
            ChunkOutcome::Completed { lines, elapsed_ms, output_path } => None,
        }
    }

    /// How long the chunk took, where the compiler ran.
    pub open spec fn elapsed(&self) -> Option<nat> {
        match self {
            ChunkOutcome::NotRun(e) => None,
            ChunkOutcome::Failed { exit_code, stderr, elapsed_ms } => Some(*elapsed_ms as nat),
            ChunkOutcome::OutputMissing { elapsed_ms } => Some(*elapsed_ms as nat),
            ChunkOutcome::Completed { lines, elapsed_ms, output_path } => Some(*elapsed_ms as nat),
        }
    }

    /// The lines that the chunk produced, where it succeeded.
    pub open spec fn output(&self) -> Option<Seq<Seq<char>>> {
        match self {
            ChunkOutcome::Completed { lines, elapsed_ms, output_path } => Some(texts(lines@)),
            _ => None,
        }
    }

    /// The metadata of the chunk after its run, from the metadata it was
    /// planned with: a chunk succeeds only where the compiler exited with
    /// success and its output file was there.
    pub open spec fn finished(&self, planned: ChunkMetadataView) -> ChunkMetadataView {
        ChunkMetadataView {
            success: self is Completed,
            elapsed_ms: self.elapsed(),
            error_message: self.error_text(),
            actual_rules: match self.output() {
                Some(lines) => Some(lines.len()),
                None => None,
            },
            output_path: match self {
                ChunkOutcome::Completed { lines, elapsed_ms, output_path } => Some(output_path@),
                _ => None,
            },
            ..planned
        }
    }

    /// The line that the chunk adds to the errors of the run, where it failed:
    /// the error that stopped it, or the chunk's number and its message.
    pub open spec fn report(&self, index: nat) -> Option<Seq<char>> {
        match self {
            ChunkOutcome::NotRun(e) => Some(e.message_text()),
            ChunkOutcome::Completed { lines, elapsed_ms, output_path } => None,
            _ => Some("Chunk "@ + decimal(index + 1) + ": "@ + self.error_text()->0),
        }
    }
}

/// The metadata of the chunks of a batch after their runs.
pub open spec fn finished_batch(
    outcomes: Seq<ChunkOutcome>,
    planned: Seq<ChunkMetadataView>,
) -> Seq<ChunkMetadataView>
    recommends
        outcomes.len() == planned.len(),
{
    Seq::new(outcomes.len(), |k: int| outcomes[k].finished(planned[k]))
}

/// The lines that the chunks of a batch add to the errors of the run.
pub open spec fn batch_reports(
    outcomes: Seq<ChunkOutcome>,
    planned: Seq<ChunkMetadataView>,
) -> Seq<Seq<char>>
    recommends
        outcomes.len() == planned.len(),
    decreases outcomes.len(),
{
    if outcomes.len() == 0 || planned.len() == 0 {
        Seq::empty()
    } else {
        let before = batch_reports(outcomes.drop_last(), planned.drop_last());
        match outcomes.last().report(planned.last().index) {
            Some(line) => before.push(line),
            None => before,
        }
    }
}

/// The outputs of the chunks of a batch that succeeded.
pub open spec fn batch_outputs(outcomes: Seq<ChunkOutcome>) -> Seq<Seq<Seq<char>>>
    decreases outcomes.len(),
{
    if outcomes.len() == 0 {
        Seq::empty()
    } else {
        match outcomes.last().output() {
            Some(lines) => batch_outputs(outcomes.drop_last()).push(lines),
            None => batch_outputs(outcomes.drop_last()),
        }
    }
}

/// The rules of the chunks that report a count, added up.
pub open spec fn total_actual_rules(chunks: Seq<ChunkMetadataView>) -> nat
    decreases chunks.len(),
{
    if chunks.len() == 0 {
        0
    } else {
        total_actual_rules(chunks.drop_last()) + match chunks.last().actual_rules {
            Some(n) => n,
            None => 0,
        }
    }
}

/// The run of a plan, batch by batch.
#[derive(Debug)]
pub struct ChunkRun {
    /// The metadata that the chunks were planned with.
    pub plan: Vec<ChunkMetadata>,
    /// How many chunks run at once.
    pub max_parallel: usize,
    /// The metadata of the chunks that have run, in the order of the plan.
    pub finished: Vec<ChunkMetadata>,
    /// The errors of the chunks that have run.
    pub errors: Vec<String>,
    /// The lines of the chunks that succeeded, in the order of the plan.
    pub outputs: Vec<Vec<String>>,
}

impl ChunkRun {
    /// A run stands between two batches: the chunks that have run are the
    /// first of the plan, whole batches of them.
    pub open spec fn wf(&self) -> bool {
        &&& self.max_parallel >= 1
        &&& self.finished@.len() <= self.plan@.len()
        &&& self.finished@.len() == self.plan@.len() || self.finished@.len() as int % (
        self.max_parallel as int) == 0
    }

    /// The batch that runs next: the chunks from the first that has not run,
    /// as many as run at once, or those that are left.
    pub open spec fn batch(&self) -> Option<(int, int)> {
        let done = self.finished@.len() as int;
        let all = self.plan@.len() as int;
        if done >= all {
            None
        } else if all - done <= self.max_parallel {
            Some((done, all))
        } else {
            Some((done, done + self.max_parallel))
        }
    }

    /// The run of the plan that `chunks` holds, before its first batch.
    pub fn new(chunks: &Vec<ChunkMetadata>, options: &ChunkingOptions) -> (r: Self)
        requires
            options.is_valid(),
        ensures
            r.wf(),
            metadata_views(r.plan@) == metadata_views(chunks@),
            r.max_parallel == options.max_parallel,
            r.finished@.len() == 0,
            r.errors@.len() == 0,
            r.outputs@.len() == 0,
    {
        let mut plan: Vec<ChunkMetadata> = Vec::new();
        let mut i: usize = 0;
        while i < chunks.len()
            invariant
                i <= chunks.len(),
                plan@.len() == i,
                forall|k: int| 0 <= k < i ==> (#[trigger] plan@[k])@ == chunks@[k]@,
            decreases chunks.len() - i,
        {
            plan.push(chunks[i].clone());
            i = i + 1;
        }
        assert(metadata_views(plan@) =~= metadata_views(chunks@));
        let r = ChunkRun {
            plan,
            max_parallel: options.max_parallel,
            finished: Vec::new(),
            errors: Vec::new(),
            outputs: Vec::new(),
        };
        assert(metadata_views(r.finished@) =~= Seq::empty());
        assert(chunk_texts(r.outputs@) =~= Seq::empty());
        r
    }

    /// The bounds of the batch to run now, first chunk and the one after the
    /// last; `None` when every chunk has run.
    pub fn next_batch(&self) -> (r: Option<(usize, usize)>)
        requires
            self.wf(),
        ensures
            match r {
                Some((start, end)) => self.batch() == Some((start as int, end as int)) && start
                    < end <= self.plan@.len() && end - start <= self.max_parallel,
                None => self.batch() is None && self.finished@.len() == self.plan@.len(),
            },
    {
        let done = self.finished.len();
        let all = self.plan.len();
        if done >= all {
            None
        } else if all - done <= self.max_parallel {
            Some((done, all))
        } else {
            Some((done, done + self.max_parallel))
        }
    }

    /// Takes in the outcomes of the batch that `next_batch` gave, one per
    /// chunk and in the order of the chunks.
    ///
    /// Every chunk's metadata is put down as its outcome leaves it; a failed
    /// chunk adds its line to the errors; a chunk that succeeded adds its
    /// lines to the outputs.
    ///
    /// # Errors
    ///
    /// Returns `CompilerNotFound` where an outcome says that the compiler was
    /// not found: no chunk can run without it. Nothing of the batch is taken
    /// in then.
    pub fn record_batch(&mut self, outcomes: Vec<ChunkOutcome>) -> (r: Result<(), CompilerError>)
        requires
            old(self).wf(),
            old(self).batch() is Some,
            outcomes@.len() == old(self).batch().unwrap().1 - old(self).batch().unwrap().0,
        ensures
            r is Err <==> exists|k: int| 0 <= k < outcomes@.len() && outcomes@[k].is_fatal(),
            r is Err ==> r->Err_0 is CompilerNotFound && *final(self) == *old(self),
            r is Ok ==> {
                let start = old(self).batch().unwrap().0;
                let end = old(self).batch().unwrap().1;
                let planned = metadata_views(old(self).plan@).subrange(start, end);
                &&& final(self).wf()
                &&& final(self).max_parallel == old(self).max_parallel
                &&& metadata_views(final(self).plan@) == metadata_views(old(self).plan@)
                &&& metadata_views(final(self).finished@) == metadata_views(old(self).finished@)
                    + finished_batch(outcomes@, planned)
                &&& texts(final(self).errors@) == texts(old(self).errors@) + batch_reports(
                    outcomes@,
                    planned,
                )
                &&& chunk_texts(final(self).outputs@) == chunk_texts(old(self).outputs@)
                    + batch_outputs(outcomes@)
            },
    {
        let start = self.finished.len();
        let count = outcomes.len();
        let planned_count = self.plan.len();
        let ghost planned = metadata_views(self.plan@).subrange(start as int, start + count);
        let ghost all = outcomes@;
        let mut scanned: usize = 0;
        while scanned < count
            invariant
                scanned <= count == outcomes@.len(),
                forall|j: int| 0 <= j < scanned ==> !(#[trigger] outcomes@[j]).is_fatal(),
            decreases count - scanned,
        {
            match &outcomes[scanned] {
                ChunkOutcome::NotRun(CompilerError::CompilerNotFound) => {
                    assert(outcomes@[scanned as int].is_fatal());
                    return Err(CompilerError::CompilerNotFound);
                },
                _ => {},
            }
            scanned = scanned + 1;
        }
        let mut rest = outcomes;
        let mut k: usize = 0;
        assert(planned.subrange(0, 0) =~= Seq::empty());
        assert(all.subrange(0, 0) =~= Seq::empty());
        assert(rest@ =~= all.subrange(0, count as int));
        while k < count
            invariant
                k <= count,
                all.len() == count,
                rest@ == all.subrange(k as int, count as int),
                start + count <= self.plan@.len() == planned_count,
                all == outcomes@,
                self.max_parallel == old(self).max_parallel,
                self.max_parallel >= 1,
                self.plan == old(self).plan,
                planned == metadata_views(self.plan@).subrange(start as int, start + count),
                self.finished@.len() == start + k,
                start == old(self).finished@.len(),
                forall|j: int| 0 <= j < count ==> !(#[trigger] all[j]).is_fatal(),
                metadata_views(self.finished@) == metadata_views(old(self).finished@)
                    + finished_batch(all.subrange(0, k as int), planned.subrange(0, k as int)),
                texts(self.errors@) == texts(old(self).errors@) + batch_reports(
                    all.subrange(0, k as int),
                    planned.subrange(0, k as int),
                ),
                chunk_texts(self.outputs@) == chunk_texts(old(self).outputs@) + batch_outputs(
                    all.subrange(0, k as int),
                ),
            decreases count - k,
        {
            let outcome = rest.remove(0);
            assert(outcome == all[k as int]);
            assert(rest@ =~= all.subrange(k + 1, count as int));
            let ghost before = *self;
            let ghost view_before = metadata_views(self.finished@);
            let planned_chunk = &self.plan[start + k];
            proof {
                assert(planned[k as int] == planned_chunk@);
                assert(all.subrange(0, k + 1).drop_last() =~= all.subrange(0, k as int));
                assert(planned.subrange(0, k + 1).drop_last() =~= planned.subrange(0, k as int));
                assert(all.subrange(0, k + 1).last() == outcome);
                assert(planned.subrange(0, k + 1).last() == planned_chunk@);
                assert(finished_batch(all.subrange(0, k + 1), planned.subrange(0, k + 1))
                    =~= finished_batch(all.subrange(0, k as int), planned.subrange(0, k as int)).push(
                    outcome.finished(planned_chunk@),
                ));
            }
            let mut metadata = planned_chunk.clone();
            let number = decimal_string(metadata.index as u128 + 1);
            match outcome {
                ChunkOutcome::NotRun(e) => {
                    metadata.success = false;
                    metadata.elapsed_ms = None;
                    metadata.actual_rules = None;
                    metadata.output_path = None;
                    metadata.error_message = Some(e.to_string());
                    self.errors.push(e.to_string());
                    assert(texts(self.errors@) =~= texts(before.errors@).push(e.message_text()));
                },
                ChunkOutcome::Failed { exit_code, stderr, elapsed_ms } => {
                    let mut message = owned("Compilation failed with exit code ");
                    match exit_code {
                        Some(c) => {
                            message.append("Some(");
                            message.append(signed_decimal_string(c as i64).as_str());
                            message.append(")");
                        },
                        None => {
                            message.append("None");
                        },
                    }
                    message.append(": ");
                    message.append(trim(stderr.as_str()).as_str());
                    assert(message@ =~= outcome.error_text()->0);
                    let mut line = concat("Chunk ", number.as_str());
                    line.append(": ");
                    line.append(message.as_str());
                    metadata.success = false;
                    metadata.elapsed_ms = Some(elapsed_ms);
                    metadata.actual_rules = None;
                    metadata.output_path = None;
                    metadata.error_message = Some(message);
                    self.errors.push(line);
                    assert(texts(self.errors@) =~= texts(before.errors@).push(
                        outcome.report(planned_chunk@.index)->0,
                    ));
                },
                ChunkOutcome::OutputMissing { elapsed_ms } => {
                    let mut line = concat("Chunk ", number.as_str());
                    line.append(": ");
                    line.append("output file was not created");
                    metadata.success = false;
                    metadata.elapsed_ms = Some(elapsed_ms);
                    metadata.actual_rules = None;
                    metadata.output_path = None;
                    metadata.error_message = Some(owned("output file was not created"));
                    self.errors.push(line);
                    assert(texts(self.errors@) =~= texts(before.errors@).push(
                        outcome.report(planned_chunk@.index)->0,
                    ));
                },
                ChunkOutcome::Completed { lines, elapsed_ms, output_path } => {
                    metadata.success = true;
                    metadata.elapsed_ms = Some(elapsed_ms);
                    metadata.actual_rules = Some(lines.len());
                    metadata.output_path = Some(output_path);
                    metadata.error_message = None;
                    self.outputs.push(lines);
                    assert(chunk_texts(self.outputs@) =~= chunk_texts(before.outputs@).push(
                        texts(lines@),
                    ));
                    assert(texts(self.errors@) =~= texts(before.errors@));
                },
            }
            assert(metadata@ == outcome.finished(planned_chunk@));
            self.finished.push(metadata);
            proof {
                assert(metadata_views(self.finished@) =~= view_before.push(metadata@));
                if !(outcome is Completed) {
                    assert(chunk_texts(self.outputs@) =~= chunk_texts(before.outputs@));
                }
            }
            k = k + 1;
        }
        proof {
            assert(all.subrange(0, count as int) =~= all);
            assert(planned.subrange(0, count as int) =~= planned);
            let done = self.finished@.len() as int;
            let p = self.max_parallel as int;
            if done != self.plan@.len() {
                assert(count == p);
                let s = start as int;
                assert((s + p) % p == 0) by (nonlinear_arith)
                    requires
                        s % p == 0,
                        p >= 1,
                        s >= 0,
                ;
            }
        }
        Ok(())
    }

    /// What the run has come to once `total_elapsed_ms` milliseconds have
    /// gone by: it succeeded when every chunk of the plan has run and none
    /// added an error; where a chunk succeeded, the outputs are merged in the
    /// order of the plan.
    pub open spec fn result(&self, total_elapsed_ms: nat) -> ChunkedCompilationResultView {
        let lines = flattened(chunk_texts(self.outputs@));
        ChunkedCompilationResultView {
            success: self.errors@.len() == 0 && self.finished@.len() == self.plan@.len(),
            total_elapsed_ms,
            chunks: metadata_views(self.finished@),
            total_rules: saturated(total_actual_rules(metadata_views(self.finished@))),
            final_rule_count: if self.outputs@.len() > 0 {
                merged(lines).len()
            } else {
                0
            },
            duplicates_removed: if self.outputs@.len() > 0 {
                saturated((lines.len() - merged(lines).len()) as nat)
            } else {
                0
            },
            merged_rules: if self.outputs@.len() > 0 {
                Some(merged(lines))
            } else {
                None
            },
            errors: texts(self.errors@),
        }
    }

    /// Ends the run and gives its result. A run that is ended before its
    /// last batch reports the chunks that have run, and is no success.
    pub fn finish(self, total_elapsed_ms: u64) -> (r: ChunkedCompilationResult)
        ensures
            r@ == self.result(total_elapsed_ms as nat),
    {
        let success = self.errors.len() == 0 && self.finished.len() == self.plan.len();
        let mut total_rules: usize = 0;
        let mut i: usize = 0;
        while i < self.finished.len()
            invariant
                i <= self.finished@.len(),
                total_rules == saturated(
                    total_actual_rules(metadata_views(self.finished@).subrange(0, i as int)),
                ),
            decreases self.finished@.len() - i,
        {
            proof {
                let views = metadata_views(self.finished@);
                assert(views.subrange(0, i + 1).drop_last() =~= views.subrange(0, i as int));
            }
            match self.finished[i].actual_rules {
                Some(n) => {
                    total_rules = if n > usize::MAX - total_rules {
                        usize::MAX
                    } else {
                        total_rules + n
                    };
                },
                None => {},
            }
            i = i + 1;
        }
        assert(metadata_views(self.finished@).subrange(0, i as int) =~= metadata_views(
            self.finished@,
        ));
        let mut final_rule_count: usize = 0;
        let mut duplicates_removed: usize = 0;
        let mut merged_rules: Option<Vec<String>> = None;
        if self.outputs.len() > 0 {
            let (lines, removed) = merge_chunks(self.outputs.as_slice());
            proof {
                crate::chunking::lemma_merged_same_lines(flattened(chunk_texts(self.outputs@)));
                assert(texts(lines@).len() == lines@.len());
            }
            final_rule_count = lines.len();
            duplicates_removed = removed;
            merged_rules = Some(lines);
        }
        ChunkedCompilationResult {
            success,
            total_elapsed_ms,
            chunks: self.finished,
            total_rules,
            final_rule_count,
            duplicates_removed,
            merged_rules,
            errors: self.errors,
        }
    }
}

/// What a run of a whole plan comes to, whatever the batches it ran in:
/// every chunk's metadata as its outcome leaves it, in the order of the plan;
/// the lines of the failed chunks' errors in that order; and the merge of the
/// outputs of the chunks that succeeded, taken in that order too.
pub open spec fn whole_result(
    planned: Seq<ChunkMetadataView>,
    outcomes: Seq<ChunkOutcome>,
    total_elapsed_ms: nat,
) -> ChunkedCompilationResultView {
    let outputs = batch_outputs(outcomes);
    let lines = flattened(outputs);
    ChunkedCompilationResultView {
        success: batch_reports(outcomes, planned).len() == 0,
        total_elapsed_ms,
        chunks: finished_batch(outcomes, planned),
        total_rules: saturated(total_actual_rules(finished_batch(outcomes, planned))),
        final_rule_count: if outputs.len() > 0 {
            merged(lines).len()
        } else {
            0
        },
        duplicates_removed: if outputs.len() > 0 {
            saturated((lines.len() - merged(lines).len()) as nat)
        } else {
            0
        },
        merged_rules: if outputs.len() > 0 {
            Some(merged(lines))
        } else {
            None
        },
        errors: batch_reports(outcomes, planned),
    }
}

/// The reports of two runs of chunks, one after the other, are the reports
/// of the first and then those of the second.
pub proof fn lemma_batch_reports_append(
    first: Seq<ChunkOutcome>,
    first_planned: Seq<ChunkMetadataView>,
    second: Seq<ChunkOutcome>,
    second_planned: Seq<ChunkMetadataView>,
)
    requires
        first.len() == first_planned.len(),
        second.len() == second_planned.len(),
    ensures
        batch_reports(first + second, first_planned + second_planned) == batch_reports(
            first,
            first_planned,
        ) + batch_reports(second, second_planned),
    decreases second.len(),
{
    if second.len() == 0 {
        assert(first + second =~= first);
        assert(first_planned + second_planned =~= first_planned);
        assert(batch_reports(first, first_planned) + batch_reports(second, second_planned)
            =~= batch_reports(first, first_planned));
    } else {
        lemma_batch_reports_append(
            first,
            first_planned,
            second.drop_last(),
            second_planned.drop_last(),
        );
        assert((first + second).drop_last() =~= first + second.drop_last());
        assert((first_planned + second_planned).drop_last() =~= first_planned
            + second_planned.drop_last());
        assert((first + second).last() == second.last());
        assert((first_planned + second_planned).last() == second_planned.last());
        let before = batch_reports(second.drop_last(), second_planned.drop_last());
        match second.last().report(second_planned.last().index) {
            Some(line) => {
                assert(batch_reports(first, first_planned) + before.push(line) =~= (batch_reports(
                    first,
                    first_planned,
                ) + before).push(line));
            },
            None => {},
        }
    }
}

/// The outputs of two runs of chunks, one after the other, are the outputs
/// of the first and then those of the second.
pub proof fn lemma_batch_outputs_append(first: Seq<ChunkOutcome>, second: Seq<ChunkOutcome>)
    ensures
        batch_outputs(first + second) == batch_outputs(first) + batch_outputs(second),
    decreases second.len(),
{
    if second.len() == 0 {
        assert(first + second =~= first);
        assert(batch_outputs(first) + batch_outputs(second) =~= batch_outputs(first));
    } else {
        lemma_batch_outputs_append(first, second.drop_last());
        assert((first + second).drop_last() =~= first + second.drop_last());
        assert((first + second).last() == second.last());
        let before = batch_outputs(second.drop_last());
        match second.last().output() {
            Some(lines) => {
                assert(batch_outputs(first) + before.push(lines) =~= (batch_outputs(first)
                    + before).push(lines));
            },
            None => {},
        }
    }
}

/// Runs a whole plan, given the outcome of every chunk, in the order of the
/// plan: the batches are taken one after the other, as many chunks at a time
/// as the options allow, and the result is put together at the end.
///
/// The result does not depend on the number of chunks that run at once.
///
/// # Errors
///
/// Returns `CompilerNotFound` where an outcome says that the compiler was
/// not found.
pub fn run_all(
    chunks: &Vec<ChunkMetadata>,
    options: &ChunkingOptions,
    outcomes: Vec<ChunkOutcome>,
    total_elapsed_ms: u64,
) -> (r: Result<ChunkedCompilationResult, CompilerError>)
    requires
        options.is_valid(),
        outcomes@.len() == chunks@.len(),
    ensures
        r is Err <==> exists|k: int| 0 <= k < outcomes@.len() && outcomes@[k].is_fatal(),
        r is Err ==> r->Err_0 is CompilerNotFound,
        r is Ok ==> r->Ok_0@ == whole_result(
            metadata_views(chunks@),
            outcomes@,
            total_elapsed_ms as nat,
        ),
{
    let ghost all = outcomes@;
    let ghost planned = metadata_views(chunks@);
    let mut run = ChunkRun::new(chunks, options);
    let mut rest = outcomes;
    let n = chunks.len();
    assert(all.subrange(0, 0) =~= Seq::empty());
    assert(planned.subrange(0, 0) =~= Seq::empty());
    assert(rest@ =~= all.subrange(0, n as int));
    assert(metadata_views(run.finished@) =~= Seq::empty());
    assert(texts(run.errors@) =~= Seq::empty());
    assert(chunk_texts(run.outputs@) =~= Seq::empty());
    loop
        invariant
            run.wf(),
            all.len() == n,
            planned.len() == n,
            planned == metadata_views(run.plan@),
            planned == metadata_views(chunks@),
            all == outcomes@,
            run.finished@.len() <= n,
            rest@ == all.subrange(run.finished@.len() as int, n as int),
            forall|j: int| 0 <= j < run.finished@.len() ==> !(#[trigger] all[j]).is_fatal(),
            metadata_views(run.finished@) == finished_batch(
                all.subrange(0, run.finished@.len() as int),
                planned.subrange(0, run.finished@.len() as int),
            ),
            texts(run.errors@) == batch_reports(
                all.subrange(0, run.finished@.len() as int),
                planned.subrange(0, run.finished@.len() as int),
            ),
            chunk_texts(run.outputs@) == batch_outputs(
                all.subrange(0, run.finished@.len() as int),
            ),
        ensures
            run.finished@.len() == n,
            planned == metadata_views(run.plan@),
            forall|j: int| 0 <= j < n ==> !(#[trigger] all[j]).is_fatal(),
            metadata_views(run.finished@) == finished_batch(all, planned),
            texts(run.errors@) == batch_reports(all, planned),
            chunk_texts(run.outputs@) == batch_outputs(all),
        decreases n - run.finished@.len(),
    {
        let (start, end) = match run.next_batch() {
            Some(bounds) => bounds,
            None => {
                assert(all.subrange(0, n as int) =~= all);
                assert(planned.subrange(0, n as int) =~= planned);
                break ;
            },
        };
        let tail = rest.split_off(end - start);
        let batch = rest;
        rest = tail;
        let ghost done = all.subrange(0, start as int);
        let ghost done_planned = planned.subrange(0, start as int);
        let ghost now = all.subrange(start as int, end as int);
        let ghost now_planned = planned.subrange(start as int, end as int);
        proof {
            assert(batch@ =~= now);
            assert(rest@ =~= all.subrange(end as int, n as int));
            assert(done + now =~= all.subrange(0, end as int));
            assert(done_planned + now_planned =~= planned.subrange(0, end as int));
            lemma_batch_reports_append(done, done_planned, now, now_planned);
            lemma_batch_outputs_append(done, now);
            assert(finished_batch(done, done_planned) + finished_batch(now, now_planned)
                =~= finished_batch(done + now, done_planned + now_planned));
        }
        match run.record_batch(batch) {
            Ok(_) => {
                proof {
                    assert forall|j: int| 0 <= j < end implies !(#[trigger] all[j]).is_fatal() by {
                        if j >= start {
                            assert(now[j - start] == all[j]);
                        }
                    }
                }
            },
            Err(e) => {
                proof {
                    let k = choose|k: int| 0 <= k < now.len() && now[k].is_fatal();
                    assert(all[start + k].is_fatal());
                }
                return Err(e);
            },
        }
    }
    let ghost before = run;
    let result = run.finish(total_elapsed_ms);
    proof {
        assert(before.result(total_elapsed_ms as nat) == whole_result(
            planned,
            all,
            total_elapsed_ms as nat,
        ));
        if exists|k: int| 0 <= k < all.len() && all[k].is_fatal() {
            let k = choose|k: int| 0 <= k < all.len() && all[k].is_fatal();
            assert(!all[k].is_fatal());
        }
    }
    Ok(result)
}

} // verus!
