//! Sealing of evicted records for durable storage.

use vstd::prelude::*;

verus! {

/// The Snappy frame stream that holds `raw`, as the Snappy encoder writes it in one piece.
pub uninterp spec fn snap_framed(raw: Seq<u8>) -> Seq<u8>;

/// `snap::write::FrameEncoder::new` over an empty vector, the bytes written to it with
/// `write_all`, and `into_inner`. Writing into a vector does not fail, and the encoder
/// fails on no block that it cuts itself, so the calls return `Ok`; the contract says only
/// that the stream is a function of the bytes.
#[verifier::external_body]
fn snap_frame(raw: &[u8]) -> (framed: Vec<u8>)
    ensures
        framed@ == snap_framed(raw@),
{
    let mut encoder = snap::write::FrameEncoder::new(Vec::new());
    std::io::Write::write_all(&mut encoder, raw).unwrap();
    encoder.into_inner().unwrap()
}

/// Seals one serialized record: compresses its bytes into the blob that is stored.
pub fn seal(serialized: &[u8]) -> (blob: Vec<u8>)
    ensures
        blob@ == snap_framed(serialized@),
{
    snap_frame(serialized)
}

/// Seals a batch of serialized records, each on its own and in order: one blob per
/// record, one row per blob.
pub fn seal_batch(serialized: &[Vec<u8>]) -> (blobs: Vec<Vec<u8>>)
    ensures
        blobs@.len() == serialized@.len(),
        forall|i: int| 0 <= i < serialized@.len() ==> (#[trigger] blobs@[i])@ == snap_framed(serialized@[i]@),
{
    let mut blobs: Vec<Vec<u8>> = Vec::new();
    let mut i: usize = 0;
    while i < serialized.len()
        invariant
            i <= serialized@.len(),
            blobs@.len() == i,
            forall|j: int| 0 <= j < i ==> (#[trigger] blobs@[j])@ == snap_framed(serialized@[j]@),
        decreases serialized.len() - i,
    {
        let blob = seal(serialized[i].as_slice());
        blobs.push(blob);
        i += 1;
    }
    blobs
}

/// One step in storing a batch of sealed records.
#[derive(Clone, Copy, Debug, PartialEq, Eq, Structural)]
pub enum StoreStep {
    /// Open the store, creating it where it does not exist.
    Open,
    /// Create the table of stored requests where there is none.
    EnsureSchema,
    /// Begin the transaction that holds the batch.
    Begin,
    /// Insert the blob of the record at `row` as one row.
    Insert { row: usize },
    /// Commit the transaction.
    Commit,
    /// Close the store.
    Close,
}

/// Where the storing of a batch stands.
#[derive(Clone, Copy, Debug, PartialEq, Eq, Structural)]
pub enum StoreProgress {
    /// `0` is to be done next.
    Next(StoreStep),
    /// Every step was done: the batch is stored.
    Stored,
    /// A step failed. Nothing is tried again; a failure before the end of `Commit`
    /// loses the whole batch.
    Failed { step: StoreStep },
}

/// The table that holds the stored requests, one row each.
pub const CREATE_TABLE: &'static str =
    "CREATE TABLE IF NOT EXISTS stored_request (id INTEGER PRIMARY KEY, data BLOB)";

/// The statement that inserts one sealed record.
pub const INSERT_ROW: &'static str = "INSERT INTO stored_request (data) VALUES (?1)";

/// What follows a step that succeeded, in storing a batch of `rows` records.
pub open spec fn after_success(step: StoreStep, rows: nat) -> StoreProgress {
    match step {
        StoreStep::Open => StoreProgress::Next(StoreStep::EnsureSchema),
        StoreStep::EnsureSchema => StoreProgress::Next(StoreStep::Begin),
        StoreStep::Begin => if rows > 0 {
            StoreProgress::Next(StoreStep::Insert { row: 0 })
        } else {
            StoreProgress::Next(StoreStep::Commit)
        },
        StoreStep::Insert { row } => if row + 1 < rows {
            StoreProgress::Next(StoreStep::Insert { row: (row + 1) as usize })
        } else {
            StoreProgress::Next(StoreStep::Commit)
        },
        StoreStep::Commit => StoreProgress::Next(StoreStep::Close),
        StoreStep::Close => StoreProgress::Stored,
    }
}

/// Where the storing stands once the step that was next has succeeded or failed. What
/// is stored or has failed stays so.
pub open spec fn advanced(progress: StoreProgress, succeeded: bool, rows: nat) -> StoreProgress {
    match progress {
        StoreProgress::Next(step) => if succeeded {
            after_success(step, rows)
        } else {
            StoreProgress::Failed { step }
        },
        _ => progress,
    }
}

/// Where the storing of `rows` records stands after `done` steps that all succeeded.
pub open spec fn progress_after(rows: nat, done: nat) -> StoreProgress
    decreases done,
{
    if done == 0 {
        StoreProgress::Next(StoreStep::Open)
    } else {
        advanced(progress_after(rows, (done - 1) as nat), true, rows)
    }
}

/// Whether the rows of the batch are in the store for good.
pub open spec fn is_durable(progress: StoreProgress) -> bool {
    progress == StoreProgress::Stored || progress == (StoreProgress::Failed {
        step: StoreStep::Close,
    })
}

/// Where the storing of a batch begins.
pub fn begin_store() -> (progress: StoreProgress)
    ensures
        progress == progress_after(0, 0),
        progress == StoreProgress::Next(StoreStep::Open),
{
    assert(progress_after(0, 0) == StoreProgress::Next(StoreStep::Open));
    StoreProgress::Next(StoreStep::Open)
}

/// Moves the storing of a batch of `rows` records on, given whether the step that was
/// next succeeded.
pub fn advance(progress: StoreProgress, succeeded: bool, rows: usize) -> (next: StoreProgress)
    ensures
        next == advanced(progress, succeeded, rows as nat),
{
    match progress {
        StoreProgress::Next(step) => {
            if !succeeded {
                return StoreProgress::Failed { step };
            }
            match step {
                StoreStep::Open => StoreProgress::Next(StoreStep::EnsureSchema),
                StoreStep::EnsureSchema => StoreProgress::Next(StoreStep::Begin),
                StoreStep::Begin => if rows > 0 {
                    StoreProgress::Next(StoreStep::Insert { row: 0 })
                } else {
                    StoreProgress::Next(StoreStep::Commit)
                },
                StoreStep::Insert { row } => if rows > 0 && row < rows - 1 {
                    StoreProgress::Next(StoreStep::Insert { row: row + 1 })
                } else {
                    StoreProgress::Next(StoreStep::Commit)
                },
                StoreStep::Commit => StoreProgress::Next(StoreStep::Close),
                StoreStep::Close => StoreProgress::Stored,
            }
        },
        StoreProgress::Stored => StoreProgress::Stored,
        StoreProgress::Failed { step } => StoreProgress::Failed { step },
    }
}

/// While every step succeeds, the store is opened, the table ensured and the
/// transaction begun; then each row is inserted once, in order; then the transaction is
/// committed and the store closed, and the batch is stored.
pub proof fn lemma_store_order(rows: nat, row: nat)
    requires
        rows <= usize::MAX,
    ensures
        progress_after(rows, 0) == StoreProgress::Next(StoreStep::Open),
        progress_after(rows, 1) == StoreProgress::Next(StoreStep::EnsureSchema),
        progress_after(rows, 2) == StoreProgress::Next(StoreStep::Begin),
        row < rows ==> progress_after(rows, 3 + row) == StoreProgress::Next(
            StoreStep::Insert { row: row as usize },
        ),
        progress_after(rows, 3 + rows) == StoreProgress::Next(StoreStep::Commit),
        progress_after(rows, 4 + rows) == StoreProgress::Next(StoreStep::Close),
        progress_after(rows, 5 + rows) == StoreProgress::Stored,
    decreases row,
{
    reveal_with_fuel(progress_after, 3);
    if 0 < row < rows {
        lemma_store_order(rows, (row - 1) as nat);
    }
    lemma_inserts_in_order(rows, rows);
    assert(progress_after(rows, 4 + rows) == advanced(progress_after(rows, 3 + rows), true, rows));
    assert(progress_after(rows, 5 + rows) == advanced(progress_after(rows, 4 + rows), true, rows));
}

/// While every step succeeds, after the three opening steps and `done` inserts the next
/// step is the insert of row `done`, or the commit where all rows are in.
pub proof fn lemma_inserts_in_order(rows: nat, done: nat)
    requires
        rows <= usize::MAX,
        done <= rows,
    ensures
        progress_after(rows, 3 + done) == if done < rows {
            StoreProgress::Next(StoreStep::Insert { row: done as usize })
        } else {
            StoreProgress::Next(StoreStep::Commit)
        },
    decreases done,
{
    reveal_with_fuel(progress_after, 4);
    if done > 0 {
        lemma_inserts_in_order(rows, (done - 1) as nat);
        assert(progress_after(rows, 3 + done) == advanced(
            progress_after(rows, (3 + done - 1) as nat),
            true,
            rows,
        ));
    }
}

/// A failure is final and is not tried again: whatever comes after, the storing
/// stays failed at the same step. A stored batch stays stored.
pub proof fn lemma_store_outcome_is_final(progress: StoreProgress, succeeded: bool, rows: nat)
    requires
        !(progress is Next),
    ensures
        advanced(progress, succeeded, rows) == progress,
{
}

/// The rows are in the store for good only once the commit has succeeded: a step that
/// fails before the end of the commit leaves nothing durable.
pub proof fn lemma_failure_before_commit_loses_batch(step: StoreStep, rows: nat)
    requires
        step != StoreStep::Close,
    ensures
        !is_durable(advanced(StoreProgress::Next(step), false, rows)),
{
}

} // verus!
