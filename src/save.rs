use vstd::prelude::*;
use crate::codec::{encode, encoding};
use crate::format::Format;

verus! {

/// The file operation a save performs next, once the record is encoded.
#[derive(Clone, Copy, Debug, PartialEq, Eq, Structural)]
pub enum SaveStage {
    /// Create the file, or truncate it if it exists.
    Create,
    /// Write all the encoded bytes.
    Write,
    /// Force the written bytes to durable storage.
    Sync,
}

/// Where a save stands after a stage has run; `E` is the caller's I/O error.
#[derive(Clone, Debug, PartialEq, Eq)]
pub enum SaveStep<E> {
    /// Run this stage next.
    Next(SaveStage),
    /// The bytes are written and synced: the save succeeded.
    Finished,
    /// The save failed with the error of the stage that failed.
    Failed(E),
}

/// The stage after `stage` when it succeeds, or `None` after the last one.
pub open spec fn following(stage: SaveStage) -> Option<SaveStage> {
    match stage {
        SaveStage::Create => Some(SaveStage::Write),
        SaveStage::Write => Some(SaveStage::Sync),
        SaveStage::Sync => None,
    }
}

/// The step after `stage` has run with `outcome`: stages run in the order
/// create, write, sync, and the first failure ends the save with that
/// stage's own error.
pub open spec fn next_step<E>(stage: SaveStage, outcome: Result<(), E>) -> SaveStep<E> {
    match outcome {
        Err(e) => SaveStep::Failed(e),
        Ok(_) => match following(stage) {
            Some(s) => SaveStep::Next(s),
            None => SaveStep::Finished,
        },
    }
}

/// Starts a save: encodes the record under `format` and hands back the bytes
/// to write with the first file operation.
pub fn begin_save(format: Format, v: &Vec<u64>) -> (r: (Vec<u8>, SaveStage))
    ensures
        r.0@ == encoding(format, v@),
        r.1 == SaveStage::Create,
{
    (encode(format, v), SaveStage::Create)
}

/// Decides what follows `stage`, given how it ended.
pub fn advance<E>(stage: SaveStage, outcome: Result<(), E>) -> (r: SaveStep<E>)
    ensures
        r == next_step(stage, outcome),
{
    match outcome {
        Err(e) => SaveStep::Failed(e),
        Ok(_) => match stage {
            SaveStage::Create => SaveStep::Next(SaveStage::Write),
            SaveStage::Write => SaveStep::Next(SaveStage::Sync),
            SaveStage::Sync => SaveStep::Finished,
        },
    }
}

/// Any file operation that fails, creating the file where its directory is
/// missing among them, ends the save with that operation's own error, never
/// a success.
pub proof fn lemma_failed_stage_is_its_error<E>(stage: SaveStage, e: E)
    ensures
        next_step(stage, Err::<(), E>(e)) == SaveStep::<E>::Failed(e),
        next_step(stage, Err::<(), E>(e)) != SaveStep::<E>::Finished,
{
}

/// A save finishes only when the sync stage succeeds, so success is never
/// reported before the bytes are on durable storage.
pub proof fn lemma_finished_only_after_sync<E>(stage: SaveStage, outcome: Result<(), E>)
    ensures
        next_step(stage, outcome) == SaveStep::<E>::Finished <==> (stage == SaveStage::Sync
            && outcome is Ok),
{
}

} // verus!
