use vstd::prelude::*;

use crate::status::{is_success, Status};

verus! {

/// The API requests whose handling waits on the database or on the object files.
#[derive(Debug, Clone, Copy, PartialEq, Eq, Structural)]
pub enum Route {
    CreateBucket,
    ListBuckets,
    RenameBucket,
    DeleteBucket,
    UploadObject,
    DownloadObject,
    DeleteObject,
    RenameObject,
    ListObjects,
}

/// An outside step that a handler asks its caller to perform, and waits on.
#[derive(Debug, Clone, Copy, PartialEq, Eq, Structural)]
pub enum Stage {
    /// Insert the bucket row.
    InsertBucket,
    /// Read all bucket rows.
    FetchBuckets,
    /// Rename the bucket row.
    RenameBucketRecord,
    /// Delete the bucket row.
    DeleteBucketRecord,
    /// Write the uploaded body to the object's file.
    WriteFile,
    /// Insert the uploaded object's row.
    InsertObject,
    /// Read the object's row.
    FetchObject,
    /// Open the object's file for streaming.
    OpenFile,
    /// Delete the object's row.
    DeleteObjectRecord,
    /// Delete the object's file.
    DeleteFile,
    /// Change the key in the object's row.
    RenameObjectRecord,
    /// Move the object's file to the new key.
    RenameFile,
    /// Read the object rows of the bucket.
    FetchObjects,
}

/// How an outside step ended. `matched` tells, for a row lookup, update or
/// delete, whether a row was found or changed; for other steps it carries
/// nothing.
#[derive(Debug, Clone, Copy, PartialEq, Eq, Structural)]
pub enum Outcome {
    Failed,
    Done { matched: bool },
}

/// The outcome of a step that only succeeds or fails.
pub fn outcome_of_step<T, E>(result: Result<T, E>) -> (res: Outcome)
    ensures
        res == (if result is Ok { Outcome::Done { matched: true } } else { Outcome::Failed }),
{
    match result {
        Ok(_) => Outcome::Done { matched: true },
        Err(_) => Outcome::Failed,
    }
}

/// The outcome of a row update or delete that reports whether a row changed.
pub fn outcome_of_row_change<E>(result: Result<bool, E>) -> (res: Outcome)
    ensures
        match result {
            Ok(changed) => res == Outcome::Done { matched: changed },
            Err(_) => res == Outcome::Failed,
        },
{
    match result {
        Ok(matched) => Outcome::Done { matched },
        Err(_) => Outcome::Failed,
    }
}

/// What a handler does next: perform an outside step, or answer.
#[derive(Debug, Clone, Copy, PartialEq, Eq, Structural)]
pub enum Step {
    Run(Stage),
    Respond(Status),
}

/// The first outside step of each request.
pub open spec fn first_stage(route: Route) -> Stage {
    match route {
        Route::CreateBucket => Stage::InsertBucket,
        Route::ListBuckets => Stage::FetchBuckets,
        Route::RenameBucket => Stage::RenameBucketRecord,
        Route::DeleteBucket => Stage::DeleteBucketRecord,
        Route::UploadObject => Stage::WriteFile,
        Route::DownloadObject => Stage::FetchObject,
        Route::DeleteObject => Stage::DeleteObjectRecord,
        Route::RenameObject => Stage::RenameObjectRecord,
        Route::ListObjects => Stage::FetchObjects,
    }
}

/// A step that only fails or succeeds: failure answers `on_failure`, success `then`.
pub open spec fn on_done(outcome: Outcome, on_failure: Status, then: Step) -> Step {
    match outcome {
        Outcome::Failed => Step::Respond(on_failure),
        Outcome::Done { .. } => then,
    }
}

/// A row step: failure answers 500, no matching row 404, a match goes on to `then`.
pub open spec fn on_match(outcome: Outcome, then: Step) -> Step {
    match outcome {
        Outcome::Failed => Step::Respond(Status::InternalServerError),
        Outcome::Done { matched: false } => Step::Respond(Status::NotFound),
        Outcome::Done { matched: true } => then,
    }
}

/// What a handler does once `stage` ended with `outcome`.
pub open spec fn after(stage: Stage, outcome: Outcome) -> Step {
    match stage {
        Stage::InsertBucket => on_done(outcome, Status::Conflict, Step::Respond(Status::Created)),
        Stage::FetchBuckets => on_done(outcome, Status::InternalServerError, Step::Respond(Status::Okay)),
        Stage::RenameBucketRecord => on_match(outcome, Step::Respond(Status::Okay)),
        Stage::DeleteBucketRecord => on_match(outcome, Step::Respond(Status::NoContent)),
        Stage::WriteFile => on_done(outcome, Status::InternalServerError, Step::Run(Stage::InsertObject)),
        Stage::InsertObject => on_done(outcome, Status::InternalServerError, Step::Respond(Status::Created)),
        Stage::FetchObject => on_match(outcome, Step::Run(Stage::OpenFile)),
        Stage::OpenFile => on_done(outcome, Status::NotFound, Step::Respond(Status::Okay)),
        Stage::DeleteObjectRecord => on_match(outcome, Step::Run(Stage::DeleteFile)),
        Stage::DeleteFile => on_done(outcome, Status::InternalServerError, Step::Respond(Status::NoContent)),
        Stage::RenameObjectRecord => on_match(outcome, Step::Run(Stage::RenameFile)),
        Stage::RenameFile => on_done(outcome, Status::InternalServerError, Step::Respond(Status::Okay)),
        Stage::FetchObjects => on_done(outcome, Status::InternalServerError, Step::Respond(Status::Okay)),
    }
}

/// Starts handling a request: its first outside step.
pub fn begin(route: Route) -> (step: Step)
    ensures
        step == Step::Run(first_stage(route)),
{
    let stage = match route {
        Route::CreateBucket => Stage::InsertBucket,
        Route::ListBuckets => Stage::FetchBuckets,
        Route::RenameBucket => Stage::RenameBucketRecord,
        Route::DeleteBucket => Stage::DeleteBucketRecord,
        Route::UploadObject => Stage::WriteFile,
        Route::DownloadObject => Stage::FetchObject,
        Route::DeleteObject => Stage::DeleteObjectRecord,
        Route::RenameObject => Stage::RenameObjectRecord,
        Route::ListObjects => Stage::FetchObjects,
    };
    Step::Run(stage)
}

/// Row step as in `on_match`.
fn match_step(outcome: Outcome, then: Step) -> (step: Step)
    ensures
        step == on_match(outcome, then),
{
    match outcome {
        Outcome::Failed => Step::Respond(Status::InternalServerError),
        Outcome::Done { matched } => if matched {
            then
        } else {
            Step::Respond(Status::NotFound)
        },
    }
}

/// Plain step as in `on_done`.
fn done_step(outcome: Outcome, on_failure: Status, then: Step) -> (step: Step)
    ensures
        step == on_done(outcome, on_failure, then),
{
    match outcome {
        Outcome::Failed => Step::Respond(on_failure),
        Outcome::Done { .. } => then,
    }
}

/// Goes on with a request once `stage` has ended with `outcome`.
pub fn resume(stage: Stage, outcome: Outcome) -> (step: Step)
    ensures
        step == after(stage, outcome),
{
    match stage {
        Stage::InsertBucket => done_step(outcome, Status::Conflict, Step::Respond(Status::Created)),
        Stage::FetchBuckets => done_step(outcome, Status::InternalServerError, Step::Respond(Status::Okay)),
        Stage::RenameBucketRecord => match_step(outcome, Step::Respond(Status::Okay)),
        Stage::DeleteBucketRecord => match_step(outcome, Step::Respond(Status::NoContent)),
        Stage::WriteFile => done_step(outcome, Status::InternalServerError, Step::Run(Stage::InsertObject)),
        Stage::InsertObject => done_step(outcome, Status::InternalServerError, Step::Respond(Status::Created)),
        Stage::FetchObject => match_step(outcome, Step::Run(Stage::OpenFile)),
        Stage::OpenFile => done_step(outcome, Status::NotFound, Step::Respond(Status::Okay)),
        Stage::DeleteObjectRecord => match_step(outcome, Step::Run(Stage::DeleteFile)),
        Stage::DeleteFile => done_step(outcome, Status::InternalServerError, Step::Respond(Status::NoContent)),
        Stage::RenameObjectRecord => match_step(outcome, Step::Run(Stage::RenameFile)),
        Stage::RenameFile => done_step(outcome, Status::InternalServerError, Step::Respond(Status::Okay)),
        Stage::FetchObjects => done_step(outcome, Status::InternalServerError, Step::Respond(Status::Okay)),
    }
}

/// Whether a request must carry the configured credentials: every API request
/// does, except the download of an object.
pub fn needs_auth(route: Route) -> (res: bool)
    ensures
        res <==> route != Route::DownloadObject,
{
    match route {
        Route::DownloadObject => false,
        _ => true,
    }
}

/// The status a request answers with when every outside step succeeds and
/// every row it looks for is there.
pub open spec fn success_status(route: Route) -> Status {
    match route {
        Route::CreateBucket | Route::UploadObject => Status::Created,
        Route::DeleteBucket | Route::DeleteObject => Status::NoContent,
        _ => Status::Okay,
    }
}

/// Every request answers after at most two outside steps, whatever they return.
pub proof fn lemma_answers_within_two_steps(route: Route, first: Outcome, second: Outcome)
    ensures
        match after(first_stage(route), first) {
            Step::Respond(_) => true,
            Step::Run(next) => after(next, second) is Respond,
        },
{
}

/// A failed outside step ends the request at once, with an error status.
pub proof fn lemma_failure_answers_error(stage: Stage)
    ensures
        after(stage, Outcome::Failed) is Respond,
        !is_success(after(stage, Outcome::Failed)->Respond_0),
{
}

/// A request goes on to a second step only after its first one succeeded,
/// and, for a row step, found its row.
pub proof fn lemma_second_step_needs_success(stage: Stage, outcome: Outcome)
    ensures
        after(stage, outcome) is Run ==> outcome is Done && (outcome->matched || stage == Stage::WriteFile),
{
}

/// An object's file is opened, deleted or moved only after its row was found,
/// deleted or renamed; the row is written only after the upload's file.
pub proof fn lemma_file_steps_follow_rows(stage: Stage, outcome: Outcome)
    ensures
        after(stage, outcome) == Step::Run(Stage::OpenFile) <==> (stage == Stage::FetchObject && outcome == Outcome::Done { matched: true }),
        after(stage, outcome) == Step::Run(Stage::DeleteFile) <==> (stage == Stage::DeleteObjectRecord && outcome == Outcome::Done { matched: true }),
        after(stage, outcome) == Step::Run(Stage::RenameFile) <==> (stage == Stage::RenameObjectRecord && outcome == Outcome::Done { matched: true }),
        after(stage, outcome) == Step::Run(Stage::InsertObject) <==> (stage == Stage::WriteFile && outcome is Done),
{
}

/// When every step succeeds and finds its row, a request answers with its
/// success status.
pub proof fn lemma_all_success_answers_success(route: Route)
    ensures
        match after(first_stage(route), Outcome::Done { matched: true }) {
            Step::Respond(status) => status == success_status(route),
            Step::Run(next) => after(next, Outcome::Done { matched: true }) == Step::Respond(success_status(route)),
        },
        is_success(success_status(route)),
{
}

/// A success status is answered only when every step succeeded.
pub proof fn lemma_success_needs_every_step(route: Route, first: Outcome, second: Outcome)
    ensures
        after(first_stage(route), first) matches Step::Respond(s) && is_success(s) ==> first is Done,
        after(first_stage(route), first) matches Step::Run(next) ==> (after(next, second) matches Step::Respond(s) && is_success(s) ==> second is Done),
{
}

/// 404 means a row step found nothing, or the object's file could not be opened;
/// 409 means the bucket row could not be inserted.
pub proof fn lemma_not_found_and_conflict_causes(stage: Stage, outcome: Outcome)
    ensures
        after(stage, outcome) == Step::Respond(Status::NotFound) ==> outcome == (Outcome::Done { matched: false }) || (stage == Stage::OpenFile && outcome == Outcome::Failed),
        after(stage, outcome) == Step::Respond(Status::Conflict) <==> (stage == Stage::InsertBucket && outcome == Outcome::Failed),
{
}

} // verus!
