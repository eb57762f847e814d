//! Allowed transitions of session and item states.
use vstd::prelude::*;

use crate::domain::errors::{AppError, AppResult};
use crate::domain::models::{ItemState, SessionState};
use crate::text::join4;

verus! {

/// The explicit session transitions of the workflow
/// `draft -> scanning -> analyzing -> ready -> uploading -> paused/cancelling ->
/// completed | completed_with_errors | failed | interrupted` and its way back.
pub open spec fn session_edge(current: SessionState, next: SessionState) -> bool {
    match (current, next) {
        (SessionState::Draft, SessionState::Scanning) => true,
        (SessionState::Draft, SessionState::Analyzing) => true,
        (SessionState::Draft, SessionState::Ready) => true,
        (SessionState::Draft, SessionState::Interrupted) => true,
        (SessionState::Scanning, SessionState::Draft) => true,
        (SessionState::Scanning, SessionState::Analyzing) => true,
        (SessionState::Analyzing, SessionState::Ready) => true,
        (SessionState::Analyzing, SessionState::Draft) => true,
        (SessionState::Ready, SessionState::Uploading) => true,
        (SessionState::Ready, SessionState::Draft) => true,
        (SessionState::Uploading, SessionState::Paused) => true,
        (SessionState::Uploading, SessionState::Cancelling) => true,
        (SessionState::Uploading, SessionState::Completed) => true,
        (SessionState::Uploading, SessionState::CompletedWithErrors) => true,
        (SessionState::Uploading, SessionState::Failed) => true,
        (SessionState::Uploading, SessionState::Interrupted) => true,
        (SessionState::Paused, SessionState::Uploading) => true,
        (SessionState::Paused, SessionState::Cancelling) => true,
        (SessionState::Paused, SessionState::Interrupted) => true,
        (SessionState::Cancelling, SessionState::CompletedWithErrors) => true,
        (SessionState::Cancelling, SessionState::Failed) => true,
        (SessionState::Interrupted, SessionState::Paused) => true,
        (SessionState::Interrupted, SessionState::Ready) => true,
        (SessionState::Failed, SessionState::Ready) => true,
        (SessionState::CompletedWithErrors, SessionState::Ready) => true,
        (SessionState::Completed, SessionState::Ready) => true,
        _ => false,
    }
}

/// A session may follow an explicit edge or stay in its state.
pub open spec fn session_transition_allowed(current: SessionState, next: SessionState) -> bool {
    session_edge(current, next) || current == next
}

/// The explicit item transitions
/// `pending_scan -> ready|ignored|error -> uploading -> uploaded|retrying|error|cancelled`.
pub open spec fn item_edge(current: ItemState, next: ItemState) -> bool {
    match (current, next) {
        (ItemState::PendingScan, ItemState::Ready) => true,
        (ItemState::PendingScan, ItemState::Ignored) => true,
        (ItemState::PendingScan, ItemState::Error) => true,
        (ItemState::Ready, ItemState::Uploading) => true,
        (ItemState::Ready, ItemState::SkippedExisting) => true,
        (ItemState::Ready, ItemState::Conflict) => true,
        (ItemState::Ready, ItemState::Ignored) => true,
        (ItemState::Ready, ItemState::Cancelled) => true,
        (ItemState::Uploading, ItemState::Uploaded) => true,
        (ItemState::Uploading, ItemState::Retrying) => true,
        (ItemState::Uploading, ItemState::Error) => true,
        (ItemState::Uploading, ItemState::Cancelled) => true,
        (ItemState::Retrying, ItemState::Uploading) => true,
        (ItemState::Retrying, ItemState::Error) => true,
        (ItemState::Error, ItemState::Retrying) => true,
        (ItemState::Error, ItemState::Cancelled) => true,
        _ => false,
    }
}

/// An item may follow an explicit edge or stay in its state.
pub open spec fn item_transition_allowed(current: ItemState, next: ItemState) -> bool {
    item_edge(current, next) || current == next
}

/// Debug rendering of a session state (the variant name).
pub open spec fn session_state_debug(s: SessionState) -> Seq<char> {
    match s {
        SessionState::Draft => "Draft"@,
        SessionState::Scanning => "Scanning"@,
        SessionState::Analyzing => "Analyzing"@,
        SessionState::Ready => "Ready"@,
        SessionState::Uploading => "Uploading"@,
        SessionState::Paused => "Paused"@,
        SessionState::Cancelling => "Cancelling"@,
        SessionState::Completed => "Completed"@,
        SessionState::CompletedWithErrors => "CompletedWithErrors"@,
        SessionState::Failed => "Failed"@,
        SessionState::Interrupted => "Interrupted"@,
    }
}

/// Variant name of a session state.
pub fn session_state_debug_exec(s: SessionState) -> (r: &'static str)
    ensures
        r@ == session_state_debug(s),
{
    match s {
        SessionState::Draft => "Draft",
        SessionState::Scanning => "Scanning",
        SessionState::Analyzing => "Analyzing",
        SessionState::Ready => "Ready",
        SessionState::Uploading => "Uploading",
        SessionState::Paused => "Paused",
        SessionState::Cancelling => "Cancelling",
        SessionState::Completed => "Completed",
        SessionState::CompletedWithErrors => "CompletedWithErrors",
        SessionState::Failed => "Failed",
        SessionState::Interrupted => "Interrupted",
    }
}

/// Debug rendering of an item state (the variant name).
pub open spec fn item_state_debug(s: ItemState) -> Seq<char> {
    match s {
        ItemState::PendingScan => "PendingScan"@,
        ItemState::Ignored => "Ignored"@,
        ItemState::Ready => "Ready"@,
        ItemState::Uploading => "Uploading"@,
        ItemState::Uploaded => "Uploaded"@,
        ItemState::SkippedExisting => "SkippedExisting"@,
        ItemState::Conflict => "Conflict"@,
        ItemState::Retrying => "Retrying"@,
        ItemState::Error => "Error"@,
        ItemState::Cancelled => "Cancelled"@,
    }
}

/// Variant name of an item state.
pub fn item_state_debug_exec(s: ItemState) -> (r: &'static str)
    ensures
        r@ == item_state_debug(s),
{
    match s {
        ItemState::PendingScan => "PendingScan",
        ItemState::Ignored => "Ignored",
        ItemState::Ready => "Ready",
        ItemState::Uploading => "Uploading",
        ItemState::Uploaded => "Uploaded",
        ItemState::SkippedExisting => "SkippedExisting",
        ItemState::Conflict => "Conflict",
        ItemState::Retrying => "Retrying",
        ItemState::Error => "Error",
        ItemState::Cancelled => "Cancelled",
    }
}

/// Checks that a session may move from `current` to `next`.
pub fn ensure_session_transition(current: &SessionState, next: &SessionState) -> (r: AppResult<()>)
    ensures
        r is Ok <==> session_transition_allowed(*current, *next),
        r matches Err(e) ==> e matches AppError::InvalidStateTransition(m) && m@
            == "cannot transition session from "@ + session_state_debug(*current) + " to "@
            + session_state_debug(*next),
{
    let allowed = match (*current, *next) {
        (SessionState::Draft, SessionState::Scanning)
        | (SessionState::Draft, SessionState::Analyzing)
        | (SessionState::Draft, SessionState::Ready)
        | (SessionState::Draft, SessionState::Interrupted)
        | (SessionState::Scanning, SessionState::Draft)
        | (SessionState::Scanning, SessionState::Analyzing)
        | (SessionState::Analyzing, SessionState::Ready)
        | (SessionState::Analyzing, SessionState::Draft)
        | (SessionState::Ready, SessionState::Uploading)
        | (SessionState::Ready, SessionState::Draft)
        | (SessionState::Uploading, SessionState::Paused)
        | (SessionState::Uploading, SessionState::Cancelling)
        | (SessionState::Uploading, SessionState::Completed)
        | (SessionState::Uploading, SessionState::CompletedWithErrors)
        | (SessionState::Uploading, SessionState::Failed)
        | (SessionState::Uploading, SessionState::Interrupted)
        | (SessionState::Paused, SessionState::Uploading)
        | (SessionState::Paused, SessionState::Cancelling)
        | (SessionState::Paused, SessionState::Interrupted)
        | (SessionState::Cancelling, SessionState::CompletedWithErrors)
        | (SessionState::Cancelling, SessionState::Failed)
        | (SessionState::Interrupted, SessionState::Paused)
        | (SessionState::Interrupted, SessionState::Ready)
        | (SessionState::Failed, SessionState::Ready)
        | (SessionState::CompletedWithErrors, SessionState::Ready)
        | (SessionState::Completed, SessionState::Ready) => true,
        _ => false,
    };
    if allowed || *current == *next {
        return Ok(());
    }
    Err(
        AppError::InvalidStateTransition(
            join4(
                "cannot transition session from ",
                session_state_debug_exec(*current),
                " to ",
                session_state_debug_exec(*next),
            ),
        ),
    )
}

/// Checks that an item may move from `current` to `next`.
pub fn ensure_item_transition(current: &ItemState, next: &ItemState) -> (r: AppResult<()>)
    ensures
        r is Ok <==> item_transition_allowed(*current, *next),
        r matches Err(e) ==> e matches AppError::InvalidStateTransition(m) && m@
            == "cannot transition item from "@ + item_state_debug(*current) + " to "@
            + item_state_debug(*next),
{
    let allowed = match (*current, *next) {
        (ItemState::PendingScan, ItemState::Ready)
        | (ItemState::PendingScan, ItemState::Ignored)
        | (ItemState::PendingScan, ItemState::Error)
        | (ItemState::Ready, ItemState::Uploading)
        | (ItemState::Ready, ItemState::SkippedExisting)
        | (ItemState::Ready, ItemState::Conflict)
        | (ItemState::Ready, ItemState::Ignored)
        | (ItemState::Ready, ItemState::Cancelled)
        | (ItemState::Uploading, ItemState::Uploaded)
        | (ItemState::Uploading, ItemState::Retrying)
        | (ItemState::Uploading, ItemState::Error)
        | (ItemState::Uploading, ItemState::Cancelled)
        | (ItemState::Retrying, ItemState::Uploading)
        | (ItemState::Retrying, ItemState::Error)
        | (ItemState::Error, ItemState::Retrying)
        | (ItemState::Error, ItemState::Cancelled) => true,
        _ => false,
    };
    if allowed || *current == *next {
        return Ok(());
    }
    Err(
        AppError::InvalidStateTransition(
            join4(
                "cannot transition item from ",
                item_state_debug_exec(*current),
                " to ",
                item_state_debug_exec(*next),
            ),
        ),
    )
}

/// Staying in the same state is always allowed, for sessions and items.
pub proof fn law_same_state_allowed(s: SessionState, i: ItemState)
    ensures
        session_transition_allowed(s, s),
        item_transition_allowed(i, i),
{
}

/// A transfer can only begin from a ready session or resume from a paused one.
pub proof fn law_upload_entered_from_ready_or_paused(current: SessionState)
    requires
        current != SessionState::Uploading,
        session_transition_allowed(current, SessionState::Uploading),
    ensures
        current == SessionState::Ready || current == SessionState::Paused,
{
}

/// A finished session (completed, completed with errors, failed) can only be
/// reopened as ready for a new run.
pub proof fn law_finished_session_reopens_only_to_ready(current: SessionState, next: SessionState)
    requires
        current == SessionState::Completed || current == SessionState::CompletedWithErrors
            || current == SessionState::Failed,
        session_transition_allowed(current, next),
    ensures
        next == current || next == SessionState::Ready,
{
}

/// Uploaded, skipped, conflicting and cancelled items never change state again.
pub proof fn law_final_item_states_are_absorbing(current: ItemState, next: ItemState)
    requires
        current == ItemState::Uploaded || current == ItemState::SkippedExisting || current
            == ItemState::Conflict || current == ItemState::Cancelled,
        item_transition_allowed(current, next),
    ensures
        next == current,
{
}

/// An item becomes uploaded only from the uploading state.
pub proof fn law_uploaded_only_after_uploading(current: ItemState)
    requires
        current != ItemState::Uploaded,
        item_transition_allowed(current, ItemState::Uploaded),
    ensures
        current == ItemState::Uploading,
{
}

} // verus!
