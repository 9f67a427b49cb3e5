//! Cross-platform CPU affinity helpers for Rust threads.
//!
//! The verified part of the crate: the core identifier and error types, the
//! conversion of the platform answers into `Result`s, and for every supported
//! platform the computation that turns what the operating system reports into
//! the list of core identifiers, and a core identifier into what is handed to
//! the operating system to pin a thread.
use vstd::prelude::*;

pub mod platform;

verus! {

/// This represents a CPU core.
#[derive(Copy, Clone, Debug, PartialEq, Eq, PartialOrd, Ord, Hash, Structural)]
pub struct CoreId {
    /// Zero-based logical core index understood by this crate.
    pub id: usize,
}

/// Error values returned by the `try_*` APIs.
#[derive(Debug, Clone, PartialEq, Eq, Structural)]
pub enum AffinityError {
    /// Core id discovery failed for the current runtime/platform context.
    GetCoreIdsFailed,
    /// Thread affinity could not be applied to the requested core id.
    SetForCurrentFailed { core_id: usize },
}

/// The character of the decimal digit `d`.
pub open spec fn digit_char(d: nat) -> char {
    if d == 0 { '0' }
    else if d == 1 { '1' }
    else if d == 2 { '2' }
    else if d == 3 { '3' }
    else if d == 4 { '4' }
    else if d == 5 { '5' }
    else if d == 6 { '6' }
    else if d == 7 { '7' }
    else if d == 8 { '8' }
    else { '9' }
}

/// The decimal notation of `n`, without leading zeros.
pub open spec fn decimal(n: nat) -> Seq<char>
    decreases n,
{
    if n < 10 {
        seq![digit_char(n)]
    } else {
        decimal(n / 10) + seq![digit_char(n % 10)]
    }
}

/// The message that describes `err`.
pub open spec fn error_message(err: AffinityError) -> Seq<char> {
    match err {
        AffinityError::GetCoreIdsFailed => "failed to retrieve available core IDs"@,
        AffinityError::SetForCurrentFailed { core_id } => "failed to set affinity for core ID "@ + decimal(
            core_id as nat,
        ),
    }
}

fn digit_str(d: usize) -> (s: &'static str)
    requires
        d < 10,
    ensures
        s@ == seq![digit_char(d as nat)],
{
    if d == 0 {
        proof { reveal_strlit("0"); }
        "0"
    } else if d == 1 {
        proof { reveal_strlit("1"); }
        "1"
    } else if d == 2 {
        proof { reveal_strlit("2"); }
        "2"
    } else if d == 3 {
        proof { reveal_strlit("3"); }
        "3"
    } else if d == 4 {
        proof { reveal_strlit("4"); }
        "4"
    } else if d == 5 {
        proof { reveal_strlit("5"); }
        "5"
    } else if d == 6 {
        proof { reveal_strlit("6"); }
        "6"
    } else if d == 7 {
        proof { reveal_strlit("7"); }
        "7"
    } else if d == 8 {
        proof { reveal_strlit("8"); }
        "8"
    } else {
        proof { reveal_strlit("9"); }
        "9"
    }
}

/// The decimal notation of `n`.
fn decimal_string(n: usize) -> (s: String)
    ensures
        s@ == decimal(n as nat),
    decreases n,
{
    if n < 10 {
        String::from_str(digit_str(n))
    } else {
        let mut s = decimal_string(n / 10);
        s.append(digit_str(n % 10));
        s
    }
}

impl AffinityError {
    /// The message that describes this error: "failed to retrieve available
    /// core IDs", or "failed to set affinity for core ID " followed by the
    /// core's index in decimal.
    pub fn message(&self) -> (msg: String)
        ensures
            msg@ == error_message(*self),
    {
        match self {
            AffinityError::GetCoreIdsFailed => String::from_str("failed to retrieve available core IDs"),
            AffinityError::SetForCurrentFailed { core_id } => {
                let mut msg = String::from_str("failed to set affinity for core ID ");
                let digits = decimal_string(*core_id);
                msg.append(digits.as_str());
                msg
            },
        }
    }
}

/// The `Result` that `try_get_core_ids` gives for what core id discovery answered.
pub open spec fn core_ids_result(core_ids: Option<Vec<CoreId>>) -> Result<Vec<CoreId>, AffinityError> {
    match core_ids {
        Some(ids) => Ok(ids),
        None => Err(AffinityError::GetCoreIdsFailed),
    }
}

/// The `Result` that `try_set_for_current` gives for whether pinning to `core_id` succeeded.
pub open spec fn set_for_current_result(core_id: CoreId, success: bool) -> Result<(), AffinityError> {
    if success {
        Ok(())
    } else {
        Err(AffinityError::SetForCurrentFailed { core_id: core_id.id })
    }
}

/// Turns the answer of core id discovery into a `Result`: the ids themselves,
/// or `AffinityError::GetCoreIdsFailed` when there was no answer.
pub fn core_ids_to_result(core_ids: Option<Vec<CoreId>>) -> (res: Result<Vec<CoreId>, AffinityError>)
    ensures
        res == core_ids_result(core_ids),
        core_ids matches Some(ids) ==> res == Ok::<Vec<CoreId>, AffinityError>(ids),
        core_ids is None ==> res == Err::<Vec<CoreId>, AffinityError>(AffinityError::GetCoreIdsFailed),
{
    match core_ids {
        Some(ids) => Ok(ids),
        None => Err(AffinityError::GetCoreIdsFailed),
    }
}

/// Turns the outcome of pinning the current thread to `core_id` into a
/// `Result`: `Ok(())` on success, otherwise
/// `AffinityError::SetForCurrentFailed` carrying the core's index.
pub fn set_for_current_to_result(core_id: CoreId, success: bool) -> (res: Result<(), AffinityError>)
    ensures
        res == set_for_current_result(core_id, success),
        success ==> res == Ok::<(), AffinityError>(()),
        !success ==> res == Err::<(), AffinityError>(AffinityError::SetForCurrentFailed { core_id: core_id.id }),
{
    if success {
        Ok(())
    } else {
        Err(AffinityError::SetForCurrentFailed { core_id: core_id.id })
    }
}

/// Core id discovery that found ids gives exactly those ids as `Ok`, whatever
/// they are; only discovery that found nothing gives `GetCoreIdsFailed`.
pub proof fn found_core_ids_are_ok(ids: Vec<CoreId>)
    ensures
        core_ids_result(Some(ids)) == Ok::<Vec<CoreId>, AffinityError>(ids),
        core_ids_result(None) == Err::<Vec<CoreId>, AffinityError>(AffinityError::GetCoreIdsFailed),
        core_ids_result(Some(ids)) is Ok,
{
}

/// Pinning that succeeded gives `Ok(())` for every core; pinning that failed
/// gives `SetForCurrentFailed` carrying the index of the core asked for.
pub proof fn pinning_outcome_is_reported(core_id: CoreId)
    ensures
        set_for_current_result(core_id, true) == Ok::<(), AffinityError>(()),
        set_for_current_result(core_id, false) == Err::<(), AffinityError>(
            AffinityError::SetForCurrentFailed { core_id: core_id.id },
        ),
{
}

} // verus!
