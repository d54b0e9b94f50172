//! The primary/secondary recognizer race: the secondary runs once in the
//! background while the primary is tried up to `max_retries + 1` times
//! with a delay between attempts. Before every retry the secondary's
//! slot is consulted and an already-arrived success wins immediately;
//! when every primary attempt has failed, the secondary is awaited to
//! completion, and only when both sides failed does a composite verdict
//! carry both causes. The first success always wins and the secondary is
//! never cancelled mid-flight.
//!
//! The machine decides; the process around it runs the attempts, sleeps,
//! and posts each outcome back in.

use vstd::prelude::*;

verus! {

/// Milliseconds between two primary attempts.
pub const RETRY_DELAY_MS: u64 = 500;

/// Primary retries after the first attempt.
pub const DEFAULT_MAX_RETRIES: u32 = 2;

/// Where the race stands.
#[derive(Clone, Copy, Debug, PartialEq, Eq, Structural)]
pub enum RacePhase {
    /// Primary attempts are still being made.
    Primary,
    /// Every primary attempt failed; the secondary is being awaited.
    AwaitingSecondary,
    /// A verdict was returned.
    Done,
}

/// The race's result.
#[derive(Clone, Debug, PartialEq)]
pub enum RaceVerdict {
    /// A recognizer produced this transcript.
    Text(String),
    /// Both sides failed, for these reasons.
    BothFailed { primary_error: Option<String>, secondary_error: String },
}

/// What the driver must do next.
#[derive(Clone, Debug, PartialEq)]
pub enum RaceAction {
    /// Run one primary attempt and post its outcome back.
    RunPrimaryAttempt,
    /// Sleep `RETRY_DELAY_MS`, then run one primary attempt.
    SleepThenRetryPrimary,
    /// Wait for the background secondary task and post its outcome back.
    AwaitSecondaryTask,
    /// The outcome was recorded; nothing to do.
    Noted,
    /// The race is over with this verdict.
    Finished(RaceVerdict),
}

/// The verdict once the race falls back on the secondary's outcome.
pub open spec fn spec_secondary_verdict(
    secondary: Result<String, String>,
    primary_error: Option<String>,
) -> RaceVerdict {
    match secondary {
        Ok(text) => RaceVerdict::Text(text),
        Err(secondary_error) => RaceVerdict::BothFailed { primary_error, secondary_error },
    }
}

/// The race's state between outcomes.
#[derive(Clone, Debug)]
pub struct RaceStrategy {
    /// Primary retries allowed after the first attempt.
    pub max_retries: u32,
    /// Completed primary attempts.
    pub attempts_made: u32,
    /// The most recent primary failure, for the composite verdict.
    pub last_primary_error: Option<String>,
    /// The secondary's outcome, once it arrived.
    pub secondary_slot: Option<Result<String, String>>,
    /// Where the race stands.
    pub phase: RacePhase,
}

impl RaceStrategy {
    /// The machine's invariant: attempts never outrun the allowance.
    pub open spec fn wf(self) -> bool {
        self.attempts_made <= self.max_retries
    }

    /// A fresh race: no attempt made, no outcome known. The driver's
    /// first moves are to spawn the secondary task and run the first
    /// primary attempt.
    pub fn new(max_retries: u32) -> (r: Self)
        ensures
            r.wf(),
            r.max_retries == max_retries,
            r.attempts_made == 0,
            r.last_primary_error is None,
            r.secondary_slot is None,
            r.phase == RacePhase::Primary,
    {
        RaceStrategy {
            max_retries,
            attempts_made: 0,
            last_primary_error: None,
            secondary_slot: None,
            phase: RacePhase::Primary,
        }
    }

    /// Posts the secondary's outcome. While primary attempts go on it is
    /// only recorded, to be consulted before the next retry; an awaited
    /// secondary settles the race with its outcome, both failures
    /// reported together.
    pub fn note_secondary(&mut self, outcome: Result<String, String>) -> (r: RaceAction)
        requires
            old(self).wf(),
        ensures
            final(self).wf(),
            final(self).max_retries == old(self).max_retries,
            old(self).phase == RacePhase::Primary ==> r == RaceAction::Noted && final(self).phase
                == RacePhase::Primary && final(self).secondary_slot == Some(outcome) && final(self).attempts_made == old(self).attempts_made && final(self).last_primary_error == old(self).last_primary_error,
            old(self).phase == RacePhase::AwaitingSecondary ==> r == RaceAction::Finished(
                spec_secondary_verdict(outcome, old(self).last_primary_error),
            ) && final(self).phase == RacePhase::Done,
            old(self).phase == RacePhase::Done ==> r == RaceAction::Noted && *final(self) == *old(self),
    {
        match self.phase {
            RacePhase::Primary => {
                self.secondary_slot = Some(outcome);
                RaceAction::Noted
            },
            RacePhase::AwaitingSecondary => {
                self.phase = RacePhase::Done;
                let verdict = match outcome {
                    Ok(text) => RaceVerdict::Text(text),
                    Err(secondary_error) => RaceVerdict::BothFailed {
                        primary_error: self.last_primary_error.clone(),
                        secondary_error,
                    },
                };
                RaceAction::Finished(verdict)
            },
            RacePhase::Done => RaceAction::Noted,
        }
    }

    /// Posts one primary attempt's outcome. A success wins outright. A
    /// failure is recorded; while retries remain, an already-successful
    /// secondary wins instead, an unsettled or failed one means another
    /// delayed retry; once the attempts are spent, a settled secondary
    /// decides the race and an unsettled one is awaited.
    pub fn on_primary_result(&mut self, outcome: Result<String, String>) -> (r: RaceAction)
        requires
            old(self).wf(),
        ensures
            final(self).wf(),
            final(self).max_retries == old(self).max_retries,
            old(self).phase != RacePhase::Primary ==> r == RaceAction::Noted && *final(self)
                == *old(self),
            old(self).phase == RacePhase::Primary ==> (outcome matches Ok(text) ==> r
                == RaceAction::Finished(RaceVerdict::Text(text)) && final(self).phase
                == RacePhase::Done),
            ({
                let exhausted = old(self).attempts_made >= old(self).max_retries;
                &&& old(self).phase == RacePhase::Primary ==> (outcome matches Err(e)
                    ==> final(self).last_primary_error == Some(e))
                &&& old(self).phase == RacePhase::Primary && outcome is Err && !exhausted ==> (
                old(self).secondary_slot matches Some(Ok(text)) ==> r == RaceAction::Finished(
                    RaceVerdict::Text(text),
                ) && final(self).phase == RacePhase::Done)
                &&& old(self).phase == RacePhase::Primary && outcome is Err && !exhausted && !(
                old(self).secondary_slot matches Some(Ok(_))) ==> r
                    == RaceAction::SleepThenRetryPrimary && final(self).phase == RacePhase::Primary
                    && final(self).attempts_made == old(self).attempts_made + 1 && final(self).secondary_slot == old(self).secondary_slot
                &&& old(self).phase == RacePhase::Primary && exhausted ==> (outcome matches Err(e)
                    ==> (old(self).secondary_slot matches Some(sec) ==> r == RaceAction::Finished(
                    spec_secondary_verdict(sec, Some(e)),
                ) && final(self).phase == RacePhase::Done))
                &&& old(self).phase == RacePhase::Primary && outcome is Err && exhausted && old(self).secondary_slot is None ==> r == RaceAction::AwaitSecondaryTask && final(self).phase == RacePhase::AwaitingSecondary
            }),
    {
        if !matches!(self.phase, RacePhase::Primary) {
            return RaceAction::Noted;
        }
        match outcome {
            Ok(text) => {
                self.phase = RacePhase::Done;
                RaceAction::Finished(RaceVerdict::Text(text))
            },
            Err(e) => {
                let exhausted = self.attempts_made >= self.max_retries;
                self.last_primary_error = Some(e);
                if !exhausted {
                    let slot_text: Option<String> = match &self.secondary_slot {
                        Some(Ok(text)) => Some(text.clone()),
                        _ => None,
                    };
                    if let Some(text) = slot_text {
                        self.phase = RacePhase::Done;
                        return RaceAction::Finished(RaceVerdict::Text(text));
                    }
                    self.attempts_made = self.attempts_made + 1;
                    RaceAction::SleepThenRetryPrimary
                } else {
                    match &self.secondary_slot {
                        Some(Ok(text)) => {
                            self.phase = RacePhase::Done;
                            RaceAction::Finished(RaceVerdict::Text(text.clone()))
                        },
                        Some(Err(secondary_error)) => {
                            self.phase = RacePhase::Done;
                            RaceAction::Finished(
                                RaceVerdict::BothFailed {
                                    primary_error: self.last_primary_error.clone(),
                                    secondary_error: secondary_error.clone(),
                                },
                            )
                        },
                        None => {
                            self.phase = RacePhase::AwaitingSecondary;
                            RaceAction::AwaitSecondaryTask
                        },
                    }
                }
            },
        }
    }
}

// ===========================================================================
// Choice of transcription path
// ===========================================================================

/// How one recording is to be transcribed over the configured batch
/// clients.
#[derive(Clone, Copy, Debug, PartialEq, Eq, Structural)]
pub enum TranscriptionPlan {
    /// Race Qwen as primary against SiliconFlow as secondary.
    RaceQwenSense,
    /// Race Doubao as primary against SiliconFlow as secondary.
    RaceDoubaoSense,
    /// Qwen alone.
    SingleQwen,
    /// Doubao alone.
    SingleDoubao,
    /// SiliconFlow alone.
    SingleSense,
    /// No usable client was configured.
    NoClient,
}

/// The choice of path, given which clients exist. With the fallback
/// enabled, a pair that can race is preferred (Qwen first); without it,
/// one client is used, Doubao first.
pub open spec fn spec_transcription_plan(
    has_qwen: bool,
    has_doubao: bool,
    has_sensevoice: bool,
    enable_fallback: bool,
) -> TranscriptionPlan {
    if enable_fallback {
        if has_qwen && has_sensevoice {
            TranscriptionPlan::RaceQwenSense
        } else if has_doubao && has_sensevoice {
            TranscriptionPlan::RaceDoubaoSense
        } else if has_qwen {
            TranscriptionPlan::SingleQwen
        } else if has_doubao {
            TranscriptionPlan::SingleDoubao
        } else if has_sensevoice {
            TranscriptionPlan::SingleSense
        } else {
            TranscriptionPlan::NoClient
        }
    } else {
        if has_doubao {
            TranscriptionPlan::SingleDoubao
        } else if has_qwen {
            TranscriptionPlan::SingleQwen
        } else if has_sensevoice {
            TranscriptionPlan::SingleSense
        } else {
            TranscriptionPlan::NoClient
        }
    }
}

/// Chooses how to transcribe, from which clients are configured and
/// whether the parallel fallback is enabled.
pub fn select_transcription_plan(
    has_qwen: bool,
    has_doubao: bool,
    has_sensevoice: bool,
    enable_fallback: bool,
) -> (r: TranscriptionPlan)
    ensures
        r == spec_transcription_plan(has_qwen, has_doubao, has_sensevoice, enable_fallback),
{
    if enable_fallback {
        if has_qwen && has_sensevoice {
            TranscriptionPlan::RaceQwenSense
        } else if has_doubao && has_sensevoice {
            TranscriptionPlan::RaceDoubaoSense
        } else if has_qwen {
            TranscriptionPlan::SingleQwen
        } else if has_doubao {
            TranscriptionPlan::SingleDoubao
        } else if has_sensevoice {
            TranscriptionPlan::SingleSense
        } else {
            TranscriptionPlan::NoClient
        }
    } else {
        if has_doubao {
            TranscriptionPlan::SingleDoubao
        } else if has_qwen {
            TranscriptionPlan::SingleQwen
        } else if has_sensevoice {
            TranscriptionPlan::SingleSense
        } else {
            TranscriptionPlan::NoClient
        }
    }
}

} // verus!
