use vstd::prelude::*;
use vstd::string::StringExecFns;
use crate::event::{LogEvent, LogLine, Severity};
use crate::text::{decimal_digits, to_decimal};

verus! {

/// The shortest time, in seconds, that a job may be told to run.
pub const MIN_SECONDS: u64 = 2;

/// The first number of seconds that is too long for a job.
pub const MAX_SECONDS: u64 = 5;

/// What chance hands one job: how long it is to run and whether it is to
/// fail. The running time always lies in `MIN_SECONDS..MAX_SECONDS`.
#[derive(Clone, Copy, Debug, PartialEq, Eq)]
pub struct Draw {
    seconds: u64,
    fails: bool,
}

/// Whether a job may be told to run for `seconds`.
pub open spec fn valid_seconds(seconds: u64) -> bool {
    MIN_SECONDS <= seconds < MAX_SECONDS
}

impl Draw {
    #[verifier::type_invariant]
    spec fn in_range(self) -> bool {
        valid_seconds(self.seconds)
    }

    /// The drawn running time, in seconds.
    pub closed spec fn spec_seconds(&self) -> u64 {
        self.seconds
    }

    /// Whether the failure trigger fired.
    pub closed spec fn spec_fails(&self) -> bool {
        self.fails
    }

    /// A draw with the given values, or nothing where `seconds` is not a
    /// running time that a job may have.
    pub fn new(seconds: u64, fails: bool) -> (draw: Option<Draw>)
        ensures
            draw is Some <==> valid_seconds(seconds),
            draw matches Some(d) ==> d.seconds() == seconds && d.fails() == fails,
    {
        if MIN_SECONDS <= seconds && seconds < MAX_SECONDS {
            Some(Draw { seconds, fails })
        } else {
            None
        }
    }

    /// The drawn running time, in seconds: one of 2, 3 and 4.
    #[verifier::when_used_as_spec(spec_seconds)]
    pub fn seconds(&self) -> (seconds: u64)
        ensures
            seconds == self.spec_seconds(),
            valid_seconds(seconds),
    {
        proof {
            use_type_invariant(self);
        }
        self.seconds
    }

    /// Whether the failure trigger fired.
    #[verifier::when_used_as_spec(spec_fails)]
    pub fn fails(&self) -> (fails: bool)
        ensures
            fails == self.spec_fails(),
    {
        self.fails
    }
}

/// What a job hands back: nothing on success, a message on failure.
pub open spec fn outcome_view(outcome: Result<(), String>) -> Result<(), Seq<char>> {
    match outcome {
        Ok(_) => Ok(()),
        Err(message) => Err(message@),
    }
}

/// The line that announces a job.
pub open spec fn started_text(name: Seq<char>, seconds: u64) -> Seq<char> {
    name + " started, running for "@ + decimal_digits(seconds as nat) + " seconds"@
}

/// The line that a failing job leaves.
pub open spec fn failure_text(name: Seq<char>) -> Seq<char> {
    name + " encountered a critical failure"@
}

/// The line that a job leaves after its work.
pub open spec fn completed_text(name: Seq<char>) -> Seq<char> {
    name + " completed successfully"@
}

/// The message that a failed job hands back.
pub open spec fn failed_message(name: Seq<char>) -> Seq<char> {
    name + " failed"@
}

/// What the job called `name` hands back under a given failure trigger.
pub open spec fn job_outcome(name: Seq<char>, fails: bool) -> Result<(), Seq<char>> {
    if fails {
        Err(failed_message(name))
    } else {
        Ok(())
    }
}

/// The course of one job, for the program that carries it out: emit
/// `announcement`, sleep for `wait` seconds where there are any, emit
/// `closing`, hand back `outcome`.
#[derive(Debug, PartialEq, Eq)]
pub struct JobPlan {
    pub announcement: LogEvent,
    pub wait: Option<u64>,
    pub closing: LogEvent,
    pub outcome: Result<(), String>,
}

/// A job's course as contracts see it.
pub struct JobCourse {
    pub announcement: LogLine,
    pub wait: Option<u64>,
    pub closing: LogLine,
    pub outcome: Result<(), Seq<char>>,
}

impl View for JobPlan {
    type V = JobCourse;

    open spec fn view(&self) -> JobCourse {
        JobCourse {
            announcement: self.announcement@,
            wait: self.wait,
            closing: self.closing@,
            outcome: outcome_view(self.outcome),
        }
    }
}

/// The course of the job called `name` that drew `seconds` and `fails`. A
/// failing job reports at once and never waits; any other waits for its
/// drawn time and then reports success.
pub open spec fn job_course(name: Seq<char>, seconds: u64, fails: bool) -> JobCourse {
    JobCourse {
        announcement: LogLine { severity: Severity::Info, message: started_text(name, seconds) },
        wait: if fails {
            None
        } else {
            Some(seconds)
        },
        closing: if fails {
            LogLine { severity: Severity::Error, message: failure_text(name) }
        } else {
            LogLine { severity: Severity::Info, message: completed_text(name) }
        },
        outcome: job_outcome(name, fails),
    }
}

/// `name` followed by `tail`.
fn with_tail(name: &str, tail: &str) -> (text: String)
    ensures
        text@ == name@ + tail@,
{
    let mut text: String = String::from_str(name);
    text.append(tail);
    text
}

/// Lays out the course of the job called `name` for the given draw.
pub fn plan_job(name: &str, draw: Draw) -> (plan: JobPlan)
    ensures
        plan@ == job_course(name@, draw.seconds(), draw.fails()),
        draw.fails() ==> plan.wait is None && plan.outcome is Err,
        !draw.fails() ==> plan.wait == Some(draw.seconds()) && plan.outcome is Ok,
        plan.wait matches Some(seconds) ==> valid_seconds(seconds),
{
    let seconds: u64 = draw.seconds();
    let mut started: String = with_tail(name, " started, running for ");
    started.append(to_decimal(seconds).as_str());
    started.append(" seconds");
    let announcement = LogEvent::info(started);
    if draw.fails() {
        JobPlan {
            announcement,
            wait: None,
            closing: LogEvent::error(with_tail(name, " encountered a critical failure")),
            outcome: Err(with_tail(name, " failed")),
        }
    } else {
        JobPlan {
            announcement,
            wait: Some(seconds),
            closing: LogEvent::info(with_tail(name, " completed successfully")),
            outcome: Ok(()),
        }
    }
}

/// A job that fails never waits: it hands back its failure message at
/// once. A job that does not fail waits for exactly its drawn time and
/// then succeeds.
pub proof fn law_failing_job_never_waits(name: Seq<char>, seconds: u64)
    ensures
        job_course(name, seconds, true).wait is None,
        job_course(name, seconds, true).outcome == Err::<(), Seq<char>>(failed_message(name)),
        job_course(name, seconds, true).closing.severity == Severity::Error,
        job_course(name, seconds, false).wait == Some(seconds),
        job_course(name, seconds, false).outcome == Ok::<(), Seq<char>>(()),
        job_course(name, seconds, false).closing.severity == Severity::Info,
{
}

} // verus!
