use vstd::prelude::*;
use vstd::string::StringExecFns;
use crate::event::{lines_of, LogEvent, LogLine, Severity};
use crate::sequences::{lemma_filter_map_concat, lemma_filter_map_push};
use crate::supervisor::{endings_of, Completion, Ending};

verus! {

/// The line that reports a unit which crashed, around the crash's
/// description.
pub open spec fn crash_notice_text(description: Seq<char>) -> Seq<char> {
    "Critical failure detected: "@ + description + ". Initiating shutdown..."@
}

/// The line that reports a job which failed, around the job's message.
pub open spec fn failure_notice_text(message: Seq<char>) -> Seq<char> {
    "Task failure detected: "@ + message + ". Initiating shutdown..."@
}

/// The line that closes every report.
pub open spec fn shutdown_line() -> LogLine {
    LogLine { severity: Severity::Info, message: "Shutting down gracefully"@ }
}

/// The line that one unit's ending calls for: none for a job that
/// succeeded, an error line for a job that failed and for a unit that
/// crashed.
pub open spec fn notice(ending: Ending) -> Option<LogLine> {
    match ending {
        Ending::Finished(Ok(_)) => None,
        Ending::Finished(Err(message)) => Some(
            LogLine { severity: Severity::Error, message: failure_notice_text(message) },
        ),
        Ending::Crashed(description) => Some(
            LogLine { severity: Severity::Error, message: crash_notice_text(description) },
        ),
    }
}

/// The notices of a batch: one for each unit that went wrong, in launch
/// order.
pub open spec fn notices(batch: Seq<Ending>) -> Seq<LogLine> {
    batch.filter_map(|ending: Ending| notice(ending))
}

/// The whole report on a batch: its notices, then the closing line.
pub open spec fn report_lines(batch: Seq<Ending>) -> Seq<LogLine> {
    notices(batch).push(shutdown_line())
}

/// `head`, then `middle`, then the announcement of the shutdown.
fn notice_message(head: &str, middle: &str) -> (text: String)
    ensures
        text@ == head@ + middle@ + ". Initiating shutdown..."@,
{
    let mut text: String = String::from_str(head);
    text.append(middle);
    text.append(". Initiating shutdown...");
    text
}

/// Composes the report on a finished batch: an error line for every unit
/// that failed or crashed, in launch order, and after them, whatever went
/// before, the one line that announces the graceful shutdown.
pub fn report(batch: &Vec<Completion>) -> (events: Vec<LogEvent>)
    ensures
        lines_of(events@) == report_lines(endings_of(batch@)),
        events.len() >= 1,
        events@.last()@ == shutdown_line(),
{
    let mut events: Vec<LogEvent> = Vec::new();
    let mut i: usize = 0;
    while i < batch.len()
        invariant
            i <= batch.len(),
            lines_of(events@) == notices(endings_of(batch@).take(i as int)),
        decreases batch.len() - i,
    {
        let ghost before = events@;
        let ghost all = endings_of(batch@);
        proof {
            lemma_notices_push(all.take(i as int), batch@[i as int]@);
            assert(all.take(i + 1) =~= all.take(i as int).push(batch@[i as int]@));
        }
        match &batch[i] {
            Completion::Finished(Ok(_)) => {},
            Completion::Finished(Err(message)) => {
                let event = LogEvent::error(
                    notice_message("Task failure detected: ", message.as_str()),
                );
                events.push(event);
                assert(lines_of(events@) =~= lines_of(before).push(event@));
            },
            Completion::Crashed(description) => {
                let event = LogEvent::error(
                    notice_message("Critical failure detected: ", description.as_str()),
                );
                events.push(event);
                assert(lines_of(events@) =~= lines_of(before).push(event@));
            },
        }
        i += 1;
    }
    assert(endings_of(batch@).take(batch.len() as int) =~= endings_of(batch@));
    let ghost before = events@;
    let closing = LogEvent::info(String::from_str("Shutting down gracefully"));
    events.push(closing);
    assert(lines_of(events@) =~= lines_of(before).push(closing@));
    events
}

/// One more unit at the end of a batch adds its notice where it went wrong,
/// and nothing where it did not.
pub proof fn lemma_notices_push(batch: Seq<Ending>, ending: Ending)
    ensures
        notices(batch.push(ending)) == match notice(ending) {
            Some(line) => notices(batch).push(line),
            None => notices(batch),
        },
{
    lemma_filter_map_push(batch, ending, |ending: Ending| notice(ending));
}

/// Reporting goes unit by unit: the notices of two batches laid end to end
/// are those of the first followed by those of the second. What one unit
/// did changes no line that another unit calls for.
pub proof fn law_notices_concat(first: Seq<Ending>, second: Seq<Ending>)
    ensures
        notices(first + second) == notices(first) + notices(second),
{
    lemma_filter_map_concat(first, second, |ending: Ending| notice(ending));
}

/// Every unit that went wrong has its own notice in the report, after the
/// notices of the units launched before it and before those of the units
/// launched after it.
pub proof fn law_every_failure_reported(batch: Seq<Ending>, i: int)
    requires
        0 <= i < batch.len(),
        notice(batch[i]) is Some,
    ensures
        notices(batch) == notices(batch.take(i)).push(notice(batch[i])->Some_0) + notices(
            batch.skip(i + 1),
        ),
        report_lines(batch).contains(notice(batch[i])->Some_0),
{
    let head = batch.take(i);
    let tail = batch.skip(i + 1);
    assert(batch =~= head.push(batch[i]) + tail);
    law_notices_concat(head.push(batch[i]), tail);
    lemma_notices_push(head, batch[i]);
    let at = notices(head).len() as int;
    assert(report_lines(batch)[at] == notice(batch[i])->Some_0);
}

/// A report always ends with the line that announces the graceful
/// shutdown, however many units went wrong; every line before it is an
/// error line; and there are no more notices than units.
pub proof fn law_report_ends_gracefully(batch: Seq<Ending>)
    ensures
        report_lines(batch).len() == notices(batch).len() + 1,
        notices(batch).len() <= batch.len(),
        report_lines(batch).last() == shutdown_line(),
        forall|j: int|
            0 <= j < notices(batch).len() ==> (#[trigger] report_lines(batch)[j]).severity
                == Severity::Error,
    decreases batch.len(),
{
    if batch.len() > 0 {
        law_report_ends_gracefully(batch.drop_last());
        lemma_notices_push(batch.drop_last(), batch.last());
        assert(batch.drop_last().push(batch.last()) =~= batch);
        assert forall|j: int| 0 <= j < notices(batch).len() implies (#[trigger] report_lines(
            batch,
        )[j]).severity == Severity::Error by {
            if j < notices(batch.drop_last()).len() {
                assert(report_lines(batch)[j] == report_lines(batch.drop_last())[j]);
            }
        }
    }
}

/// A batch in which every job succeeded is reported by the closing line
/// alone.
pub proof fn law_clean_batch_reports_shutdown_only(batch: Seq<Ending>)
    requires
        forall|i: int| 0 <= i < batch.len() ==> notice(#[trigger] batch[i]) is None,
    ensures
        report_lines(batch) == seq![shutdown_line()],
    decreases batch.len(),
{
    if batch.len() > 0 {
        law_clean_batch_reports_shutdown_only(batch.drop_last());
        lemma_notices_push(batch.drop_last(), batch.last());
        assert(batch.drop_last().push(batch.last()) =~= batch);
    }
    assert(report_lines(batch) =~= seq![shutdown_line()]);
}

/// A crash and a job's failure are told apart in the log: whatever the
/// crash's description and the job's message are, the two notices differ.
pub proof fn law_crash_reported_apart(description: Seq<char>, message: Seq<char>)
    ensures
        crash_notice_text(description) != failure_notice_text(message),
        notice(Ending::Crashed(description)) != notice(Ending::Finished(Err(message))),
{
    reveal_strlit("Critical failure detected: ");
    reveal_strlit("Task failure detected: ");
    assert(crash_notice_text(description)[0] == 'C');
    assert(failure_notice_text(message)[0] == 'T');
}

} // verus!
