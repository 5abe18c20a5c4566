//! The delivery of a report.
//!
//! The reports that wait are tried first, each once; then the new one is sent,
//! and waits too where that fails. Each [`DeliveryStep`] says what is to be done
//! outside, and which function goes on once it is done.
use vstd::prelude::*;

use crate::buffer;
use crate::buffer::{BufferUpdate, Flush, FlushView};
use crate::program;

verus! {

/// What a delivery does next.
#[derive(Debug)]
pub enum DeliveryStep {
    /// Read the file of reports that wait; [`buffer_read`] goes on.
    ReadBuffer { report: String },
    /// Send the next item of the flush; [`waiting_sent`] goes on.
    SendWaiting { report: String, flush: Flush },
    /// Update the file; [`buffer_updated`] goes on.
    UpdateBuffer { report: String, update: BufferUpdate },
    /// Send the report; [`report_sent`] goes on.
    SendReport { report: String },
    /// Read the file and write what [`buffer::save_to_buffer`] makes of it; the
    /// delivery is over.
    SaveReport { report: String },
    /// The delivery is over.
    Done,
}

/// What a [`BufferUpdate`] says.
pub enum BufferUpdateView {
    Remove,
    Write(Seq<char>),
}

/// What a [`DeliveryStep`] says.
#[verifier::ext_equal]
pub enum DeliveryStepView {
    ReadBuffer { report: Seq<char> },
    SendWaiting { report: Seq<char>, flush: FlushView },
    UpdateBuffer { report: Seq<char>, update: BufferUpdateView },
    SendReport { report: Seq<char> },
    SaveReport { report: Seq<char> },
    Done,
}

/// What becomes of the file, as `update` says.
pub open spec fn update_view(update: BufferUpdate) -> BufferUpdateView {
    match update {
        BufferUpdate::Remove => BufferUpdateView::Remove,
        BufferUpdate::Write(contents) => BufferUpdateView::Write(contents@),
    }
}

impl View for DeliveryStep {
    type V = DeliveryStepView;

    open spec fn view(&self) -> DeliveryStepView {
        match self {
            DeliveryStep::ReadBuffer { report } => DeliveryStepView::ReadBuffer { report: report@ },
            DeliveryStep::SendWaiting { report, flush } => DeliveryStepView::SendWaiting {
                report: report@,
                flush: flush@,
            },
            DeliveryStep::UpdateBuffer { report, update } => DeliveryStepView::UpdateBuffer {
                report: report@,
                update: update_view(*update),
            },
            DeliveryStep::SendReport { report } => DeliveryStepView::SendReport { report: report@ },
            DeliveryStep::SaveReport { report } => DeliveryStepView::SaveReport { report: report@ },
            DeliveryStep::Done => DeliveryStepView::Done,
        }
    }
}

/// The step once the file was read: the reports in it are sent, and where there
/// are none, the new one.
pub open spec fn after_read(report: Seq<char>, stored: Option<Seq<char>>) -> DeliveryStepView {
    if buffer::waiting(stored).len() == 0 {
        DeliveryStepView::SendReport { report }
    } else {
        DeliveryStepView::SendWaiting {
            report,
            flush: FlushView { items: buffer::waiting(stored), outcomes: Seq::empty() },
        }
    }
}

/// What becomes of the file where these reports could not be delivered.
pub open spec fn update_for(remaining: Seq<Seq<char>>) -> BufferUpdateView {
    if remaining.len() == 0 {
        BufferUpdateView::Remove
    } else {
        BufferUpdateView::Write(buffer::json_array(remaining))
    }
}

/// The step once a report that waited was sent, and was delivered or not: the
/// next one, or after the last one the update of the file.
pub open spec fn after_waiting(
    report: Seq<char>,
    flush: FlushView,
    delivered: bool,
) -> DeliveryStepView {
    let next = FlushView { items: flush.items, outcomes: flush.outcomes.push(delivered) };
    if next.done() {
        DeliveryStepView::UpdateBuffer { report, update: update_for(next.remaining()) }
    } else {
        DeliveryStepView::SendWaiting { report, flush: next }
    }
}

/// The step once the report was sent, and was delivered or not.
pub open spec fn after_report(report: Seq<char>, delivered: bool) -> DeliveryStepView {
    if delivered {
        DeliveryStepView::Done
    } else {
        DeliveryStepView::SaveReport { report }
    }
}

/// Whether a request got through, from how the program that sends it ended:
/// whether it reported success, and nothing where it could not be started.
pub open spec fn got_through(exit_ok: Option<bool>) -> bool {
    exit_ok == Some(true)
}

/// Tells whether a request got through.
pub fn delivered(exit_ok: Option<bool>) -> (delivered: bool)
    ensures
        delivered == (exit_ok == Some(true)),
{
    match exit_ok {
        Some(exit_ok) => exit_ok,
        None => false,
    }
}

/// Starts to deliver a report.
pub fn deliver(report: String) -> (step: DeliveryStep)
    ensures
        step@ == (DeliveryStepView::ReadBuffer { report: report@ }),
{
    DeliveryStep::ReadBuffer { report }
}

/// Goes on with the contents of the file, where it could be read.
pub fn buffer_read(report: String, stored: Option<&str>) -> (step: DeliveryStep)
    ensures
        step@ == after_read(report@, program::text_behind(stored)),
{
    match Flush::start(stored) {
        Some(flush) => DeliveryStep::SendWaiting { report, flush },
        None => DeliveryStep::SendReport { report },
    }
}

/// Goes on once the next item of the flush was sent by a program that ended so,
/// where it could be started.
pub fn waiting_sent(report: String, flush: Flush, exit_ok: Option<bool>) -> (step: DeliveryStep)
    requires
        !flush@.done(),
    ensures
        step@ == after_waiting(report@, flush@, got_through(exit_ok)),
        step matches DeliveryStep::UpdateBuffer { update: BufferUpdate::Write(contents), .. }
            ==> buffer::waiting(Some(contents@)) == buffer::with_outcome(
            flush@.items,
            flush@.outcomes.push(got_through(exit_ok)),
            false,
        ),
{
    let mut flush = flush;
    flush.record(delivered(exit_ok));
    if flush.next_item().is_some() {
        DeliveryStep::SendWaiting { report, flush }
    } else {
        let (_, update) = flush.finish();
        DeliveryStep::UpdateBuffer { report, update }
    }
}

/// Goes on once the file was updated.
pub fn buffer_updated(report: String) -> (step: DeliveryStep)
    ensures
        step@ == (DeliveryStepView::SendReport { report: report@ }),
{
    DeliveryStep::SendReport { report }
}

/// Goes on once the report was sent by a program that ended so, where it could
/// be started.
pub fn report_sent(report: String, exit_ok: Option<bool>) -> (step: DeliveryStep)
    ensures
        step@ == after_report(report@, got_through(exit_ok)),
{
    if delivered(exit_ok) {
        DeliveryStep::Done
    } else {
        DeliveryStep::SaveReport { report }
    }
}

// ---- laws ----

/// The step once reports that waited were sent with these outcomes, one after
/// the other.
pub open spec fn after_all_waiting(
    report: Seq<char>,
    flush: FlushView,
    outcomes: Seq<bool>,
) -> DeliveryStepView
    decreases outcomes.len(),
{
    if outcomes.len() == 0 {
        DeliveryStepView::SendWaiting { report, flush }
    } else {
        match after_waiting(report, flush, outcomes.first()) {
            DeliveryStepView::SendWaiting { flush: next, .. } => after_all_waiting(
                report,
                next,
                outcomes.drop_first(),
            ),
            step => step,
        }
    }
}

/// Every report that waits is sent before the new one, and the file then keeps
/// exactly those that could not be delivered.
pub proof fn law_waiting_reports_come_first(
    report: Seq<char>,
    stored: Option<Seq<char>>,
    outcomes: Seq<bool>,
)
    requires
        outcomes.len() == buffer::waiting(stored).len(),
        outcomes.len() > 0,
    ensures
        after_read(report, stored) matches DeliveryStepView::SendWaiting { flush, .. }
            && after_all_waiting(report, flush, outcomes) == (DeliveryStepView::UpdateBuffer {
            report,
            update: update_for(buffer::with_outcome(buffer::waiting(stored), outcomes, false)),
        }),
{
    let flush = FlushView { items: buffer::waiting(stored), outcomes: Seq::empty() };
    lemma_all_waiting(report, flush, outcomes);
    assert(flush.outcomes + outcomes == outcomes);
}

proof fn lemma_all_waiting(report: Seq<char>, flush: FlushView, outcomes: Seq<bool>)
    requires
        flush.outcomes.len() + outcomes.len() == flush.items.len(),
        outcomes.len() > 0,
    ensures
        after_all_waiting(report, flush, outcomes) == (DeliveryStepView::UpdateBuffer {
            report,
            update: update_for(
                buffer::with_outcome(flush.items, flush.outcomes + outcomes, false),
            ),
        }),
    decreases outcomes.len(),
{
    let next = FlushView { items: flush.items, outcomes: flush.outcomes.push(outcomes.first()) };
    assert(next.outcomes + outcomes.drop_first() == flush.outcomes + outcomes);
    if outcomes.len() == 1 {
        assert(next.outcomes == flush.outcomes + outcomes);
    } else {
        lemma_all_waiting(report, next, outcomes.drop_first());
    }
}

/// Which of the requests got through, from how the programs that sent them
/// ended.
pub open spec fn outcomes_of(ends: Seq<Option<bool>>) -> Seq<bool> {
    Seq::new(ends.len(), |i: int| got_through(ends[i]))
}

/// A report that waits stays in the file where the program that sends it ends
/// in failure, or cannot be started.
pub proof fn law_failed_requests_keep_waiting(
    report: Seq<char>,
    stored: Option<Seq<char>>,
    ends: Seq<Option<bool>>,
    i: int,
)
    requires
        ends.len() == buffer::waiting(stored).len(),
        0 <= i < ends.len(),
        ends[i] != Some(true),
    ensures
        after_read(report, stored) matches DeliveryStepView::SendWaiting { flush, .. }
            && after_all_waiting(report, flush, outcomes_of(ends))
            == (DeliveryStepView::UpdateBuffer {
            report,
            update: BufferUpdateView::Write(
                buffer::json_array(
                    buffer::with_outcome(buffer::waiting(stored), outcomes_of(ends), false),
                ),
            ),
        }),
        buffer::with_outcome(buffer::waiting(stored), outcomes_of(ends), false).contains(
            buffer::waiting(stored)[i],
        ),
{
    law_waiting_reports_come_first(report, stored, outcomes_of(ends));
    lemma_kept(buffer::waiting(stored), outcomes_of(ends), i);
}

proof fn lemma_kept(items: Seq<Seq<char>>, outcomes: Seq<bool>, i: int)
    requires
        outcomes.len() <= items.len(),
        0 <= i < outcomes.len(),
        !outcomes[i],
    ensures
        buffer::with_outcome(items, outcomes, false).contains(items[i]),
    decreases outcomes.len(),
{
    let earlier = buffer::with_outcome(items, outcomes.drop_last(), false);
    let all = buffer::with_outcome(items, outcomes, false);
    if i == outcomes.len() - 1 {
        assert(all.last() == items[i]);
    } else {
        lemma_kept(items, outcomes.drop_last(), i);
        let k = choose|k: int| 0 <= k < earlier.len() && earlier[k] == items[i];
        assert(all[k] == items[i]);
    }
}

/// A report is saved where the program that sends it ends in failure, or cannot
/// be started.
pub proof fn law_failed_report_is_saved(report: Seq<char>, exit_ok: Option<bool>)
    requires
        exit_ok != Some(true),
    ensures
        after_report(report, got_through(exit_ok)) == (DeliveryStepView::SaveReport { report }),
{
}

/// A delivery ends with the report delivered or on its way into the file.
pub proof fn law_report_is_delivered_or_saved(report: Seq<char>, delivered: bool)
    ensures
        after_report(report, delivered) is Done <==> delivered,
        !delivered ==> after_report(report, delivered) == (DeliveryStepView::SaveReport { report }),
{
}

/// Where reports wait, all of them are to be sent first, from the first on;
/// where none does, the new one is.
pub proof fn law_delivery_starts_with_what_waits(report: Seq<char>, stored: Option<Seq<char>>)
    ensures
        buffer::waiting(stored).len() == 0 ==> after_read(report, stored)
            == (DeliveryStepView::SendReport { report }),
        buffer::waiting(stored).len() > 0 ==> (after_read(report, stored)
            matches DeliveryStepView::SendWaiting { report: carried, flush } && carried == report
            && flush.items == buffer::waiting(stored) && flush.outcomes.len() == 0),
{
}

/// One waiting report is sent after the other, each once, until the last; the
/// new report is carried along as it is.
pub proof fn law_waiting_reports_take_turns(report: Seq<char>, flush: FlushView, delivered: bool)
    requires
        flush.outcomes.len() < flush.items.len(),
    ensures
        flush.outcomes.len() + 1 < flush.items.len() ==> (after_waiting(report, flush, delivered)
            matches DeliveryStepView::SendWaiting { report: carried, flush: next } && carried
            == report && next.items == flush.items && next.outcomes.len() == flush.outcomes.len()
            + 1 && next.outcomes.last() == delivered && next.outcomes.drop_last()
            == flush.outcomes),
        flush.outcomes.len() + 1 == flush.items.len() ==> (after_waiting(report, flush, delivered)
            matches DeliveryStepView::UpdateBuffer { report: carried, .. } && carried == report),
{
    assert(flush.outcomes.push(delivered).drop_last() == flush.outcomes);
}

/// The file goes exactly where nothing is left, and is written with all that is.
pub proof fn law_file_keeps_what_is_left(remaining: Seq<Seq<char>>)
    ensures
        update_for(remaining) is Remove <==> remaining.len() == 0,
        remaining.len() > 0 ==> update_for(remaining) == BufferUpdateView::Write(
            buffer::json_array(remaining),
        ),
{
}

/// Only success counts: a program that failed, or did not start, delivered
/// nothing.
pub proof fn law_only_success_delivers()
    ensures
        got_through(Some(true)),
        !got_through(Some(false)),
        !got_through(None),
{
}

/// A step says what it holds.
pub proof fn law_delivery_steps_say_what_they_hold(
    report: String,
    flush: Flush,
    update: BufferUpdate,
    contents: String,
)
    ensures
        (DeliveryStep::ReadBuffer { report })@ == (DeliveryStepView::ReadBuffer { report: report@ }),
        (DeliveryStep::SendWaiting { report, flush })@ == (DeliveryStepView::SendWaiting {
            report: report@,
            flush: flush@,
        }),
        (DeliveryStep::UpdateBuffer { report, update })@ == (DeliveryStepView::UpdateBuffer {
            report: report@,
            update: update_view(update),
        }),
        (DeliveryStep::SendReport { report })@ == (DeliveryStepView::SendReport { report: report@ }),
        (DeliveryStep::SaveReport { report })@ == (DeliveryStepView::SaveReport { report: report@ }),
        DeliveryStep::Done@ == DeliveryStepView::Done,
        update_view(BufferUpdate::Remove) == BufferUpdateView::Remove,
        update_view(BufferUpdate::Write(contents)) == BufferUpdateView::Write(contents@),
{
}

} // verus!
