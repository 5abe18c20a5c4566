//! Reports that could not be delivered, and their delivery later on.
//!
//! They are kept in a file, as a JSON array of texts, in the order in which they
//! were made. A [`Flush`] tries to deliver each of them once; those that still
//! cannot be delivered stay in the file.
use vstd::prelude::*;

use crate::program;
use crate::text;

verus! {

/// The directory, below the user's home, that holds the file.
pub const BUFFER_DIR: &'static str = ".teamlens";

/// The file's name.
pub const BUFFER_FILE: &'static str = "buffer.json";

/// The directory below which the file's directory is: the user's home, or where
/// that is not known the current one.
pub open spec fn home_or_here(home: Option<Seq<char>>) -> Seq<char> {
    match home {
        Some(home) => home,
        None => "."@,
    }
}

/// Finds the directory below which the file's directory is.
pub fn buffer_home(home: Option<&str>) -> (dir: String)
    ensures
        dir@ == home_or_here(program::text_behind(home)),
{
    match home {
        Some(home) => home.to_string(),
        None => ".".to_string(),
    }
}

/// The texts behind an optional vector of strings.
pub open spec fn texts_behind(items: Option<Vec<String>>) -> Option<Seq<Seq<char>>> {
    match items {
        Some(items) => Some(text::texts(items@)),
        None => None,
    }
}

/// The name of the texts that `serde_json::from_str` reads from a file's
/// contents, where they are a JSON array of texts.
pub uninterp spec fn json_texts(contents: Seq<char>) -> Option<Seq<Seq<char>>>;

/// The name of the contents in which `serde_json::to_string` writes texts.
pub uninterp spec fn json_array(items: Seq<Seq<char>>) -> Seq<char>;

/// Calls `serde_json::from_str` for a `Vec<String>`. What it reads depends on
/// the contents alone and is called `json_texts`.
#[verifier::external_body]
fn from_str(contents: &str) -> (items: Option<Vec<String>>)
    ensures
        texts_behind(items) == json_texts(contents@),
{
    serde_json::from_str::<Vec<String>>(contents).ok()
}

/// Calls `serde_json::to_string` on strings. It does not fail on them; what it
/// writes depends on the texts alone and is called `json_array`, and
/// `serde_json::from_str` reads the same texts from it.
#[verifier::external_body]
fn to_string(items: &Vec<String>) -> (contents: Option<String>)
    ensures
        contents is Some,
        contents->0@ == json_array(text::texts(items@)),
        json_texts(contents->0@) == Some(text::texts(items@)),
{
    serde_json::to_string(items).ok()
}

/// The reports that wait in a file with these contents. A file that cannot be
/// read, or does not hold reports, holds none.
pub open spec fn waiting(stored: Option<Seq<char>>) -> Seq<Seq<char>> {
    match stored {
        Some(stored) => match json_texts(stored) {
            Some(items) => items,
            None => Seq::empty(),
        },
        None => Seq::empty(),
    }
}

/// Reads the reports that wait.
fn load(stored: Option<&str>) -> (items: Vec<String>)
    ensures
        text::texts(items@) == waiting(program::text_behind(stored)),
{
    let items = match stored {
        Some(stored) => from_str(stored),
        None => None,
    };
    match items {
        Some(items) => items,
        None => {
            let items: Vec<String> = Vec::new();
            assert(text::texts(items@) == Seq::<Seq<char>>::empty());
            items
        },
    }
}

/// Writes the reports that wait.
fn store(items: &Vec<String>) -> (contents: String)
    ensures
        contents@ == json_array(text::texts(items@)),
        waiting(Some(contents@)) == text::texts(items@),
{
    to_string(items).unwrap()
}

/// The reports that wait once `payload` waits too.
pub open spec fn waiting_with(stored: Option<Seq<char>>, payload: Seq<char>) -> Seq<Seq<char>> {
    waiting(stored).push(payload)
}

/// The file's contents once `payload` waits behind the reports that it holds.
pub fn save_to_buffer(stored: Option<&str>, payload: &str) -> (contents: String)
    ensures
        contents@ == json_array(waiting_with(program::text_behind(stored), payload@)),
        waiting(Some(contents@)) == waiting_with(program::text_behind(stored), payload@),
{
    let mut items = load(stored);
    let ghost before = items@;
    items.push(payload.to_string());
    assert(text::texts(items@) == text::texts(before).push(payload@));
    store(&items)
}

/// An attempt to deliver the reports that wait, each once.
#[derive(Debug)]
pub struct Flush {
    items: Vec<String>,
    outcomes: Vec<bool>,
}

/// How far a [`Flush`] has come: the reports, and for each of those that were
/// sent so far whether it was delivered.
#[verifier::ext_equal]
pub struct FlushView {
    pub items: Seq<Seq<char>>,
    pub outcomes: Seq<bool>,
}

impl View for Flush {
    type V = FlushView;

    closed spec fn view(&self) -> FlushView {
        FlushView { items: text::texts(self.items@), outcomes: self.outcomes@ }
    }
}

/// Those of the first reports whose outcome is `outcome`, in order.
pub open spec fn with_outcome(
    items: Seq<Seq<char>>,
    outcomes: Seq<bool>,
    outcome: bool,
) -> Seq<Seq<char>>
    decreases outcomes.len(),
{
    if outcomes.len() == 0 {
        Seq::empty()
    } else {
        let earlier = with_outcome(items, outcomes.drop_last(), outcome);
        if outcomes.last() == outcome {
            earlier.push(items[outcomes.len() - 1])
        } else {
            earlier
        }
    }
}

impl FlushView {
    /// No more reports were sent than there are.
    pub open spec fn valid(self) -> bool {
        self.outcomes.len() <= self.items.len()
    }

    /// Every report was sent.
    pub open spec fn done(self) -> bool {
        self.outcomes.len() == self.items.len()
    }

    /// The report to send next, unless every one was sent.
    pub open spec fn next(self) -> Option<Seq<char>> {
        if self.done() {
            None
        } else {
            Some(self.items[self.outcomes.len() as int])
        }
    }

    /// The reports that could not be delivered.
    pub open spec fn remaining(self) -> Seq<Seq<char>> {
        with_outcome(self.items, self.outcomes, false)
    }
}

/// What becomes of the file after a [`Flush`].
#[derive(Debug, PartialEq, Eq)]
pub enum BufferUpdate {
    /// Remove it: nothing waits.
    Remove,
    /// Write these contents.
    Write(String),
}

impl Flush {
    /// No more reports were sent than there are.
    #[verifier::type_invariant]
    spec fn well_formed(self) -> bool {
        self.outcomes@.len() <= self.items@.len()
    }

    /// Starts to deliver the reports that wait; there is nothing to do where
    /// none does.
    pub fn start(stored: Option<&str>) -> (flush: Option<Flush>)
        ensures
            match flush {
                Some(flush) => flush@ == (FlushView {
                    items: waiting(program::text_behind(stored)),
                    outcomes: Seq::empty(),
                }) && flush@.items.len() > 0,
                None => waiting(program::text_behind(stored)).len() == 0,
            },
    {
        let items = load(stored);
        if items.is_empty() {
            None
        } else {
            Some(Flush { items, outcomes: Vec::new() })
        }
    }

    /// The report to send next.
    pub fn next_item(&self) -> (item: Option<&str>)
        ensures
            self@.valid(),
            program::text_behind(item) == self@.next(),
    {
        proof {
            use_type_invariant(self);
        }
        let at: usize = self.outcomes.len();
        if at < self.items.len() {
            Some(self.items[at].as_str())
        } else {
            None
        }
    }

    /// Notes whether the report that was to be sent next was delivered.
    pub fn record(&mut self, delivered: bool)
        requires
            !old(self)@.done(),
        ensures
            final(self)@.items == old(self)@.items,
            final(self)@.outcomes == old(self)@.outcomes.push(delivered),
            final(self)@.valid(),
    {
        proof {
            use_type_invariant(&*self);
        }
        let mut outcomes: Vec<bool> = Vec::new();
        std::mem::swap(&mut outcomes, &mut self.outcomes);
        outcomes.push(delivered);
        self.outcomes = outcomes;
    }

    /// Says whether every report was delivered, and what becomes of the file:
    /// it keeps those that were not, in order, and goes where there are none.
    pub fn finish(&self) -> (end: (bool, BufferUpdate))
        requires
            self@.done(),
        ensures
            end.0 == (forall|i: int|
                0 <= i < self@.outcomes.len() ==> #[trigger] self@.outcomes[i]),
            match end.1 {
                BufferUpdate::Remove => self@.remaining().len() == 0,
                BufferUpdate::Write(contents) => {
                    &&& self@.remaining().len() > 0
                    &&& contents@ == json_array(self@.remaining())
                    &&& waiting(Some(contents@)) == self@.remaining()
                },
            },
    {
        let mut all_success = true;
        let mut remaining: Vec<String> = Vec::new();
        let mut i: usize = 0;
        let ghost items = self@.items;
        let ghost outcomes = self@.outcomes;
        assert(text::texts(remaining@) == Seq::<Seq<char>>::empty());
        while i < self.outcomes.len()
            invariant
                items == self@.items,
                outcomes == self@.outcomes,
                self@.done(),
                i <= outcomes.len(),
                all_success == (forall|k: int| 0 <= k < i ==> #[trigger] outcomes[k]),
                text::texts(remaining@) == with_outcome(items, outcomes.take(i as int), false),
            decreases outcomes.len() - i,
        {
            assert(outcomes.take(i + 1).drop_last() == outcomes.take(i as int));
            assert(outcomes.take(i + 1).last() == outcomes[i as int]);
            if !self.outcomes[i] {
                let ghost before = remaining@;
                all_success = false;
                remaining.push(self.items[i].clone());
                assert(text::texts(remaining@) == text::texts(before).push(items[i as int]));
            }
            i = i + 1;
        }
        assert(outcomes.take(i as int) == outcomes);
        if remaining.is_empty() {
            (all_success, BufferUpdate::Remove)
        } else {
            (all_success, BufferUpdate::Write(store(&remaining)))
        }
    }
}

/// The reports that wait once a flush of those in `stored` with these outcomes
/// was followed by a new report, which was delivered or saved.
pub open spec fn waiting_after(
    stored: Option<Seq<char>>,
    outcomes: Seq<bool>,
    report: Seq<char>,
    delivered: bool,
) -> Seq<Seq<char>> {
    let kept = with_outcome(waiting(stored), outcomes, false);
    if delivered {
        kept
    } else {
        kept.push(report)
    }
}

/// The reports that the service has got by then.
pub open spec fn delivered_by(
    stored: Option<Seq<char>>,
    outcomes: Seq<bool>,
    report: Seq<char>,
    delivered: bool,
) -> Seq<Seq<char>> {
    let flushed = with_outcome(waiting(stored), outcomes, true);
    if delivered {
        flushed.push(report)
    } else {
        flushed
    }
}

proof fn lemma_outcomes_split(items: Seq<Seq<char>>, outcomes: Seq<bool>)
    requires
        outcomes.len() <= items.len(),
    ensures
        with_outcome(items, outcomes, true).to_multiset().add(
            with_outcome(items, outcomes, false).to_multiset(),
        ) == items.take(outcomes.len() as int).to_multiset(),
    decreases outcomes.len(),
{
    broadcast use vstd::seq_lib::group_to_multiset_ensures;

    let n = outcomes.len() as int;
    if n == 0 {
        assert(items.take(0) == Seq::<Seq<char>>::empty());
        assert(with_outcome(items, outcomes, true).to_multiset().add(
            with_outcome(items, outcomes, false).to_multiset(),
        ) =~= items.take(0).to_multiset());
    } else {
        lemma_outcomes_split(items, outcomes.drop_last());
        assert(items.take(n) == items.take(n - 1).push(items[n - 1]));
        assert(with_outcome(items, outcomes, true).to_multiset().add(
            with_outcome(items, outcomes, false).to_multiset(),
        ) =~= items.take(n).to_multiset());
    }
}

/// A flush loses no report and makes none up: each is delivered or stays in the
/// file, as often as it was there.
pub proof fn law_flush_loses_nothing(flush: FlushView)
    requires
        flush.done(),
    ensures
        with_outcome(flush.items, flush.outcomes, true).to_multiset().add(
            flush.remaining().to_multiset(),
        ) == flush.items.to_multiset(),
{
    lemma_outcomes_split(flush.items, flush.outcomes);
    assert(flush.items.take(flush.outcomes.len() as int) == flush.items);
}

/// Nothing stays in the file exactly where every report was delivered.
pub proof fn law_flush_success(flush: FlushView)
    requires
        flush.valid(),
    ensures
        flush.remaining().len() == 0 <==> (forall|i: int|
            0 <= i < flush.outcomes.len() ==> #[trigger] flush.outcomes[i]),
    decreases flush.outcomes.len(),
{
    let outcomes = flush.outcomes;
    if outcomes.len() > 0 {
        let earlier = FlushView { items: flush.items, outcomes: outcomes.drop_last() };
        law_flush_success(earlier);
        assert(forall|i: int| 0 <= i < outcomes.len() - 1 ==> earlier.outcomes[i] == outcomes[i]);
        assert(outcomes.last() == outcomes[outcomes.len() - 1]);
    }
}

/// A flush that delivers nothing leaves the reports as they were.
pub proof fn law_failed_flush_changes_nothing(flush: FlushView)
    requires
        flush.done(),
        forall|i: int| 0 <= i < flush.outcomes.len() ==> !#[trigger] flush.outcomes[i],
    ensures
        flush.remaining() == flush.items,
{
    lemma_none_delivered(flush.items, flush.outcomes);
    assert(flush.items.take(flush.outcomes.len() as int) == flush.items);
}

proof fn lemma_none_delivered(items: Seq<Seq<char>>, outcomes: Seq<bool>)
    requires
        outcomes.len() <= items.len(),
        forall|i: int| 0 <= i < outcomes.len() ==> !#[trigger] outcomes[i],
    ensures
        with_outcome(items, outcomes, false) == items.take(outcomes.len() as int),
    decreases outcomes.len(),
{
    let n = outcomes.len() as int;
    if n > 0 {
        lemma_none_delivered(items, outcomes.drop_last());
        assert(items.take(n) == items.take(n - 1).push(items[n - 1]));
    }
}

/// Whether the texts in `part` stand in `items` at the positions `at`, which
/// grow from one to the next.
pub open spec fn picked_at(part: Seq<Seq<char>>, items: Seq<Seq<char>>, at: Seq<int>) -> bool {
    &&& at.len() == part.len()
    &&& forall|k: int| 0 <= k < at.len() ==> 0 <= #[trigger] at[k] < items.len() && part[k] == items[at[k]]
    &&& forall|j: int, k: int| 0 <= j < k < at.len() ==> at[j] < at[k]
}

/// The reports that stay in the file keep their order.
pub proof fn law_flush_keeps_order(flush: FlushView)
    requires
        flush.valid(),
    ensures
        exists|at: Seq<int>| picked_at(flush.remaining(), flush.items, at),
{
    let at = lemma_positions(flush.items, flush.outcomes);
    assert(picked_at(flush.remaining(), flush.items, at));
}

proof fn lemma_positions(items: Seq<Seq<char>>, outcomes: Seq<bool>) -> (at: Seq<int>)
    requires
        outcomes.len() <= items.len(),
    ensures
        picked_at(with_outcome(items, outcomes, false), items, at),
        forall|k: int| 0 <= k < at.len() ==> #[trigger] at[k] < outcomes.len(),
    decreases outcomes.len(),
{
    if outcomes.len() == 0 {
        Seq::empty()
    } else {
        let earlier = lemma_positions(items, outcomes.drop_last());
        if outcomes.last() {
            earlier
        } else {
            earlier.push(outcomes.len() - 1)
        }
    }
}

/// No report is lost, whatever can and cannot be delivered: those that waited
/// and the new one are all either with the service or in the file.
pub proof fn law_no_report_is_lost(
    stored: Option<Seq<char>>,
    outcomes: Seq<bool>,
    report: Seq<char>,
    delivered: bool,
)
    requires
        outcomes.len() == waiting(stored).len(),
    ensures
        delivered_by(stored, outcomes, report, delivered).to_multiset().add(
            waiting_after(stored, outcomes, report, delivered).to_multiset(),
        ) == waiting(stored).push(report).to_multiset(),
{
    broadcast use vstd::seq_lib::group_to_multiset_ensures;

    let items = waiting(stored);
    law_flush_loses_nothing(FlushView { items, outcomes });
    assert(delivered_by(stored, outcomes, report, delivered).to_multiset().add(
        waiting_after(stored, outcomes, report, delivered).to_multiset(),
    ) =~= items.push(report).to_multiset());
}

/// While nothing can be delivered, a new report waits behind the others.
pub proof fn law_offline_reports_queue_up(
    stored: Option<Seq<char>>,
    outcomes: Seq<bool>,
    report: Seq<char>,
)
    requires
        outcomes.len() == waiting(stored).len(),
        forall|i: int| 0 <= i < outcomes.len() ==> !#[trigger] outcomes[i],
    ensures
        waiting_after(stored, outcomes, report, false) == waiting(stored).push(report),
{
    law_failed_flush_changes_nothing(FlushView { items: waiting(stored), outcomes });
}

/// The reports that wait are those that the file holds, all of them and in that
/// order; a file that is not there, or holds none, has none.
pub proof fn law_waiting_is_what_the_file_holds(
    contents: Seq<char>,
    items: Seq<Seq<char>>,
    strings: Vec<String>,
)
    ensures
        json_texts(contents) == Some(items) ==> waiting(Some(contents)) == items,
        json_texts(contents) is None ==> waiting(Some(contents)).len() == 0,
        waiting(None).len() == 0,
        texts_behind(Some(strings)) == Some(text::texts(strings@)),
        texts_behind(None) is None,
{
}

/// Whether `at` lists, in order, the positions of the reports with that outcome,
/// all of them and no others.
pub open spec fn lists_outcome(outcomes: Seq<bool>, outcome: bool, at: Seq<int>) -> bool {
    &&& forall|k: int|
        0 <= k < at.len() ==> 0 <= #[trigger] at[k] < outcomes.len() && outcomes[at[k]] == outcome
    &&& forall|i: int|
        0 <= i < outcomes.len() && #[trigger] outcomes[i] == outcome ==> at.contains(i)
}

/// The file keeps exactly the reports that could not be delivered, each in its
/// turn, and the service gets exactly the others.
pub proof fn law_flush_tells_reports_apart(flush: FlushView, outcome: bool)
    requires
        flush.outcomes.len() <= flush.items.len(),
    ensures
        exists|at: Seq<int>|
            lists_outcome(flush.outcomes, outcome, at) && #[trigger] picked_at(
                with_outcome(flush.items, flush.outcomes, outcome),
                flush.items,
                at,
            ),
        flush.remaining() == with_outcome(flush.items, flush.outcomes, false),
        flush.valid(),
        flush.done() <==> flush.outcomes.len() == flush.items.len(),
{
    let at = lemma_places(flush.items, flush.outcomes, outcome);
    assert(picked_at(with_outcome(flush.items, flush.outcomes, outcome), flush.items, at));
}

proof fn lemma_places(items: Seq<Seq<char>>, outcomes: Seq<bool>, outcome: bool) -> (at: Seq<int>)
    requires
        outcomes.len() <= items.len(),
    ensures
        picked_at(with_outcome(items, outcomes, outcome), items, at),
        lists_outcome(outcomes, outcome, at),
    decreases outcomes.len(),
{
    if outcomes.len() == 0 {
        Seq::empty()
    } else {
        let last = outcomes.len() - 1;
        let fewer = outcomes.drop_last();
        let earlier = lemma_places(items, fewer, outcome);
        let at = if outcomes.last() == outcome {
            earlier.push(last)
        } else {
            earlier
        };
        assert forall|i: int|
            0 <= i < outcomes.len() && #[trigger] outcomes[i] == outcome implies at.contains(i) by {
            if i < last {
                assert(fewer[i] == outcome);
                let k = choose|k: int| 0 <= k < earlier.len() && earlier[k] == i;
                assert(at[k] == i);
            } else {
                assert(at[at.len() - 1] == i);
            }
        }
        assert forall|k: int| 0 <= k < at.len() implies 0 <= #[trigger] at[k] < outcomes.len()
            && outcomes[at[k]] == outcome by {
            if k < earlier.len() {
                assert(at[k] == earlier[k]);
                assert(fewer[earlier[k]] == outcomes[earlier[k]]);
            }
        }
        at
    }
}

/// A report that is saved waits last, as it is; those that waited before stay as
/// they were.
pub proof fn law_saved_report_waits_last(stored: Option<Seq<char>>, payload: Seq<char>)
    ensures
        waiting_with(stored, payload).len() == waiting(stored).len() + 1,
        waiting_with(stored, payload).last() == payload,
        waiting_with(stored, payload).drop_last() == waiting(stored),
{
    assert(waiting(stored).push(payload).drop_last() == waiting(stored));
}

/// Every report gets its turn, in order and once.
pub proof fn law_every_report_gets_its_turn(flush: FlushView)
    requires
        flush.outcomes.len() <= flush.items.len(),
    ensures
        flush.outcomes.len() < flush.items.len() ==> flush.next() == Some(
            flush.items[flush.outcomes.len() as int],
        ),
        flush.outcomes.len() == flush.items.len() ==> flush.next() is None,
{
}

/// The user's home is taken as it is, where it is known.
pub proof fn law_home_is_taken_as_it_is(home: Seq<char>)
    ensures
        home_or_here(Some(home)) == home,
        home_or_here(None) == "."@,
{
}

} // verus!
