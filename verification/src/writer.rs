//! The incremental result writer as a state machine.
//!
//! The caller owns the output destination, the receiving end of the
//! channel and the progress display. It reports what happened as an
//! [`Event`]; the writer answers with an [`Action`]: the text to append to
//! the destination, the status line to show, and whether to receive again.

use vstd::prelude::*;
use crate::container::{chunk_for, closing, container_text, element_chunk, joined, joined_push, opening};
use crate::encode::{encode_record, record_text};
use crate::record::{ProbeRecord, ProbeResult, RunTally};
use crate::text::{decimal, decimal_text};

verus! {

/// Where the writer is in its protocol.
#[derive(Clone, Copy, Debug, PartialEq, Eq, Structural)]
pub enum Phase {
    /// Nothing was emitted yet; the destination is not open.
    Idle,
    /// The container is open and another record is awaited.
    Streaming,
    /// The container was closed.
    Closed,
    /// The destination could not be opened; nothing was emitted.
    Failed,
}

/// Mathematical state of the writer.
pub struct WriterState {
    /// How many records the batch will send.
    pub expected: nat,
    pub phase: Phase,
    /// Records received so far.
    pub received: nat,
    /// Received records that the serializer refused.
    pub skipped: nat,
    /// Tally of received records by outcome.
    pub succeeded: nat,
    pub failed: nat,
    /// The serialized records written so far, in arrival order.
    pub texts: Seq<Seq<char>>,
    /// Everything emitted to the destination so far.
    pub emitted: Seq<char>,
}

/// What the writer is told, with a received record already serialized.
pub enum Input {
    /// The destination was created.
    Opened,
    /// The destination could not be created.
    OpenFailed,
    /// A record arrived; `encoded` is `None` where it could not be serialized.
    Record { succeeded: bool, encoded: Option<Seq<char>> },
    /// The channel has no sender left.
    Disconnected,
}

/// The state of a writer that expects `expected` records and has not
/// started.
pub open spec fn fresh(expected: nat) -> WriterState {
    WriterState {
        expected,
        phase: Phase::Idle,
        received: 0,
        skipped: 0,
        succeeded: 0,
        failed: 0,
        texts: Seq::empty(),
        emitted: Seq::empty(),
    }
}

/// The text appended to the destination when `input` arrives in state `s`.
pub open spec fn output(s: WriterState, input: Input) -> Seq<char> {
    match (s.phase, input) {
        (Phase::Idle, Input::Opened) => if s.expected == 0 {
            opening() + closing()
        } else {
            opening()
        },
        (Phase::Streaming, Input::Record { succeeded, encoded }) => {
            let chunk = match encoded {
                Some(text) => element_chunk(s.texts.len(), text),
                None => Seq::empty(),
            };
            if s.received + 1 == s.expected {
                chunk + closing()
            } else {
                chunk
            }
        },
        (Phase::Streaming, Input::Disconnected) => closing(),
        _ => Seq::empty(),
    }
}

/// The state after `input` arrives in state `s`. An input that the phase
/// does not await leaves the state as it is.
pub open spec fn advance(s: WriterState, input: Input) -> WriterState {
    match (s.phase, input) {
        (Phase::Idle, Input::Opened) => WriterState {
            phase: if s.expected == 0 {
                Phase::Closed
            } else {
                Phase::Streaming
            },
            emitted: s.emitted + output(s, input),
            ..s
        },
        (Phase::Idle, Input::OpenFailed) => WriterState { phase: Phase::Failed, ..s },
        (Phase::Streaming, Input::Record { succeeded, encoded }) => WriterState {
            phase: if s.received + 1 == s.expected {
                Phase::Closed
            } else {
                Phase::Streaming
            },
            received: s.received + 1,
            skipped: if encoded is None {
                s.skipped + 1
            } else {
                s.skipped
            },
            succeeded: if succeeded {
                s.succeeded + 1
            } else {
                s.succeeded
            },
            failed: if succeeded {
                s.failed
            } else {
                s.failed + 1
            },
            texts: match encoded {
                Some(text) => s.texts.push(text),
                None => s.texts,
            },
            emitted: s.emitted + output(s, input),
            ..s
        },
        (Phase::Streaming, Input::Disconnected) => WriterState {
            phase: Phase::Closed,
            emitted: s.emitted + output(s, input),
            ..s
        },
        _ => s,
    }
}

/// The status line for a tally.
pub open spec fn status_text(succeeded: nat, failed: nat) -> Seq<char> {
    "OK: "@ + decimal_text(succeeded) + ", Failed: "@ + decimal_text(failed)
}

/// The status line to show when `input` arrives in state `s`: the new
/// tally where a record is counted, nothing otherwise.
pub open spec fn progress(s: WriterState, input: Input) -> Option<Seq<char>> {
    match (s.phase, input) {
        (Phase::Streaming, Input::Record { succeeded, encoded }) => Some(
            status_text(advance(s, input).succeeded, advance(s, input).failed),
        ),
        _ => None,
    }
}

/// What holds of every state that the writer reaches.
pub open spec fn inv(s: WriterState) -> bool {
    &&& s.received <= s.expected
    &&& s.succeeded + s.failed == s.received
    &&& s.texts.len() + s.skipped == s.received
    &&& match s.phase {
        Phase::Idle => s.received == 0 && s.emitted == Seq::<char>::empty(),
        Phase::Failed => s.received == 0 && s.emitted == Seq::<char>::empty(),
        Phase::Streaming => s.received < s.expected && s.emitted == opening() + joined(s.texts),
        Phase::Closed => s.emitted == container_text(s.texts),
    }
}

/// The state after the inputs arrive one after the other.
pub open spec fn run(s: WriterState, inputs: Seq<Input>) -> WriterState
    decreases inputs.len(),
{
    if inputs.len() == 0 {
        s
    } else {
        advance(run(s, inputs.drop_last()), inputs.last())
    }
}

/// Everything that the inputs make the writer append, in order.
pub open spec fn outputs(s: WriterState, inputs: Seq<Input>) -> Seq<char>
    decreases inputs.len(),
{
    if inputs.len() == 0 {
        Seq::empty()
    } else {
        outputs(s, inputs.drop_last()) + output(run(s, inputs.drop_last()), inputs.last())
    }
}

/// The state's record of what was emitted grows by exactly the text that
/// the caller is told to append.
pub proof fn emitted_grows_by_output(s: WriterState, input: Input)
    ensures
        advance(s, input).emitted == s.emitted + output(s, input),
{
    assert(advance(s, input).emitted =~= s.emitted + output(s, input));
}

/// What a fresh writer's state records as emitted is the concatenation of
/// the texts it handed out, so the destination holds exactly that.
pub proof fn emitted_is_what_was_output(expected: nat, inputs: Seq<Input>)
    ensures
        run(fresh(expected), inputs).emitted == outputs(fresh(expected), inputs),
    decreases inputs.len(),
{
    if inputs.len() > 0 {
        emitted_is_what_was_output(expected, inputs.drop_last());
        emitted_grows_by_output(run(fresh(expected), inputs.drop_last()), inputs.last());
    }
}

/// One input keeps the invariant.
pub proof fn advance_keeps_inv(s: WriterState, input: Input)
    requires
        inv(s),
    ensures
        inv(advance(s, input)),
{
    let t = advance(s, input);
    match (s.phase, input) {
        (Phase::Idle, Input::Opened) => {
            assert(joined(s.texts) =~= Seq::<char>::empty());
            assert(t.emitted =~= if s.expected == 0 {
                container_text(t.texts)
            } else {
                opening() + joined(t.texts)
            });
        },
        (Phase::Streaming, Input::Record { succeeded, encoded }) => {
            if let Some(text) = encoded {
                joined_push(s.texts, text);
            }
            assert(t.emitted =~= if s.received + 1 == s.expected {
                container_text(t.texts)
            } else {
                opening() + joined(t.texts)
            });
        },
        (Phase::Streaming, Input::Disconnected) => {
            assert(t.emitted =~= container_text(t.texts));
        },
        _ => {},
    }
}

/// Every state reached from a fresh writer satisfies the invariant.
pub proof fn run_keeps_inv(expected: nat, inputs: Seq<Input>)
    ensures
        inv(run(fresh(expected), inputs)),
        run(fresh(expected), inputs).expected == expected,
    decreases inputs.len(),
{
    if inputs.len() > 0 {
        run_keeps_inv(expected, inputs.drop_last());
        advance_keeps_inv(run(fresh(expected), inputs.drop_last()), inputs.last());
    }
}

/// Whatever arrives and in whatever order, the destination holds a
/// well-formed container once the writer has closed it, and closing it
/// after any prefix of the run would give one too: each record but the
/// first is preceded by a separator, and none is followed by one.
pub proof fn persisted_output_is_well_formed(expected: nat, inputs: Seq<Input>)
    ensures
        ({
            let s = run(fresh(expected), inputs);
            &&& (s.phase == Phase::Closed ==> s.emitted == container_text(s.texts))
            &&& (s.phase == Phase::Streaming ==> s.emitted + closing() == container_text(s.texts))
            &&& (s.phase == Phase::Idle || s.phase == Phase::Failed) ==> s.emitted
                == Seq::<char>::empty()
        }),
{
    run_keeps_inv(expected, inputs);
}

/// After any prefix of the run the two counts of the tally add up to the
/// number of records received, which is the number written plus the
/// number that the serializer refused; where none was refused, the tally
/// adds up to the number of records written.
pub proof fn tally_counts_every_record(expected: nat, inputs: Seq<Input>)
    ensures
        ({
            let s = run(fresh(expected), inputs);
            &&& s.succeeded + s.failed == s.received
            &&& s.received == s.texts.len() + s.skipped
            &&& (s.skipped == 0 ==> s.succeeded + s.failed == s.texts.len())
            &&& s.received <= expected
        }),
{
    run_keeps_inv(expected, inputs);
}

/// A writer that expects `expected` records and is sent no more than
/// that, with the channel staying connected, has received every record
/// sent; it awaits another while fewer than `expected` arrived and has
/// closed the container exactly when the last one did.
pub proof fn stops_exactly_at_expected_count(expected: nat, records: Seq<Input>)
    requires
        records.len() <= expected,
        forall|i: int| 0 <= i < records.len() ==> #[trigger] records[i] is Record,
    ensures
        ({
            let s = run(fresh(expected), seq![Input::Opened] + records);
            &&& s.received == records.len()
            &&& (s.phase == Phase::Closed <==> records.len() == expected)
            &&& (s.phase == Phase::Streaming <==> records.len() < expected)
        }),
    decreases records.len(),
{
    let all = seq![Input::Opened] + records;
    if records.len() == 0 {
        assert(all.drop_last() =~= Seq::<Input>::empty());
        assert(all.last() == Input::Opened);
        assert(run(fresh(expected), all.drop_last()) == fresh(expected));
    } else {
        stops_exactly_at_expected_count(expected, records.drop_last());
        assert(all.drop_last() =~= seq![Input::Opened] + records.drop_last());
        assert(all.last() == records.last());
        assert(records[records.len() - 1] is Record);
        run_keeps_inv(expected, all.drop_last());
    }
}

/// The texts of the records that the serializer accepted, in arrival
/// order.
pub open spec fn accepted_texts(records: Seq<Input>) -> Seq<Seq<char>>
    decreases records.len(),
{
    if records.len() == 0 {
        Seq::empty()
    } else {
        let earlier = accepted_texts(records.drop_last());
        match records.last() {
            Input::Record { succeeded, encoded: Some(text) } => earlier.push(text),
            _ => earlier,
        }
    }
}

/// A writer that is sent no more records than it expects has written the
/// accepted ones, each once and in arrival order, and has skipped exactly
/// the refused ones.
pub proof fn run_writes_accepted_texts_in_arrival_order(expected: nat, records: Seq<Input>)
    requires
        records.len() <= expected,
        forall|i: int| 0 <= i < records.len() ==> #[trigger] records[i] is Record,
    ensures
        ({
            let s = run(fresh(expected), seq![Input::Opened] + records);
            &&& s.texts == accepted_texts(records)
            &&& s.skipped == records.len() - accepted_texts(records).len()
        }),
    decreases records.len(),
{
    let all = seq![Input::Opened] + records;
    if records.len() == 0 {
        assert(all.drop_last() =~= Seq::<Input>::empty());
        assert(all.last() == Input::Opened);
        assert(run(fresh(expected), all.drop_last()) == fresh(expected));
    } else {
        run_writes_accepted_texts_in_arrival_order(expected, records.drop_last());
        stops_exactly_at_expected_count(expected, records.drop_last());
        assert(all.drop_last() =~= seq![Input::Opened] + records.drop_last());
        assert(all.last() == records.last());
        assert(records[records.len() - 1] is Record);
        run_keeps_inv(expected, all.drop_last());
    }
}

/// The inputs that the records of a batch become, in arrival order.
pub open spec fn record_inputs(recvd: Seq<ProbeRecord>) -> Seq<Input> {
    Seq::new(recvd.len(), |k: int| record_input(recvd[k]))
}

/// Where the serializer accepts every record, each record's text is among
/// the accepted texts at the record's own place.
pub proof fn accepted_texts_of_serializable_records(recvd: Seq<ProbeRecord>)
    requires
        forall|k: int| 0 <= k < recvd.len() ==> (#[trigger] record_text(recvd[k])) is Some,
    ensures
        accepted_texts(record_inputs(recvd)).len() == recvd.len(),
        forall|k: int|
            0 <= k < recvd.len() ==> #[trigger] accepted_texts(record_inputs(recvd))[k]
                == record_text(recvd[k]).unwrap(),
    decreases recvd.len(),
{
    let records = record_inputs(recvd);
    if recvd.len() > 0 {
        accepted_texts_of_serializable_records(recvd.drop_last());
        assert(records.drop_last() =~= record_inputs(recvd.drop_last()));
        assert(records.last() == record_input(recvd.last()));
        assert(record_text(recvd[recvd.len() - 1]) is Some);
    }
}

/// A whole batch: the writer expects one record per probe, the
/// destination opens, and every probe's record arrives, in the order
/// `recvd`. Where the serializer accepts each of them, the writer stops at
/// the last one, having received each once and skipped none, and the
/// destination holds the container of the records' texts in arrival
/// order.
pub proof fn whole_batch_is_persisted(recvd: Seq<ProbeRecord>)
    requires
        forall|k: int| 0 <= k < recvd.len() ==> (#[trigger] record_text(recvd[k])) is Some,
    ensures
        ({
            let s = run(fresh(recvd.len()), seq![Input::Opened] + record_inputs(recvd));
            &&& s.phase == Phase::Closed
            &&& s.received == recvd.len()
            &&& s.skipped == 0
            &&& s.succeeded + s.failed == recvd.len()
            &&& s.texts.len() == recvd.len()
            &&& forall|k: int|
                0 <= k < recvd.len() ==> #[trigger] s.texts[k] == record_text(recvd[k]).unwrap()
            &&& s.emitted == container_text(s.texts)
        }),
{
    let records = record_inputs(recvd);
    accepted_texts_of_serializable_records(recvd);
    stops_exactly_at_expected_count(recvd.len(), records);
    run_writes_accepted_texts_in_arrival_order(recvd.len(), records);
    run_keeps_inv(recvd.len(), seq![Input::Opened] + records);
}

/// Once the container is closed, or the destination has failed, nothing
/// that arrives changes the state or is written.
pub proof fn stopped_writer_ignores_input(s: WriterState, input: Input)
    requires
        s.phase == Phase::Closed || s.phase == Phase::Failed,
    ensures
        advance(s, input) == s,
        output(s, input) == Seq::<char>::empty(),
        progress(s, input) is None,
{
}

/// What the caller reports to the writer.
#[derive(Debug, PartialEq, Eq)]
pub enum Event {
    /// The destination was created.
    Opened,
    /// The destination could not be created.
    OpenFailed,
    /// A record arrived on the channel.
    Received(ProbeResult),
    /// The channel has no sender left.
    Disconnected,
}

/// An [`Event`] whose record has been through the serializer.
#[derive(Debug, PartialEq, Eq)]
pub enum Signal {
    Opened,
    OpenFailed,
    Record { succeeded: bool, encoded: Option<String> },
    Disconnected,
}

impl View for Signal {
    type V = Input;

    open spec fn view(&self) -> Input {
        match self {
            Signal::Opened => Input::Opened,
            Signal::OpenFailed => Input::OpenFailed,
            Signal::Record { succeeded, encoded } => Input::Record {
                succeeded: *succeeded,
                encoded: match encoded {
                    Some(text) => Some(text@),
                    None => None,
                },
            },
            Signal::Disconnected => Input::Disconnected,
        }
    }
}

/// The input that a received record becomes once it has been through
/// the serializer: it keeps its outcome flag and carries its JSON text, or
/// nothing where the serializer refuses it.
pub open spec fn record_input(record: ProbeRecord) -> Input {
    Input::Record { succeeded: record.succeeded, encoded: record_text(record) }
}

/// The input that an event becomes.
pub open spec fn resolved(event: Event) -> Input {
    match event {
        Event::Opened => Input::Opened,
        Event::OpenFailed => Input::OpenFailed,
        Event::Disconnected => Input::Disconnected,
        Event::Received(record) => record_input(record@),
    }
}

/// What the caller is to do after reporting an event.
#[derive(Debug, PartialEq, Eq)]
pub struct Action {
    /// Text to append to the destination; may be empty.
    pub text: String,
    /// Where a record was counted: the status line to show after advancing
    /// the progress display by one.
    pub status: Option<String>,
    /// Whether to receive from the channel again. Where it is `false` the
    /// writer awaits nothing more.
    pub receive_next: bool,
}

impl Action {
    /// Whether this action is the writer's answer to `input` arriving in
    /// state `before`.
    pub open spec fn answers(&self, before: WriterState, input: Input) -> bool {
        &&& self.text@ == output(before, input)
        &&& match self.status {
            Some(line) => progress(before, input) == Some(line@),
            None => progress(before, input) is None,
        }
        &&& self.receive_next == (advance(before, input).phase == Phase::Streaming)
    }
}

/// Builds the status line for a tally.
pub fn status_message(tally: &RunTally) -> (line: String)
    ensures
        line@ == status_text(tally.succeeded as nat, tally.failed as nat),
{
    let ok = decimal(tally.succeeded);
    let ko = decimal(tally.failed);
    String::from_str("OK: ").concat(ok.as_str()).concat(", Failed: ").concat(ko.as_str())
}

/// The single consumer of a batch's records.
pub struct Writer {
    expected: u64,
    received: u64,
    written: u64,
    skipped: u64,
    tally: RunTally,
    phase: Phase,
    texts: Ghost<Seq<Seq<char>>>,
    emitted: Ghost<Seq<char>>,
}

impl View for Writer {
    type V = WriterState;

    closed spec fn view(&self) -> WriterState {
        WriterState {
            expected: self.expected as nat,
            phase: self.phase,
            received: self.received as nat,
            skipped: self.skipped as nat,
            succeeded: self.tally.succeeded as nat,
            failed: self.tally.failed as nat,
            texts: self.texts@,
            emitted: self.emitted@,
        }
    }
}

impl Writer {
    /// The state is one that the protocol reaches, and the count of
    /// written records is the number of texts written.
    pub closed spec fn wf(&self) -> bool {
        &&& inv(self@)
        &&& self.written as nat == self.texts@.len()
    }

    /// A writer that awaits exactly `expected` records.
    pub fn new(expected: u64) -> (writer: Writer)
        ensures
            writer.wf(),
            writer@ == fresh(expected as nat),
    {
        Writer {
            expected,
            received: 0,
            written: 0,
            skipped: 0,
            tally: RunTally::new(),
            phase: Phase::Idle,
            texts: Ghost(Seq::empty()),
            emitted: Ghost(Seq::empty()),
        }
    }

    /// A writer for the batch that probes `hosts`: it awaits exactly one
    /// record per host.
    pub fn for_batch(hosts: &Vec<String>) -> (writer: Writer)
        ensures
            writer.wf(),
            writer@ == fresh(hosts@.len()),
    {
        Writer::new(hosts.len() as u64)
    }

    /// A well-formed writer is in a state that the protocol reaches.
    pub proof fn wf_gives_inv(&self)
        requires
            self.wf(),
        ensures
            inv(self@),
    {
    }

    /// Takes one signal: moves to the next state and says what to append
    /// to the destination, what to show, and whether to receive again.
    pub fn apply(&mut self, signal: Signal) -> (action: Action)
        requires
            old(self).wf(),
        ensures
            final(self).wf(),
            final(self)@ == advance(old(self)@, signal@),
            action.answers(old(self)@, signal@),
    {
        let ghost before = self@;
        let ghost input = signal@;
        proof {
            advance_keeps_inv(before, input);
        }
        match signal {
            Signal::Opened => {
                if self.phase != Phase::Idle {
                    return Action { text: String::new(), status: None, receive_next: self.phase == Phase::Streaming };
                }
                let text = if self.expected == 0 {
                    String::from_str("[\r\n").concat("\n]")
                } else {
                    String::from_str("[\r\n")
                };
                self.phase = if self.expected == 0 {
                    Phase::Closed
                } else {
                    Phase::Streaming
                };
                self.emitted = Ghost(before.emitted + text@);
                Action { text, status: None, receive_next: self.expected != 0 }
            },
            Signal::OpenFailed => {
                if self.phase == Phase::Idle {
                    self.phase = Phase::Failed;
                }
                Action { text: String::new(), status: None, receive_next: self.phase == Phase::Streaming }
            },
            Signal::Disconnected => {
                if self.phase != Phase::Streaming {
                    return Action { text: String::new(), status: None, receive_next: false };
                }
                let text = String::from_str("\n]");
                self.phase = Phase::Closed;
                self.emitted = Ghost(before.emitted + text@);
                Action { text, status: None, receive_next: false }
            },
            Signal::Record { succeeded, encoded } => {
                if self.phase != Phase::Streaming {
                    return Action { text: String::new(), status: None, receive_next: false };
                }
                self.tally.record(succeeded);
                self.received = self.received + 1;
                let last = self.received == self.expected;
                let chunk = match encoded {
                    Some(text) => {
                        let chunk = chunk_for(self.written, text);
                        self.texts = Ghost(before.texts.push(text@));
                        self.written = self.written + 1;
                        chunk
                    },
                    None => {
                        self.skipped = self.skipped + 1;
                        String::new()
                    },
                };
                let text = if last {
                    self.phase = Phase::Closed;
                    chunk.concat("\n]")
                } else {
                    chunk
                };
                self.emitted = Ghost(before.emitted + text@);
                Action { text, status: Some(status_message(&self.tally)), receive_next: !last }
            },
        }
    }

    /// Takes one event: a received record is serialized first and its
    /// text appended; only one that the serializer refuses is counted and
    /// skipped.
    pub fn step(&mut self, event: Event) -> (action: Action)
        requires
            old(self).wf(),
        ensures
            final(self).wf(),
            final(self)@ == advance(old(self)@, resolved(event)),
            action.answers(old(self)@, resolved(event)),
    {
        let signal = match event {
            Event::Opened => Signal::Opened,
            Event::OpenFailed => Signal::OpenFailed,
            Event::Disconnected => Signal::Disconnected,
            Event::Received(record) => Signal::Record {
                succeeded: record.succeeded,
                encoded: encode_record(&record),
            },
        };
        assert(signal@ == resolved(event));
        self.apply(signal)
    }

    /// Where the writer is in its protocol.
    pub fn phase(&self) -> (phase: Phase)
        ensures
            phase == self@.phase,
    {
        self.phase
    }

    /// The running tally.
    pub fn tally(&self) -> (tally: RunTally)
        ensures
            tally.succeeded == self@.succeeded,
            tally.failed == self@.failed,
    {
        self.tally
    }

    /// How many records the writer awaits in all.
    pub fn expected(&self) -> (n: u64)
        ensures
            n == self@.expected,
    {
        self.expected
    }

    /// How many records were received.
    pub fn received(&self) -> (n: u64)
        ensures
            n == self@.received,
    {
        self.received
    }

    /// How many records were written to the destination.
    pub fn written(&self) -> (n: u64)
        requires
            self.wf(),
        ensures
            n == self@.texts.len(),
    {
        self.written
    }

    /// How many received records the serializer refused.
    pub fn skipped(&self) -> (n: u64)
        ensures
            n == self@.skipped,
    {
        self.skipped
    }
}

} // verus!
