//! The batch orchestrator: sequences one external-tool invocation per input
//! file, in order, emitting a "converting" event before and one terminal
//! ("done"/"error") event after each file, collecting the output paths of
//! the files that succeeded and tolerating per-file failures.
//!
//! The orchestrator is a state machine: the caller performs the outside work
//! (checking that a file exists, running the tool) and feeds the outcome
//! back.  `begin_file` opens work on the next file and says what to do for
//! it; `finish_file` records the tool's outcome.  Every event the batch
//! emits is also recorded in an event log, which the contracts below pin
//! down exactly.

use vstd::prelude::*;
use crate::args::{args_view, spec_build_args, build_args};
use crate::options::ConversionOptions;
use crate::path::{spec_resolve, resolve_output, PathError};
use crate::progress::{ConversionProgress, ProgressModel, Status};

verus! {

/// The "converting" event opening work on file `i`.
pub open spec fn spec_converting_event(
    path: Seq<char>,
    i: int,
    total: int,
    input_size: Option<u64>,
) -> ProgressModel {
    ProgressModel {
        file_path: path,
        status: Status::Converting,
        output_path: None,
        error: None,
        index: i,
        total,
        input_size,
        output_size: None,
    }
}

/// The error text for an input file that does not exist.
pub open spec fn spec_not_found_message(path: Seq<char>) -> Seq<char> {
    "File not found: "@ + path
}

/// The terminal "error" event for a file that does not exist.
pub open spec fn spec_not_found_event(
    path: Seq<char>,
    i: int,
    total: int,
    input_size: Option<u64>,
) -> ProgressModel {
    ProgressModel {
        file_path: path,
        status: Status::Error,
        output_path: None,
        error: Some(spec_not_found_message(path)),
        index: i,
        total,
        input_size,
        output_size: None,
    }
}

/// The terminal "done" event for a file the tool converted.
pub open spec fn spec_done_event(
    path: Seq<char>,
    i: int,
    total: int,
    output: Seq<char>,
    input_size: Option<u64>,
    output_size: Option<u64>,
) -> ProgressModel {
    ProgressModel {
        file_path: path,
        status: Status::Done,
        output_path: Some(output),
        error: None,
        index: i,
        total,
        input_size,
        output_size,
    }
}

/// The terminal "error" event for a file on which the tool failed; the
/// captured standard-error text is surfaced verbatim.
pub open spec fn spec_tool_error_event(
    path: Seq<char>,
    i: int,
    total: int,
    stderr: Seq<char>,
    input_size: Option<u64>,
) -> ProgressModel {
    ProgressModel {
        file_path: path,
        status: Status::Error,
        output_path: None,
        error: Some(stderr),
        index: i,
        total,
        input_size,
        output_size: None,
    }
}

/// Whether an event is terminal: no further event follows for its index.
pub open spec fn is_terminal(e: ProgressModel) -> bool {
    e.status == Status::Done || e.status == Status::Error
}

/// A well-formed terminal event for file `i`: right index, right total,
/// right file path; a "done" event additionally carries exactly the path
/// resolver's output for the file.
pub open spec fn terminal_ok(
    e: ProgressModel,
    inputs: Seq<Seq<char>>,
    opts: ConversionOptions,
    i: int,
) -> bool {
    match e.status {
        Status::Converting => false,
        Status::Done => {
            &&& spec_resolve(inputs[i], opts.format) matches Ok(v) && e.output_path == Some(v.0)
            &&& e == spec_done_event(inputs[i], i, inputs.len() as int, e.output_path->0, e.input_size, e.output_size)
        },
        Status::Error => {
            &&& e.file_path == inputs[i]
            &&& e.index == i
            &&& e.total == inputs.len() as int
            &&& e.output_path is None
            &&& e.error is Some
            &&& e.output_size is None
        },
    }
}

/// The pair of events recorded for a fully processed file `i`: its
/// "converting" event at position `2i` and its terminal event at `2i + 1`.
pub open spec fn pair_ok(
    evs: Seq<ProgressModel>,
    inputs: Seq<Seq<char>>,
    opts: ConversionOptions,
    i: int,
) -> bool {
    &&& evs[2 * i] == spec_converting_event(
        inputs[i],
        i,
        inputs.len() as int,
        evs[2 * i].input_size,
    )
    &&& terminal_ok(evs[2 * i + 1], inputs, opts, i)
}

/// The output paths carried by the "done" events of an event log, in order.
pub open spec fn done_outputs(evs: Seq<ProgressModel>) -> Seq<Seq<char>>
    decreases evs.len(),
{
    if evs.len() == 0 {
        Seq::empty()
    } else {
        done_outputs(evs.drop_last()) + (if evs.last().status == Status::Done {
            match evs.last().output_path {
                Some(o) => seq![o],
                None => Seq::empty(),
            }
        } else {
            Seq::empty()
        })
    }
}

proof fn lemma_done_outputs_push(evs: Seq<ProgressModel>, e: ProgressModel)
    ensures
        e.status == Status::Done && e.output_path is Some ==> done_outputs(evs.push(e))
            == done_outputs(evs).push(e.output_path->0),
        !(e.status == Status::Done && e.output_path is Some) ==> done_outputs(evs.push(e))
            == done_outputs(evs),
{
    assert(evs.push(e).drop_last() =~= evs);
    assert(evs.push(e).last() == e);
    if e.status == Status::Done && e.output_path is Some {
        assert(done_outputs(evs) + seq![e.output_path->0] =~= done_outputs(evs).push(
            e.output_path->0,
        ));
    } else {
        assert(done_outputs(evs) + Seq::<Seq<char>>::empty() =~= done_outputs(evs));
    }
}

/// What the orchestrator asks of the caller after opening work on one file.
pub enum FileStep {
    /// The file does not exist; it was skipped with an "error" event and
    /// the batch has moved on.
    Skipped,
    /// The output path could not be resolved; the whole remaining batch is
    /// aborted.
    Fatal(PathError),
    /// Run the external tool with exactly these arguments, then report the
    /// outcome through `finish_file`.
    Run { args: Vec<String>, output_path: String },
}

/// One batch conversion in progress.
pub struct Batch {
    inputs: Vec<String>,
    options: ConversionOptions,
    cur: usize,
    pending: bool,
    pending_output: Option<String>,
    pending_input_size: Option<u64>,
    aborted: bool,
    results: Vec<String>,
    events: Vec<ConversionProgress>,
}

impl Batch {
    /// The input paths of the batch, in order.
    pub closed spec fn inputs_model(&self) -> Seq<Seq<char>> {
        self.inputs@.map_values(|s: String| s@)
    }

    /// The options shared by every file of the batch.
    pub closed spec fn options_spec(&self) -> ConversionOptions {
        self.options
    }

    /// The batch size.
    pub open spec fn total_spec(&self) -> int {
        self.inputs_model().len() as int
    }

    /// How many files have been fully processed.
    pub closed spec fn cur_spec(&self) -> int {
        self.cur as int
    }

    /// Whether a file has been opened and awaits the tool's outcome.
    pub closed spec fn pending_spec(&self) -> bool {
        self.pending
    }

    /// Whether a path-resolution failure aborted the remaining batch.
    pub closed spec fn aborted_spec(&self) -> bool {
        self.aborted
    }

    /// The output paths of the files that succeeded so far, in order.
    pub closed spec fn results_model(&self) -> Seq<Seq<char>> {
        self.results@.map_values(|s: String| s@)
    }

    /// Every event emitted so far, in emission order.
    pub closed spec fn events_model(&self) -> Seq<ProgressModel> {
        self.events@.map_values(|e: ConversionProgress| e@)
    }

    /// Whether every file of the batch has been processed.
    pub open spec fn complete(&self) -> bool {
        &&& self.cur_spec() == self.total_spec()
        &&& !self.pending_spec()
        &&& !self.aborted_spec()
    }

    /// The batch's internal invariant: events come in a "converting" /
    /// terminal pair per processed file, an opened file has its
    /// "converting" event last, and the result list is exactly the output
    /// paths of the "done" events.
    pub closed spec fn wf(&self) -> bool {
        let n = self.inputs@.len() as int;
        let evs = self.events_model();
        &&& self.cur <= self.inputs@.len()
        &&& !(self.pending && self.aborted)
        &&& ((self.pending || self.aborted) ==> self.cur < self.inputs@.len())
        &&& evs.len() == 2 * self.cur_spec() + (if self.pending || self.aborted {
            1int
        } else {
            0int
        })
        &&& forall|i: int|
            0 <= i < self.cur_spec() ==> #[trigger] pair_ok(
                evs,
                self.inputs_model(),
                self.options,
                i,
            )
        &&& ((self.pending || self.aborted) ==> evs[2 * self.cur_spec()]
            == spec_converting_event(
            self.inputs_model()[self.cur_spec()],
            self.cur_spec(),
            n,
            evs[2 * self.cur_spec()].input_size,
        ))
        &&& (self.pending ==> {
            &&& spec_resolve(self.inputs_model()[self.cur_spec()], self.options.format) matches Ok(
                v,
            )
            &&& self.pending_output matches Some(s) && s@ == spec_resolve(
                self.inputs_model()[self.cur_spec()],
                self.options.format,
            )->Ok_0.0
            &&& self.pending_input_size == evs[2 * self.cur_spec()].input_size
        })
        &&& self.results_model() == done_outputs(evs)
    }

    /// Starts a batch over `inputs` under `options`.  No event has been
    /// emitted yet and no file processed.
    pub fn new(inputs: Vec<String>, options: ConversionOptions) -> (b: Batch)
        ensures
            b.wf(),
            b.inputs_model() == inputs@.map_values(|s: String| s@),
            b.options_spec() == options,
            b.cur_spec() == 0,
            !b.pending_spec(),
            !b.aborted_spec(),
            b.events_model() == Seq::<ProgressModel>::empty(),
            b.results_model() == Seq::<Seq<char>>::empty(),
    {
        let b = Batch {
            inputs,
            options,
            cur: 0,
            pending: false,
            pending_output: None,
            pending_input_size: None,
            aborted: false,
            results: Vec::new(),
            events: Vec::new(),
        };
        proof {
            assert(b.events_model() =~= Seq::<ProgressModel>::empty());
            assert(b.results_model() =~= Seq::<Seq<char>>::empty());
        }
        b
    }

    /// The batch size.
    pub fn total(&self) -> (r: usize)
        ensures
            r as int == self.total_spec(),
    {
        self.inputs.len()
    }

    /// The zero-based index of the file `begin_file` will open next (or,
    /// while one is pending or after an abort, of the file last opened).
    pub fn current_index(&self) -> (r: usize)
        ensures
            r as int == self.cur_spec(),
    {
        self.cur
    }

    /// Whether every file of the batch has been processed.
    pub fn is_complete(&self) -> (r: bool)
        ensures
            r == self.complete(),
    {
        self.cur == self.inputs.len() && !self.pending && !self.aborted
    }

    /// Whether a path-resolution failure aborted the remaining batch.
    pub fn is_aborted(&self) -> (r: bool)
        ensures
            r == self.aborted_spec(),
    {
        self.aborted
    }

    /// Whether an opened file awaits its tool outcome.
    pub fn has_pending(&self) -> (r: bool)
        ensures
            r == self.pending_spec(),
    {
        self.pending
    }

    /// The input path of the file at the batch's current position.
    pub fn next_input(&self) -> (r: &String)
        requires
            self.wf(),
            self.cur_spec() < self.total_spec(),
        ensures
            r@ == self.inputs_model()[self.cur_spec()],
    {
        &self.inputs[self.cur]
    }

    /// The output paths of the files that succeeded so far, in order.
    pub fn results(&self) -> (r: &Vec<String>)
        ensures
            r@.map_values(|s: String| s@) == self.results_model(),
    {
        &self.results
    }

    /// Consumes the batch and hands out the collected output paths.
    pub fn into_results(self) -> (r: Vec<String>)
        ensures
            r@.map_values(|s: String| s@) == self.results_model(),
    {
        self.results
    }

    /// Every event emitted so far, in emission order.
    pub fn events(&self) -> (r: &Vec<ConversionProgress>)
        ensures
            r@.map_values(|e: ConversionProgress| e@) == self.events_model(),
    {
        &self.events
    }

    /// Opens work on the batch's next file and emits its "converting"
    /// event.  A file that does not exist is skipped with a
    /// "File not found" error event and the batch moves on; a
    /// path-resolution failure aborts the whole remaining batch; otherwise
    /// the caller receives the resolved output path and the exact tool
    /// arguments, and must report the tool's outcome through `finish_file`.
    pub fn begin_file(&mut self, exists: bool, input_size: Option<u64>) -> (step: FileStep)
        requires
            old(self).wf(),
            !old(self).pending_spec(),
            !old(self).aborted_spec(),
            old(self).cur_spec() < old(self).total_spec(),
        ensures
            final(self).wf(),
            final(self).inputs_model() == old(self).inputs_model(),
            final(self).options_spec() == old(self).options_spec(),
            ({
                let i = old(self).cur_spec();
                let path = old(self).inputs_model()[i];
                let n = old(self).total_spec();
                let conv = spec_converting_event(path, i, n, input_size);
                match step {
                    FileStep::Skipped => {
                        &&& !exists
                        &&& final(self).events_model() == old(self).events_model().push(conv).push(
                            spec_not_found_event(path, i, n, input_size),
                        )
                        &&& final(self).cur_spec() == i + 1
                        &&& !final(self).pending_spec()
                        &&& !final(self).aborted_spec()
                        &&& final(self).results_model() == old(self).results_model()
                    },
                    FileStep::Fatal(e) => {
                        &&& exists
                        &&& spec_resolve(path, old(self).options_spec().format) == Err::<
                            (Seq<char>, bool),
                            PathError,
                        >(e)
                        &&& final(self).events_model() == old(self).events_model().push(conv)
                        &&& final(self).cur_spec() == i
                        &&& !final(self).pending_spec()
                        &&& final(self).aborted_spec()
                        &&& final(self).results_model() == old(self).results_model()
                    },
                    FileStep::Run { args, output_path } => {
                        &&& exists
                        &&& (spec_resolve(path, old(self).options_spec().format) matches Ok(v)
                            && v.0 == output_path@)
                        &&& args_view(args@) == spec_build_args(
                            path,
                            output_path@,
                            old(self).options_spec(),
                        )
                        &&& final(self).events_model() == old(self).events_model().push(conv)
                        &&& final(self).cur_spec() == i
                        &&& final(self).pending_spec()
                        &&& !final(self).aborted_spec()
                        &&& final(self).results_model() == old(self).results_model()
                    },
                }
            }),
    {
        let i = self.cur;
        let path = self.inputs[i].clone();
        let total = self.inputs.len();
        let ghost old_evs = self.events_model();
        let ghost inputs = self.inputs_model();
        let ghost opts = self.options;
        let ghost conv_m = spec_converting_event(inputs[i as int], i as int, total as int, input_size);
        let conv = ConversionProgress {
            file_path: path.clone(),
            status: Status::Converting,
            output_path: None,
            error: None,
            index: i,
            total,
            input_size,
            output_size: None,
        };
        self.events.push(conv);
        proof {
            assert(self.events_model() =~= old_evs.push(conv_m));
        }
        if !exists {
            let msg = String::from_str("File not found: ").concat(path.as_str());
            let err_ev = ConversionProgress {
                file_path: path,
                status: Status::Error,
                output_path: None,
                error: Some(msg),
                index: i,
                total,
                input_size,
                output_size: None,
            };
            let ghost err_m = spec_not_found_event(inputs[i as int], i as int, total as int, input_size);
            self.events.push(err_ev);
            self.cur = i + 1;
            proof {
                let evs = self.events_model();
                assert(evs =~= old_evs.push(conv_m).push(err_m));
                lemma_done_outputs_push(old_evs, conv_m);
                lemma_done_outputs_push(old_evs.push(conv_m), err_m);
                assert forall|j: int| 0 <= j < self.cur_spec() implies #[trigger] pair_ok(
                    evs,
                    inputs,
                    opts,
                    j,
                ) by {
                    if j < i as int {
                        assert(pair_ok(old_evs, inputs, opts, j));
                        assert(evs[2 * j] == old_evs[2 * j]);
                        assert(evs[2 * j + 1] == old_evs[2 * j + 1]);
                    } else {
                        assert(evs[2 * j] == conv_m);
                        assert(evs[2 * j + 1] == err_m);
                    }
                }
            }
            return FileStep::Skipped;
        }
        match resolve_output(path.as_str(), self.options.format) {
            Err(e) => {
                self.aborted = true;
                proof {
                    let evs = self.events_model();
                    lemma_done_outputs_push(old_evs, conv_m);
                    assert forall|j: int| 0 <= j < self.cur_spec() implies #[trigger] pair_ok(
                        evs,
                        inputs,
                        opts,
                        j,
                    ) by {
                        assert(pair_ok(old_evs, inputs, opts, j));
                        assert(evs[2 * j] == old_evs[2 * j]);
                        assert(evs[2 * j + 1] == old_evs[2 * j + 1]);
                    }
                }
                FileStep::Fatal(e)
            },
            Ok((out, _collided)) => {
                let args = build_args(path.as_str(), out.as_str(), &self.options);
                self.pending = true;
                self.pending_output = Some(out.clone());
                self.pending_input_size = input_size;
                proof {
                    let evs = self.events_model();
                    lemma_done_outputs_push(old_evs, conv_m);
                    assert forall|j: int| 0 <= j < self.cur_spec() implies #[trigger] pair_ok(
                        evs,
                        inputs,
                        opts,
                        j,
                    ) by {
                        assert(pair_ok(old_evs, inputs, opts, j));
                        assert(evs[2 * j] == old_evs[2 * j]);
                        assert(evs[2 * j + 1] == old_evs[2 * j + 1]);
                    }
                }
                FileStep::Run { args, output_path: out }
            },
        }
    }

    /// Records the tool's outcome for the opened file.  A zero exit emits
    /// the "done" event carrying the resolved output path and appends that
    /// path to the result list; anything else emits an "error" event
    /// surfacing the captured standard-error text verbatim and leaves the
    /// result list alone.  Either way the batch moves on to the next file:
    /// one file's failure never aborts the batch.
    pub fn finish_file(&mut self, exit_ok: bool, stderr: String, output_size: Option<u64>)
        requires
            old(self).wf(),
            old(self).pending_spec(),
        ensures
            final(self).wf(),
            final(self).inputs_model() == old(self).inputs_model(),
            final(self).options_spec() == old(self).options_spec(),
            final(self).cur_spec() == old(self).cur_spec() + 1,
            !final(self).pending_spec(),
            !final(self).aborted_spec(),
            ({
                let i = old(self).cur_spec();
                let path = old(self).inputs_model()[i];
                let n = old(self).total_spec();
                let isz = old(self).events_model().last().input_size;
                if exit_ok {
                    let outp = spec_resolve(path, old(self).options_spec().format)->Ok_0.0;
                    &&& final(self).events_model() == old(self).events_model().push(
                        spec_done_event(path, i, n, outp, isz, output_size),
                    )
                    &&& final(self).results_model() == old(self).results_model().push(outp)
                } else {
                    &&& final(self).events_model() == old(self).events_model().push(
                        spec_tool_error_event(path, i, n, stderr@, isz),
                    )
                    &&& final(self).results_model() == old(self).results_model()
                }
            }),
    {
        let i = self.cur;
        let path = self.inputs[i].clone();
        let total = self.inputs.len();
        let input_size = self.pending_input_size;
        let ghost old_evs = self.events_model();
        let ghost old_res = self.results_model();
        let ghost inputs = self.inputs_model();
        let ghost opts = self.options;
        let out = match &self.pending_output {
            Some(s) => s.clone(),
            None => vstd::pervasive::unreached(),
        };
        proof {
            assert(old_evs.last() == old_evs[2 * (i as int)]);
        }
        if exit_ok {
            let ev = ConversionProgress {
                file_path: path,
                status: Status::Done,
                output_path: Some(out.clone()),
                error: None,
                index: i,
                total,
                input_size,
                output_size,
            };
            let ghost ev_m = spec_done_event(
                inputs[i as int],
                i as int,
                total as int,
                out@,
                input_size,
                output_size,
            );
            self.events.push(ev);
            self.results.push(out);
            self.cur = i + 1;
            self.pending = false;
            self.pending_output = None;
            proof {
                let evs = self.events_model();
                assert(evs =~= old_evs.push(ev_m));
                assert(self.results_model() =~= old_res.push(out@));
                lemma_done_outputs_push(old_evs, ev_m);
                assert forall|j: int| 0 <= j < self.cur_spec() implies #[trigger] pair_ok(
                    evs,
                    inputs,
                    opts,
                    j,
                ) by {
                    if j < i as int {
                        assert(pair_ok(old_evs, inputs, opts, j));
                        assert(evs[2 * j] == old_evs[2 * j]);
                        assert(evs[2 * j + 1] == old_evs[2 * j + 1]);
                    } else {
                        assert(evs[2 * j] == old_evs[2 * j]);
                        assert(evs[2 * j + 1] == ev_m);
                    }
                }
            }
        } else {
            let ev = ConversionProgress {
                file_path: path,
                status: Status::Error,
                output_path: None,
                error: Some(stderr),
                index: i,
                total,
                input_size,
                output_size: None,
            };
            let ghost ev_m = spec_tool_error_event(
                inputs[i as int],
                i as int,
                total as int,
                stderr@,
                input_size,
            );
            self.events.push(ev);
            self.cur = i + 1;
            self.pending = false;
            self.pending_output = None;
            proof {
                let evs = self.events_model();
                assert(evs =~= old_evs.push(ev_m));
                lemma_done_outputs_push(old_evs, ev_m);
                assert forall|j: int| 0 <= j < self.cur_spec() implies #[trigger] pair_ok(
                    evs,
                    inputs,
                    opts,
                    j,
                ) by {
                    if j < i as int {
                        assert(pair_ok(old_evs, inputs, opts, j));
                        assert(evs[2 * j] == old_evs[2 * j]);
                        assert(evs[2 * j + 1] == old_evs[2 * j + 1]);
                    } else {
                        assert(evs[2 * j] == old_evs[2 * j]);
                        assert(evs[2 * j + 1] == ev_m);
                    }
                }
            }
        }
    }
}

/// The subsequence of "converting" events of an event log, in order.
pub open spec fn converting_events(evs: Seq<ProgressModel>) -> Seq<ProgressModel>
    decreases evs.len(),
{
    if evs.len() == 0 {
        Seq::empty()
    } else {
        converting_events(evs.drop_last()) + (if evs.last().status == Status::Converting {
            seq![evs.last()]
        } else {
            Seq::empty()
        })
    }
}

proof fn lemma_converting_pairs(
    evs: Seq<ProgressModel>,
    inputs: Seq<Seq<char>>,
    opts: ConversionOptions,
    m: int,
)
    requires
        0 <= m,
        2 * m <= evs.len(),
        forall|i: int| 0 <= i < m ==> #[trigger] pair_ok(evs, inputs, opts, i),
    ensures
        ({
            let cs = converting_events(evs.take(2 * m));
            &&& cs.len() == m
            &&& forall|k: int| 0 <= k < m ==> #[trigger] cs[k] == evs[2 * k]
        }),
    decreases m,
{
    if m == 0 {
        assert(evs.take(0) =~= Seq::<ProgressModel>::empty());
    } else {
        lemma_converting_pairs(evs, inputs, opts, m - 1);
        let t2 = evs.take(2 * m);
        let t1 = evs.take(2 * m - 1);
        let t0 = evs.take(2 * m - 2);
        assert(pair_ok(evs, inputs, opts, m - 1));
        assert(t2.drop_last() =~= t1);
        assert(t1.drop_last() =~= t0);
        assert(t2.last() == evs[2 * m - 1]);
        assert(t1.last() == evs[2 * m - 2]);
        assert(evs[2 * (m - 1)].status == Status::Converting);
        assert(evs[2 * (m - 1) + 1].status != Status::Converting);
        assert(converting_events(t2) =~= converting_events(t1));
        assert(converting_events(t1) =~= converting_events(t0).push(evs[2 * (m - 1)]));
        let cs = converting_events(t2);
        let cs0 = converting_events(t0);
        assert forall|k: int| 0 <= k < m implies #[trigger] cs[k] == evs[2 * k] by {
            if k < m - 1 {
                assert(cs0[k] == evs[2 * k]);
            }
        }
    }
}

/// Law: a batch that ran to completion emitted exactly one "converting"
/// event per input file, in strictly increasing index order `0 .. total`,
/// each carrying the file's path and the batch size fixed at call start.
pub proof fn lemma_converting_events(b: &Batch)
    requires
        b.wf(),
        b.complete(),
    ensures
        ({
            let cs = converting_events(b.events_model());
            &&& cs.len() == b.total_spec()
            &&& forall|k: int|
                0 <= k < cs.len() ==> {
                    let e = #[trigger] cs[k];
                    &&& e.status == Status::Converting
                    &&& e.index == k
                    &&& e.total == b.total_spec()
                    &&& e.file_path == b.inputs_model()[k]
                }
        }),
{
    let evs = b.events_model();
    let inputs = b.inputs_model();
    let opts = b.options_spec();
    let n = b.total_spec();
    lemma_converting_pairs(evs, inputs, opts, n);
    assert(evs.take(2 * n) =~= evs);
    let cs = converting_events(evs);
    assert forall|k: int|
        0 <= k < cs.len() implies {
        let e = #[trigger] cs[k];
        &&& e.status == Status::Converting
        &&& e.index == k
        &&& e.total == n
        &&& e.file_path == inputs[k]
    } by {
        assert(pair_ok(evs, inputs, opts, k));
        assert(cs[k] == evs[2 * k]);
    }
}

/// Law: in a completed batch each input file has exactly one terminal
/// ("done"/"error") event, standing right after the file's "converting"
/// event; a "done" terminal carries exactly the path resolver's output for
/// the file's input path and the batch's format.
pub proof fn lemma_terminal_events(b: &Batch, i: int)
    requires
        b.wf(),
        b.complete(),
        0 <= i < b.total_spec(),
    ensures
        ({
            let evs = b.events_model();
            &&& is_terminal(evs[2 * i + 1])
            &&& terminal_ok(evs[2 * i + 1], b.inputs_model(), b.options_spec(), i)
            &&& (evs[2 * i + 1].status == Status::Done ==> (spec_resolve(
                b.inputs_model()[i],
                b.options_spec().format,
            ) matches Ok(v) && evs[2 * i + 1].output_path == Some(v.0)))
            &&& forall|j: int|
                0 <= j < evs.len() && is_terminal(#[trigger] evs[j]) && evs[j].index == i ==> j == 2
                    * i + 1
        }),
{
    let evs = b.events_model();
    let inputs = b.inputs_model();
    let opts = b.options_spec();
    assert(pair_ok(evs, inputs, opts, i));
    assert forall|j: int|
        0 <= j < evs.len() && is_terminal(#[trigger] evs[j]) && evs[j].index == i implies j == 2 * i
        + 1 by {
        let k = j / 2;
        assert(j == 2 * k || j == 2 * k + 1);
        assert(0 <= k < b.cur_spec());
        assert(pair_ok(evs, inputs, opts, k));
        if j == 2 * k {
            assert(evs[j].status == Status::Converting);
        } else {
            assert(evs[j].index == k);
        }
    }
}

/// Law: at every point of a batch, every emitted event carries the batch
/// size as `total` and an `index` below it, and the `k`-th emitted event is
/// about file `k / 2`, so indices appear in input order.
pub proof fn lemma_event_indices(b: &Batch)
    requires
        b.wf(),
    ensures
        forall|j: int|
            0 <= j < b.events_model().len() ==> {
                let e = #[trigger] b.events_model()[j];
                &&& e.total == b.total_spec()
                &&& 0 <= e.index < b.total_spec()
                &&& e.index == j / 2
            },
{
    let evs = b.events_model();
    let inputs = b.inputs_model();
    let opts = b.options_spec();
    assert forall|j: int| 0 <= j < evs.len() implies {
        let e = #[trigger] evs[j];
        &&& e.total == b.total_spec()
        &&& 0 <= e.index < b.total_spec()
        &&& e.index == j / 2
    } by {
        let k = j / 2;
        assert(j == 2 * k || j == 2 * k + 1);
        if j == 2 * b.cur_spec() {
            assert(evs[j].index == b.cur_spec());
        } else {
            assert(0 <= k < b.cur_spec());
            assert(pair_ok(evs, inputs, opts, k));
        }
    }
}

/// Law: the result list is exactly the output paths of the "done" events,
/// in emission order; a file whose terminal event is an "error" (missing
/// input, or a failing tool) contributes no entry to it.
pub proof fn lemma_results_are_done_outputs(b: &Batch)
    requires
        b.wf(),
    ensures
        b.results_model() == done_outputs(b.events_model()),
{
}

} // verus!
