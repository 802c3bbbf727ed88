//! The messages of a whole scan, as a mathematical value, and what holds of
//! them.
//!
//! Workers emit concurrently, so the order in which the messages of one pass
//! reach the channel is not fixed. The trace defined here lists them slice by
//! slice; what is proved of it by counting holds of every other order too,
//! since a count does not depend on the order.

use crate::logger::traits::LogLevel;
use crate::worker::messages::{ChangeView, MessageView, ProgressView};
use crate::worker::probe::{
    advance_current, advance_total, candidate_text, hit_text, is_discovery, outcome_messages,
    probe_messages, record_text, OutcomeView,
};
use crate::worker::slices::{lemma_slice_bounds, slice_end, slice_start};
use crate::worker::target::{url_parse, TargetUrlView};
use crate::worker::unit::{
    admissible, collected_messages, collected_urls, finish_current, finish_total,
    set_current_size, set_total_size, RunView, SliceView,
};
use vstd::multiset::*;
use vstd::prelude::*;
use vstd::seq_lib::*;

verus! {

/// How often `message` occurs in `trace`.
pub open spec fn occurrences(trace: Seq<MessageView>, message: MessageView) -> nat
    decreases trace.len(),
{
    if trace.len() == 0 {
        0
    } else {
        occurrences(trace.drop_last(), message) + if trace.last() == message {
            1nat
        } else {
            0nat
        }
    }
}

/// Whether `message` is an `INFO` log record.
pub open spec fn is_info(message: MessageView) -> bool {
    message matches MessageView::Log(level, _) && level == LogLevel::INFO
}

/// How many `INFO` log records `trace` holds.
pub open spec fn info_count(trace: Seq<MessageView>) -> nat
    decreases trace.len(),
{
    if trace.len() == 0 {
        0
    } else {
        info_count(trace.drop_last()) + if is_info(trace.last()) {
            1nat
        } else {
            0nat
        }
    }
}

/// Occurrences add up over concatenation.
pub proof fn lemma_occurrences_concat(a: Seq<MessageView>, b: Seq<MessageView>, message: MessageView)
    ensures
        occurrences(a + b, message) == occurrences(a, message) + occurrences(b, message),
    decreases b.len(),
{
    if b.len() == 0 {
        assert(a + b =~= a);
    } else {
        lemma_occurrences_concat(a, b.drop_last(), message);
        assert((a + b).drop_last() =~= a + b.drop_last());
        assert((a + b).last() == b.last());
    }
}

/// `INFO` records add up over concatenation.
pub proof fn lemma_info_count_concat(a: Seq<MessageView>, b: Seq<MessageView>)
    ensures
        info_count(a + b) == info_count(a) + info_count(b),
    decreases b.len(),
{
    if b.len() == 0 {
        assert(a + b =~= a);
    } else {
        lemma_info_count_concat(a, b.drop_last());
        assert((a + b).drop_last() =~= a + b.drop_last());
        assert((a + b).last() == b.last());
    }
}

/// A count does not depend on the order of the messages: it is the
/// multiplicity in the multiset of the trace. Two traces that hold the same
/// messages, in whatever interleaving, agree on every count.
pub proof fn lemma_occurrences_any_order(trace: Seq<MessageView>, message: MessageView)
    ensures
        occurrences(trace, message) == trace.to_multiset().count(message),
    decreases trace.len(),
{
    broadcast use group_multiset_axioms;

    if trace.len() == 0 {
        trace.to_multiset_ensures();
        assert(!trace.contains(message));
    } else {
        let front = trace.drop_last();
        lemma_occurrences_any_order(front, message);
        to_multiset_build(front, trace.last());
        assert(front.push(trace.last()) =~= trace);
    }
}

/// Every probe advances each stream exactly once, whatever its outcome.
pub proof fn lemma_probe_advances_once(candidate: Seq<char>, outcome: OutcomeView)
    ensures
        occurrences(probe_messages(candidate, outcome), advance_current()) == 1,
        occurrences(probe_messages(candidate, outcome), advance_total()) == 1,
        probe_messages(candidate, outcome).len() >= 2,
        probe_messages(candidate, outcome)[probe_messages(candidate, outcome).len() - 2]
            == advance_current(),
        probe_messages(candidate, outcome).last() == advance_total(),
{
    let head = outcome_messages(candidate, outcome);
    let tail = seq![advance_current(), advance_total()];
    lemma_occurrences_concat(head, tail, advance_current());
    lemma_occurrences_concat(head, tail, advance_total());
    reveal_with_fuel(occurrences, 4);
    assert(tail.drop_last() =~= seq![advance_current()]);
    assert(tail.drop_last().drop_last() =~= Seq::<MessageView>::empty());
    assert(head.len() >= 1);
    assert(head.drop_last().len() <= 1);
    if head.len() == 2 {
        assert(head.drop_last().drop_last().len() == 0);
    }
}

/// A discovery is printed once on the current stream and logged once at
/// `INFO`, with the candidate and its status; a probe that discovers nothing
/// logs no `INFO` record at all.
pub proof fn lemma_probe_discovery_reported(candidate: Seq<char>, outcome: OutcomeView)
    ensures
        is_discovery(outcome) ==> {
            let status = outcome->Status_0;
            &&& occurrences(
                probe_messages(candidate, outcome),
                MessageView::Log(LogLevel::INFO, record_text(candidate, status)),
            ) == 1
            &&& occurrences(
                probe_messages(candidate, outcome),
                MessageView::Progress(
                    ProgressView::Current(ChangeView::Print(hit_text(candidate, status))),
                ),
            ) == 1
        },
        info_count(probe_messages(candidate, outcome)) == if is_discovery(outcome) {
            1nat
        } else {
            0nat
        },
{
    let trace = probe_messages(candidate, outcome);
    reveal_with_fuel(occurrences, 5);
    reveal_with_fuel(info_count, 5);
    let t1 = trace.drop_last();
    let t2 = t1.drop_last();
    let t3 = t2.drop_last();
    assert(trace.last() == advance_total());
    assert(t1.last() == advance_current());
    if is_discovery(outcome) {
        assert(trace.len() == 4);
        assert(t3.drop_last().len() == 0);
    } else {
        assert(trace.len() == 3);
        assert(t3.len() == 0);
    }
}

/// The messages of the probes of `words`, word by word; `outcomes` holds the
/// outcome of each probe.
pub open spec fn pass_messages(
    base: Seq<char>,
    words: Seq<Seq<char>>,
    outcomes: Seq<OutcomeView>,
) -> Seq<MessageView>
    recommends
        words.len() == outcomes.len(),
    decreases words.len(),
{
    if words.len() == 0 || outcomes.len() == 0 {
        Seq::empty()
    } else {
        pass_messages(base, words.drop_last(), outcomes.drop_last()) + probe_messages(
            candidate_text(base, words.last()),
            outcomes.last(),
        )
    }
}

/// What one probe adds to the discoveries of a pass.
pub open spec fn probe_discovery(candidate: Seq<char>, outcome: OutcomeView) -> Seq<TargetUrlView> {
    if is_discovery(outcome) && url_parse(candidate) is Some {
        seq![url_parse(candidate)->0]
    } else {
        Seq::empty()
    }
}

/// The URLs discovered by the probes of `words`, word by word.
pub open spec fn pass_discoveries(
    base: Seq<char>,
    words: Seq<Seq<char>>,
    outcomes: Seq<OutcomeView>,
) -> Seq<TargetUrlView>
    recommends
        words.len() == outcomes.len(),
    decreases words.len(),
{
    if words.len() == 0 || outcomes.len() == 0 {
        Seq::empty()
    } else {
        pass_discoveries(base, words.drop_last(), outcomes.drop_last()) + probe_discovery(
            candidate_text(base, words.last()),
            outcomes.last(),
        )
    }
}

/// How many of the outcomes are discoveries.
pub open spec fn discovery_count(outcomes: Seq<OutcomeView>) -> nat
    decreases outcomes.len(),
{
    if outcomes.len() == 0 {
        0
    } else {
        discovery_count(outcomes.drop_last()) + if is_discovery(outcomes.last()) {
            1nat
        } else {
            0nat
        }
    }
}

/// The messages of two runs of probes, one after the other, are those of the
/// probes of both lists together.
pub proof fn lemma_pass_messages_concat(
    base: Seq<char>,
    w1: Seq<Seq<char>>,
    o1: Seq<OutcomeView>,
    w2: Seq<Seq<char>>,
    o2: Seq<OutcomeView>,
)
    requires
        w1.len() == o1.len(),
        w2.len() == o2.len(),
    ensures
        pass_messages(base, w1 + w2, o1 + o2) =~= pass_messages(base, w1, o1) + pass_messages(
            base,
            w2,
            o2,
        ),
    decreases w2.len(),
{
    if w2.len() == 0 {
        assert(w1 + w2 =~= w1);
        assert(o1 + o2 =~= o1);
    } else {
        lemma_pass_messages_concat(base, w1, o1, w2.drop_last(), o2.drop_last());
        assert((w1 + w2).drop_last() =~= w1 + w2.drop_last());
        assert((o1 + o2).drop_last() =~= o1 + o2.drop_last());
        assert((w1 + w2).last() == w2.last());
        assert((o1 + o2).last() == o2.last());
    }
}

/// A pass advances each stream once for every word, and logs one `INFO`
/// record for every discovery.
pub proof fn lemma_pass_counts(base: Seq<char>, words: Seq<Seq<char>>, outcomes: Seq<OutcomeView>)
    requires
        words.len() == outcomes.len(),
    ensures
        occurrences(pass_messages(base, words, outcomes), advance_current()) == words.len(),
        occurrences(pass_messages(base, words, outcomes), advance_total()) == words.len(),
        info_count(pass_messages(base, words, outcomes)) == discovery_count(outcomes),
    decreases words.len(),
{
    if words.len() > 0 {
        let front = pass_messages(base, words.drop_last(), outcomes.drop_last());
        let last = probe_messages(candidate_text(base, words.last()), outcomes.last());
        lemma_pass_counts(base, words.drop_last(), outcomes.drop_last());
        lemma_probe_advances_once(candidate_text(base, words.last()), outcomes.last());
        lemma_probe_discovery_reported(candidate_text(base, words.last()), outcomes.last());
        lemma_occurrences_concat(front, last, advance_current());
        lemma_occurrences_concat(front, last, advance_total());
        lemma_info_count_concat(front, last);
    }
}

/// The messages of a pass as a pool of `threads` workers emits them, the
/// first `count` slices one after the other.
pub open spec fn pool_messages(
    base: Seq<char>,
    words: Seq<Seq<char>>,
    outcomes: Seq<OutcomeView>,
    threads: nat,
    count: nat,
) -> Seq<MessageView>
    decreases count,
{
    if count == 0 {
        Seq::empty()
    } else {
        let index = (count - 1) as nat;
        let start = slice_start(words.len(), threads, index) as int;
        let end = slice_end(words.len(), threads, index) as int;
        pool_messages(base, words, outcomes, threads, index) + pass_messages(
            base,
            words.subrange(start, end),
            outcomes.subrange(start, end),
        )
    }
}

/// Cutting the wordlist for a pool changes nothing in what a pass emits:
/// slice by slice, the pool emits the messages of the probes of the whole
/// list, whatever the size of the pool.
pub proof fn lemma_pool_is_pass(
    base: Seq<char>,
    words: Seq<Seq<char>>,
    outcomes: Seq<OutcomeView>,
    threads: nat,
)
    requires
        threads >= 1,
        words.len() == outcomes.len(),
    ensures
        pool_messages(base, words, outcomes, threads, threads) =~= pass_messages(
            base,
            words,
            outcomes,
        ),
{
    lemma_pool_prefix(base, words, outcomes, threads, threads);
    assert(words.subrange(0, words.len() as int) =~= words);
    assert(outcomes.subrange(0, words.len() as int) =~= outcomes);
}

proof fn lemma_pool_prefix(
    base: Seq<char>,
    words: Seq<Seq<char>>,
    outcomes: Seq<OutcomeView>,
    threads: nat,
    count: nat,
)
    requires
        threads >= 1,
        count <= threads,
        words.len() == outcomes.len(),
    ensures
        ({
            let end = if count == threads {
                words.len() as int
            } else {
                slice_start(words.len(), threads, count) as int
            };
            &&& 0 <= end <= words.len()
            &&& pool_messages(base, words, outcomes, threads, count) =~= pass_messages(
                base,
                words.subrange(0, end),
                outcomes.subrange(0, end),
            )
        }),
    decreases count,
{
    let len = words.len();
    if count == 0 {
        lemma_slice_bounds(len, threads, 0);
        assert(words.subrange(0, 0) =~= Seq::<Seq<char>>::empty());
    } else {
        let index = (count - 1) as nat;
        lemma_pool_prefix(base, words, outcomes, threads, index);
        lemma_slice_bounds(len, threads, index);
        if count < threads {
            lemma_slice_bounds(len, threads, count);
        }
        let start = slice_start(len, threads, index) as int;
        let end = slice_end(len, threads, index) as int;
        lemma_pass_messages_concat(
            base,
            words.subrange(0, start),
            outcomes.subrange(0, start),
            words.subrange(start, end),
            outcomes.subrange(start, end),
        );
        assert(words.subrange(0, start) + words.subrange(start, end) =~= words.subrange(0, end));
        assert(outcomes.subrange(0, start) + outcomes.subrange(start, end) =~= outcomes.subrange(
            0,
            end,
        ));
    }
}

/// The discoveries of two runs of probes, one after the other, are those of
/// the probes of both lists together.
pub proof fn lemma_pass_discoveries_concat(
    base: Seq<char>,
    w1: Seq<Seq<char>>,
    o1: Seq<OutcomeView>,
    w2: Seq<Seq<char>>,
    o2: Seq<OutcomeView>,
)
    requires
        w1.len() == o1.len(),
        w2.len() == o2.len(),
    ensures
        pass_discoveries(base, w1 + w2, o1 + o2) =~= pass_discoveries(base, w1, o1)
            + pass_discoveries(base, w2, o2),
    decreases w2.len(),
{
    if w2.len() == 0 {
        assert(w1 + w2 =~= w1);
        assert(o1 + o2 =~= o1);
    } else {
        lemma_pass_discoveries_concat(base, w1, o1, w2.drop_last(), o2.drop_last());
        assert((w1 + w2).drop_last() =~= w1 + w2.drop_last());
        assert((o1 + o2).drop_last() =~= o1 + o2.drop_last());
        assert((w1 + w2).last() == w2.last());
        assert((o1 + o2).last() == o2.last());
    }
}

/// How the workers of a pool end when each of them goes through its slice:
/// the outcomes of the first `count` workers, each with the discoveries of
/// its slice.
pub open spec fn pool_outcomes(
    base: Seq<char>,
    words: Seq<Seq<char>>,
    outcomes: Seq<OutcomeView>,
    threads: nat,
    count: nat,
) -> Seq<SliceView>
    decreases count,
{
    if count == 0 {
        Seq::empty()
    } else {
        let index = (count - 1) as nat;
        let start = slice_start(words.len(), threads, index) as int;
        let end = slice_end(words.len(), threads, index) as int;
        pool_outcomes(base, words, outcomes, threads, index).push(
            SliceView::Completed(
                pass_discoveries(base, words.subrange(start, end), outcomes.subrange(start, end)),
            ),
        )
    }
}

/// Cutting the wordlist for a pool changes nothing in what a pass
/// discovers: joined in slice order, the discoveries of the workers are those
/// of the probes of the whole list, in the order of the words, and the join
/// itself logs nothing.
pub proof fn lemma_pool_discovers_as_pass(
    base: Seq<char>,
    words: Seq<Seq<char>>,
    outcomes: Seq<OutcomeView>,
    threads: nat,
)
    requires
        threads >= 1,
        words.len() == outcomes.len(),
    ensures
        pool_outcomes(base, words, outcomes, threads, threads).len() == threads,
        collected_urls(pool_outcomes(base, words, outcomes, threads, threads)) =~= pass_discoveries(
            base,
            words,
            outcomes,
        ),
        collected_messages(pool_outcomes(base, words, outcomes, threads, threads))
            =~= Seq::<MessageView>::empty(),
{
    lemma_pool_outcomes_prefix(base, words, outcomes, threads, threads);
    assert(words.subrange(0, words.len() as int) =~= words);
    assert(outcomes.subrange(0, words.len() as int) =~= outcomes);
}

proof fn lemma_pool_outcomes_prefix(
    base: Seq<char>,
    words: Seq<Seq<char>>,
    outcomes: Seq<OutcomeView>,
    threads: nat,
    count: nat,
)
    requires
        threads >= 1,
        count <= threads,
        words.len() == outcomes.len(),
    ensures
        ({
            let end = if count == threads {
                words.len() as int
            } else {
                slice_start(words.len(), threads, count) as int
            };
            let pool = pool_outcomes(base, words, outcomes, threads, count);
            &&& 0 <= end <= words.len()
            &&& pool.len() == count
            &&& collected_urls(pool) =~= pass_discoveries(
                base,
                words.subrange(0, end),
                outcomes.subrange(0, end),
            )
            &&& collected_messages(pool) =~= Seq::<MessageView>::empty()
        }),
    decreases count,
{
    let len = words.len();
    if count == 0 {
        lemma_slice_bounds(len, threads, 0);
        assert(words.subrange(0, 0) =~= Seq::<Seq<char>>::empty());
    } else {
        let index = (count - 1) as nat;
        lemma_pool_outcomes_prefix(base, words, outcomes, threads, index);
        lemma_slice_bounds(len, threads, index);
        if count < threads {
            lemma_slice_bounds(len, threads, count);
        }
        let start = slice_start(len, threads, index) as int;
        let end = slice_end(len, threads, index) as int;
        let before = pool_outcomes(base, words, outcomes, threads, index);
        let pool = pool_outcomes(base, words, outcomes, threads, count);
        assert(pool.drop_last() =~= before);
        lemma_pass_discoveries_concat(
            base,
            words.subrange(0, start),
            outcomes.subrange(0, start),
            words.subrange(start, end),
            outcomes.subrange(start, end),
        );
        assert(words.subrange(0, start) + words.subrange(start, end) =~= words.subrange(0, end));
        assert(outcomes.subrange(0, start) + outcomes.subrange(start, end) =~= outcomes.subrange(
            0,
            end,
        ));
    }
}

/// The messages of a scan from the state `run` on: `passes` holds, for each
/// pass in turn, the outcomes of its probes. Each pass is announced by the
/// driver, emits the messages of its pool, and hands its discoveries back to
/// the driver. The trace ends where the driver ends the scan, or where the
/// outcomes run out.
pub open spec fn run_trace(
    run: RunView,
    words: Seq<Seq<char>>,
    threads: nat,
    passes: Seq<Seq<OutcomeView>>,
) -> Seq<MessageView>
    decreases passes.len(),
{
    let (after, step) = run.step();
    match step.subject {
        None => step.messages,
        Some(url) => if passes.len() == 0 {
            step.messages
        } else {
            step.messages + pool_messages(url.text, words, passes[0], threads, threads) + run_trace(
                after.record(pass_discoveries(url.text, words, passes[0])),
                words,
                threads,
                passes.drop_first(),
            )
        },
    }
}

/// The URLs that a scan takes as subjects, in the order of their passes.
pub open spec fn run_subjects(
    run: RunView,
    words: Seq<Seq<char>>,
    passes: Seq<Seq<OutcomeView>>,
) -> Seq<TargetUrlView>
    decreases passes.len(),
{
    let (after, step) = run.step();
    match step.subject {
        None => Seq::empty(),
        Some(url) => if passes.len() == 0 {
            Seq::empty()
        } else {
            seq![url] + run_subjects(
                after.record(pass_discoveries(url.text, words, passes[0])),
                words,
                passes.drop_first(),
            )
        },
    }
}

/// Whether `passes` holds the outcomes of a whole scan: one pass for every
/// URL that the driver takes as a subject, each with one outcome for every
/// word, and after the last of them the driver ends the scan.
pub open spec fn run_complete(
    run: RunView,
    words: Seq<Seq<char>>,
    passes: Seq<Seq<OutcomeView>>,
) -> bool
    decreases passes.len(),
{
    let (after, step) = run.step();
    match step.subject {
        None => passes.len() == 0,
        Some(url) => passes.len() > 0 && passes[0].len() == words.len() && run_complete(
            after.record(pass_discoveries(url.text, words, passes[0])),
            words,
            passes.drop_first(),
        ),
    }
}

/// What a decision of the driver looks like. A subject lies within the depth
/// limit and is announced by the size of the scan on both streams, the total
/// one first. Without a subject the driver either ends the scan, with one
/// finish on each stream, the current one first, or has ended it before and
/// stays silent. Depths and wordlist stay as they are.
pub proof fn lemma_step_shape(run: RunView)
    ensures
        ({
            let (after, step) = run.step();
            &&& after.base_depth == run.base_depth
            &&& after.recursion_depth == run.recursion_depth
            &&& after.lines_len == run.lines_len
            &&& after.progress_len == run.progress_len
            &&& match step.subject {
                Some(url) => {
                    &&& !run.finished
                    &&& !after.finished
                    &&& admissible(url, run.base_depth, run.recursion_depth)
                    &&& step.messages == seq![
                        set_total_size(run.progress_len),
                        set_current_size(run.progress_len),
                    ]
                },
                None => {
                    &&& after.finished
                    &&& after.frontier.len() == 0 || run.finished
                    &&& step.messages == if run.finished {
                        Seq::<MessageView>::empty()
                    } else {
                        seq![finish_current(), finish_total()]
                    }
                },
            }
        }),
    decreases run.frontier.len(),
{
    if !run.finished && run.frontier.len() > 0 {
        let url = run.frontier.last();
        if !admissible(url, run.base_depth, run.recursion_depth) {
            lemma_step_shape(RunView { frontier: run.frontier.drop_last(), ..run });
        }
    }
}

/// No URL that lies deeper than the limit below the base is ever scanned:
/// every subject of a scan has path segments, at most as many as the base has
/// and the limit allows on top.
pub proof fn lemma_subjects_within_depth(
    run: RunView,
    words: Seq<Seq<char>>,
    passes: Seq<Seq<OutcomeView>>,
)
    ensures
        forall|i: int|
            0 <= i < run_subjects(run, words, passes).len() ==> admissible(
                #[trigger] run_subjects(run, words, passes)[i],
                run.base_depth,
                run.recursion_depth,
            ),
    decreases passes.len(),
{
    let (after, step) = run.step();
    lemma_step_shape(run);
    if step.subject is Some && passes.len() > 0 {
        let url = step.subject->0;
        let next = after.record(pass_discoveries(url.text, words, passes[0]));
        lemma_subjects_within_depth(next, words, passes.drop_first());
        let rest = run_subjects(next, words, passes.drop_first());
        assert forall|i: int| 0 <= i < run_subjects(run, words, passes).len() implies admissible(
            #[trigger] run_subjects(run, words, passes)[i],
            run.base_depth,
            run.recursion_depth,
        ) by {
            if i > 0 {
                assert(run_subjects(run, words, passes)[i] == rest[i - 1]);
            }
        }
    }
}

/// In a whole scan of `passes.len()` subjects over `words.len()` words, by a
/// pool of whatever size, each stream is advanced once for every probe: the
/// advances on the current stream and those on the total stream both number
/// `words.len() * passes.len()`.
pub proof fn lemma_run_advances(
    run: RunView,
    words: Seq<Seq<char>>,
    threads: nat,
    passes: Seq<Seq<OutcomeView>>,
)
    requires
        threads >= 1,
        run_complete(run, words, passes),
    ensures
        occurrences(run_trace(run, words, threads, passes), advance_current()) == words.len()
            * passes.len(),
        occurrences(run_trace(run, words, threads, passes), advance_total()) == words.len()
            * passes.len(),
        run_subjects(run, words, passes).len() == passes.len(),
    decreases passes.len(),
{
    let (after, step) = run.step();
    lemma_step_shape(run);
    lemma_quiet(step.messages);
    if step.subject is Some {
        let url = step.subject->0;
        let pool = pool_messages(url.text, words, passes[0], threads, threads);
        let next = after.record(pass_discoveries(url.text, words, passes[0]));
        let rest = run_trace(next, words, threads, passes.drop_first());
        lemma_run_advances(next, words, threads, passes.drop_first());
        lemma_pool_is_pass(url.text, words, passes[0], threads);
        lemma_pass_counts(url.text, words, passes[0]);
        lemma_occurrences_concat(step.messages, pool, advance_current());
        lemma_occurrences_concat(step.messages + pool, rest, advance_current());
        lemma_occurrences_concat(step.messages, pool, advance_total());
        lemma_occurrences_concat(step.messages + pool, rest, advance_total());
        assert(words.len() + words.len() * (passes.len() - 1) == words.len() * passes.len())
            by (nonlinear_arith);
    } else {
        assert(words.len() * passes.len() == 0) by (nonlinear_arith)
            requires
                passes.len() == 0,
        ;
    }
}

/// The messages of the driver itself advance nothing and log nothing.
proof fn lemma_quiet(messages: Seq<MessageView>)
    requires
        messages == Seq::<MessageView>::empty() || messages == seq![
            finish_current(),
            finish_total(),
        ] || exists|size: nat|
            messages == seq![set_total_size(size), #[trigger] set_current_size(size)],
    ensures
        occurrences(messages, advance_current()) == 0,
        occurrences(messages, advance_total()) == 0,
        info_count(messages) == 0,
{
    reveal_with_fuel(occurrences, 3);
    reveal_with_fuel(info_count, 3);
    if messages.len() == 2 {
        assert(messages.drop_last().drop_last().len() == 0);
    }
}

/// How many discoveries the passes of a scan make, all together.
pub open spec fn run_discovery_count(passes: Seq<Seq<OutcomeView>>) -> nat
    decreases passes.len(),
{
    if passes.len() == 0 {
        0
    } else {
        discovery_count(passes[0]) + run_discovery_count(passes.drop_first())
    }
}

/// In a whole scan, by a pool of whatever size, the `INFO` records are as
/// many as the discoveries: each discovery is logged once, and nothing else
/// is logged at that level.
pub proof fn lemma_run_infos(
    run: RunView,
    words: Seq<Seq<char>>,
    threads: nat,
    passes: Seq<Seq<OutcomeView>>,
)
    requires
        threads >= 1,
        run_complete(run, words, passes),
    ensures
        info_count(run_trace(run, words, threads, passes)) == run_discovery_count(passes),
    decreases passes.len(),
{
    let (after, step) = run.step();
    lemma_step_shape(run);
    lemma_quiet(step.messages);
    if step.subject is Some {
        let url = step.subject->0;
        let pool = pool_messages(url.text, words, passes[0], threads, threads);
        let next = after.record(pass_discoveries(url.text, words, passes[0]));
        let rest = run_trace(next, words, threads, passes.drop_first());
        lemma_run_infos(next, words, threads, passes.drop_first());
        lemma_pool_is_pass(url.text, words, passes[0], threads);
        lemma_pass_counts(url.text, words, passes[0]);
        lemma_info_count_concat(step.messages, pool);
        lemma_info_count_concat(step.messages + pool, rest);
    }
}

/// A whole scan ends with one finish on each stream, the current one before
/// the total one, and these are its last two messages.
pub proof fn lemma_run_ends_with_finish(
    run: RunView,
    words: Seq<Seq<char>>,
    threads: nat,
    passes: Seq<Seq<OutcomeView>>,
)
    requires
        !run.finished,
        run_complete(run, words, passes),
    ensures
        ({
            let trace = run_trace(run, words, threads, passes);
            &&& trace.len() >= 2
            &&& trace[trace.len() - 2] == finish_current()
            &&& trace[trace.len() - 1] == finish_total()
        }),
    decreases passes.len(),
{
    let (after, step) = run.step();
    lemma_step_shape(run);
    if step.subject is Some {
        let url = step.subject->0;
        let next = after.record(pass_discoveries(url.text, words, passes[0]));
        lemma_run_ends_with_finish(next, words, threads, passes.drop_first());
    }
}

} // verus!
