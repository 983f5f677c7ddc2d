//! Trace semantics of the reconciliation machine, and the laws that hold
//! over every run: what a run of events produces in directives, how often
//! the backoff is reset or asked, and how each short interaction pattern
//! ends.

use vstd::prelude::*;

use crate::errors::ApiError;
use crate::errors::ApplyError;
use crate::errors::DiscoveryError;
use crate::reconcile::event_fits;
use crate::reconcile::spec_dispatch_call;
use crate::reconcile::spec_step;
use crate::reconcile::with_phase;
use crate::reconcile::Directive;
use crate::reconcile::Event;
use crate::reconcile::Phase;
use crate::reconcile::Reconciler;
use crate::reconcile::ResourceMapping;

verus! {

/// Runs the machine over a sequence of events: the machine it ends in and
/// the directives it issued, in order.
pub open spec fn run_steps(r: Reconciler, evs: Seq<Event>) -> (Reconciler, Seq<Directive>)
    decreases evs.len(),
{
    if evs.len() == 0 {
        (r, Seq::empty())
    } else {
        let (r1, d1) = spec_step(r, evs[0]);
        let (r2, rest) = run_steps(r1, evs.drop_first());
        (r2, seq![d1] + rest)
    }
}

/// Whether each event of the sequence fits the phase the machine is in
/// when it arrives. A driver produces exactly such traces.
pub open spec fn wf_trace(r: Reconciler, evs: Seq<Event>) -> bool
    decreases evs.len(),
{
    evs.len() == 0 || {
        &&& event_fits(r.phase, evs[0])
        &&& wf_trace(spec_step(r, evs[0]).0, evs.drop_first())
    }
}

/// How many directives of a run reset the backoff.
pub open spec fn count_resets(ds: Seq<Directive>) -> nat
    decreases ds.len(),
{
    if ds.len() == 0 {
        0
    } else {
        (if ds[0] is ResetAndSucceed {
            1nat
        } else {
            0nat
        }) + count_resets(ds.drop_first())
    }
}

/// How many directives of a run ask the backoff for a delay.
pub open spec fn count_asks(ds: Seq<Directive>) -> nat
    decreases ds.len(),
{
    if ds.len() == 0 {
        0
    } else {
        (if ds[0] is AskBackoff {
            1nat
        } else {
            0nat
        }) + count_asks(ds.drop_first())
    }
}

/// Whether every event of a trace reports success: a discovered mapping
/// or a completed call. A run with no induced failures sees only these.
pub open spec fn all_favorable(evs: Seq<Event>) -> bool {
    forall|i: int| 0 <= i < evs.len() ==> match #[trigger] evs[i] {
        Event::Discovered(outcome) => outcome is Ok,
        Event::Dispatched(outcome) => outcome is Ok,
        Event::BackoffAnswer(_) => false,
    }
}

/// The backoff is reset exactly once, at the moment the object converges,
/// and never otherwise: over any well-formed trace, the number of reset
/// directives is one when the run ends converged (and did not start so),
/// and zero in every other case.
pub proof fn lemma_reset_exactly_on_success(r: Reconciler, evs: Seq<Event>)
    requires
        wf_trace(r, evs),
    ensures
        count_resets(run_steps(r, evs).1) == if !(r.phase is Succeeded) && run_steps(
            r,
            evs,
        ).0.phase is Succeeded {
            1nat
        } else {
            0nat
        },
    decreases evs.len(),
{
    if evs.len() != 0 {
        let ev0 = evs[0];
        let (r1, d1) = spec_step(r, ev0);
        let evs1 = evs.drop_first();
        lemma_reset_exactly_on_success(r1, evs1);
        let (r2, rest) = run_steps(r1, evs1);
        let ds = run_steps(r, evs).1;
        assert(ds == seq![d1] + rest);
        assert(ds.drop_first() =~= rest);
        assert(ds[0] == d1);
        assert(count_resets(ds) == (if d1 is ResetAndSucceed {
            1nat
        } else {
            0nat
        }) + count_resets(rest));
        assert(wf_trace(r1, evs1));
        if r1.phase is Succeeded {
            if evs1.len() != 0 {
                assert(event_fits(r1.phase, evs1[0]));
                assert(false);
            }
            assert(r2 == r1);
            assert(d1 is ResetAndSucceed);
        } else {
            assert(!(d1 is ResetAndSucceed));
        }
    }
}

/// A well-formed trace with only favorable events never asks the backoff
/// for a delay.
pub proof fn lemma_no_failures_no_backoff(r: Reconciler, evs: Seq<Event>)
    requires
        wf_trace(r, evs),
        all_favorable(evs),
    ensures
        count_asks(run_steps(r, evs).1) == 0,
    decreases evs.len(),
{
    if evs.len() != 0 {
        let (r1, d1) = spec_step(r, evs[0]);
        assert(all_favorable(evs.drop_first())) by {
            assert(forall|i: int| 0 <= i < evs.drop_first().len() ==> evs.drop_first()[i]
                == evs[i + 1]);
        }
        lemma_no_failures_no_backoff(r1, evs.drop_first());
        let (r2, rest) = run_steps(r1, evs.drop_first());
        assert(run_steps(r, evs).1 == seq![d1] + rest);
        assert((seq![d1] + rest).drop_first() =~= rest);
    }
}

/// An object whose discovery and dispatch both succeed on the first
/// attempt converges: the run issues the call and then exactly one reset,
/// and never asks the backoff.
pub proof fn lemma_first_attempt_success(r: Reconciler, m: ResourceMapping)
    requires
        r.phase is Discovering,
    ensures
        ({
            let evs = seq![
                Event::Discovered(Ok(m)),
                Event::Dispatched(Ok(())),
            ];
            let (done, ds) = run_steps(r, evs);
            &&& wf_trace(r, evs)
            &&& done.phase is Succeeded
            &&& ds =~= seq![
                Directive::Call(spec_dispatch_call(r, m)),
                Directive::ResetAndSucceed,
            ]
            &&& count_resets(ds) == 1
            &&& count_asks(ds) == 0
        }),
{
    let evs = seq![Event::Discovered(Ok(m)), Event::Dispatched(Ok(()))];
    let (done, ds) = run_steps(r, evs);
    assert(evs.drop_first() =~= seq![Event::Dispatched(Ok(()))]);
    assert(evs.drop_first().drop_first() =~= Seq::<Event>::empty());
    reveal_with_fuel(run_steps, 3);
    reveal_with_fuel(wf_trace, 3);
    reveal_with_fuel(count_resets, 3);
    reveal_with_fuel(count_asks, 3);
    assert(ds =~= seq![
        Directive::Call(spec_dispatch_call(r, m)),
        Directive::ResetAndSucceed,
    ]);
    assert(ds.drop_first() =~= seq![Directive::ResetAndSucceed]);
    assert(ds.drop_first().drop_first() =~= Seq::<Directive>::empty());
}

/// Deleting an object whose kind is undiscoverable converges at once:
/// exactly one reset, no retry, no backoff delay asked.
pub proof fn lemma_delete_missing_kind(r: Reconciler)
    requires
        r.phase is Discovering,
        r.action is Delete,
    ensures
        ({
            let evs = seq![Event::Discovered(Err(DiscoveryError::KindNotFound))];
            let (done, ds) = run_steps(r, evs);
            &&& wf_trace(r, evs)
            &&& done.phase is Succeeded
            &&& ds =~= seq![Directive::ResetAndSucceed]
            &&& count_resets(ds) == 1
            &&& count_asks(ds) == 0
        }),
{
    let evs = seq![Event::Discovered(Err(DiscoveryError::KindNotFound))];
    let (done, ds) = run_steps(r, evs);
    assert(evs.drop_first() =~= Seq::<Event>::empty());
    reveal_with_fuel(run_steps, 2);
    reveal_with_fuel(wf_trace, 2);
    reveal_with_fuel(count_resets, 2);
    reveal_with_fuel(count_asks, 2);
    assert(ds =~= seq![Directive::ResetAndSucceed]);
    assert(ds.drop_first() =~= Seq::<Directive>::empty());
}

/// Deleting an object that the delete call reports as "not found"
/// converges: deletion is idempotent, with one reset and no delay asked.
pub proof fn lemma_delete_already_absent(r: Reconciler, m: ResourceMapping)
    requires
        r.phase is Discovering,
        r.action is Delete,
    ensures
        ({
            let evs = seq![
                Event::Discovered(Ok(m)),
                Event::Dispatched(Err(ApiError::NotFound)),
            ];
            let (done, ds) = run_steps(r, evs);
            &&& wf_trace(r, evs)
            &&& done.phase is Succeeded
            &&& ds =~= seq![
                Directive::Call(spec_dispatch_call(r, m)),
                Directive::ResetAndSucceed,
            ]
            &&& count_resets(ds) == 1
            &&& count_asks(ds) == 0
        }),
{
    let evs = seq![Event::Discovered(Ok(m)), Event::Dispatched(Err(ApiError::NotFound))];
    let (done, ds) = run_steps(r, evs);
    assert(evs.drop_first() =~= seq![Event::Dispatched(Err(ApiError::NotFound))]);
    assert(evs.drop_first().drop_first() =~= Seq::<Event>::empty());
    reveal_with_fuel(run_steps, 3);
    reveal_with_fuel(wf_trace, 3);
    reveal_with_fuel(count_resets, 3);
    reveal_with_fuel(count_asks, 3);
    assert(ds =~= seq![
        Directive::Call(spec_dispatch_call(r, m)),
        Directive::ResetAndSucceed,
    ]);
    assert(ds.drop_first() =~= seq![Directive::ResetAndSucceed]);
    assert(ds.drop_first().drop_first() =~= Seq::<Directive>::empty());
}

/// A transient discovery failure followed by success on the next attempt:
/// exactly one delay is asked, the machine sleeps and re-discovers, and
/// the run converges with exactly one reset.
pub proof fn lemma_discovery_retry_then_success(
    r: Reconciler,
    e: DiscoveryError,
    delay: u64,
    m: ResourceMapping,
)
    requires
        r.phase is Discovering,
        !(r.action is Delete && e is KindNotFound),
    ensures
        ({
            let evs = seq![
                Event::Discovered(Err(e)),
                Event::BackoffAnswer(Some(delay)),
                Event::Discovered(Ok(m)),
                Event::Dispatched(Ok(())),
            ];
            let (done, ds) = run_steps(r, evs);
            &&& wf_trace(r, evs)
            &&& done.phase is Succeeded
            &&& ds =~= seq![
                Directive::AskBackoff,
                Directive::SleepThenDiscover(delay),
                Directive::Call(spec_dispatch_call(r, m)),
                Directive::ResetAndSucceed,
            ]
            &&& count_asks(ds) == 1
            &&& count_resets(ds) == 1
        }),
{
    let evs = seq![
        Event::Discovered(Err(e)),
        Event::BackoffAnswer(Some(delay)),
        Event::Discovered(Ok(m)),
        Event::Dispatched(Ok(())),
    ];
    let (done, ds) = run_steps(r, evs);
    assert(evs.drop_first() =~= seq![
        Event::BackoffAnswer(Some(delay)),
        Event::Discovered(Ok(m)),
        Event::Dispatched(Ok(())),
    ]);
    assert(evs.drop_first().drop_first() =~= seq![
        Event::Discovered(Ok(m)),
        Event::Dispatched(Ok(())),
    ]);
    assert(evs.drop_first().drop_first().drop_first() =~= seq![Event::Dispatched(Ok(()))]);
    assert(evs.drop_first().drop_first().drop_first().drop_first() =~= Seq::<Event>::empty());
    reveal_with_fuel(run_steps, 5);
    reveal_with_fuel(wf_trace, 5);
    reveal_with_fuel(count_resets, 5);
    reveal_with_fuel(count_asks, 5);
    let ds_expected = seq![
        Directive::AskBackoff,
        Directive::SleepThenDiscover(delay),
        Directive::Call(spec_dispatch_call(with_phase(r, Phase::Discovering), m)),
        Directive::ResetAndSucceed,
    ];
    assert(spec_dispatch_call(with_phase(r, Phase::Discovering), m) == spec_dispatch_call(r, m));
    assert(ds =~= ds_expected);
    assert(ds.drop_first() =~= ds_expected.drop_first());
    assert(ds.drop_first().drop_first() =~= ds_expected.drop_first().drop_first());
    assert(ds.drop_first().drop_first().drop_first() =~= seq![Directive::ResetAndSucceed]);
    assert(ds.drop_first().drop_first().drop_first().drop_first() =~= Seq::<Directive>::empty());
}

/// A transient apply or delete call failure followed by success on retry:
/// one delay asked, one sleep, re-discovery, then convergence with one
/// reset.
pub proof fn lemma_dispatch_retry_then_success(
    r: Reconciler,
    m: ResourceMapping,
    e: ApiError,
    delay: u64,
    m2: ResourceMapping,
)
    requires
        r.phase is Discovering,
        !(r.action is Delete && e is NotFound),
    ensures
        ({
            let evs = seq![
                Event::Discovered(Ok(m)),
                Event::Dispatched(Err(e)),
                Event::BackoffAnswer(Some(delay)),
                Event::Discovered(Ok(m2)),
                Event::Dispatched(Ok(())),
            ];
            let (done, ds) = run_steps(r, evs);
            &&& wf_trace(r, evs)
            &&& done.phase is Succeeded
            &&& ds =~= seq![
                Directive::Call(spec_dispatch_call(r, m)),
                Directive::AskBackoff,
                Directive::SleepThenDiscover(delay),
                Directive::Call(spec_dispatch_call(r, m2)),
                Directive::ResetAndSucceed,
            ]
            &&& count_asks(ds) == 1
            &&& count_resets(ds) == 1
        }),
{
    let evs = seq![
        Event::Discovered(Ok(m)),
        Event::Dispatched(Err(e)),
        Event::BackoffAnswer(Some(delay)),
        Event::Discovered(Ok(m2)),
        Event::Dispatched(Ok(())),
    ];
    let (done, ds) = run_steps(r, evs);
    assert(evs.drop_first() =~= seq![
        Event::Dispatched(Err(e)),
        Event::BackoffAnswer(Some(delay)),
        Event::Discovered(Ok(m2)),
        Event::Dispatched(Ok(())),
    ]);
    assert(evs.drop_first().drop_first() =~= seq![
        Event::BackoffAnswer(Some(delay)),
        Event::Discovered(Ok(m2)),
        Event::Dispatched(Ok(())),
    ]);
    assert(evs.drop_first().drop_first().drop_first() =~= seq![
        Event::Discovered(Ok(m2)),
        Event::Dispatched(Ok(())),
    ]);
    assert(evs.drop_first().drop_first().drop_first().drop_first() =~= seq![
        Event::Dispatched(Ok(())),
    ]);
    assert(evs.drop_first().drop_first().drop_first().drop_first().drop_first()
        =~= Seq::<Event>::empty());
    reveal_with_fuel(run_steps, 6);
    reveal_with_fuel(wf_trace, 6);
    reveal_with_fuel(count_resets, 6);
    reveal_with_fuel(count_asks, 6);
    let ds_expected = seq![
        Directive::Call(spec_dispatch_call(r, m)),
        Directive::AskBackoff,
        Directive::SleepThenDiscover(delay),
        Directive::Call(spec_dispatch_call(r, m2)),
        Directive::ResetAndSucceed,
    ];
    assert(ds =~= ds_expected);
    assert(ds.drop_first() =~= ds_expected.drop_first());
    assert(ds.drop_first().drop_first() =~= ds_expected.drop_first().drop_first());
    assert(ds.drop_first().drop_first().drop_first() =~= seq![
        Directive::Call(spec_dispatch_call(r, m2)),
        Directive::ResetAndSucceed,
    ]);
    assert(ds.drop_first().drop_first().drop_first().drop_first() =~= seq![
        Directive::ResetAndSucceed,
    ]);
    assert(ds.drop_first().drop_first().drop_first().drop_first().drop_first()
        =~= Seq::<Directive>::empty());
}

/// When the backoff's budget is already exhausted at the first transient
/// failure, the object fails with that last transient error, after
/// exactly one delay asked and no reset.
pub proof fn lemma_budget_exhausted_fails_with_last_error(r: Reconciler, e: DiscoveryError)
    requires
        r.phase is Discovering,
        !(r.action is Delete && e is KindNotFound),
    ensures
        ({
            let evs = seq![
                Event::Discovered(Err(e)),
                Event::BackoffAnswer(None),
            ];
            let (done, ds) = run_steps(r, evs);
            &&& wf_trace(r, evs)
            &&& done.phase == Phase::Failed(ApplyError::Discovery(e))
            &&& ds =~= seq![
                Directive::AskBackoff,
                Directive::Fail(ApplyError::Discovery(e)),
            ]
            &&& count_asks(ds) == 1
            &&& count_resets(ds) == 0
        }),
{
    let evs = seq![Event::Discovered(Err(e)), Event::BackoffAnswer(None)];
    let (done, ds) = run_steps(r, evs);
    assert(evs.drop_first() =~= seq![Event::BackoffAnswer(None)]);
    assert(evs.drop_first().drop_first() =~= Seq::<Event>::empty());
    reveal_with_fuel(run_steps, 3);
    reveal_with_fuel(wf_trace, 3);
    reveal_with_fuel(count_resets, 3);
    reveal_with_fuel(count_asks, 3);
    assert(ds =~= seq![
        Directive::AskBackoff,
        Directive::Fail(ApplyError::Discovery(e)),
    ]);
    assert(ds.drop_first() =~= seq![Directive::Fail(ApplyError::Discovery(e))]);
    assert(ds.drop_first().drop_first() =~= Seq::<Directive>::empty());
}

} // verus!
