//! When a lost connection is opened again, and after what wait.

use vstd::arithmetic::power2::{lemma2_to64, lemma_pow2_unfold, pow2};
use vstd::prelude::*;
use crate::component::Component;
use crate::config::ConfigView;
use crate::error::{AegisError, AegisErrorView};
use crate::text;

verus! {

/// How often the connection has been lost, and how long to wait the next time.
/// The wait is in nanoseconds.
#[derive(Debug, Clone, Copy, PartialEq, Eq, Structural)]
pub struct Retry {
    pub attempts: u32,
    pub delay: u128,
}

/// What is to be done after a connection has ended.
#[derive(Debug)]
pub enum RunStep {
    /// Nothing more; this is what the run came to.
    Finish(Result<(), AegisError>),
    /// Wait so many nanoseconds, then connect again for the `attempt`th time.
    Sleep { delay: u128, attempt: u32 },
}

/// What a [`RunStep`] says.
pub enum RunStepView {
    Finish(Result<(), AegisErrorView>),
    Sleep { delay: u128, attempt: u32 },
}

impl RunStep {
    /// What is to be done.
    pub open spec fn view(&self) -> RunStepView {
        match *self {
            RunStep::Finish(r) => RunStepView::Finish(crate::error::outcome_view(r)),
            RunStep::Sleep { delay, attempt } => RunStepView::Sleep { delay, attempt },
        }
    }
}

/// Whether a connection that ended like this is opened again, where the
/// settings allow it: it was lost, and not for a refused registration.
pub open spec fn retriable(outcome: Result<(), AegisErrorView>) -> bool {
    outcome is Err && !(outcome->Err_0 is Registration)
}

impl Retry {
    /// Before the first connection.
    pub open spec fn initial(cfg: ConfigView) -> Retry {
        Retry { attempts: 0, delay: cfg.reconnect_delay }
    }

    /// Whether one more lost connection is too many.
    pub open spec fn exhausted(self, cfg: ConfigView) -> bool {
        cfg.max_reconnect_attempts > 0 && self.attempts + 1 >= cfg.max_reconnect_attempts
    }

    /// The count after a connection has ended with `outcome`.
    pub open spec fn counted(self, cfg: ConfigView, outcome: Result<(), AegisErrorView>) -> Retry {
        if retriable(outcome) && cfg.reconnect {
            Retry { attempts: (self.attempts + 1) as u32, ..self }
        } else {
            self
        }
    }

    /// What is to be done after a connection has ended with `outcome`.
    pub open spec fn decision(
        self,
        cfg: ConfigView,
        outcome: Result<(), AegisErrorView>,
    ) -> RunStepView {
        if !retriable(outcome) {
            RunStepView::Finish(outcome)
        } else if !cfg.reconnect {
            RunStepView::Finish(Err(AegisErrorView::Connection("reconnect disabled"@)))
        } else if self.exhausted(cfg) {
            RunStepView::Finish(
                Err(
                    AegisErrorView::Connection(
                        "max reconnect attempts ("@ + crate::text::decimal(
                            (self.attempts + 1) as nat,
                        ) + ") reached"@,
                    ),
                ),
            )
        } else {
            RunStepView::Sleep { delay: self.delay, attempt: (self.attempts + 1) as u32 }
        }
    }

    /// The next wait: the doubled one, up to the longest that the settings
    /// allow.
    pub open spec fn backed_off(self, cfg: ConfigView, doubled: u128) -> Retry {
        Retry {
            delay: if doubled <= cfg.max_reconnect_delay {
                doubled
            } else {
                cfg.max_reconnect_delay
            },
            ..self
        }
    }
}

/// Connections that were lost one after the other: how each ended, and the
/// doubled wait that followed it.
pub type Losses = Seq<(Result<(), AegisErrorView>, u128)>;

impl Retry {
    /// The count after a series of losses, each followed by a new connection.
    pub open spec fn after(cfg: ConfigView, losses: Losses) -> Retry
        decreases losses.len(),
    {
        if losses.len() == 0 {
            Retry::initial(cfg)
        } else {
            Retry::after(cfg, losses.drop_last()).counted(cfg, losses.last().0).backed_off(
                cfg,
                losses.last().1,
            )
        }
    }
}

/// Whether every loss may be followed by a new connection.
pub open spec fn all_retriable(losses: Losses) -> bool {
    forall|i: int| 0 <= i < losses.len() ==> retriable((#[trigger] losses[i]).0)
}

/// Every loss counts.
proof fn lemma_attempts(cfg: ConfigView, losses: Losses)
    requires
        cfg.reconnect,
        all_retriable(losses),
        losses.len() <= u32::MAX,
    ensures
        Retry::after(cfg, losses).attempts == losses.len(),
    decreases losses.len(),
{
    if losses.len() > 0 {
        assert(retriable(losses[losses.len() - 1].0));
        lemma_attempts(cfg, losses.drop_last());
    }
}

/// A run that ended well is over, and so is one whose registration was refused;
/// the error is handed on as it is.
pub proof fn law_not_retried(
    cfg: ConfigView,
    retry: Retry,
    outcome: Result<(), AegisErrorView>,
)
    requires
        outcome is Ok || outcome->Err_0 is Registration,
    ensures
        retry.decision(cfg, outcome) == RunStepView::Finish(outcome),
        retry.counted(cfg, outcome) == retry,
{
}

/// Where a limit is set, the connection is given up at the loss that reaches
/// it, and at no earlier one; where none is set, it is never given up. Every
/// loss counts, however long the connection lasted.
pub proof fn law_attempts_limited(
    cfg: ConfigView,
    losses: Losses,
    outcome: Result<(), AegisErrorView>,
)
    requires
        cfg.reconnect,
        all_retriable(losses),
        losses.len() < u32::MAX,
        retriable(outcome),
    ensures
        ({
            let decision = Retry::after(cfg, losses).decision(cfg, outcome);
            if cfg.max_reconnect_attempts > 0 && losses.len() + 1 >= cfg.max_reconnect_attempts {
                decision == RunStepView::Finish(
                    Err(
                        AegisErrorView::Connection(
                            "max reconnect attempts ("@ + crate::text::decimal(losses.len() + 1)
                                + ") reached"@,
                        ),
                    ),
                )
            } else {
                &&& decision matches RunStepView::Sleep { attempt, .. }
                &&& attempt == losses.len() + 1
            }
        }),
{
    lemma_attempts(cfg, losses);
}

/// The first wait is the configured one; no later wait is longer than the
/// settings allow.
pub proof fn law_wait_bounded(cfg: ConfigView, losses: Losses)
    ensures
        losses.len() == 0 ==> Retry::after(cfg, losses).delay == cfg.reconnect_delay,
        losses.len() > 0 ==> Retry::after(cfg, losses).delay <= cfg.max_reconnect_delay,
{
}

/// What follows a connection, loss by loss. One that ended well ends the run,
/// and so does one whose registration was refused, with the refusal. One that
/// was lost otherwise ends it where reconnecting is off, and where it is the
/// last that the limit allows, with a message that tells the number of losses.
/// Else the wait that is due is slept, and the loss counts.
pub proof fn law_after_a_connection(
    cfg: ConfigView,
    retry: Retry,
    outcome: Result<(), AegisErrorView>,
)
    requires
        retry.attempts < u32::MAX,
    ensures
        retriable(outcome) <==> outcome is Err && !(outcome->Err_0 is Registration),
        outcome is Ok ==> retry.decision(cfg, outcome) matches RunStepView::Finish(Ok(_)),
        outcome matches Err(AegisErrorView::Registration(m)) ==> retry.decision(cfg, outcome)
            == RunStepView::Finish(Err(AegisErrorView::Registration(m))),
        outcome is Err && !(outcome->Err_0 is Registration) ==> {
            let losses = retry.attempts + 1;
            &&& !cfg.reconnect ==> retry.decision(cfg, outcome) == RunStepView::Finish(
                Err(AegisErrorView::Connection("reconnect disabled"@)),
            )
            &&& cfg.reconnect && cfg.max_reconnect_attempts > 0 && losses
                >= cfg.max_reconnect_attempts ==> retry.decision(cfg, outcome)
                == RunStepView::Finish(
                Err(
                    AegisErrorView::Connection(
                        "max reconnect attempts ("@ + crate::text::decimal(losses as nat)
                            + ") reached"@,
                    ),
                ),
            )
            &&& cfg.reconnect && (cfg.max_reconnect_attempts == 0 || losses
                < cfg.max_reconnect_attempts) ==> {
                &&& retry.decision(cfg, outcome) matches RunStepView::Sleep { delay, attempt }
                &&& delay == retry.delay
                &&& attempt == losses
            }
        },
        retry.counted(cfg, outcome).delay == retry.delay,
        retry.counted(cfg, outcome).attempts == if cfg.reconnect && outcome is Err && !(
        outcome->Err_0 is Registration) {
            retry.attempts + 1
        } else {
            retry.attempts as int
        },
{
}

/// Before the first connection nothing is lost and the configured wait is due.
/// After a wait the doubled one is due, or the longest that the settings allow
/// where that is shorter; the count of losses stays.
pub proof fn law_waits_due(cfg: ConfigView, retry: Retry, doubled: u128)
    ensures
        Retry::initial(cfg).attempts == 0,
        Retry::initial(cfg).delay == cfg.reconnect_delay,
        retry.backed_off(cfg, doubled).attempts == retry.attempts,
        doubled <= cfg.max_reconnect_delay ==> retry.backed_off(cfg, doubled).delay == doubled,
        doubled > cfg.max_reconnect_delay ==> retry.backed_off(cfg, doubled).delay
            == cfg.max_reconnect_delay,
{
}

/// The waits that are slept, one loss after the other, where the doubling is
/// exact: the first is the configured one, and the one after `n` losses is that
/// times two to the `n`, up to the longest that the settings allow. No limit on
/// the attempts changes them.
pub proof fn law_slept_waits_double(
    cfg: ConfigView,
    losses: Losses,
    outcome: Result<(), AegisErrorView>,
)
    requires
        outcome is Err && !(outcome->Err_0 is Registration),
        forall|i: int|
            0 <= i < losses.len() ==> (#[trigger] losses[i]).1 == 2 * Retry::after(
                cfg,
                losses.take(i),
            ).delay,
    ensures
        Retry::after(cfg, losses).decision(cfg, outcome) matches RunStepView::Sleep {
            delay,
            ..
        } ==> {
            &&& losses.len() == 0 ==> delay == cfg.reconnect_delay
            &&& losses.len() > 0 && cfg.reconnect_delay * pow2(losses.len())
                <= cfg.max_reconnect_delay ==> delay == cfg.reconnect_delay * pow2(losses.len())
            &&& losses.len() > 0 && cfg.reconnect_delay * pow2(losses.len())
                > cfg.max_reconnect_delay ==> delay == cfg.max_reconnect_delay
        },
{
    lemma_waits_double(cfg, losses);
}

/// The wait that is due doubles from loss to loss, up to the longest that the
/// settings allow.
proof fn lemma_waits_double(cfg: ConfigView, losses: Losses)
    requires
        forall|i: int|
            0 <= i < losses.len() ==> (#[trigger] losses[i]).1 == 2 * Retry::after(
                cfg,
                losses.take(i),
            ).delay,
    ensures
        losses.len() == 0 ==> Retry::after(cfg, losses).delay == cfg.reconnect_delay,
        losses.len() > 0 ==> Retry::after(cfg, losses).delay == if cfg.reconnect_delay * pow2(
            losses.len(),
        ) <= cfg.max_reconnect_delay {
            cfg.reconnect_delay * pow2(losses.len())
        } else {
            cfg.max_reconnect_delay as int
        },
    decreases losses.len(),
{
    if losses.len() > 0 {
        let front = losses.drop_last();
        let n = front.len();
        assert forall|i: int| 0 <= i < front.len() implies (#[trigger] front[i]).1 == 2
            * Retry::after(cfg, front.take(i)).delay by {
            assert(front[i] == losses[i]);
            assert(front.take(i) =~= losses.take(i));
        }
        lemma_waits_double(cfg, front);
        lemma2_to64();
        assert(cfg.reconnect_delay * pow2(0) == cfg.reconnect_delay) by (nonlinear_arith)
            requires
                pow2(0) == 1,
        ;
        assert(losses.take(n as int) =~= front);
        assert(losses[n as int].1 == 2 * Retry::after(cfg, front).delay);
        lemma_pow2_unfold(losses.len());
        assert(cfg.reconnect_delay * pow2(losses.len()) == 2 * (cfg.reconnect_delay * pow2(n)))
            by (nonlinear_arith)
            requires
                pow2(losses.len()) == 2 * pow2(n),
        ;
    }
}

/// The view of a step tells what is to be done.
pub proof fn law_steps_shown(step: RunStep)
    ensures
        match step {
            RunStep::Finish(Ok(_)) => step.view() == RunStepView::Finish(Ok(())),
            RunStep::Finish(Err(e)) => step.view() == RunStepView::Finish(Err(e.view())),
            RunStep::Sleep { delay, attempt } => step.view() == (RunStepView::Sleep {
                delay,
                attempt,
            }),
        },
{
}

/// Where the doubling is exact, the wait grows by a factor of two from loss to
/// loss, up to the longest that the settings allow.
pub proof fn law_wait_doubles(cfg: ConfigView, losses: Losses)
    requires
        cfg.reconnect_delay <= cfg.max_reconnect_delay,
        forall|i: int|
            0 <= i < losses.len() ==> (#[trigger] losses[i]).1 == 2 * Retry::after(
                cfg,
                losses.take(i),
            ).delay,
    ensures
        Retry::after(cfg, losses).delay == if cfg.reconnect_delay * pow2(losses.len())
            <= cfg.max_reconnect_delay {
            cfg.reconnect_delay * pow2(losses.len())
        } else {
            cfg.max_reconnect_delay as int
        },
{
    lemma2_to64();
    assert(cfg.reconnect_delay * pow2(0) == cfg.reconnect_delay) by (nonlinear_arith)
        requires
            pow2(0) == 1,
    ;
    lemma_waits_double(cfg, losses);
}

impl Component {
    /// The count before the first connection.
    pub fn first_retry(&self) -> (res: Retry)
        ensures
            res == Retry::initial(self.view().cfg),
    {
        Retry { attempts: 0, delay: self.config().reconnect_delay }
    }

    /// What is to be done after a connection has ended with `outcome`.
    pub fn run(&self, retry: &mut Retry, outcome: Result<(), AegisError>) -> (res: RunStep)
        requires
            retriable(crate::error::outcome_view(outcome)) && self.view().cfg.reconnect
                ==> old(retry).attempts < u32::MAX,
        ensures
            *final(retry) == old(retry).counted(
                self.view().cfg,
                crate::error::outcome_view(outcome),
            ),
            res.view() == old(retry).decision(
                self.view().cfg,
                crate::error::outcome_view(outcome),
            ),
            final(retry).delay == old(retry).delay,
            res matches RunStep::Sleep { delay, attempt } ==> {
                &&& delay == old(retry).delay
                &&& attempt == old(retry).attempts + 1
                &&& final(retry).attempts == old(retry).attempts + 1
            },
    {
        match outcome {
            Ok(_) => return RunStep::Finish(Ok(())),
            Err(AegisError::Registration(m)) => {
                return RunStep::Finish(Err(AegisError::Registration(m)));
            },
            Err(_) => {},
        }
        let cfg = self.config();
        if !cfg.reconnect {
            return RunStep::Finish(
                Err(AegisError::Connection("reconnect disabled".to_string())),
            );
        }
        retry.attempts = retry.attempts + 1;
        if cfg.max_reconnect_attempts > 0 && retry.attempts >= cfg.max_reconnect_attempts {
            let mut reason: String = "max reconnect attempts (".to_string();
            reason.append(text::decimal_text(retry.attempts).as_str());
            reason.append(") reached");
            return RunStep::Finish(Err(AegisError::Connection(reason)));
        }
        RunStep::Sleep { delay: retry.delay, attempt: retry.attempts }
    }

    /// Sets the next wait, given twice the last one.
    pub fn back_off(&self, retry: &mut Retry, doubled: u128)
        ensures
            *final(retry) == old(retry).backed_off(self.view().cfg, doubled),
            final(retry).attempts == old(retry).attempts,
            final(retry).delay <= doubled,
            final(retry).delay <= self.view().cfg.max_reconnect_delay,
            final(retry).delay == doubled || final(retry).delay
                == self.view().cfg.max_reconnect_delay,
    {
        let longest: u128 = self.config().max_reconnect_delay;
        retry.delay = if doubled <= longest {
            doubled
        } else {
            longest
        };
    }
}

} // verus!
