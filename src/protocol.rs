//! The pairwise collision-resolution protocol as a state machine.
//!
//! One call of the protocol for a pair of bodies and a time budget runs the
//! machine from [`Stage::Start`]: the caller reports what the geometry queries
//! answered ([`Event`]) and performs the [`Action`]s handed back.
use std::cmp::Ordering;
use vstd::prelude::*;

verus! {

/// What the time-of-impact query answered for the pair.
#[derive(Clone, Copy, Debug, PartialEq, Eq)]
pub enum ImpactReport {
    /// The bodies never touch at their current velocities.
    Never,
    /// The bodies touch at some impact time; `budget_vs_impact` is how the
    /// step's time budget compares with that time (`None` where the two are
    /// not comparable).
    At { budget_vs_impact: Option<Ordering> },
}

/// What the contact query answered once both bodies stand at the impact instant.
#[derive(Clone, Copy, Debug, PartialEq, Eq)]
pub enum ContactReport {
    Touching,
    Apart,
}

/// An answer handed to the machine.
#[derive(Clone, Copy, Debug, PartialEq, Eq)]
pub enum Event {
    Impact(ImpactReport),
    Contact(ContactReport),
}

/// Where one call of the protocol stands.
#[derive(Clone, Copy, Debug, PartialEq, Eq)]
pub enum Stage {
    /// Waiting for the time-of-impact answer.
    Start,
    /// Both bodies were moved to the impact instant; waiting for the contact answer.
    AtImpact,
    /// The call is over; nothing more happens in it.
    Done,
}

/// A span of time by which both bodies are moved along their velocities.
#[derive(Clone, Copy, Debug, PartialEq, Eq)]
pub enum Span {
    /// The impact time.
    ToImpact,
    /// The budget less the impact time.
    Remainder,
    /// The whole budget.
    FullBudget,
}

/// Work the caller performs on the pair.
#[derive(Clone, Copy, Debug, PartialEq, Eq)]
pub enum Action {
    /// Move both bodies along their velocities for the span.
    Advance(Span),
    /// Compute the velocity change of the first body at the contact, apply it
    /// to the first body and its opposite to the second.
    ExchangeImpulse,
}

/// The impact lies within the budget: the budget is greater than or equal to
/// the impact time (an impact exactly at the end of the budget is honoured).
pub open spec fn honours(report: ImpactReport) -> bool {
    match report {
        ImpactReport::Never => false,
        ImpactReport::At { budget_vs_impact } => budget_vs_impact == Some(Ordering::Greater)
            || budget_vs_impact == Some(Ordering::Equal),
    }
}

/// The machine's table: next stage and the actions to perform.
/// An answer that the stage does not wait for changes nothing.
pub open spec fn transition(stage: Stage, event: Event) -> (Stage, Seq<Action>) {
    match (stage, event) {
        (Stage::Start, Event::Impact(report)) => if honours(report) {
            (Stage::AtImpact, seq![Action::Advance(Span::ToImpact)])
        } else {
            (Stage::Done, Seq::empty())
        },
        (Stage::AtImpact, Event::Contact(ContactReport::Touching)) => (
            Stage::Done,
            seq![Action::ExchangeImpulse, Action::Advance(Span::Remainder)],
        ),
        (Stage::AtImpact, Event::Contact(ContactReport::Apart)) => (
            Stage::Done,
            seq![Action::Advance(Span::FullBudget)],
        ),
        _ => (stage, Seq::empty()),
    }
}

/// Runs the machine on a sequence of answers: the stage reached and every
/// action handed back, in order.
pub open spec fn run(stage: Stage, events: Seq<Event>) -> (Stage, Seq<Action>)
    decreases events.len(),
{
    if events.len() == 0 {
        (stage, Seq::empty())
    } else {
        let first = transition(stage, events[0]);
        let rest = run(first.0, events.drop_first());
        (rest.0, first.1 + rest.1)
    }
}

/// How many impulse exchanges a sequence of actions holds.
pub open spec fn exchanges(actions: Seq<Action>) -> nat
    decreases actions.len(),
{
    if actions.len() == 0 {
        0
    } else {
        (if actions[0] == Action::ExchangeImpulse { 1nat } else { 0nat }) + exchanges(
            actions.drop_first(),
        )
    }
}

/// The length of a span, for an impact time and a budget.
pub open spec fn span_time(span: Span, impact: int, budget: int) -> int {
    match span {
        Span::ToImpact => impact,
        Span::Remainder => budget - impact,
        Span::FullBudget => budget,
    }
}

/// The total time by which a sequence of actions moves each body.
pub open spec fn advanced(actions: Seq<Action>, impact: int, budget: int) -> int
    decreases actions.len(),
{
    if actions.len() == 0 {
        0
    } else {
        (match actions[0] {
            Action::Advance(span) => span_time(span, impact, budget),
            Action::ExchangeImpulse => 0,
        }) + advanced(actions.drop_first(), impact, budget)
    }
}

/// How `a` compares with `b`.
pub open spec fn compare(a: int, b: int) -> Ordering {
    if a < b {
        Ordering::Less
    } else if a == b {
        Ordering::Equal
    } else {
        Ordering::Greater
    }
}

/// The report of an impact at time `impact` within a step of length `budget`.
pub open spec fn impact_report(impact: int, budget: int) -> ImpactReport {
    ImpactReport::At { budget_vs_impact: Some(compare(budget, impact)) }
}

proof fn lemma_exchanges_concat(a: Seq<Action>, b: Seq<Action>)
    ensures
        exchanges(a + b) == exchanges(a) + exchanges(b),
    decreases a.len(),
{
    if a.len() == 0 {
        assert(a + b =~= b);
    } else {
        assert((a + b).drop_first() =~= a.drop_first() + b);
        lemma_exchanges_concat(a.drop_first(), b);
    }
}

proof fn lemma_run_single(stage: Stage, e: Event)
    ensures
        run(stage, seq![e]) == transition(stage, e),
{
    let events = seq![e];
    assert(events[0] == e);
    assert(events.drop_first() =~= Seq::<Event>::empty());
    let t = transition(stage, e);
    assert(run(t.0, Seq::<Event>::empty()) == (t.0, Seq::<Action>::empty()));
    assert(t.1 + Seq::<Action>::empty() =~= t.1);
}

proof fn lemma_run_pair(stage: Stage, e1: Event, e2: Event)
    ensures
        run(stage, seq![e1, e2]) == ({
            let first = transition(stage, e1);
            let second = transition(first.0, e2);
            (second.0, first.1 + second.1)
        }),
{
    let events = seq![e1, e2];
    assert(events.drop_first() =~= seq![e2]);
    lemma_run_single(transition(stage, e1).0, e2);
}

proof fn lemma_run_exchanges(stage: Stage, events: Seq<Event>)
    ensures
        exchanges(run(stage, events).1) <= (if stage == Stage::Done { 0nat } else { 1nat }),
        stage == Stage::Done ==> run(stage, events) == (Stage::Done, Seq::<Action>::empty()),
    decreases events.len(),
{
    if events.len() > 0 {
        let first = transition(stage, events[0]);
        let rest = run(first.0, events.drop_first());
        lemma_run_exchanges(first.0, events.drop_first());
        lemma_exchanges_concat(first.1, rest.1);
        reveal_with_fuel(exchanges, 3);
        if stage == Stage::Done {
            assert(first.1 + rest.1 =~= Seq::<Action>::empty());
        }
    }
}

/// Once a call of the protocol is over, no answer makes anything happen.
pub proof fn lemma_done_is_final(events: Seq<Event>)
    ensures
        run(Stage::Done, events) == (Stage::Done, Seq::<Action>::empty()),
{
    lemma_run_exchanges(Stage::Done, events);
}

/// One call of the protocol exchanges an impulse at most once, whatever the
/// geometry queries answer.
pub proof fn lemma_at_most_one_exchange(events: Seq<Event>)
    ensures
        exchanges(run(Stage::Start, events).1) <= 1,
{
    lemma_run_exchanges(Stage::Start, events);
}

/// The impact is honoured exactly when the budget is at least the impact time.
pub proof fn lemma_inclusive_budget(impact: int, budget: int)
    ensures
        honours(impact_report(impact, budget)) <==> budget >= impact,
{
}

/// An impact beyond the budget makes the call end at once with no action: the
/// caller moves the bodies itself.
pub proof fn lemma_impact_beyond_budget(impact: int, budget: int)
    requires
        budget < impact,
    ensures
        run(Stage::Start, seq![Event::Impact(impact_report(impact, budget))]) == (
            Stage::Done,
            Seq::<Action>::empty(),
        ),
{
    lemma_run_single(Stage::Start, Event::Impact(impact_report(impact, budget)));
}

/// A confirmed contact within the budget gives one impulse exchange, and each
/// body is moved by exactly the budget in all.
pub proof fn lemma_resolved_contact(impact: int, budget: int)
    requires
        impact <= budget,
    ensures
        ({
            let r = run(
                Stage::Start,
                seq![
                    Event::Impact(impact_report(impact, budget)),
                    Event::Contact(ContactReport::Touching),
                ],
            );
            r.0 == Stage::Done && r.1 == seq![
                Action::Advance(Span::ToImpact),
                Action::ExchangeImpulse,
                Action::Advance(Span::Remainder),
            ] && exchanges(r.1) == 1 && advanced(r.1, impact, budget) == budget
        }),
{
    lemma_run_pair(
        Stage::Start,
        Event::Impact(impact_report(impact, budget)),
        Event::Contact(ContactReport::Touching),
    );
    let acts = seq![
        Action::Advance(Span::ToImpact),
        Action::ExchangeImpulse,
        Action::Advance(Span::Remainder),
    ];
    assert(seq![Action::Advance(Span::ToImpact)] + seq![
        Action::ExchangeImpulse,
        Action::Advance(Span::Remainder),
    ] =~= acts);
    reveal_with_fuel(exchanges, 4);
    reveal_with_fuel(advanced, 4);
    assert(acts.drop_first() =~= seq![Action::ExchangeImpulse, Action::Advance(Span::Remainder)]);
    assert(acts.drop_first().drop_first() =~= seq![Action::Advance(Span::Remainder)]);
    assert(acts.drop_first().drop_first().drop_first() =~= Seq::<Action>::empty());
}

/// A contact that the contact query does not confirm gives no impulse; each
/// body is moved by the impact time and then by the whole budget.
pub proof fn lemma_unconfirmed_contact(impact: int, budget: int)
    requires
        impact <= budget,
    ensures
        ({
            let r = run(
                Stage::Start,
                seq![
                    Event::Impact(impact_report(impact, budget)),
                    Event::Contact(ContactReport::Apart),
                ],
            );
            r.0 == Stage::Done && exchanges(r.1) == 0 && advanced(r.1, impact, budget)
                == impact + budget
        }),
{
    lemma_run_pair(
        Stage::Start,
        Event::Impact(impact_report(impact, budget)),
        Event::Contact(ContactReport::Apart),
    );
    let acts = seq![Action::Advance(Span::ToImpact), Action::Advance(Span::FullBudget)];
    assert(seq![Action::Advance(Span::ToImpact)] + seq![Action::Advance(Span::FullBudget)]
        =~= acts);
    reveal_with_fuel(exchanges, 3);
    reveal_with_fuel(advanced, 3);
    assert(acts.drop_first() =~= seq![Action::Advance(Span::FullBudget)]);
    assert(acts.drop_first().drop_first() =~= Seq::<Action>::empty());
}

/// Whether the impact reported lies within the budget, ties included.
pub fn impact_within_budget(report: ImpactReport) -> (r: bool)
    ensures
        r == honours(report),
{
    match report {
        ImpactReport::Never => false,
        ImpactReport::At { budget_vs_impact } => match budget_vs_impact {
            Some(Ordering::Greater) => true,
            Some(Ordering::Equal) => true,
            _ => false,
        },
    }
}

/// Feeds one answer to the machine: returns the next stage and the actions
/// that the caller performs, in order.
pub fn step(stage: Stage, event: Event) -> (r: (Stage, Vec<Action>))
    ensures
        r.0 == transition(stage, event).0,
        r.1@ == transition(stage, event).1,
{
    match stage {
        Stage::Start => match event {
            Event::Impact(report) => {
                if impact_within_budget(report) {
                    (Stage::AtImpact, vec![Action::Advance(Span::ToImpact)])
                } else {
                    (Stage::Done, Vec::new())
                }
            },
            Event::Contact(_) => (stage, Vec::new()),
        },
        Stage::AtImpact => match event {
            Event::Contact(ContactReport::Touching) => {
                (Stage::Done, vec![Action::ExchangeImpulse, Action::Advance(Span::Remainder)])
            },
            Event::Contact(ContactReport::Apart) => {
                (Stage::Done, vec![Action::Advance(Span::FullBudget)])
            },
            Event::Impact(_) => (stage, Vec::new()),
        },
        Stage::Done => (stage, Vec::new()),
    }
}

} // verus!
