//! Running a reload command until its output is accepted, a bounded number
//! of times and with a fixed pause after each failure.

use crate::error::{ThemeError, ThemeErrorView};
use crate::services::driver::{Action, ActionView, Event, EventView};
use crate::text::{to_chars, to_string, trim, trim_bounds};
use vstd::prelude::*;

verus! {

/// How often the command is tried at most.
pub const MAX_ATTEMPTS: u8 = 5;

/// How long the pause after a failed attempt is, in seconds.
pub const PAUSE_SECONDS: u64 = 1;

/// Which output of the command counts as success.
#[derive(Debug, Clone, Copy, PartialEq, Eq, Structural)]
pub enum Acceptance {
    /// The trimmed output is exactly `ok`.
    SaysOk,
    /// The trimmed output is empty.
    SaysNothing,
}

/// Whether the command's standard output counts as success.
pub open spec fn accepted(rule: Acceptance, output: Seq<char>) -> bool {
    match rule {
        Acceptance::SaysOk => trim(output) == seq!['o', 'k'],
        Acceptance::SaysNothing => trim(output).len() == 0,
    }
}

/// Where a run of attempts stands.
#[derive(Debug, PartialEq, Eq)]
pub enum Progress {
    /// The command is to be run; `made` attempts have failed so far.
    Trying { made: u8 },
    /// The attempt numbered `made` has failed, leaving `last`; the pause
    /// after it is due.
    Pausing { made: u8, last: String },
    /// An attempt was accepted.
    Succeeded,
    /// Every attempt has failed; `last` is what the last one left.
    Exhausted { last: String },
}

/// A `Progress` over sequences of characters.
pub enum ProgressView {
    Trying { made: u8 },
    Pausing { made: u8, last: Seq<char> },
    Succeeded,
    Exhausted { last: Seq<char> },
}

impl DeepView for Progress {
    type V = ProgressView;

    open spec fn deep_view(&self) -> ProgressView {
        match *self {
            Progress::Trying { made } => ProgressView::Trying { made },
            Progress::Pausing { made, last } => ProgressView::Pausing { made, last: last@ },
            Progress::Succeeded => ProgressView::Succeeded,
            Progress::Exhausted { last } => ProgressView::Exhausted { last: last@ },
        }
    }
}

/// A command that is run until its output is accepted.
#[derive(Debug)]
pub struct Retry {
    pub program: String,
    pub args: Vec<String>,
    pub rule: Acceptance,
    pub progress: Progress,
}

/// A `Retry` over sequences of characters.
pub struct RetryView {
    pub program: Seq<char>,
    pub args: Seq<Seq<char>>,
    pub rule: Acceptance,
    pub progress: ProgressView,
}

impl DeepView for Retry {
    type V = RetryView;

    open spec fn deep_view(&self) -> RetryView {
        RetryView {
            program: self.program@,
            args: self.args.deep_view(),
            rule: self.rule,
            progress: self.progress.deep_view(),
        }
    }
}

/// The run of attempts before the first one.
pub open spec fn fresh(program: Seq<char>, args: Seq<Seq<char>>, rule: Acceptance) -> RetryView {
    RetryView { program, args, rule, progress: ProgressView::Trying { made: 0 } }
}

/// What the host is to do for the run `r`: run the command, or pause; or
/// nothing, once the run has ended.
pub open spec fn wanted(r: RetryView) -> Option<ActionView> {
    match r.progress {
        ProgressView::Trying { .. } => Some(
            ActionView::Run { program: r.program, args: r.args },
        ),
        ProgressView::Pausing { .. } => Some(ActionView::Sleep { seconds: PAUSE_SECONDS }),
        _ => None,
    }
}

/// What a failed attempt leaves behind: the trimmed output that was not
/// accepted, or the cause for which the command could not be run.
pub open spec fn residue(event: EventView) -> Seq<char> {
    match event {
        EventView::Text(output) => trim(output),
        EventView::Failed(cause) => cause,
        _ => seq![],
    }
}

/// Where the run stands after the host's answer.
///
/// An accepted output ends the run in success. An output that is not
/// accepted, or a command that could not be run, counts as one more failed
/// attempt, and the pause is due. After the pause the command is tried
/// again, unless `MAX_ATTEMPTS` attempts have failed: then the run is
/// exhausted. An answer that does not fit what was asked changes nothing.
pub open spec fn answered(r: RetryView, event: EventView) -> RetryView {
    match r.progress {
        ProgressView::Trying { made } => match event {
            EventView::Text(output) => if accepted(r.rule, output) {
                RetryView { progress: ProgressView::Succeeded, ..r }
            } else {
                RetryView {
                    progress: ProgressView::Pausing {
                        made: if made < MAX_ATTEMPTS {
                            (made + 1) as u8
                        } else {
                            MAX_ATTEMPTS
                        },
                        last: residue(event),
                    },
                    ..r
                }
            },
            EventView::Failed(cause) => RetryView {
                progress: ProgressView::Pausing {
                    made: if made < MAX_ATTEMPTS {
                        (made + 1) as u8
                    } else {
                        MAX_ATTEMPTS
                    },
                    last: residue(event),
                },
                ..r
            },
            _ => r,
        },
        ProgressView::Pausing { made, last } => match event {
            EventView::Done => if made >= MAX_ATTEMPTS {
                RetryView { progress: ProgressView::Exhausted { last }, ..r }
            } else {
                RetryView { progress: ProgressView::Trying { made }, ..r }
            },
            _ => r,
        },
        _ => r,
    }
}

/// How the run has ended, if it has: in success, or in `ExhaustedRetries`
/// with what the last attempt left.
pub open spec fn verdict(r: RetryView) -> Option<Result<(), ThemeErrorView>> {
    match r.progress {
        ProgressView::Succeeded => Some(Ok(())),
        ProgressView::Exhausted { last } => Some(
            Err(ThemeErrorView::ExhaustedRetries { last }),
        ),
        _ => None,
    }
}

/// Whether `output`, once trimmed, is accepted under `rule`.
fn accepts(rule: Acceptance, output: &Vec<char>, lo: usize, hi: usize) -> (b: bool)
    requires
        lo <= hi <= output.len(),
        output@.subrange(lo as int, hi as int) == trim(output@),
    ensures
        b == accepted(rule, output@),
{
    match rule {
        Acceptance::SaysOk => {
            let b = hi - lo == 2 && output[lo] == 'o' && output[lo + 1] == 'k';
            assert(b == (trim(output@) =~= seq!['o', 'k']));
            b
        },
        Acceptance::SaysNothing => hi == lo,
    }
}

/// A copy of the texts `v`.
fn copy_strings(v: &Vec<String>) -> (r: Vec<String>)
    ensures
        r.deep_view() == v.deep_view(),
{
    let mut r: Vec<String> = Vec::new();
    let mut i: usize = 0;
    while i < v.len()
        invariant
            i <= v.len(),
            r.deep_view() == v.deep_view().take(i as int),
        decreases v.len() - i,
    {
        let ghost before = r.deep_view();
        r.push(v[i].clone());
        assert(r.deep_view() =~= before.push(v@[i as int]@));
        i = i + 1;
    }
    r
}

/// Sets out to run `program` with `args` until its output is accepted under
/// `rule`: at most `MAX_ATTEMPTS` times, with a pause of `PAUSE_SECONDS`
/// after each failed attempt.
pub fn invoke_with_retry(program: String, args: Vec<String>, rule: Acceptance) -> (r: Retry)
    ensures
        r.deep_view() == fresh(program@, args.deep_view(), rule),
{
    Retry { program, args, rule, progress: Progress::Trying { made: 0 } }
}

impl Retry {
    /// What the host is to do next, if anything: see `wanted`.
    pub fn action(&self) -> (a: Option<Action>)
        ensures
            a.deep_view() == wanted(self.deep_view()),
    {
        match &self.progress {
            Progress::Trying { .. } => Some(
                Action::Run { program: self.program.clone(), args: copy_strings(&self.args) },
            ),
            Progress::Pausing { .. } => Some(Action::Sleep { seconds: PAUSE_SECONDS }),
            _ => None,
        }
    }

    /// Takes the host's answer to the action asked for: see `answered`.
    pub fn advance(self, event: Event) -> (r: Retry)
        ensures
            r.deep_view() == answered(self.deep_view(), event.deep_view()),
    {
        let Retry { program, args, rule, progress } = self;
        let next = match progress {
            Progress::Trying { made } => {
                let count: u8 = if made < MAX_ATTEMPTS {
                    made + 1
                } else {
                    MAX_ATTEMPTS
                };
                match event {
                    Event::Text(output) => {
                        let chars = to_chars(output.as_str());
                        let (a, b) = trim_bounds(&chars, 0, chars.len());
                        assert(chars@.subrange(0, chars.len() as int) =~= chars@);
                        if accepts(rule, &chars, a, b) {
                            Progress::Succeeded
                        } else {
                            Progress::Pausing { made: count, last: to_string(&chars, a, b) }
                        }
                    },
                    Event::Failed(cause) => Progress::Pausing { made: count, last: cause },
                    _ => Progress::Trying { made },
                }
            },
            Progress::Pausing { made, last } => match event {
                Event::Done => if made >= MAX_ATTEMPTS {
                    Progress::Exhausted { last }
                } else {
                    Progress::Trying { made }
                },
                _ => Progress::Pausing { made, last },
            },
            Progress::Succeeded => Progress::Succeeded,
            Progress::Exhausted { last } => Progress::Exhausted { last },
        };
        Retry { program, args, rule, progress: next }
    }

    /// How the run has ended, if it has: see `verdict`.
    pub fn outcome(&self) -> (r: Option<Result<(), ThemeError>>)
        ensures
            match verdict(self.deep_view()) {
                None => r is None,
                Some(Ok(())) => r == Some(Ok::<(), ThemeError>(())),
                Some(Err(error)) => r matches Some(Err(e)) && e@ == error,
            },
    {
        match &self.progress {
            Progress::Succeeded => Some(Ok(())),
            Progress::Exhausted { last } => Some(
                Err(ThemeError::ExhaustedRetries { last: last.clone() }),
            ),
            _ => None,
        }
    }
}

/// Whether the host's answer to an attempt is a failed attempt.
pub open spec fn fails(rule: Acceptance, event: EventView) -> bool {
    match event {
        EventView::Text(output) => !accepted(rule, output),
        EventView::Failed(_) => true,
        _ => false,
    }
}

/// What the host is asked to do, in order, and where the run `r` ends, when
/// the attempts are answered by `outcomes` one after the other and every
/// pause is taken.
pub open spec fn course(r: RetryView, outcomes: Seq<EventView>) -> (Seq<ActionView>, RetryView)
    decreases outcomes.len(), (if r.progress is Pausing {
        1nat
    } else {
        0nat
    }),
{
    match r.progress {
        ProgressView::Trying { .. } => if outcomes.len() == 0 {
            (seq![], r)
        } else {
            let (rest, end) = course(answered(r, outcomes[0]), outcomes.skip(1));
            (seq![ActionView::Run { program: r.program, args: r.args }] + rest, end)
        },
        ProgressView::Pausing { .. } => {
            let (rest, end) = course(answered(r, EventView::Done), outcomes);
            (seq![ActionView::Sleep { seconds: PAUSE_SECONDS }] + rest, end)
        },
        _ => (seq![], r),
    }
}

/// `n` times: the command is run, then the pause is taken.
pub open spec fn rounds(program: Seq<char>, args: Seq<Seq<char>>, n: nat) -> Seq<ActionView>
    decreases n,
{
    if n == 0 {
        seq![]
    } else {
        seq![ActionView::Run { program, args }, ActionView::Sleep { seconds: PAUSE_SECONDS }]
            + rounds(program, args, (n - 1) as nat)
    }
}

proof fn lemma_failing_course(r: RetryView, outcomes: Seq<EventView>, n: nat)
    requires
        r.progress matches ProgressView::Trying { made } && made + n == MAX_ATTEMPTS,
        1 <= n <= outcomes.len(),
        forall|i: int| 0 <= i < n ==> fails(r.rule, #[trigger] outcomes[i]),
    ensures
        course(r, outcomes) == (
            rounds(r.program, r.args, n),
            RetryView { progress: ProgressView::Exhausted { last: residue(outcomes[n - 1]) }, ..r },
        ),
    decreases n,
{
    let failed = answered(r, outcomes[0]);
    let rested = answered(failed, EventView::Done);
    let pause = ActionView::Sleep { seconds: PAUSE_SECONDS };
    assert(course(failed, outcomes.skip(1)).0 == seq![pause] + course(
        rested,
        outcomes.skip(1),
    ).0);
    if n == 1 {
        assert(rounds(r.program, r.args, 0) =~= Seq::<ActionView>::empty());
    } else {
        assert forall|i: int| 0 <= i < n - 1 implies fails(
            rested.rule,
            #[trigger] outcomes.skip(1)[i],
        ) by {}
        lemma_failing_course(rested, outcomes.skip(1), (n - 1) as nat);
    }
}

/// A command whose output is never accepted is run exactly `MAX_ATTEMPTS`
/// times, with a pause of `PAUSE_SECONDS` after each attempt, and the run
/// then ends in `ExhaustedRetries` with what the last attempt left; what
/// the command would yield after that is never asked for.
pub proof fn law_exhausted_when_never_accepted(
    program: Seq<char>,
    args: Seq<Seq<char>>,
    rule: Acceptance,
    outcomes: Seq<EventView>,
)
    requires
        outcomes.len() >= MAX_ATTEMPTS,
        forall|i: int| 0 <= i < MAX_ATTEMPTS ==> fails(rule, #[trigger] outcomes[i]),
    ensures
        course(fresh(program, args, rule), outcomes).0 == rounds(program, args, MAX_ATTEMPTS as nat),
        course(fresh(program, args, rule), outcomes).0.len() == 2 * MAX_ATTEMPTS,
        verdict(course(fresh(program, args, rule), outcomes).1) == Some(
            Err::<(), ThemeErrorView>(
                ThemeErrorView::ExhaustedRetries { last: residue(outcomes[MAX_ATTEMPTS - 1]) },
            ),
        ),
{
    lemma_failing_course(fresh(program, args, rule), outcomes, MAX_ATTEMPTS as nat);
    reveal_with_fuel(rounds, 6);
}

/// The first accepted output ends the run at once, in success: nothing more
/// is asked of the host.
pub proof fn law_accepted_output_ends_the_run(r: RetryView, output: Seq<char>)
    requires
        r.progress is Trying,
        accepted(r.rule, output),
    ensures
        verdict(answered(r, EventView::Text(output))) == Some(Ok::<(), ThemeErrorView>(())),
        wanted(answered(r, EventView::Text(output))) is None,
{
}

} // verus!
