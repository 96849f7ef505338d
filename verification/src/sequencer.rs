//! The lifecycle of one evaluation: four steps in a fixed order, the first
//! failure ends it.
//!
//! The steps themselves are outside work. The caller performs the step that
//! [`Evaluation::next_action`] names and hands its outcome to
//! [`Evaluation::advance`], until no step is left.

use vstd::prelude::*;

verus! {

/// One step of the lifecycle.
#[derive(Clone, Copy, Debug, PartialEq, Eq, Structural)]
pub enum Step {
    /// Execute the reserved module as the program's entry point.
    ExecuteModule,
    /// Dispatch the "load" signal into the module's global scope.
    DispatchLoad,
    /// Drain what the earlier steps deferred.
    RunEventLoop,
    /// Dispatch the "unload" signal.
    DispatchUnload,
}

/// What the engine is asked to do for a step.
#[derive(Debug)]
pub enum Action {
    /// Execute the module staged under the reserved identity.
    ExecuteModule,
    /// Execute this statement synchronously.
    Execute(String),
    /// Run the event loop until nothing is pending; the flag says whether to
    /// wait for long-lived handles as well.
    RunEventLoop(bool),
}

/// An [`Action`] with its statement as a sequence of characters.
pub enum ActionView {
    ExecuteModule,
    Execute(Seq<char>),
    RunEventLoop(bool),
}

impl View for Action {
    type V = ActionView;

    open spec fn view(&self) -> ActionView {
        match self {
            Action::ExecuteModule => ActionView::ExecuteModule,
            Action::Execute(statement) => ActionView::Execute(statement@),
            Action::RunEventLoop(wait) => ActionView::RunEventLoop(*wait),
        }
    }
}

/// Where one evaluation stands.
#[derive(Debug)]
pub enum Evaluation {
    /// This step is the next to perform.
    Pending(Step),
    /// All four steps succeeded.
    Succeeded,
    /// A step failed with this description; nothing was performed after it.
    Failed(String),
}

/// An [`Evaluation`] with its failure text as a sequence of characters.
pub enum Progress {
    Pending(Step),
    Succeeded,
    Failed(Seq<char>),
}

impl View for Evaluation {
    type V = Progress;

    open spec fn view(&self) -> Progress {
        match self {
            Evaluation::Pending(step) => Progress::Pending(*step),
            Evaluation::Succeeded => Progress::Succeeded,
            Evaluation::Failed(text) => Progress::Failed(text@),
        }
    }
}

/// The statement that dispatches the "load" signal.
pub open spec fn load_statement() -> Seq<char> {
    "window.dispatchEvent(new Event('load'))"@
}

/// The statement that dispatches the "unload" signal.
pub open spec fn unload_statement() -> Seq<char> {
    "window.dispatchEvent(new Event('unload'))"@
}

/// The four steps in the order in which they run.
pub open spec fn lifecycle() -> Seq<Step> {
    seq![Step::ExecuteModule, Step::DispatchLoad, Step::RunEventLoop, Step::DispatchUnload]
}

/// The step that follows a step, if one does.
pub open spec fn successor_of(step: Step) -> Option<Step> {
    match step {
        Step::ExecuteModule => Some(Step::DispatchLoad),
        Step::DispatchLoad => Some(Step::RunEventLoop),
        Step::RunEventLoop => Some(Step::DispatchUnload),
        Step::DispatchUnload => None,
    }
}

/// What the engine is asked to do for a step. The event loop is never told to
/// wait for long-lived handles.
pub open spec fn action_of(step: Step) -> ActionView {
    match step {
        Step::ExecuteModule => ActionView::ExecuteModule,
        Step::DispatchLoad => ActionView::Execute(load_statement()),
        Step::RunEventLoop => ActionView::RunEventLoop(false),
        Step::DispatchUnload => ActionView::Execute(unload_statement()),
    }
}

/// A step's outcome with its failure text as a sequence of characters.
pub open spec fn outcome_view(outcome: Result<(), String>) -> Result<(), Seq<char>> {
    match outcome {
        Ok(_) => Ok(()),
        Err(text) => Err(text@),
    }
}

/// The state after the pending step ended with `outcome`. A finished
/// evaluation stays as it is.
pub open spec fn advance_spec(progress: Progress, outcome: Result<(), Seq<char>>) -> Progress {
    match progress {
        Progress::Pending(step) => match outcome {
            Ok(_) => match successor_of(step) {
                Some(next) => Progress::Pending(next),
                None => Progress::Succeeded,
            },
            Err(text) => Progress::Failed(text),
        },
        Progress::Succeeded => Progress::Succeeded,
        Progress::Failed(text) => Progress::Failed(text),
    }
}

/// The state of a fresh evaluation after it was handed `outcomes` one by one.
pub open spec fn replay(outcomes: Seq<Result<(), Seq<char>>>) -> Progress
    decreases outcomes.len(),
{
    if outcomes.len() == 0 {
        Progress::Pending(Step::ExecuteModule)
    } else {
        advance_spec(replay(outcomes.drop_last()), outcomes.last())
    }
}

/// The steps that were performed while a fresh evaluation was handed
/// `outcomes` one by one: an outcome counts for the step that was pending when
/// it came, and for none once the evaluation is finished.
pub open spec fn performed(outcomes: Seq<Result<(), Seq<char>>>) -> Seq<Step>
    decreases outcomes.len(),
{
    if outcomes.len() == 0 {
        Seq::empty()
    } else {
        match replay(outcomes.drop_last()) {
            Progress::Pending(step) => performed(outcomes.drop_last()).push(step),
            _ => performed(outcomes.drop_last()),
        }
    }
}

/// What the caller of a finished evaluation gets: the empty text on success,
/// the failure's description otherwise. An unfinished one has no result.
pub open spec fn result_of(progress: Progress) -> Option<Result<Seq<char>, Seq<char>>> {
    match progress {
        Progress::Pending(_) => None,
        Progress::Succeeded => Some(Ok(Seq::empty())),
        Progress::Failed(text) => Some(Err(text)),
    }
}

impl Step {
    /// The step that follows this one, if one does.
    pub fn successor(self) -> (next: Option<Step>)
        ensures
            next == successor_of(self),
    {
        match self {
            Step::ExecuteModule => Some(Step::DispatchLoad),
            Step::DispatchLoad => Some(Step::RunEventLoop),
            Step::RunEventLoop => Some(Step::DispatchUnload),
            Step::DispatchUnload => None,
        }
    }

    /// What the engine is asked to do for this step.
    pub fn action(self) -> (action: Action)
        ensures
            action@ == action_of(self),
    {
        match self {
            Step::ExecuteModule => Action::ExecuteModule,
            Step::DispatchLoad => Action::Execute(
                "window.dispatchEvent(new Event('load'))".to_string(),
            ),
            Step::RunEventLoop => Action::RunEventLoop(false),
            Step::DispatchUnload => Action::Execute(
                "window.dispatchEvent(new Event('unload'))".to_string(),
            ),
        }
    }
}

impl Evaluation {
    /// A fresh evaluation: the module is yet to be executed.
    pub fn start() -> (evaluation: Evaluation)
        ensures
            evaluation@ == replay(Seq::empty()),
            evaluation@ == Progress::Pending(Step::ExecuteModule),
    {
        Evaluation::Pending(Step::ExecuteModule)
    }

    /// What to perform next; `None` once the evaluation is finished.
    pub fn next_action(&self) -> (action: Option<Action>)
        ensures
            match self@ {
                Progress::Pending(step) => action matches Some(a) && a@ == action_of(step),
                _ => action is None,
            },
    {
        match self {
            Evaluation::Pending(step) => Some(step.action()),
            _ => None,
        }
    }

    /// Takes the outcome of the pending step: on success the next step becomes
    /// pending, or the evaluation has succeeded if it was the last; on failure
    /// the evaluation has failed with the outcome's text. A finished
    /// evaluation ignores the outcome.
    pub fn advance(self, outcome: Result<(), String>) -> (next: Evaluation)
        ensures
            next@ == advance_spec(self@, outcome_view(outcome)),
    {
        match self {
            Evaluation::Pending(step) => match outcome {
                Ok(_) => match step.successor() {
                    Some(following) => Evaluation::Pending(following),
                    None => Evaluation::Succeeded,
                },
                Err(text) => Evaluation::Failed(text),
            },
            Evaluation::Succeeded => Evaluation::Succeeded,
            Evaluation::Failed(text) => Evaluation::Failed(text),
        }
    }

    /// Whether no step is left to perform.
    pub fn is_finished(&self) -> (finished: bool)
        ensures
            finished == !(self@ is Pending),
    {
        match self {
            Evaluation::Pending(_) => false,
            _ => true,
        }
    }

    /// The result of a finished evaluation: the empty text on success, the
    /// failure's description otherwise; `None` while a step is pending.
    pub fn result(self) -> (result: Option<Result<String, String>>)
        ensures
            match result_of(self@) {
                None => result is None,
                Some(Ok(text)) => result matches Some(Ok(r)) && r@ == text,
                Some(Err(text)) => result matches Some(Err(r)) && r@ == text,
            },
    {
        match self {
            Evaluation::Pending(_) => None,
            Evaluation::Succeeded => Some(Ok(String::new())),
            Evaluation::Failed(text) => Some(Err(text)),
        }
    }
}

/// As long as every step succeeds, the steps run in the order of the
/// lifecycle: after `n` successes the step at position `n` is pending, and
/// after four the evaluation has succeeded.
pub proof fn lemma_successes(outcomes: Seq<Result<(), Seq<char>>>)
    requires
        outcomes.len() <= 4,
        forall|i: int| 0 <= i < outcomes.len() ==> outcomes[i] is Ok,
    ensures
        outcomes.len() < 4 ==> replay(outcomes) == Progress::Pending(
            lifecycle()[outcomes.len() as int],
        ),
        outcomes.len() == 4 ==> replay(outcomes) == Progress::Succeeded,
        performed(outcomes) == lifecycle().take(outcomes.len() as int),
    decreases outcomes.len(),
{
    if outcomes.len() > 0 {
        lemma_successes(outcomes.drop_last());
        assert(outcomes.last() is Ok);
        assert(performed(outcomes) =~= lifecycle().take(outcomes.len() as int));
    } else {
        assert(performed(outcomes) =~= lifecycle().take(0));
    }
}

/// A finished evaluation stays as it is, whatever it is handed afterwards, and
/// nothing more is performed.
pub proof fn lemma_finished_stays(outcomes: Seq<Result<(), Seq<char>>>, n: int)
    requires
        0 <= n <= outcomes.len(),
        !(replay(outcomes.take(n)) is Pending),
    ensures
        replay(outcomes) == replay(outcomes.take(n)),
        performed(outcomes) == performed(outcomes.take(n)),
    decreases outcomes.len() - n,
{
    if n == outcomes.len() {
        assert(outcomes.take(n) =~= outcomes);
    } else {
        assert(outcomes.drop_last().take(n) =~= outcomes.take(n));
        lemma_finished_stays(outcomes.drop_last(), n);
    }
}

/// Lifecycle order: when the four steps succeed, exactly the module's
/// execution, the "load" signal, the event loop and the "unload" signal are
/// performed, in this order, and the evaluation has succeeded with the empty
/// text. Outcomes handed in after that change nothing.
pub proof fn lemma_lifecycle_order(outcomes: Seq<Result<(), Seq<char>>>)
    requires
        outcomes.len() >= 4,
        forall|i: int| 0 <= i < 4 ==> outcomes[i] is Ok,
    ensures
        performed(outcomes) == lifecycle(),
        replay(outcomes) == Progress::Succeeded,
        result_of(replay(outcomes)) == Some(Ok::<Seq<char>, Seq<char>>(Seq::empty())),
{
    lemma_successes(outcomes.take(4));
    lemma_finished_stays(outcomes, 4);
    assert(lifecycle().take(4) =~= lifecycle());
}

/// The first failure wins: when the steps before position `k` succeed and the
/// step at `k` fails, the evaluation has failed with that step's text, the
/// steps up to and including `k` were performed and none after it, whatever
/// is handed in afterwards.
pub proof fn lemma_first_failure_wins(outcomes: Seq<Result<(), Seq<char>>>, k: int)
    requires
        0 <= k < 4,
        k < outcomes.len(),
        forall|i: int| 0 <= i < k ==> outcomes[i] is Ok,
        outcomes[k] is Err,
    ensures
        replay(outcomes) == Progress::Failed(outcomes[k]->Err_0),
        result_of(replay(outcomes)) == Some(Err::<Seq<char>, Seq<char>>(outcomes[k]->Err_0)),
        performed(outcomes) == lifecycle().take(k + 1),
{
    let upto = outcomes.take(k + 1);
    assert(upto.drop_last() =~= outcomes.take(k));
    assert(upto.last() == outcomes[k]);
    lemma_successes(outcomes.take(k));
    assert(replay(upto) == Progress::Failed(outcomes[k]->Err_0));
    assert(performed(upto) =~= lifecycle().take(k + 1));
    lemma_finished_stays(outcomes, k + 1);
}

/// Whatever the outcomes are, the steps performed are a prefix of the
/// lifecycle: no step is skipped, repeated or taken out of order.
pub proof fn lemma_performed_in_order(outcomes: Seq<Result<(), Seq<char>>>)
    ensures
        performed(outcomes).len() <= 4,
        performed(outcomes) == lifecycle().take(performed(outcomes).len() as int),
        replay(outcomes) matches Progress::Pending(step) ==> performed(outcomes).len() < 4
            && lifecycle()[performed(outcomes).len() as int] == step,
        replay(outcomes) is Succeeded ==> performed(outcomes).len() == 4,
    decreases outcomes.len(),
{
    if outcomes.len() > 0 {
        lemma_performed_in_order(outcomes.drop_last());
        assert(performed(outcomes) =~= lifecycle().take(performed(outcomes).len() as int));
    } else {
        assert(performed(outcomes) =~= lifecycle().take(0));
    }
}

} // verus!
