//! Running a planned transfer. The engine decides; its caller acts. The caller
//! tells the engine what happened, and the engine answers with what to do
//! next: run a leg, or end the transfer with its outcome.

use vstd::prelude::*;
use vstd::string::*;

use crate::error::{TransferError, TransferErrorView};
use crate::transfer::{DirectPath, TransferPath, TransferPathView};

verus! {

/// One leg of a transfer: a move of the data without a stop.
#[derive(Clone, Debug)]
pub struct Leg {
    /// Where the leg reads.
    pub source: String,
    /// Where the leg writes.
    pub destination: String,
    /// How the data moves.
    pub path: DirectPath,
    /// Whether the leg reads temporary storage, with the options for that.
    pub reads_temporary: bool,
    /// Whether the leg writes temporary storage, with the options for that.
    pub writes_temporary: bool,
}

/// The mathematical value of a [`Leg`].
pub struct LegView {
    pub source: Seq<char>,
    pub destination: Seq<char>,
    pub path: DirectPath,
    pub reads_temporary: bool,
    pub writes_temporary: bool,
}

impl View for Leg {
    type V = LegView;

    open spec fn view(&self) -> LegView {
        LegView {
            source: self.source@,
            destination: self.destination@,
            path: self.path,
            reads_temporary: self.reads_temporary,
            writes_temporary: self.writes_temporary,
        }
    }
}

/// The values of `legs`, in order.
pub open spec fn leg_views(legs: Seq<Leg>) -> Seq<LegView> {
    Seq::new(legs.len(), |i: int| legs[i]@)
}

/// The legs of a transfer from `source` to `destination` on `path`, in the
/// order in which they run: one leg on a path without a stop; on a staged
/// path the leg into temporary storage, then the leg out of it.
pub open spec fn legs_of(path: TransferPathView, source: Seq<char>, destination: Seq<char>) -> Seq<
    LegView,
> {
    match path {
        TransferPathView::Remote => seq![
            LegView {
                source,
                destination,
                path: DirectPath::Remote,
                reads_temporary: false,
                writes_temporary: false,
            },
        ],
        TransferPathView::Streaming => seq![
            LegView {
                source,
                destination,
                path: DirectPath::Streaming,
                reads_temporary: false,
                writes_temporary: false,
            },
        ],
        TransferPathView::Staged { temporary, first, second } => seq![
            LegView {
                source,
                destination: temporary,
                path: first,
                reads_temporary: false,
                writes_temporary: true,
            },
            LegView {
                source: temporary,
                destination,
                path: second,
                reads_temporary: true,
                writes_temporary: false,
            },
        ],
    }
}

/// The legs of a transfer from `source` to `destination` on `path`.
pub fn legs(path: &TransferPath, source: &str, destination: &str) -> (r: Vec<Leg>)
    ensures
        leg_views(r@) == legs_of(path@, source@, destination@),
{
    let mut legs: Vec<Leg> = Vec::new();
    match path {
        TransferPath::Remote => {
            legs.push(
                Leg {
                    source: String::from_str(source),
                    destination: String::from_str(destination),
                    path: DirectPath::Remote,
                    reads_temporary: false,
                    writes_temporary: false,
                },
            );
        },
        TransferPath::Streaming => {
            legs.push(
                Leg {
                    source: String::from_str(source),
                    destination: String::from_str(destination),
                    path: DirectPath::Streaming,
                    reads_temporary: false,
                    writes_temporary: false,
                },
            );
        },
        TransferPath::Staged { temporary, first, second } => {
            legs.push(
                Leg {
                    source: String::from_str(source),
                    destination: temporary.clone(),
                    path: *first,
                    reads_temporary: false,
                    writes_temporary: true,
                },
            );
            legs.push(
                Leg {
                    source: temporary.clone(),
                    destination: String::from_str(destination),
                    path: *second,
                    reads_temporary: true,
                    writes_temporary: false,
                },
            );
        },
    }
    legs
}

/// Where a transfer stands.
#[derive(Clone, Copy, Debug, PartialEq, Eq, Structural)]
pub enum Progress {
    /// No leg has started.
    Ready,
    /// The leg with this index runs.
    Running(usize),
    /// The transfer has ended and its outcome was handed out.
    Finished,
}

/// What the caller tells the engine.
#[derive(Clone, Debug)]
pub enum Event {
    /// The transfer may begin.
    Start,
    /// The running leg has completed.
    LegCompleted,
    /// The running leg has failed; this is the backend's message.
    LegFailed(String),
    /// The transfer was cancelled.
    Cancelled,
}

/// The mathematical value of an [`Event`].
pub enum EventView {
    Start,
    LegCompleted,
    LegFailed(Seq<char>),
    Cancelled,
}

impl View for Event {
    type V = EventView;

    open spec fn view(&self) -> EventView {
        match self {
            Event::Start => EventView::Start,
            Event::LegCompleted => EventView::LegCompleted,
            Event::LegFailed(message) => EventView::LegFailed(message@),
            Event::Cancelled => EventView::Cancelled,
        }
    }
}

/// What the engine tells the caller to do.
#[derive(Clone, Debug)]
pub enum Action {
    /// Run the leg with this index, and report how it ended.
    Run(usize),
    /// End the transfer: it succeeded.
    Succeed,
    /// End the transfer with this failure, after giving up what is in flight.
    Fail(TransferError),
    /// Nothing: the event changes nothing.
    Ignore,
}

/// The mathematical value of an [`Action`].
pub enum ActionView {
    Run(usize),
    Succeed,
    Fail(TransferErrorView),
    Ignore,
}

impl View for Action {
    type V = ActionView;

    open spec fn view(&self) -> ActionView {
        match self {
            Action::Run(leg) => ActionView::Run(*leg),
            Action::Succeed => ActionView::Succeed,
            Action::Fail(e) => ActionView::Fail(e@),
            Action::Ignore => ActionView::Ignore,
        }
    }
}

/// What an event leads to in a transfer of `legs` legs that stands at
/// `progress`: where the transfer stands then, and what the caller is to do.
///
/// The legs run one after the other, each after the one before it has
/// completed. The first failure ends the transfer, and so does a
/// cancellation. Once the transfer has ended, every event is ignored, so an
/// outcome is handed out once.
pub open spec fn step(progress: Progress, legs: usize, event: EventView) -> (Progress, ActionView) {
    match (progress, event) {
        (Progress::Finished, _) => (Progress::Finished, ActionView::Ignore),
        (_, EventView::Cancelled) => (
            Progress::Finished,
            ActionView::Fail(TransferErrorView::Cancelled),
        ),
        (Progress::Ready, EventView::Start) => if legs > 0 {
            (Progress::Running(0), ActionView::Run(0))
        } else {
            (Progress::Finished, ActionView::Succeed)
        },
        (Progress::Running(leg), EventView::LegCompleted) => if leg + 1 < legs {
            (Progress::Running((leg + 1) as usize), ActionView::Run((leg + 1) as usize))
        } else {
            (Progress::Finished, ActionView::Succeed)
        },
        (Progress::Running(_), EventView::LegFailed(message)) => (
            Progress::Finished,
            ActionView::Fail(TransferErrorView::Driver(message)),
        ),
        _ => (progress, ActionView::Ignore),
    }
}

/// A transfer that is run leg by leg.
#[derive(Debug)]
pub struct Engine {
    legs: usize,
    progress: Progress,
}

impl Engine {
    /// A running leg is a leg of the transfer.
    #[verifier::type_invariant]
    spec fn running_leg_exists(self) -> bool {
        self.progress matches Progress::Running(leg) ==> leg < self.legs
    }

    /// The number of legs of the transfer.
    pub closed spec fn leg_count(&self) -> usize {
        self.legs
    }

    /// Where the transfer stands.
    pub closed spec fn spec_progress(&self) -> Progress {
        self.progress
    }

    /// What holds of every engine: a running leg is a leg of the transfer.
    pub open spec fn wf(&self) -> bool {
        self.spec_progress() matches Progress::Running(leg) ==> leg < self.leg_count()
    }

    /// The engine for a transfer of `legs` legs, none of which has started.
    pub fn new(legs: usize) -> (r: Self)
        ensures
            r.wf(),
            r.leg_count() == legs,
            r.spec_progress() == Progress::Ready,
    {
        Engine { legs, progress: Progress::Ready }
    }

    /// Where the transfer stands.
    pub fn progress(&self) -> (r: Progress)
        ensures
            r == self.spec_progress(),
    {
        self.progress
    }

    /// Takes in `event` and says what to do next.
    pub fn handle(&mut self, event: Event) -> (r: Action)
        ensures
            final(self).wf(),
            final(self).leg_count() == old(self).leg_count(),
            (final(self).spec_progress(), r@) == step(
                old(self).spec_progress(),
                old(self).leg_count(),
                event@,
            ),
    {
        proof {
            use_type_invariant(&*self);
        }
        match self.progress {
            Progress::Finished => Action::Ignore,
            Progress::Ready => match event {
                Event::Cancelled => {
                    self.progress = Progress::Finished;
                    Action::Fail(TransferError::Cancelled)
                },
                Event::Start => {
                    if self.legs > 0 {
                        self.progress = Progress::Running(0);
                        Action::Run(0)
                    } else {
                        self.progress = Progress::Finished;
                        Action::Succeed
                    }
                },
                _ => Action::Ignore,
            },
            Progress::Running(leg) => match event {
                Event::Cancelled => {
                    self.progress = Progress::Finished;
                    Action::Fail(TransferError::Cancelled)
                },
                Event::LegCompleted => {
                    if leg + 1 < self.legs {
                        self.progress = Progress::Running(leg + 1);
                        Action::Run(leg + 1)
                    } else {
                        self.progress = Progress::Finished;
                        Action::Succeed
                    }
                },
                Event::LegFailed(message) => {
                    self.progress = Progress::Finished;
                    Action::Fail(TransferError::Driver(message))
                },
                Event::Start => Action::Ignore,
            },
        }
    }
}

/// The outcome of a transfer is handed out once: after the event that ends
/// it, no event leads to anything.
pub proof fn lemma_outcome_once(progress: Progress, legs: usize, first: EventView, later: EventView)
    ensures
        step(progress, legs, first).0 is Finished ==> step(
            step(progress, legs, first).0,
            legs,
            later,
        ) == (Progress::Finished, ActionView::Ignore),
        first is Cancelled && !(progress is Finished) ==> step(progress, legs, first) == (
            Progress::Finished,
            ActionView::Fail(TransferErrorView::Cancelled),
        ),
{
}

/// The failure of the first of `outcomes` that failed, if any did.
pub open spec fn first_failure(outcomes: Seq<Result<(), TransferErrorView>>) -> Result<
    (),
    TransferErrorView,
>
    decreases outcomes.len(),
{
    if outcomes.len() == 0 {
        Ok(())
    } else if outcomes.first() is Err {
        outcomes.first()
    } else {
        first_failure(outcomes.drop_first())
    }
}

/// The values of `outcomes`, in order.
pub open spec fn outcome_views(outcomes: Seq<Result<(), TransferError>>) -> Seq<
    Result<(), TransferErrorView>,
> {
    Seq::new(
        outcomes.len(),
        |i: int|
            match outcomes[i] {
                Ok(()) => Ok(()),
                Err(e) => Err(e@),
            },
    )
}

/// The outcome of a leg whose streams ended with `outcomes`, given in the
/// order in which the streams were handed over: the first failure, or
/// success if no stream failed.
pub fn surface_first_failure(outcomes: Vec<Result<(), TransferError>>) -> (r: Result<
    (),
    TransferError,
>)
    ensures
        match r {
            Ok(()) => first_failure(outcome_views(outcomes@)) is Ok,
            Err(e) => first_failure(outcome_views(outcomes@)) == Err::<(), TransferErrorView>(e@),
        },
{
    let ghost all = outcome_views(outcomes@);
    let mut rest = outcomes;
    let mut found: Result<(), TransferError> = Ok(());
    while rest.len() > 0
        invariant
            rest.len() <= all.len(),
            outcome_views(rest@) == all.take(rest.len() as int),
            match found {
                Ok(()) => first_failure(all.skip(rest.len() as int)) is Ok,
                Err(e) => first_failure(all.skip(rest.len() as int)) == Err::<
                    (),
                    TransferErrorView,
                >(e@),
            },
        decreases rest.len(),
    {
        let ghost before = rest@;
        let ghost n = rest.len() as int;
        let last = rest.pop();
        proof {
            let tail = all.skip(n - 1);
            assert(tail.drop_first() =~= all.skip(n));
            assert(all[n - 1] == outcome_views(before)[n - 1]);
        }
        match last {
            Some(Err(e)) => {
                found = Err(e);
            },
            _ => {},
        }
    }
    assert(all.skip(0) =~= all);
    found
}

} // verus!
