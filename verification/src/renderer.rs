use vstd::prelude::*;
use crate::error::RenderError;

verus! {

/// Where a render attempt stands. The states are passed in this order and
/// never entered twice.
#[derive(Clone, Copy, Debug, PartialEq, Eq, Structural)]
pub enum RenderState {
    Uninitialized,
    DeviceReady,
    PipelineReady,
    Recorded,
    Submitted,
    Copied,
    Encoded,
    TornDown,
}

/// A native object the renderer owns once it has been acquired.
#[derive(Clone, Copy, Debug, PartialEq, Eq, Structural)]
pub enum Resource {
    Instance,
    Device,
    ShaderModule,
    PipelineLayout,
    TargetImage,
    TargetMemory,
    TargetView,
    RenderPass,
    Pipeline,
    Framebuffer,
    CommandPool,
    Fence,
    StagingImage,
    StagingMemory,
    HostMapping,
}

/// Work that acquires nothing that has to be released.
#[derive(Clone, Copy, Debug, PartialEq, Eq, Structural)]
pub enum Operation {
    SelectDevice,
    BindTargetMemory,
    RecordDraw,
    SubmitDraw,
    WaitIdle,
    BindStagingMemory,
    RecordCopy,
    SubmitCopy,
    EncodeImage,
    WriteImage,
}

/// One link of the acquisition chain.
#[derive(Clone, Copy, Debug, PartialEq, Eq, Structural)]
pub enum Step {
    Acquire(Resource),
    Perform(Operation),
}

/// How the step handed out last ended.
#[derive(Clone, Copy, Debug, PartialEq, Eq, Structural)]
pub enum Event {
    Succeeded,
    /// A backend call of the step failed with this code.
    BackendFailed(i32),
    /// A component of this library refused to go on.
    Failed(RenderError),
}

/// What the caller has to do next.
#[derive(Clone, Debug, PartialEq, Eq)]
pub enum Action {
    /// Carry out the step and report how it ended.
    Execute(Step),
    /// Release these resources, in this order, and report when that is done.
    Release(Vec<Resource>),
    /// The renderer is torn down; there is nothing left to do.
    Halt,
}

/// The number of steps from a fresh renderer to an encoded image.
pub const PLAN_LEN: usize = 25;

/// The chain of steps, by position.
pub open spec fn plan_step(index: int) -> Step {
    if index == 0 {
        Step::Acquire(Resource::Instance)
    } else if index == 1 {
        Step::Perform(Operation::SelectDevice)
    } else if index == 2 {
        Step::Acquire(Resource::Device)
    } else if index == 3 {
        Step::Acquire(Resource::ShaderModule)
    } else if index == 4 {
        Step::Acquire(Resource::PipelineLayout)
    } else if index == 5 {
        Step::Acquire(Resource::TargetImage)
    } else if index == 6 {
        Step::Acquire(Resource::TargetMemory)
    } else if index == 7 {
        Step::Perform(Operation::BindTargetMemory)
    } else if index == 8 {
        Step::Acquire(Resource::TargetView)
    } else if index == 9 {
        Step::Acquire(Resource::RenderPass)
    } else if index == 10 {
        Step::Acquire(Resource::Pipeline)
    } else if index == 11 {
        Step::Acquire(Resource::Framebuffer)
    } else if index == 12 {
        Step::Acquire(Resource::CommandPool)
    } else if index == 13 {
        Step::Perform(Operation::RecordDraw)
    } else if index == 14 {
        Step::Acquire(Resource::Fence)
    } else if index == 15 {
        Step::Perform(Operation::SubmitDraw)
    } else if index == 16 {
        Step::Perform(Operation::WaitIdle)
    } else if index == 17 {
        Step::Acquire(Resource::StagingImage)
    } else if index == 18 {
        Step::Acquire(Resource::StagingMemory)
    } else if index == 19 {
        Step::Perform(Operation::BindStagingMemory)
    } else if index == 20 {
        Step::Perform(Operation::RecordCopy)
    } else if index == 21 {
        Step::Perform(Operation::SubmitCopy)
    } else if index == 22 {
        Step::Acquire(Resource::HostMapping)
    } else if index == 23 {
        Step::Perform(Operation::EncodeImage)
    } else {
        Step::Perform(Operation::WriteImage)
    }
}

/// The state reached once the first `completed` steps have succeeded.
pub open spec fn state_after(completed: int) -> RenderState {
    if completed < 3 {
        RenderState::Uninitialized
    } else if completed < 13 {
        RenderState::DeviceReady
    } else if completed < 14 {
        RenderState::PipelineReady
    } else if completed < 17 {
        RenderState::Recorded
    } else if completed < 22 {
        RenderState::Submitted
    } else if completed < 25 {
        RenderState::Copied
    } else {
        RenderState::Encoded
    }
}

/// The resources held once the first `completed` steps have succeeded, in
/// the order in which they were acquired.
pub open spec fn acquired_by(completed: nat) -> Seq<Resource>
    decreases completed,
{
    if completed == 0 {
        Seq::empty()
    } else {
        let earlier = acquired_by((completed - 1) as nat);
        match plan_step(completed - 1) {
            Step::Acquire(resource) => earlier.push(resource),
            Step::Perform(_) => earlier,
        }
    }
}

/// The error that `event` stands for when it ends `step`; none for success.
/// A backend code counts as a pipeline-creation failure where the shader
/// binary or its entry points are handed to the backend, and as a plain
/// backend failure everywhere else.
pub open spec fn failure_of(step: Step, event: Event) -> Option<RenderError> {
    match event {
        Event::Succeeded => None,
        Event::Failed(error) => Some(error),
        Event::BackendFailed(code) => match step {
            Step::Acquire(Resource::ShaderModule) => Some(RenderError::PipelineCreation(code)),
            Step::Acquire(Resource::Pipeline) => Some(RenderError::PipelineCreation(code)),
            _ => Some(RenderError::BackendCallFailed(code)),
        },
    }
}

/// The renderer as a mathematical value.
pub struct RendererView {
    /// How many steps of the chain have succeeded.
    pub completed: nat,
    pub torn_down: bool,
    /// The resources held, oldest first.
    pub acquired: Seq<Resource>,
    /// The error that ended the attempt, if one did.
    pub failure: Option<RenderError>,
}

impl RendererView {
    pub open spec fn state(self) -> RenderState {
        if self.torn_down {
            RenderState::TornDown
        } else {
            state_after(self.completed as int)
        }
    }

    /// A step of the chain is waiting for its outcome.
    pub open spec fn is_live(self) -> bool {
        !self.torn_down && self.completed < PLAN_LEN
    }

    /// A live renderer holds exactly what the steps behind it acquired; one
    /// that has reached the end of the chain or is torn down holds nothing,
    /// and only a failure ends an attempt before the end of the chain.
    pub open spec fn wf(self) -> bool {
        &&& self.completed <= PLAN_LEN
        &&& self.is_live() ==> self.acquired == acquired_by(self.completed)
        &&& !self.is_live() ==> self.acquired.len() == 0
        &&& !self.torn_down ==> self.failure is None
        &&& self.failure is None ==> !self.torn_down || self.completed == PLAN_LEN
    }
}

/// [`Action`] as a mathematical value.
pub enum ActionView {
    Execute(Step),
    Release(Seq<Resource>),
    Halt,
}

impl View for Action {
    type V = ActionView;

    open spec fn view(&self) -> ActionView {
        match *self {
            Action::Execute(step) => ActionView::Execute(step),
            Action::Release(resources) => ActionView::Release(resources@),
            Action::Halt => ActionView::Halt,
        }
    }
}

/// A fresh renderer: nothing done, nothing held.
pub open spec fn initial() -> RendererView {
    RendererView { completed: 0, torn_down: false, acquired: Seq::empty(), failure: None }
}

/// The renderer after `event`, and what it asks for.
///
/// Success moves one step along the chain; with the last step the image is
/// encoded and everything held is handed out for release, newest first. The
/// event after that, which says that the release is done, tears the renderer
/// down. Any failure of a step releases what is held, newest first, and tears
/// the renderer down at once. A torn-down renderer asks for nothing.
pub open spec fn next(v: RendererView, event: Event) -> (RendererView, ActionView) {
    if v.torn_down {
        (v, ActionView::Halt)
    } else if v.completed >= PLAN_LEN {
        (
            RendererView {
                completed: v.completed,
                torn_down: true,
                acquired: Seq::empty(),
                failure: None,
            },
            ActionView::Halt,
        )
    } else {
        let step = plan_step(v.completed as int);
        match event {
            Event::Succeeded => {
                let acquired = match step {
                    Step::Acquire(resource) => v.acquired.push(resource),
                    Step::Perform(_) => v.acquired,
                };
                let completed = v.completed + 1;
                if completed < PLAN_LEN {
                    (
                        RendererView { completed, torn_down: false, acquired, failure: None },
                        ActionView::Execute(plan_step(completed as int)),
                    )
                } else {
                    (
                        RendererView {
                            completed,
                            torn_down: false,
                            acquired: Seq::empty(),
                            failure: None,
                        },
                        ActionView::Release(acquired.reverse()),
                    )
                }
            },
            _ => (
                RendererView {
                    completed: v.completed,
                    torn_down: true,
                    acquired: Seq::empty(),
                    failure: failure_of(step, event),
                },
                ActionView::Release(v.acquired.reverse()),
            ),
        }
    }
}

/// The renderer after the events of `events`, taken in order from a fresh one.
pub open spec fn run(events: Seq<Event>) -> RendererView
    decreases events.len(),
{
    if events.len() == 0 {
        initial()
    } else {
        next(run(events.drop_last()), events.last()).0
    }
}

/// Everything the renderer asked to release while it took `events`, in the
/// order in which it asked.
pub open spec fn released_during(events: Seq<Event>) -> Seq<Resource>
    decreases events.len(),
{
    if events.len() == 0 {
        Seq::empty()
    } else {
        let before = released_during(events.drop_last());
        match next(run(events.drop_last()), events.last()).1 {
            ActionView::Release(resources) => before + resources,
            _ => before,
        }
    }
}

/// The position of a state in the chain of states.
pub open spec fn state_rank(state: RenderState) -> int {
    match state {
        RenderState::Uninitialized => 0,
        RenderState::DeviceReady => 1,
        RenderState::PipelineReady => 2,
        RenderState::Recorded => 3,
        RenderState::Submitted => 4,
        RenderState::Copied => 5,
        RenderState::Encoded => 6,
        RenderState::TornDown => 7,
    }
}

/// The position of a resource in the order of acquisition.
spec fn acquisition_rank(resource: Resource) -> int {
    match resource {
        Resource::Instance => 0,
        Resource::Device => 1,
        Resource::ShaderModule => 2,
        Resource::PipelineLayout => 3,
        Resource::TargetImage => 4,
        Resource::TargetMemory => 5,
        Resource::TargetView => 6,
        Resource::RenderPass => 7,
        Resource::Pipeline => 8,
        Resource::Framebuffer => 9,
        Resource::CommandPool => 10,
        Resource::Fence => 11,
        Resource::StagingImage => 12,
        Resource::StagingMemory => 13,
        Resource::HostMapping => 14,
    }
}

/// How many of the first `completed` steps acquire a resource.
spec fn acquisitions_before(completed: int) -> int {
    if completed <= 0 {
        0
    } else if completed <= 2 {
        1
    } else if completed <= 7 {
        completed - 1
    } else if completed <= 13 {
        completed - 2
    } else if completed <= 14 {
        11
    } else if completed <= 17 {
        12
    } else if completed <= 18 {
        13
    } else if completed <= 22 {
        14
    } else {
        15
    }
}

proof fn lemma_acquired_in_rank_order(completed: nat)
    requires
        completed <= PLAN_LEN,
    ensures
        acquired_by(completed).len() == acquisitions_before(completed as int),
        forall|i: int|
            0 <= i < acquired_by(completed).len() ==> acquisition_rank(
                #[trigger] acquired_by(completed)[i],
            ) == i,
    decreases completed,
{
    if completed > 0 {
        lemma_acquired_in_rank_order((completed - 1) as nat);
    }
}

/// What the first `completed` steps acquired holds no resource twice, and
/// holds a resource exactly if one of those steps acquires it.
pub proof fn lemma_acquired_exactly_once(completed: nat)
    requires
        completed <= PLAN_LEN,
    ensures
        acquired_by(completed).no_duplicates(),
        forall|resource: Resource|
            acquired_by(completed).contains(resource) <==> exists|i: int|
                0 <= i < completed && #[trigger] plan_step(i) == Step::Acquire(resource),
    decreases completed,
{
    lemma_acquired_in_rank_order(completed);
    if completed > 0 {
        let earlier = acquired_by((completed - 1) as nat);
        let now = acquired_by(completed);
        lemma_acquired_exactly_once((completed - 1) as nat);
        assert forall|resource: Resource| now.contains(resource) implies exists|i: int|
            0 <= i < completed && #[trigger] plan_step(i) == Step::Acquire(resource) by {
            let at = choose|at: int| 0 <= at < now.len() && now[at] == resource;
            if at < earlier.len() {
                assert(earlier[at] == resource);
                assert(earlier.contains(resource));
                let i = choose|i: int|
                    0 <= i < completed - 1 && #[trigger] plan_step(i) == Step::Acquire(resource);
                assert(plan_step(i) == Step::Acquire(resource));
            } else {
                assert(plan_step(completed - 1) == Step::Acquire(resource));
            }
        }
        assert forall|resource: Resource|
            (exists|i: int|
                0 <= i < completed && #[trigger] plan_step(i) == Step::Acquire(
                    resource,
                )) implies now.contains(resource) by {
            let i = choose|i: int|
                0 <= i < completed && #[trigger] plan_step(i) == Step::Acquire(resource);
            if i < completed - 1 {
                assert(earlier.contains(resource));
                let at = choose|at: int| 0 <= at < earlier.len() && earlier[at] == resource;
                assert(now[at] == resource);
            } else {
                assert(now[now.len() - 1] == resource);
            }
        }
    }
}

/// A well-formed renderer stays well-formed, whatever is reported to it.
pub proof fn lemma_next_keeps_well_formed(v: RendererView, event: Event)
    requires
        v.wf(),
    ensures
        next(v, event).0.wf(),
{
}

/// A failure at any point before teardown ends the attempt at once. What is
/// released is exactly what the steps before the failing one acquired: every
/// such resource once, the newest first, and nothing else. The renderer keeps
/// nothing, so no later event can release anything again.
pub proof fn lemma_failure_releases_acquired_in_reverse(v: RendererView, event: Event)
    requires
        v.wf(),
        v.is_live(),
        !(event is Succeeded),
    ensures
        next(v, event).0.state() == RenderState::TornDown,
        next(v, event).0.failure == failure_of(plan_step(v.completed as int), event),
        next(v, event).0.failure is Some,
        next(v, event).0.acquired.len() == 0,
        next(v, event).1 == ActionView::Release(acquired_by(v.completed).reverse()),
        acquired_by(v.completed).reverse().no_duplicates(),
        forall|resource: Resource|
            acquired_by(v.completed).reverse().contains(resource) <==> exists|i: int|
                0 <= i < v.completed && #[trigger] plan_step(i) == Step::Acquire(resource),
        forall|later: Event| next(next(v, event).0, later).1 == ActionView::Halt,
{
    let acquired = acquired_by(v.completed);
    lemma_acquired_exactly_once(v.completed);
    lemma_reverse_keeps_elements(acquired);
    assert forall|resource: Resource|
        acquired.reverse().contains(resource) <==> exists|i: int|
            0 <= i < v.completed && #[trigger] plan_step(i) == Step::Acquire(resource) by {
        assert(acquired.reverse().contains(resource) <==> acquired.contains(resource));
    }
}

proof fn lemma_reverse_keeps_elements(s: Seq<Resource>)
    ensures
        s.no_duplicates() ==> s.reverse().no_duplicates(),
        forall|resource: Resource| s.reverse().contains(resource) <==> s.contains(resource),
{
    let r = s.reverse();
    assert forall|resource: Resource| r.contains(resource) implies s.contains(resource) by {
        let at = choose|at: int| 0 <= at < r.len() && r[at] == resource;
        assert(s[s.len() - 1 - at] == resource);
    }
    assert forall|resource: Resource| s.contains(resource) implies r.contains(resource) by {
        let at = choose|at: int| 0 <= at < s.len() && s[at] == resource;
        assert(r[s.len() - 1 - at] == resource);
    }
}

/// Over a whole run, from a fresh renderer and whatever the events: while a
/// step is pending nothing has been released and the renderer holds what its
/// completed steps acquired; from the end of the chain or the first failure
/// on, what has been released in all is exactly that, newest first, each
/// resource once.
pub proof fn lemma_every_run_releases_once(events: Seq<Event>)
    ensures
        run(events).wf(),
        run(events).is_live() ==> released_during(events).len() == 0,
        !run(events).is_live() ==> released_during(events) == acquired_by(
            run(events).completed,
        ).reverse(),
        released_during(events).no_duplicates(),
    decreases events.len(),
{
    if events.len() > 0 {
        let before = run(events.drop_last());
        lemma_every_run_releases_once(events.drop_last());
        lemma_next_keeps_well_formed(before, events.last());
        if before.is_live() {
            assert(released_during(events.drop_last()) =~= Seq::<Resource>::empty());
            assert(!next(before, events.last()).0.is_live() ==> released_during(events)
                =~= acquired_by(run(events).completed).reverse());
        }
    }
    lemma_acquired_exactly_once(run(events).completed);
    lemma_reverse_keeps_elements(acquired_by(run(events).completed));
}

/// When the last step succeeds the renderer is in the state `Encoded` and
/// hands out everything the chain acquired, newest first; the event after
/// that tears it down and releases nothing more.
pub proof fn lemma_success_passes_through_encoded(v: RendererView, later: Event)
    requires
        v.wf(),
        v.is_live(),
        v.completed == PLAN_LEN - 1,
    ensures
        next(v, Event::Succeeded).0.state() == RenderState::Encoded,
        next(v, Event::Succeeded).1 == ActionView::Release(
            acquired_by(PLAN_LEN as nat).reverse(),
        ),
        next(next(v, Event::Succeeded).0, later).0.state() == RenderState::TornDown,
        next(next(v, Event::Succeeded).0, later).0.failure is None,
        next(next(v, Event::Succeeded).0, later).1 == ActionView::Halt,
{
}

/// The states are passed in their order: more completed steps never lead to
/// an earlier state, and teardown comes after all of them.
pub proof fn lemma_states_only_advance(earlier: nat, later: nat)
    requires
        earlier <= later,
    ensures
        state_rank(state_after(earlier as int)) <= state_rank(state_after(later as int)),
        state_rank(state_after(later as int)) < state_rank(RenderState::TornDown),
{
}

/// The step at position `index` of the chain, if the chain is that long.
pub fn step_at(index: usize) -> (step: Option<Step>)
    ensures
        step == if index < PLAN_LEN { Some(plan_step(index as int)) } else { None::<Step> },
{
    match index {
        0 => Some(Step::Acquire(Resource::Instance)),
        1 => Some(Step::Perform(Operation::SelectDevice)),
        2 => Some(Step::Acquire(Resource::Device)),
        3 => Some(Step::Acquire(Resource::ShaderModule)),
        4 => Some(Step::Acquire(Resource::PipelineLayout)),
        5 => Some(Step::Acquire(Resource::TargetImage)),
        6 => Some(Step::Acquire(Resource::TargetMemory)),
        7 => Some(Step::Perform(Operation::BindTargetMemory)),
        8 => Some(Step::Acquire(Resource::TargetView)),
        9 => Some(Step::Acquire(Resource::RenderPass)),
        10 => Some(Step::Acquire(Resource::Pipeline)),
        11 => Some(Step::Acquire(Resource::Framebuffer)),
        12 => Some(Step::Acquire(Resource::CommandPool)),
        13 => Some(Step::Perform(Operation::RecordDraw)),
        14 => Some(Step::Acquire(Resource::Fence)),
        15 => Some(Step::Perform(Operation::SubmitDraw)),
        16 => Some(Step::Perform(Operation::WaitIdle)),
        17 => Some(Step::Acquire(Resource::StagingImage)),
        18 => Some(Step::Acquire(Resource::StagingMemory)),
        19 => Some(Step::Perform(Operation::BindStagingMemory)),
        20 => Some(Step::Perform(Operation::RecordCopy)),
        21 => Some(Step::Perform(Operation::SubmitCopy)),
        22 => Some(Step::Acquire(Resource::HostMapping)),
        23 => Some(Step::Perform(Operation::EncodeImage)),
        24 => Some(Step::Perform(Operation::WriteImage)),
        _ => None,
    }
}

/// The state reached once `completed` steps have succeeded.
pub fn state_reached(completed: usize) -> (state: RenderState)
    ensures
        state == state_after(completed as int),
{
    if completed < 3 {
        RenderState::Uninitialized
    } else if completed < 13 {
        RenderState::DeviceReady
    } else if completed < 14 {
        RenderState::PipelineReady
    } else if completed < 17 {
        RenderState::Recorded
    } else if completed < 22 {
        RenderState::Submitted
    } else if completed < 25 {
        RenderState::Copied
    } else {
        RenderState::Encoded
    }
}

/// Says which error, if any, `event` stands for when it ends `step`.
pub fn classify_failure(step: Step, event: Event) -> (failure: Option<RenderError>)
    ensures
        failure == failure_of(step, event),
        failure is None <==> event is Succeeded,
{
    match event {
        Event::Succeeded => None,
        Event::Failed(error) => Some(error),
        Event::BackendFailed(code) => match step {
            Step::Acquire(Resource::ShaderModule) => Some(RenderError::PipelineCreation(code)),
            Step::Acquire(Resource::Pipeline) => Some(RenderError::PipelineCreation(code)),
            _ => Some(RenderError::BackendCallFailed(code)),
        },
    }
}

/// `resources` in the opposite order.
pub fn release_order(resources: &Vec<Resource>) -> (order: Vec<Resource>)
    ensures
        order@ == resources@.reverse(),
{
    let mut order: Vec<Resource> = Vec::new();
    let mut remaining: usize = resources.len();
    while remaining > 0
        invariant
            remaining <= resources.len(),
            order.len() == resources.len() - remaining,
            forall|i: int| 0 <= i < order.len() ==> order[i] == resources[resources.len() - 1 - i],
        decreases remaining,
    {
        remaining = remaining - 1;
        order.push(resources[remaining]);
    }
    assert(order@ =~= resources@.reverse());
    order
}

/// The orchestrator of one render attempt.
///
/// It walks the acquisition chain one step at a time, keeps the list of what
/// has been acquired, and hands that list out for release exactly once, newest
/// first, when the attempt ends.
pub struct FrameRenderer {
    completed: usize,
    torn_down: bool,
    acquired: Vec<Resource>,
    failure: Option<RenderError>,
}

impl View for FrameRenderer {
    type V = RendererView;

    closed spec fn view(&self) -> RendererView {
        RendererView {
            completed: self.completed as nat,
            torn_down: self.torn_down,
            acquired: self.acquired@,
            failure: self.failure,
        }
    }
}

impl FrameRenderer {
    #[verifier::type_invariant]
    spec fn well_formed(self) -> bool {
        self@.wf()
    }

    pub fn new() -> (renderer: FrameRenderer)
        ensures
            renderer@ == initial(),
    {
        FrameRenderer { completed: 0, torn_down: false, acquired: Vec::new(), failure: None }
    }

    /// The state the renderer is in.
    pub fn state(&self) -> (state: RenderState)
        ensures
            state == self@.state(),
    {
        if self.torn_down {
            RenderState::TornDown
        } else {
            state_reached(self.completed)
        }
    }

    /// The last state of the chain that the attempt got to, whether or not
    /// the renderer has been torn down since.
    pub fn reached(&self) -> (state: RenderState)
        ensures
            state == state_after(self@.completed as int),
    {
        state_reached(self.completed)
    }

    /// How the attempt ended: nothing while a step is pending, success once
    /// every step has succeeded, and otherwise the error that ended it.
    pub fn outcome(&self) -> (outcome: Option<Result<(), RenderError>>)
        ensures
            self@.wf(),
            outcome == if self@.is_live() {
                None::<Result<(), RenderError>>
            } else {
                match self@.failure {
                    Some(error) => Some(Err::<(), RenderError>(error)),
                    None => Some(Ok::<(), RenderError>(())),
                }
            },
    {
        proof {
            use_type_invariant(self);
        }
        if !self.torn_down && self.completed < PLAN_LEN {
            None
        } else {
            match self.failure {
                Some(error) => Some(Err(error)),
                None => Some(Ok(())),
            }
        }
    }

    /// The resources held, oldest first.
    pub fn held(&self) -> (held: &Vec<Resource>)
        ensures
            self@.wf(),
            held@ == self@.acquired,
    {
        proof {
            use_type_invariant(self);
        }
        &self.acquired
    }

    /// What the caller has to do now, without any change of state.
    pub fn pending(&self) -> (action: Action)
        ensures
            self@.wf(),
            action@ == if self@.is_live() {
                ActionView::Execute(plan_step(self@.completed as int))
            } else {
                ActionView::Halt
            },
    {
        proof {
            use_type_invariant(self);
        }
        if self.torn_down {
            Action::Halt
        } else {
            match step_at(self.completed) {
                Some(step) => Action::Execute(step),
                None => Action::Halt,
            }
        }
    }

    /// Takes the outcome of the pending step and says what follows.
    pub fn advance(&mut self, event: Event) -> (action: Action)
        ensures
            old(self)@.wf(),
            final(self)@.wf(),
            (final(self)@, action@) == next(old(self)@, event),
    {
        proof {
            use_type_invariant(&*self);
        }
        if self.torn_down {
            return Action::Halt;
        }
        let step = match step_at(self.completed) {
            Some(step) => step,
            None => {
                *self = FrameRenderer {
                    completed: self.completed,
                    torn_down: true,
                    acquired: Vec::new(),
                    failure: None,
                };
                return Action::Halt;
            },
        };
        match classify_failure(step, event) {
            None => {
                let mut acquired = self.acquired.clone();
                match step {
                    Step::Acquire(resource) => { acquired.push(resource); },
                    Step::Perform(_) => {},
                }
                let completed: usize = self.completed + 1;
                match step_at(completed) {
                    Some(following) => {
                        *self = FrameRenderer { completed, torn_down: false, acquired, failure: None };
                        Action::Execute(following)
                    },
                    None => {
                        let order = release_order(&acquired);
                        *self = FrameRenderer {
                            completed,
                            torn_down: false,
                            acquired: Vec::new(),
                            failure: None,
                        };
                        Action::Release(order)
                    },
                }
            },
            Some(error) => {
                let order = release_order(&self.acquired);
                *self = FrameRenderer {
                    completed: self.completed,
                    torn_down: true,
                    acquired: Vec::new(),
                    failure: Some(error),
                };
                Action::Release(order)
            },
        }
    }
}

} // verus!
