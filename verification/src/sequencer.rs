//! The bootstrap sequence as a state machine.
//!
//! The sequencer decides; its caller acts. The caller performs the action
//! that the sequencer names, reports what came of it as an event, and is
//! given the next action until the sequencer exits or fails. Objects are
//! created in the order instance, surface, messenger, logical device, and
//! whenever the sequence ends, after a failure at any stage or after the
//! application has run, the objects created so far are destroyed in reverse.

use crate::error::BootstrapError;
use crate::physical_device::{select_physical_device, selected_device, PhysicalDeviceInfo};
use crate::queue_family::{
    resolve_queue_families,
    resolved_families,
    QueueFamilyIndices,
    QueueFamilyInfo,
};
use crate::teardown::{
    creation_order,
    is_creation_prefix,
    lemma_teardown_reverses_creation,
    teardown_order,
    teardown_sequence,
    HandleKind,
};
use vstd::prelude::*;

verus! {

/// What the sequencer is waiting for.
#[derive(Clone, Copy, Debug, PartialEq, Eq, Structural)]
pub enum Stage {
    CreatingInstance,
    CreatingSurface,
    CreatingMessenger,
    EnumeratingDevices,
    QueryingQueueFamilies,
    CreatingDevice,
    /// Everything is up and the application runs.
    Running,
    /// The handle at the head of the destruction order is being destroyed.
    TearingDown,
    /// Nothing is left to do.
    Finished,
}

/// What the caller is to do next.
#[derive(Clone, Copy, Debug, PartialEq, Eq, Structural)]
pub enum Action {
    CreateInstance,
    CreateSurface,
    CreateDebugMessenger,
    EnumeratePhysicalDevices,
    /// Query the queue families of the enumerated device at this position.
    QueryQueueFamilies { device: usize },
    /// Create the logical device on the chosen device for the two families.
    CreateDevice { device: usize, graphics: usize, transfer: usize },
    /// Fetch the first queue of each family and run the application.
    Run { graphics: usize, transfer: usize },
    /// Destroy the handle of this kind.
    Destroy(HandleKind),
    /// The sequence is over and everything was destroyed.
    Exit,
    /// The sequence is over after this error; what had been created was
    /// destroyed.
    Fail(BootstrapError),
}

/// What came of the last action.
#[derive(Debug)]
pub enum Event {
    /// The object was created.
    Created,
    /// The driver refused to create the object.
    Rejected,
    /// The enumeration of the physical devices.
    Devices(Vec<PhysicalDeviceInfo>),
    /// The queue families of the device asked about.
    QueueFamilies(Vec<QueueFamilyInfo>),
    /// The application has finished.
    Shutdown,
    /// The handle was destroyed.
    Destroyed,
}

/// The state of a bootstrap sequence.
pub struct SequencerState {
    pub stage: Stage,
    /// Whether a messenger is part of the sequence.
    pub diagnostics: bool,
    /// The handles created so far, in creation order.
    pub created: Seq<HandleKind>,
    /// While tearing down: the handles still to destroy, the one being
    /// destroyed first.
    pub pending: Seq<HandleKind>,
    /// The position of the chosen physical device.
    pub device: Option<usize>,
    /// The resolved queue families.
    pub queues: Option<QueueFamilyIndices>,
    /// The error that ended the sequence.
    pub failure: Option<BootstrapError>,
}

impl SequencerState {
    /// The start of a sequence: nothing is created, the instance comes first.
    pub open spec fn initial(diagnostics: bool) -> SequencerState {
        SequencerState {
            stage: Stage::CreatingInstance,
            diagnostics,
            created: seq![],
            pending: seq![],
            device: None,
            queues: None,
            failure: None,
        }
    }

    /// The handles that exist when the sequencer waits in a stage of the
    /// way up.
    pub open spec fn created_before(stage: Stage, diagnostics: bool) -> Seq<HandleKind> {
        match stage {
            Stage::CreatingInstance => seq![],
            Stage::CreatingSurface => seq![HandleKind::Instance],
            Stage::CreatingMessenger => seq![HandleKind::Instance, HandleKind::Surface],
            Stage::Running => creation_order(diagnostics),
            _ => creation_order(diagnostics).drop_last(),
        }
    }

    /// The states that a sequence can reach.
    pub open spec fn wf(self) -> bool {
        &&& is_creation_prefix(self.created, self.diagnostics)
        &&& match self.stage {
            Stage::TearingDown => {
                &&& self.pending.len() > 0
                &&& exists|k: int|
                    0 <= k < self.created.len() && self.pending == self.created.reverse().skip(k)
            },
            Stage::Finished => self.pending.len() == 0,
            _ => {
                &&& self.created == Self::created_before(self.stage, self.diagnostics)
                &&& self.pending.len() == 0
                &&& self.failure is None
            },
        }
        &&& self.stage == Stage::CreatingMessenger ==> self.diagnostics
        &&& (self.stage == Stage::QueryingQueueFamilies || self.stage == Stage::CreatingDevice
            || self.stage == Stage::Running) ==> self.device is Some
        &&& (self.stage == Stage::CreatingDevice || self.stage == Stage::Running)
            ==> self.queues is Some
    }

    /// The state after the awaited object was created.
    pub open spec fn advance(self, kind: HandleKind, stage: Stage) -> SequencerState {
        SequencerState { stage, created: self.created.push(kind), ..self }
    }

    /// The state in which the sequence ends: what was created is queued for
    /// destruction, or the sequence is finished where nothing was.
    pub open spec fn unwind(self, failure: Option<BootstrapError>) -> SequencerState {
        let pending = teardown_sequence(self.created);
        SequencerState {
            stage: if pending.len() == 0 {
                Stage::Finished
            } else {
                Stage::TearingDown
            },
            pending,
            failure,
            ..self
        }
    }

    /// The state after an event. An event that is not the success of the
    /// awaited step counts as its failure; any event ends a run; while
    /// tearing down any event confirms the destruction under way.
    pub open spec fn next(self, event: Event) -> SequencerState {
        match self.stage {
            Stage::CreatingInstance => if event is Created {
                self.advance(HandleKind::Instance, Stage::CreatingSurface)
            } else {
                self.unwind(Some(BootstrapError::Initialization))
            },
            Stage::CreatingSurface => if event is Created {
                self.advance(
                    HandleKind::Surface,
                    if self.diagnostics {
                        Stage::CreatingMessenger
                    } else {
                        Stage::EnumeratingDevices
                    },
                )
            } else {
                self.unwind(Some(BootstrapError::SurfaceCreation))
            },
            Stage::CreatingMessenger => if event is Created {
                self.advance(HandleKind::DebugMessenger, Stage::EnumeratingDevices)
            } else {
                self.unwind(Some(BootstrapError::Initialization))
            },
            Stage::EnumeratingDevices => match event {
                Event::Devices(devices) => match selected_device(devices@) {
                    Some(device) => SequencerState {
                        stage: Stage::QueryingQueueFamilies,
                        device: Some(device),
                        ..self
                    },
                    None => self.unwind(Some(BootstrapError::NoSuitableDevice)),
                },
                _ => self.unwind(Some(BootstrapError::NoSuitableDevice)),
            },
            Stage::QueryingQueueFamilies => match event {
                Event::QueueFamilies(families) => match resolved_families(families@) {
                    Some(queues) => SequencerState {
                        stage: Stage::CreatingDevice,
                        queues: Some(queues),
                        ..self
                    },
                    None => self.unwind(Some(BootstrapError::NoSuitableQueueFamily)),
                },
                _ => self.unwind(Some(BootstrapError::NoSuitableQueueFamily)),
            },
            Stage::CreatingDevice => if event is Created {
                self.advance(HandleKind::LogicalDevice, Stage::Running)
            } else {
                self.unwind(Some(BootstrapError::DeviceCreation))
            },
            Stage::Running => self.unwind(None),
            Stage::TearingDown => {
                let rest = after_first(self.pending);
                SequencerState {
                    stage: if rest.len() == 0 {
                        Stage::Finished
                    } else {
                        Stage::TearingDown
                    },
                    pending: rest,
                    ..self
                }
            },
            Stage::Finished => self,
        }
    }

    /// The action that the sequencer waits on in this state.
    pub open spec fn action(self) -> Action {
        match self.stage {
            Stage::CreatingInstance => Action::CreateInstance,
            Stage::CreatingSurface => Action::CreateSurface,
            Stage::CreatingMessenger => Action::CreateDebugMessenger,
            Stage::EnumeratingDevices => Action::EnumeratePhysicalDevices,
            Stage::QueryingQueueFamilies => Action::QueryQueueFamilies {
                device: self.device.unwrap(),
            },
            Stage::CreatingDevice => Action::CreateDevice {
                device: self.device.unwrap(),
                graphics: self.queues.unwrap().graphics,
                transfer: self.queues.unwrap().transfer,
            },
            Stage::Running => Action::Run {
                graphics: self.queues.unwrap().graphics,
                transfer: self.queues.unwrap().transfer,
            },
            Stage::TearingDown => Action::Destroy(self.pending[0]),
            Stage::Finished => match self.failure {
                Some(error) => Action::Fail(error),
                None => Action::Exit,
            },
        }
    }

    /// Whether the sequence is on its way up or running.
    pub open spec fn alive(self) -> bool {
        self.stage != Stage::TearingDown && self.stage != Stage::Finished
    }
}

/// The handles queued behind the first.
pub open spec fn after_first(handles: Seq<HandleKind>) -> Seq<HandleKind> {
    if handles.len() == 0 {
        handles
    } else {
        handles.drop_first()
    }
}

/// The actions that a sequence of events draws from the sequencer, one for
/// each event.
pub open spec fn actions_after(state: SequencerState, events: Seq<Event>) -> Seq<Action>
    decreases events.len(),
{
    if events.len() == 0 {
        seq![]
    } else {
        let then = state.next(events[0]);
        seq![then.action()] + actions_after(then, events.drop_first())
    }
}

/// The handles that a sequence of actions destroys, in order.
pub open spec fn destroyed_by(actions: Seq<Action>) -> Seq<HandleKind>
    decreases actions.len(),
{
    if actions.len() == 0 {
        seq![]
    } else {
        let rest = destroyed_by(actions.drop_first());
        match actions[0] {
            Action::Destroy(kind) => seq![kind] + rest,
            _ => rest,
        }
    }
}

/// Ending a sequence that is on its way up or running leads to a reachable
/// state, whose queue is the reverse of what was created.
pub proof fn lemma_unwind_preserves_wf(state: SequencerState, failure: Option<BootstrapError>)
    requires
        state.wf(),
        state.alive(),
    ensures
        state.unwind(failure).wf(),
        state.unwind(failure).pending == state.created.reverse(),
{
    lemma_teardown_reverses_creation(state.created, state.diagnostics);
    let then = state.unwind(failure);
    assert(then.pending == state.created.reverse());
    assert(then.created.reverse().skip(0) =~= then.pending);
}

/// Every event leads from a reachable state to a reachable state.
pub proof fn lemma_next_preserves_wf(state: SequencerState, event: Event)
    requires
        state.wf(),
    ensures
        state.next(event).wf(),
{
    let then = state.next(event);
    let full = creation_order(state.diagnostics);
    if state.alive() {
        lemma_teardown_reverses_creation(state.created, state.diagnostics);
        assert(state.created.reverse().skip(0) =~= state.created.reverse());
        assert(then.created =~= full.take(then.created.len() as int));
        if then.alive() {
            assert(then.created =~= SequencerState::created_before(then.stage, then.diagnostics));
        }
    } else if state.stage == Stage::TearingDown {
        let k = choose|k: int|
            0 <= k < state.created.len() && state.pending == state.created.reverse().skip(k);
        assert(then.pending =~= state.created.reverse().skip(k + 1));
        assert(then.pending.len() > 0 ==> k + 1 < state.created.len());
    }
}

/// The application is run only while every object of the sequence exists,
/// the logical device that owns the queues among them, and nothing is queued
/// for destruction.
pub proof fn lemma_run_has_everything_alive(state: SequencerState)
    requires
        state.wf(),
        state.action() is Run,
    ensures
        state.created == creation_order(state.diagnostics),
        state.created.last() == HandleKind::LogicalDevice,
        state.pending.len() == 0,
        state.failure is None,
{
}

/// The instance outlives what it owns: every later step of the way up is
/// asked for while the instance exists, and the instance is destroyed only
/// when nothing else is left to destroy.
pub proof fn lemma_instance_outlives_its_objects(state: SequencerState)
    requires
        state.wf(),
    ensures
        state.alive() && state.stage != Stage::CreatingInstance ==> state.created.len() > 0
            && state.created[0] == HandleKind::Instance,
        state.action() == Action::Destroy(HandleKind::Instance) ==> state.pending.len() == 1,
{
    let full = creation_order(state.diagnostics);
    assert forall|i: int| 0 <= i < state.created.len() implies state.created[i] == full[i] by {}
    if state.stage == Stage::TearingDown {
        let k = choose|k: int|
            0 <= k < state.created.len() && state.pending == state.created.reverse().skip(k);
        assert(state.pending[0] == state.created[state.created.len() - 1 - k]);
    }
}

/// While the sequencer tears down, the events that follow draw the
/// destruction of exactly the handles that were still queued behind the one
/// under way, in their order, and then the end of the sequence.
pub proof fn lemma_teardown_drains_queue(state: SequencerState, events: Seq<Event>)
    requires
        state.wf(),
        !state.alive(),
        events.len() >= state.pending.len(),
    ensures
        destroyed_by(actions_after(state, events)) == after_first(state.pending),
        events.len() > 0 ==> actions_after(state, events).last() == (match state.failure {
            Some(error) => Action::Fail(error),
            None => Action::Exit,
        }),
    decreases events.len(),
{
    if events.len() == 0 {
    } else {
        let then = state.next(events[0]);
        let rest = events.drop_first();
        let actions = actions_after(state, events);
        lemma_next_preserves_wf(state, events[0]);
        lemma_teardown_drains_queue(then, rest);
        assert(actions.drop_first() =~= actions_after(then, rest));
        assert(actions[0] == then.action());
        if then.pending.len() > 0 {
            assert(then.pending =~= seq![then.pending[0]] + after_first(then.pending));
        }
        if rest.len() > 0 {
            assert(actions.last() == actions_after(then, rest).last());
        }
    }
}

/// Whatever has been created when a sequence ends, after a failure at any
/// stage or after the run, the actions that follow destroy exactly the
/// created handles, in the exact reverse of the order of their creation and
/// none of them twice, and the sequence then exits or fails.
pub proof fn lemma_teardown_reverses_creation_order(
    state: SequencerState,
    event: Event,
    confirmations: Seq<Event>,
)
    requires
        state.wf(),
        state.alive(),
        !state.next(event).alive(),
        confirmations.len() >= state.created.len(),
    ensures
        destroyed_by(actions_after(state, seq![event] + confirmations))
            == state.created.reverse(),
        state.created.reverse().no_duplicates(),
        actions_after(state, seq![event] + confirmations).last() == (match state.next(
            event,
        ).failure {
            Some(error) => Action::Fail(error),
            None => Action::Exit,
        }),
{
    let then = state.next(event);
    let events = seq![event] + confirmations;
    let actions = actions_after(state, events);
    let later = actions_after(then, confirmations);
    lemma_teardown_reverses_creation(state.created, state.diagnostics);
    lemma_next_preserves_wf(state, event);
    assert(then.pending == state.created.reverse());
    assert(events.drop_first() =~= confirmations);
    assert(events[0] == event);
    assert(actions == seq![then.action()] + later);
    assert(actions.drop_first() =~= later);
    lemma_teardown_drains_queue(then, confirmations);
    if then.pending.len() > 0 {
        assert(then.pending =~= seq![then.pending[0]] + after_first(then.pending));
        assert(actions.last() == later.last());
    }
}

/// The sequencer of one bootstrap.
pub struct Sequencer {
    stage: Stage,
    diagnostics: bool,
    created: Vec<HandleKind>,
    pending: Vec<HandleKind>,
    device: Option<usize>,
    queues: Option<QueueFamilyIndices>,
    failure: Option<BootstrapError>,
}

impl View for Sequencer {
    type V = SequencerState;

    closed spec fn view(&self) -> SequencerState {
        SequencerState {
            stage: self.stage,
            diagnostics: self.diagnostics,
            created: self.created@,
            pending: self.pending@,
            device: self.device,
            queues: self.queues,
            failure: self.failure,
        }
    }
}

impl Sequencer {
    #[verifier::type_invariant]
    spec fn reachable(&self) -> bool {
        self@.wf()
    }

    /// A sequencer at the start of its sequence. With `diagnostics` a
    /// messenger is created after the surface.
    pub fn new(diagnostics: bool) -> (sequencer: Sequencer)
        ensures
            sequencer@ == SequencerState::initial(diagnostics),
            sequencer@.wf(),
    {
        let created: Vec<HandleKind> = Vec::new();
        let pending: Vec<HandleKind> = Vec::new();
        assert(created@ =~= creation_order(diagnostics).take(0));
        assert(created@ =~= SequencerState::created_before(Stage::CreatingInstance, diagnostics));
        Sequencer {
            stage: Stage::CreatingInstance,
            diagnostics,
            created,
            pending,
            device: None,
            queues: None,
            failure: None,
        }
    }

    /// What the sequencer is waiting for.
    pub fn stage(&self) -> (stage: Stage)
        ensures
            stage == self@.stage,
    {
        self.stage
    }

    /// The error that ended the sequence, if one did.
    pub fn failure(&self) -> (failure: Option<BootstrapError>)
        ensures
            failure == self@.failure,
    {
        self.failure
    }

    /// Whether nothing is left to do.
    pub fn finished(&self) -> (done: bool)
        ensures
            done == (self@.stage == Stage::Finished),
    {
        self.stage == Stage::Finished
    }

    /// The number of handles created so far.
    pub fn created_count(&self) -> (count: usize)
        ensures
            count == self@.created.len(),
    {
        self.created.len()
    }

    /// The handles created so far, in the order of their creation.
    pub fn created(&self) -> (handles: Vec<HandleKind>)
        ensures
            handles@ == self@.created,
    {
        let mut handles: Vec<HandleKind> = Vec::new();
        let mut i: usize = 0;
        while i < self.created.len()
            invariant
                i <= self.created.len(),
                handles@ == self.created@.take(i as int),
            decreases self.created.len() - i,
        {
            handles.push(self.created[i]);
            assert(self.created@.take(i + 1) =~= self.created@.take(i as int).push(
                self.created@[i as int],
            ));
            i += 1;
        }
        assert(self.created@.take(i as int) =~= self.created@);
        handles
    }

    /// The position of the chosen physical device, once one is chosen.
    pub fn device(&self) -> (device: Option<usize>)
        ensures
            device == self@.device,
    {
        self.device
    }

    /// The resolved queue families, once they are resolved.
    pub fn queues(&self) -> (queues: Option<QueueFamilyIndices>)
        ensures
            queues == self@.queues,
    {
        self.queues
    }

    /// The action that the sequencer waits on: the one to perform next.
    pub fn action(&self) -> (action: Action)
        ensures
            action == self@.action(),
    {
        proof {
            use_type_invariant(self);
        }
        match self.stage {
            Stage::CreatingInstance => Action::CreateInstance,
            Stage::CreatingSurface => Action::CreateSurface,
            Stage::CreatingMessenger => Action::CreateDebugMessenger,
            Stage::EnumeratingDevices => Action::EnumeratePhysicalDevices,
            Stage::QueryingQueueFamilies => Action::QueryQueueFamilies {
                device: self.device.unwrap(),
            },
            Stage::CreatingDevice => {
                let queues = self.queues.unwrap();
                Action::CreateDevice {
                    device: self.device.unwrap(),
                    graphics: queues.graphics,
                    transfer: queues.transfer,
                }
            },
            Stage::Running => {
                let queues = self.queues.unwrap();
                Action::Run { graphics: queues.graphics, transfer: queues.transfer }
            },
            Stage::TearingDown => Action::Destroy(self.pending[0]),
            Stage::Finished => match self.failure {
                Some(error) => Action::Fail(error),
                None => Action::Exit,
            },
        }
    }

    fn advance(self, kind: HandleKind, stage: Stage) -> (next: Sequencer)
        requires
            self@.wf(),
            self@.advance(kind, stage).wf(),
        ensures
            next@ == self@.advance(kind, stage),
    {
        let mut created = self.created;
        created.push(kind);
        Sequencer {
            stage,
            diagnostics: self.diagnostics,
            created,
            pending: self.pending,
            device: self.device,
            queues: self.queues,
            failure: self.failure,
        }
    }

    fn unwind(self, failure: Option<BootstrapError>) -> (next: Sequencer)
        requires
            self@.wf(),
            self@.alive(),
        ensures
            next@ == self@.unwind(failure),
    {
        proof {
            lemma_unwind_preserves_wf(self@, failure);
        }
        let pending = teardown_order(&self.created);
        let stage = if pending.len() == 0 {
            Stage::Finished
        } else {
            Stage::TearingDown
        };
        Sequencer {
            stage,
            diagnostics: self.diagnostics,
            created: self.created,
            pending,
            device: self.device,
            queues: self.queues,
            failure,
        }
    }

    /// Takes what came of the last action and moves to the next one, which
    /// `action` then names.
    ///
    /// On the way up the success of the awaited step moves on to the next
    /// stage: the awaited object counts as created, the enumerated devices
    /// give the last discrete GPU, its queue families give the graphics and
    /// the transfer family. Any other event is the failure of the awaited
    /// step with that stage's error: the sequence ends, and what was created
    /// is destroyed in reverse before the sequencer fails. Any event ends a
    /// run, and then everything is destroyed before the sequencer exits.
    /// While the sequencer tears down, any event confirms the destruction
    /// under way.
    pub fn step(self, event: Event) -> (next: Sequencer)
        ensures
            next@ == self@.next(event),
            next@.wf(),
    {
        proof {
            use_type_invariant(&self);
            lemma_next_preserves_wf(self@, event);
        }
        let next = match self.stage {
            Stage::CreatingInstance => match event {
                Event::Created => self.advance(HandleKind::Instance, Stage::CreatingSurface),
                _ => self.unwind(Some(BootstrapError::Initialization)),
            },
            Stage::CreatingSurface => match event {
                Event::Created => {
                    let stage = if self.diagnostics {
                        Stage::CreatingMessenger
                    } else {
                        Stage::EnumeratingDevices
                    };
                    self.advance(HandleKind::Surface, stage)
                },
                _ => self.unwind(Some(BootstrapError::SurfaceCreation)),
            },
            Stage::CreatingMessenger => match event {
                Event::Created => self.advance(
                    HandleKind::DebugMessenger,
                    Stage::EnumeratingDevices,
                ),
                _ => self.unwind(Some(BootstrapError::Initialization)),
            },
            Stage::EnumeratingDevices => match event {
                Event::Devices(devices) => match select_physical_device(&devices) {
                    Ok(device) => Sequencer {
                        stage: Stage::QueryingQueueFamilies,
                        diagnostics: self.diagnostics,
                        created: self.created,
                        pending: self.pending,
                        device: Some(device),
                        queues: self.queues,
                        failure: self.failure,
                    },
                    Err(error) => self.unwind(Some(error)),
                },
                _ => self.unwind(Some(BootstrapError::NoSuitableDevice)),
            },
            Stage::QueryingQueueFamilies => match event {
                Event::QueueFamilies(families) => match resolve_queue_families(&families) {
                    Ok(queues) => Sequencer {
                        stage: Stage::CreatingDevice,
                        diagnostics: self.diagnostics,
                        created: self.created,
                        pending: self.pending,
                        device: self.device,
                        queues: Some(queues),
                        failure: self.failure,
                    },
                    Err(error) => self.unwind(Some(error)),
                },
                _ => self.unwind(Some(BootstrapError::NoSuitableQueueFamily)),
            },
            Stage::CreatingDevice => match event {
                Event::Created => self.advance(HandleKind::LogicalDevice, Stage::Running),
                _ => self.unwind(Some(BootstrapError::DeviceCreation)),
            },
            Stage::Running => self.unwind(None),
            Stage::TearingDown => {
                let mut pending = self.pending;
                pending.remove(0);
                assert(pending@ =~= after_first(self@.pending));
                let stage = if pending.len() == 0 {
                    Stage::Finished
                } else {
                    Stage::TearingDown
                };
                Sequencer {
                    stage,
                    diagnostics: self.diagnostics,
                    created: self.created,
                    pending,
                    device: self.device,
                    queues: self.queues,
                    failure: self.failure,
                }
            },
            Stage::Finished => self,
        };
        next
    }
}

} // verus!
