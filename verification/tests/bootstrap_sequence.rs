use vk_bootstrap::error::BootstrapError;
use vk_bootstrap::physical_device::PhysicalDeviceInfo;
use vk_bootstrap::queue_family::{QueueFamilyIndices, QueueFamilyInfo};
use vk_bootstrap::sequencer::{Action, Event, Sequencer, Stage};
use vk_bootstrap::teardown::HandleKind;

/// A backend that creates nothing real: it counts what it is asked to create
/// and to destroy.
struct CountingBackend {
    diagnostics: bool,
    refuse: Option<Action>,
    devices: Vec<PhysicalDeviceInfo>,
    families: Vec<QueueFamilyInfo>,
    actions: Vec<Action>,
    created: Vec<HandleKind>,
    destroyed: Vec<HandleKind>,
    live: Vec<HandleKind>,
    ran: bool,
}

impl CountingBackend {
    fn new(diagnostics: bool) -> CountingBackend {
        CountingBackend {
            diagnostics,
            refuse: None,
            devices: vec![
                PhysicalDeviceInfo::new(1, "integrated".to_string()),
                PhysicalDeviceInfo::new(2, "discrete".to_string()),
            ],
            families: vec![QueueFamilyInfo::new(2, 1 | 4), QueueFamilyInfo::new(1, 4)],
            actions: Vec::new(),
            created: Vec::new(),
            destroyed: Vec::new(),
            live: Vec::new(),
            ran: false,
        }
    }

    fn refusing(mut self, action: Action) -> CountingBackend {
        self.refuse = Some(action);
        self
    }

    fn create(&mut self, kind: HandleKind, action: Action) -> Event {
        if self.refuse == Some(action) {
            return Event::Rejected;
        }
        assert!(!self.live.contains(&kind), "{:?} created twice", kind);
        self.created.push(kind);
        self.live.push(kind);
        Event::Created
    }

    fn destroy(&mut self, kind: HandleKind) -> Event {
        let at = self.live.iter().position(|k| *k == kind);
        assert!(at.is_some(), "{:?} destroyed but not alive", kind);
        assert_eq!(at.unwrap(), self.live.len() - 1, "{:?} destroyed out of order", kind);
        self.live.pop();
        self.destroyed.push(kind);
        Event::Destroyed
    }

    fn perform(&mut self, action: Action) -> Option<Event> {
        self.actions.push(action);
        match action {
            Action::CreateInstance => Some(self.create(HandleKind::Instance, action)),
            Action::CreateSurface => Some(self.create(HandleKind::Surface, action)),
            Action::CreateDebugMessenger => Some(self.create(HandleKind::DebugMessenger, action)),
            Action::EnumeratePhysicalDevices => Some(Event::Devices(self.devices.clone())),
            Action::QueryQueueFamilies { .. } => Some(Event::QueueFamilies(self.families.clone())),
            Action::CreateDevice { .. } => {
                if self.refuse == Some(Action::CreateDevice { device: 0, graphics: 0, transfer: 0 })
                {
                    Some(Event::Rejected)
                } else {
                    Some(self.create(HandleKind::LogicalDevice, action))
                }
            }
            Action::Run { .. } => {
                self.ran = true;
                Some(Event::Shutdown)
            }
            Action::Destroy(kind) => Some(self.destroy(kind)),
            Action::Exit | Action::Fail(_) => None,
        }
    }

    fn run(mut self) -> CountingBackend {
        let mut sequencer = Sequencer::new(self.diagnostics);
        for _ in 0..64 {
            match self.perform(sequencer.action()) {
                Some(event) => sequencer = sequencer.step(event),
                None => {
                    assert!(sequencer.finished());
                    return self;
                }
            }
        }
        panic!("the sequence did not end");
    }

    fn last(&self) -> Action {
        *self.actions.last().unwrap()
    }
}

fn reversed(handles: &[HandleKind]) -> Vec<HandleKind> {
    handles.iter().rev().copied().collect()
}

const ANY_DEVICE: Action = Action::CreateDevice { device: 0, graphics: 0, transfer: 0 };

#[test]
fn full_sequence_with_diagnostics() {
    let backend = CountingBackend::new(true).run();
    assert_eq!(
        backend.actions,
        vec![
            Action::CreateInstance,
            Action::CreateSurface,
            Action::CreateDebugMessenger,
            Action::EnumeratePhysicalDevices,
            Action::QueryQueueFamilies { device: 1 },
            Action::CreateDevice { device: 1, graphics: 0, transfer: 1 },
            Action::Run { graphics: 0, transfer: 1 },
            Action::Destroy(HandleKind::LogicalDevice),
            Action::Destroy(HandleKind::DebugMessenger),
            Action::Destroy(HandleKind::Surface),
            Action::Destroy(HandleKind::Instance),
            Action::Exit,
        ]
    );
    assert!(backend.ran);
    assert!(backend.live.is_empty());
}

#[test]
fn full_sequence_without_diagnostics() {
    let backend = CountingBackend::new(false).run();
    assert_eq!(
        backend.actions,
        vec![
            Action::CreateInstance,
            Action::CreateSurface,
            Action::EnumeratePhysicalDevices,
            Action::QueryQueueFamilies { device: 1 },
            Action::CreateDevice { device: 1, graphics: 0, transfer: 1 },
            Action::Run { graphics: 0, transfer: 1 },
            Action::Destroy(HandleKind::LogicalDevice),
            Action::Destroy(HandleKind::Surface),
            Action::Destroy(HandleKind::Instance),
            Action::Exit,
        ]
    );
    assert!(backend.live.is_empty());
}

#[test]
fn instance_creation_failure_ends_the_bootstrap_at_once() {
    let backend = CountingBackend::new(true).refusing(Action::CreateInstance).run();
    assert_eq!(
        backend.actions,
        vec![Action::CreateInstance, Action::Fail(BootstrapError::Initialization)]
    );
    assert!(backend.created.is_empty());
    assert!(backend.destroyed.is_empty());
    assert!(!backend.ran);
}

#[test]
fn surface_failure_destroys_the_instance_alone() {
    let backend = CountingBackend::new(true).refusing(Action::CreateSurface).run();
    assert_eq!(
        backend.actions,
        vec![
            Action::CreateInstance,
            Action::CreateSurface,
            Action::Destroy(HandleKind::Instance),
            Action::Fail(BootstrapError::SurfaceCreation),
        ]
    );
}

#[test]
fn messenger_failure_is_an_initialisation_error() {
    let backend = CountingBackend::new(true).refusing(Action::CreateDebugMessenger).run();
    assert_eq!(backend.destroyed, vec![HandleKind::Surface, HandleKind::Instance]);
    assert_eq!(backend.last(), Action::Fail(BootstrapError::Initialization));
}

#[test]
fn missing_discrete_device_fails_after_teardown() {
    let mut backend = CountingBackend::new(true);
    backend.devices = vec![PhysicalDeviceInfo::new(1, "integrated".to_string())];
    let backend = backend.run();
    assert_eq!(
        backend.destroyed,
        vec![HandleKind::DebugMessenger, HandleKind::Surface, HandleKind::Instance]
    );
    assert_eq!(backend.last(), Action::Fail(BootstrapError::NoSuitableDevice));
    assert!(!backend.actions.iter().any(|a| matches!(a, Action::QueryQueueFamilies { .. })));
}

#[test]
fn missing_queue_family_fails_after_teardown() {
    let mut backend = CountingBackend::new(false);
    backend.families = vec![QueueFamilyInfo::new(1, 1)];
    let backend = backend.run();
    assert_eq!(backend.destroyed, vec![HandleKind::Surface, HandleKind::Instance]);
    assert_eq!(backend.last(), Action::Fail(BootstrapError::NoSuitableQueueFamily));
    assert!(!backend.actions.iter().any(|a| matches!(a, Action::CreateDevice { .. })));
}

#[test]
fn device_rejection_is_a_device_creation_error() {
    let backend = CountingBackend::new(true).refusing(ANY_DEVICE).run();
    assert_eq!(
        backend.destroyed,
        vec![HandleKind::DebugMessenger, HandleKind::Surface, HandleKind::Instance]
    );
    assert_eq!(backend.last(), Action::Fail(BootstrapError::DeviceCreation));
    assert!(!backend.ran);
}

#[test]
fn whatever_was_created_is_destroyed_once_in_reverse() {
    let refusals = [
        None,
        Some(Action::CreateInstance),
        Some(Action::CreateSurface),
        Some(Action::CreateDebugMessenger),
        Some(ANY_DEVICE),
    ];
    for diagnostics in [false, true] {
        for refusal in refusals {
            let mut backend = CountingBackend::new(diagnostics);
            backend.refuse = refusal;
            let backend = backend.run();
            assert_eq!(backend.destroyed, reversed(&backend.created));
            assert!(backend.live.is_empty());
            let destroys =
                backend.actions.iter().filter(|a| matches!(a, Action::Destroy(_))).count();
            assert_eq!(destroys, backend.created.len());
        }
    }
}

#[test]
fn single_family_device_shares_the_queue_family() {
    let mut backend = CountingBackend::new(false);
    backend.devices = vec![PhysicalDeviceInfo::new(2, "only".to_string())];
    backend.families = vec![QueueFamilyInfo::new(1, 1 | 4)];
    let backend = backend.run();
    assert!(backend.actions.contains(&Action::CreateDevice { device: 0, graphics: 0, transfer: 0 }));
    assert!(backend.actions.contains(&Action::Run { graphics: 0, transfer: 0 }));
}

#[test]
fn unexpected_event_counts_as_failure_of_the_stage() {
    let sequencer = Sequencer::new(true);
    assert_eq!(sequencer.stage(), Stage::CreatingInstance);
    let sequencer = sequencer.step(Event::Shutdown);
    assert_eq!(sequencer.action(), Action::Fail(BootstrapError::Initialization));

    let sequencer = Sequencer::new(false).step(Event::Created).step(Event::Created);
    assert_eq!(sequencer.stage(), Stage::EnumeratingDevices);
    assert_eq!(sequencer.created_count(), 2);
    let sequencer = sequencer.step(Event::Created);
    assert_eq!(sequencer.stage(), Stage::TearingDown);
    assert_eq!(sequencer.failure(), Some(BootstrapError::NoSuitableDevice));
    assert_eq!(sequencer.action(), Action::Destroy(HandleKind::Surface));

    let sequencer = Sequencer::new(false)
        .step(Event::Created)
        .step(Event::Created)
        .step(Event::Devices(vec![PhysicalDeviceInfo::new(2, "d".to_string())]))
        .step(Event::Devices(Vec::new()));
    assert_eq!(sequencer.failure(), Some(BootstrapError::NoSuitableQueueFamily));
}

#[test]
fn sequencer_records_what_it_has_so_far() {
    let sequencer = Sequencer::new(true);
    assert_eq!(sequencer.created(), Vec::<HandleKind>::new());
    assert_eq!(sequencer.device(), None);
    assert_eq!(sequencer.queues(), None);
    assert_eq!(sequencer.failure(), None);
    let sequencer = sequencer.step(Event::Created).step(Event::Created).step(Event::Created);
    assert_eq!(
        sequencer.created(),
        vec![HandleKind::Instance, HandleKind::Surface, HandleKind::DebugMessenger]
    );
    let sequencer = sequencer.step(Event::Devices(vec![
        PhysicalDeviceInfo::new(2, "first".to_string()),
        PhysicalDeviceInfo::new(3, "virtual".to_string()),
    ]));
    assert_eq!(sequencer.device(), Some(0));
    assert_eq!(sequencer.action(), Action::QueryQueueFamilies { device: 0 });
    let sequencer = sequencer.step(Event::QueueFamilies(vec![
        QueueFamilyInfo::new(1, 4),
        QueueFamilyInfo::new(1, 1),
    ]));
    assert_eq!(sequencer.queues(), Some(QueueFamilyIndices { graphics: 1, transfer: 0 }));
    assert_eq!(sequencer.action(), Action::CreateDevice { device: 0, graphics: 1, transfer: 0 });
    let sequencer = sequencer.step(Event::Created);
    assert_eq!(sequencer.stage(), Stage::Running);
    assert_eq!(sequencer.created_count(), 4);
    assert_eq!(sequencer.action(), Action::Run { graphics: 1, transfer: 0 });
    let sequencer = sequencer.step(Event::Shutdown);
    assert_eq!(sequencer.failure(), None);
    assert_eq!(sequencer.action(), Action::Destroy(HandleKind::LogicalDevice));
}

#[test]
fn finished_sequencer_stays_finished() {
    let sequencer = Sequencer::new(true).step(Event::Rejected);
    assert!(sequencer.finished());
    let sequencer = sequencer.step(Event::Created).step(Event::Destroyed);
    assert!(sequencer.finished());
    assert_eq!(sequencer.created_count(), 0);
    assert_eq!(sequencer.action(), Action::Fail(BootstrapError::Initialization));
}

#[test]
fn any_event_confirms_a_destruction() {
    let sequencer = Sequencer::new(false)
        .step(Event::Created)
        .step(Event::Created)
        .step(Event::Rejected);
    assert_eq!(sequencer.action(), Action::Destroy(HandleKind::Surface));
    let sequencer = sequencer.step(Event::Created);
    assert_eq!(sequencer.action(), Action::Destroy(HandleKind::Instance));
    let sequencer = sequencer.step(Event::Shutdown);
    assert_eq!(sequencer.action(), Action::Fail(BootstrapError::NoSuitableDevice));
    assert_eq!(sequencer.stage(), Stage::Finished);
}
