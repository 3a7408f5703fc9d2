//! The order in which created objects are destroyed.

use vstd::prelude::*;

verus! {

/// The kinds of object that the bootstrap creates and owns.
#[derive(Clone, Copy, Debug, PartialEq, Eq, Structural)]
pub enum HandleKind {
    /// The API instance: created first, destroyed last.
    Instance,
    /// The presentation surface of the window.
    Surface,
    /// The messenger of the diagnostics channel.
    DebugMessenger,
    /// The logical device; its queues go with it.
    LogicalDevice,
}

/// The order in which a bootstrap creates its objects. The messenger is
/// created only where diagnostics are configured.
pub open spec fn creation_order(diagnostics: bool) -> Seq<HandleKind> {
    if diagnostics {
        seq![
            HandleKind::Instance,
            HandleKind::Surface,
            HandleKind::DebugMessenger,
            HandleKind::LogicalDevice,
        ]
    } else {
        seq![HandleKind::Instance, HandleKind::Surface, HandleKind::LogicalDevice]
    }
}

/// `created` is what a bootstrap has created when it stopped after any number
/// of its stages.
pub open spec fn is_creation_prefix(created: Seq<HandleKind>, diagnostics: bool) -> bool {
    &&& created.len() <= creation_order(diagnostics).len()
    &&& created == creation_order(diagnostics).take(created.len() as int)
}

/// The kind alone where it was created, nothing where it was not.
pub open spec fn when_created(created: Seq<HandleKind>, kind: HandleKind) -> Seq<HandleKind> {
    if created.contains(kind) {
        seq![kind]
    } else {
        seq![]
    }
}

/// The created kinds in the fixed order of destruction: logical device,
/// messenger, surface, instance.
pub open spec fn teardown_sequence(created: Seq<HandleKind>) -> Seq<HandleKind> {
    when_created(created, HandleKind::LogicalDevice) + when_created(
        created,
        HandleKind::DebugMessenger,
    ) + when_created(created, HandleKind::Surface) + when_created(created, HandleKind::Instance)
}

/// Whether a handle of the kind is among the created ones.
pub fn was_created(created: &Vec<HandleKind>, kind: HandleKind) -> (yes: bool)
    ensures
        yes == created@.contains(kind),
{
    let mut i: usize = 0;
    while i < created.len()
        invariant
            i <= created.len(),
            forall|j: int| 0 <= j < i ==> created@[j] != kind,
        decreases created.len() - i,
    {
        if created[i] == kind {
            return true;
        }
        i += 1;
    }
    false
}

/// The order in which to destroy the created handles: logical device,
/// messenger, surface, instance, leaving out what was never created. Each
/// created kind is named once, however often and in whatever order it is
/// listed in `created`.
pub fn teardown_order(created: &Vec<HandleKind>) -> (order: Vec<HandleKind>)
    ensures
        order@ == teardown_sequence(created@),
        order@.no_duplicates(),
        forall|kind: HandleKind| order@.contains(kind) <==> created@.contains(kind),
{
    let mut order: Vec<HandleKind> = Vec::new();
    if was_created(created, HandleKind::LogicalDevice) {
        order.push(HandleKind::LogicalDevice);
    }
    if was_created(created, HandleKind::DebugMessenger) {
        order.push(HandleKind::DebugMessenger);
    }
    if was_created(created, HandleKind::Surface) {
        order.push(HandleKind::Surface);
    }
    if was_created(created, HandleKind::Instance) {
        order.push(HandleKind::Instance);
    }
    proof {
        assert(order@ =~= teardown_sequence(created@));
        lemma_teardown_names_each_once(created@);
    }
    order
}

/// The destruction order names exactly the created kinds, each once.
pub proof fn lemma_teardown_names_each_once(created: Seq<HandleKind>)
    ensures
        teardown_sequence(created).no_duplicates(),
        forall|kind: HandleKind|
            teardown_sequence(created).contains(kind) <==> created.contains(kind),
{
    let order = teardown_sequence(created);
    let a = when_created(created, HandleKind::LogicalDevice);
    let b = when_created(created, HandleKind::DebugMessenger);
    let c = when_created(created, HandleKind::Surface);
    let d = when_created(created, HandleKind::Instance);
    assert(order =~= a + b + c + d);
    assert forall|i: int| 0 <= i < order.len() implies created.contains(#[trigger] order[i])
        && (order[i] == HandleKind::LogicalDevice ==> i < a.len())
        && (order[i] == HandleKind::DebugMessenger ==> a.len() <= i < a.len() + b.len())
        && (order[i] == HandleKind::Surface ==> a.len() + b.len() <= i < a.len() + b.len()
        + c.len())
        && (order[i] == HandleKind::Instance ==> a.len() + b.len() + c.len() <= i) by {}
    assert forall|kind: HandleKind| created.contains(kind) implies order.contains(kind) by {
        match kind {
            HandleKind::LogicalDevice => {
                assert(order[0] == kind);
            },
            HandleKind::DebugMessenger => {
                assert(order[a.len() as int] == kind);
            },
            HandleKind::Surface => {
                assert(order[(a.len() + b.len()) as int] == kind);
            },
            HandleKind::Instance => {
                assert(order[(a.len() + b.len() + c.len()) as int] == kind);
            },
        }
    }
}

/// Whatever was created, the instance is destroyed after everything that it
/// owns: it is the last of the destruction order.
pub proof fn lemma_instance_is_destroyed_last(created: Seq<HandleKind>)
    ensures
        forall|i: int|
            0 <= i < teardown_sequence(created).len() && teardown_sequence(created)[i]
                == HandleKind::Instance ==> i == teardown_sequence(created).len() - 1,
        created.contains(HandleKind::Instance) ==> teardown_sequence(created).last()
            == HandleKind::Instance,
{
}

/// Whatever stage a bootstrap stopped after, the destruction order is the
/// exact reverse of the order in which its handles were created, and names no
/// handle twice.
pub proof fn lemma_teardown_reverses_creation(created: Seq<HandleKind>, diagnostics: bool)
    requires
        is_creation_prefix(created, diagnostics),
    ensures
        teardown_sequence(created) == created.reverse(),
        teardown_sequence(created).no_duplicates(),
{
    lemma_teardown_names_each_once(created);
    let full = creation_order(diagnostics);
    assert forall|i: int| 0 <= i < created.len() implies created[i] == full[i] by {}
    assert forall|kind: HandleKind| created.contains(kind) implies exists|i: int|
        0 <= i < created.len() && full[i] == kind by {
        let i = choose|i: int| 0 <= i < created.len() && created[i] == kind;
        assert(full[i] == kind);
    }
    if created.len() >= 1 {
        assert(created[0] == HandleKind::Instance);
    }
    if created.len() >= 2 {
        assert(created[1] == HandleKind::Surface);
    }
    if created.len() >= 3 {
        assert(created[2] == full[2]);
    }
    if created.len() >= 4 {
        assert(created[3] == HandleKind::LogicalDevice);
    }
    assert(teardown_sequence(created) =~= created.reverse());
}

} // verus!
