//! The busy guard: one set of flags per resource, claimed by a command for
//! as long as it runs.
//!
//! A command claims its flag with [`ActionStates::update`], which checks and
//! sets in one step and fails without waiting when the resource is busy. The
//! guard it hands out is the only way to give the resource back:
//! [`ActionStates::release`] takes the guard and resets the flags.

use vstd::prelude::*;

verus! {

/// The operation that a flag stands for.
#[derive(Clone, Copy, Debug, PartialEq, Eq, Structural)]
pub enum ActionFlag {
    Pulling,
    Deploying,
    Starting,
    Restarting,
    Pausing,
    Unpausing,
    Stopping,
    Destroying,
}

/// The flags of one resource, one per kind of operation in flight.
#[derive(Clone, Copy, Debug, PartialEq, Eq, Structural)]
pub struct StackActionState {
    pub pulling: bool,
    pub deploying: bool,
    pub starting: bool,
    pub restarting: bool,
    pub pausing: bool,
    pub unpausing: bool,
    pub stopping: bool,
    pub destroying: bool,
}

impl StackActionState {
    /// No operation in flight.
    pub open spec fn idle() -> StackActionState {
        StackActionState {
            pulling: false,
            deploying: false,
            starting: false,
            restarting: false,
            pausing: false,
            unpausing: false,
            stopping: false,
            destroying: false,
        }
    }

    /// The flag of `flag`.
    pub open spec fn flag(self, flag: ActionFlag) -> bool {
        match flag {
            ActionFlag::Pulling => self.pulling,
            ActionFlag::Deploying => self.deploying,
            ActionFlag::Starting => self.starting,
            ActionFlag::Restarting => self.restarting,
            ActionFlag::Pausing => self.pausing,
            ActionFlag::Unpausing => self.unpausing,
            ActionFlag::Stopping => self.stopping,
            ActionFlag::Destroying => self.destroying,
        }
    }

    /// Some operation is in flight.
    pub open spec fn spec_busy(self) -> bool {
        self != StackActionState::idle()
    }

    /// Exactly the flag of `flag` is set.
    pub open spec fn claimed(flag: ActionFlag) -> StackActionState {
        match flag {
            ActionFlag::Pulling => StackActionState { pulling: true, ..StackActionState::idle() },
            ActionFlag::Deploying => StackActionState {
                deploying: true,
                ..StackActionState::idle()
            },
            ActionFlag::Starting => StackActionState { starting: true, ..StackActionState::idle() },
            ActionFlag::Restarting => StackActionState {
                restarting: true,
                ..StackActionState::idle()
            },
            ActionFlag::Pausing => StackActionState { pausing: true, ..StackActionState::idle() },
            ActionFlag::Unpausing => StackActionState {
                unpausing: true,
                ..StackActionState::idle()
            },
            ActionFlag::Stopping => StackActionState { stopping: true, ..StackActionState::idle() },
            ActionFlag::Destroying => StackActionState {
                destroying: true,
                ..StackActionState::idle()
            },
        }
    }

    /// The first flag that is set, in the order of [`ActionFlag`].
    pub open spec fn spec_current(self) -> Option<ActionFlag> {
        if self.pulling {
            Some(ActionFlag::Pulling)
        } else if self.deploying {
            Some(ActionFlag::Deploying)
        } else if self.starting {
            Some(ActionFlag::Starting)
        } else if self.restarting {
            Some(ActionFlag::Restarting)
        } else if self.pausing {
            Some(ActionFlag::Pausing)
        } else if self.unpausing {
            Some(ActionFlag::Unpausing)
        } else if self.stopping {
            Some(ActionFlag::Stopping)
        } else if self.destroying {
            Some(ActionFlag::Destroying)
        } else {
            None
        }
    }

    /// No operation in flight.
    pub fn new() -> (state: StackActionState)
        ensures
            state == StackActionState::idle(),
    {
        StackActionState {
            pulling: false,
            deploying: false,
            starting: false,
            restarting: false,
            pausing: false,
            unpausing: false,
            stopping: false,
            destroying: false,
        }
    }

    /// Exactly the flag of `flag` is set.
    pub fn with(flag: ActionFlag) -> (state: StackActionState)
        ensures
            state == StackActionState::claimed(flag),
    {
        let mut state = StackActionState::new();
        match flag {
            ActionFlag::Pulling => state.pulling = true,
            ActionFlag::Deploying => state.deploying = true,
            ActionFlag::Starting => state.starting = true,
            ActionFlag::Restarting => state.restarting = true,
            ActionFlag::Pausing => state.pausing = true,
            ActionFlag::Unpausing => state.unpausing = true,
            ActionFlag::Stopping => state.stopping = true,
            ActionFlag::Destroying => state.destroying = true,
        }
        state
    }

    /// Tells whether some operation is in flight.
    pub fn busy(&self) -> (res: bool)
        ensures
            res == self.spec_busy(),
    {
        self.pulling || self.deploying || self.starting || self.restarting || self.pausing
            || self.unpausing || self.stopping || self.destroying
    }

    /// The operation in flight: the first flag that is set.
    pub fn current(&self) -> (res: Option<ActionFlag>)
        ensures
            res == self.spec_current(),
            res is None <==> !self.spec_busy(),
    {
        if self.pulling {
            Some(ActionFlag::Pulling)
        } else if self.deploying {
            Some(ActionFlag::Deploying)
        } else if self.starting {
            Some(ActionFlag::Starting)
        } else if self.restarting {
            Some(ActionFlag::Restarting)
        } else if self.pausing {
            Some(ActionFlag::Pausing)
        } else if self.unpausing {
            Some(ActionFlag::Unpausing)
        } else if self.stopping {
            Some(ActionFlag::Stopping)
        } else if self.destroying {
            Some(ActionFlag::Destroying)
        } else {
            None
        }
    }
}

/// The refusal to start an operation on a resource that has one in flight.
#[derive(Debug, PartialEq, Eq)]
pub struct Busy {
    /// The resource that is busy.
    pub resource: String,
    /// The operation that holds it.
    pub operation: ActionFlag,
}

/// Mathematical view of [`Busy`].
pub struct BusyView {
    pub resource: Seq<char>,
    pub operation: ActionFlag,
}

impl DeepView for Busy {
    type V = BusyView;

    open spec fn deep_view(&self) -> BusyView {
        BusyView { resource: self.resource@, operation: self.operation }
    }
}

impl View for Busy {
    type V = BusyView;

    open spec fn view(&self) -> BusyView {
        self.deep_view()
    }
}

/// The claim on a resource. Whoever holds it is the one operation in flight
/// on that resource; handing it to [`ActionStates::release`] ends the claim.
#[derive(Debug)]
pub struct ActionGuard {
    id: String,
    flag: ActionFlag,
}

/// Mathematical view of [`ActionGuard`].
pub struct ActionGuardView {
    pub id: Seq<char>,
    pub flag: ActionFlag,
}

impl View for ActionGuard {
    type V = ActionGuardView;

    closed spec fn view(&self) -> ActionGuardView {
        ActionGuardView { id: self.id@, flag: self.flag }
    }
}

impl ActionGuard {
    /// The resource that the guard claims.
    pub fn id(&self) -> (id: &String)
        ensures
            id@ == self@.id,
    {
        &self.id
    }

    /// The flag that the guard set.
    pub fn flag(&self) -> (flag: ActionFlag)
        ensures
            flag == self@.flag,
    {
        self.flag
    }
}

/// The flags of every resource, as a map from resource id to flags.
pub type RegistryView = Map<Seq<char>, StackActionState>;

/// The flags of `id`: idle until something was claimed on it.
pub open spec fn state_of(states: RegistryView, id: Seq<char>) -> StackActionState {
    if states.contains_key(id) {
        states[id]
    } else {
        StackActionState::idle()
    }
}

/// What a claim of `flag` on `id` gives: the new flags of every resource and
/// the guard, or the refusal, with the flags left as they were.
pub open spec fn spec_update(states: RegistryView, id: Seq<char>, flag: ActionFlag) -> (
    RegistryView,
    Result<ActionGuardView, BusyView>,
) {
    match state_of(states, id).spec_current() {
        Some(operation) => (states, Err(BusyView { resource: id, operation })),
        None => (
            states.insert(id, StackActionState::claimed(flag)),
            Ok(ActionGuardView { id, flag }),
        ),
    }
}

/// The flags of every resource once the claim on `id` has ended.
pub open spec fn spec_release(states: RegistryView, id: Seq<char>) -> RegistryView {
    states.insert(id, StackActionState::idle())
}

struct Entry {
    id: String,
    state: StackActionState,
}

/// The flags of every resource that was ever claimed.
pub struct ActionStates {
    entries: Vec<Entry>,
}

/// Some entry before `end` has the id `id`.
spec fn listed(entries: Seq<Entry>, id: Seq<char>, end: int) -> bool {
    exists|i: int| 0 <= i < end && i < entries.len() && (#[trigger] entries[i]).id@ == id
}

/// The position of the entry with the id `id`.
spec fn position(entries: Seq<Entry>, id: Seq<char>) -> int {
    choose|i: int| 0 <= i < entries.len() && (#[trigger] entries[i]).id@ == id
}

/// No two entries share an id.
spec fn distinct(entries: Seq<Entry>) -> bool {
    forall|i: int, j: int|
        0 <= i < entries.len() && 0 <= j < entries.len() && (#[trigger] entries[i]).id@ == (
        #[trigger] entries[j]).id@ ==> i == j
}

/// The map that the entries stand for.
spec fn as_map(entries: Seq<Entry>) -> RegistryView {
    Map::new(
        |id: Seq<char>| listed(entries, id, entries.len() as int),
        |id: Seq<char>| entries[position(entries, id)].state,
    )
}

impl View for ActionStates {
    type V = RegistryView;

    closed spec fn view(&self) -> RegistryView {
        as_map(self.entries@)
    }
}

impl ActionStates {
    #[verifier::type_invariant]
    spec fn well_formed(self) -> bool {
        distinct(self.entries@)
    }

    /// A registry in which nothing was claimed yet.
    pub fn new() -> (states: ActionStates)
        ensures
            states@ == Map::<Seq<char>, StackActionState>::empty(),
    {
        let states = ActionStates { entries: Vec::new() };
        assert(states@ =~= Map::<Seq<char>, StackActionState>::empty());
        states
    }

    fn find(&self, id: &String) -> (found: Option<usize>)
        ensures
            match found {
                Some(i) => i < self.entries.len() && self.entries[i as int].id@ == id@,
                None => !listed(self.entries@, id@, self.entries.len() as int),
            },
    {
        let mut i: usize = 0;
        while i < self.entries.len()
            invariant
                i <= self.entries.len(),
                !listed(self.entries@, id@, i as int),
            decreases self.entries.len() - i,
        {
            if self.entries[i].id == *id {
                return Some(i);
            }
            i += 1;
        }
        None
    }

    /// The flags of `id`.
    pub fn get(&self, id: &String) -> (state: StackActionState)
        ensures
            state == state_of(self@, id@),
    {
        proof {
            use_type_invariant(self);
        }
        match self.find(id) {
            Some(i) => self.entries[i].state,
            None => StackActionState::new(),
        }
    }

    /// Claims `flag` on `id`, unless an operation is in flight there.
    pub fn update(&mut self, id: &String, flag: ActionFlag) -> (res: Result<ActionGuard, Busy>)
        ensures
            final(self)@ == spec_update(old(self)@, id@, flag).0,
            match res {
                Ok(guard) => spec_update(old(self)@, id@, flag).1 == Ok::<
                    ActionGuardView,
                    BusyView,
                >(guard@),
                Err(busy) => spec_update(old(self)@, id@, flag).1 == Err::<
                    ActionGuardView,
                    BusyView,
                >(busy@),
            },
    {
        proof {
            use_type_invariant(&*self);
        }
        let found = self.find(id);
        let mut entries = self.take_entries();
        let res = match found {
            Some(i) => {
                match entries[i].state.current() {
                    Some(operation) => Err(Busy { resource: id.clone(), operation }),
                    None => {
                        let entry = Entry { id: id.clone(), state: StackActionState::with(flag) };
                        entries.set(i, entry);
                        proof {
                            lemma_set_is_insert(old(self).entries@, entries@, i as int);
                        }
                        Ok(ActionGuard { id: id.clone(), flag })
                    },
                }
            },
            None => {
                let entry = Entry { id: id.clone(), state: StackActionState::with(flag) };
                entries.push(entry);
                proof {
                    lemma_push_is_insert(old(self).entries@, entries@);
                }
                Ok(ActionGuard { id: id.clone(), flag })
            },
        };
        *self = ActionStates { entries };
        res
    }

    /// Ends the claim of `guard`: the flags of its resource are reset.
    pub fn release(&mut self, guard: ActionGuard)
        ensures
            final(self)@ == spec_release(old(self)@, guard@.id),
    {
        proof {
            use_type_invariant(&*self);
        }
        let found = self.find(&guard.id);
        let entry = Entry { id: guard.id, state: StackActionState::new() };
        let mut entries = self.take_entries();
        match found {
            Some(i) => {
                entries.set(i, entry);
                proof {
                    lemma_set_is_insert(old(self).entries@, entries@, i as int);
                }
            },
            None => {
                entries.push(entry);
                proof {
                    lemma_push_is_insert(old(self).entries@, entries@);
                }
            },
        }
        *self = ActionStates { entries };
    }

    /// Moves the entries out, leaving an empty registry behind.
    fn take_entries(&mut self) -> (entries: Vec<Entry>)
        ensures
            entries == old(self).entries,
    {
        let mut taken = ActionStates { entries: Vec::new() };
        core::mem::swap(self, &mut taken);
        taken.entries
    }
}

/// While a claim on a resource stands, every further claim on it is refused
/// and names the operation in flight, whatever flag it asks for; once the
/// claim has ended, the next claim succeeds.
pub proof fn lemma_mutual_exclusion(
    states: RegistryView,
    id: Seq<char>,
    first: ActionFlag,
    second: ActionFlag,
)
    requires
        spec_update(states, id, first).1 is Ok,
    ensures
        ({
            let held = spec_update(states, id, first).0;
            &&& spec_update(held, id, second).0 == held
            &&& spec_update(held, id, second).1 == Err::<ActionGuardView, BusyView>(
                BusyView { resource: id, operation: first },
            )
            &&& spec_update(spec_release(held, id), id, second).1 is Ok
        }),
{
}

/// A claim succeeds exactly on a resource with no operation in flight.
pub proof fn lemma_update_succeeds_when_idle(states: RegistryView, id: Seq<char>, flag: ActionFlag)
    ensures
        spec_update(states, id, flag).1 is Ok <==> !state_of(states, id).spec_busy(),
        spec_update(states, id, flag).1 is Ok ==> state_of(spec_update(states, id, flag).0, id)
            == StackActionState::claimed(flag),
{
}

/// Ending a claim leaves no flag of the resource set.
pub proof fn lemma_release_resets(states: RegistryView, id: Seq<char>)
    ensures
        state_of(spec_release(states, id), id) == StackActionState::idle(),
        !state_of(spec_release(states, id), id).spec_busy(),
{
}

/// Claiming and releasing one resource leaves every other resource as it was.
pub proof fn lemma_resources_are_independent(
    states: RegistryView,
    id: Seq<char>,
    flag: ActionFlag,
    other: Seq<char>,
)
    requires
        other != id,
    ensures
        state_of(spec_update(states, id, flag).0, other) == state_of(states, other),
        state_of(spec_release(states, id), other) == state_of(states, other),
{
}

/// Replacing the state of an entry is an insertion under its id.
proof fn lemma_set_is_insert(before: Seq<Entry>, after: Seq<Entry>, i: int)
    requires
        distinct(before),
        0 <= i < before.len(),
        after.len() == before.len(),
        after[i].id@ == before[i].id@,
        forall|j: int| 0 <= j < before.len() && j != i ==> after[j] == before[j],
    ensures
        distinct(after),
        as_map(after) == as_map(before).insert(after[i].id@, after[i].state),
{
    assert forall|a: int, b: int|
        0 <= a < after.len() && 0 <= b < after.len() && (#[trigger] after[a]).id@ == (
        #[trigger] after[b]).id@ implies a == b by {
        assert(before[a].id@ == after[a].id@);
        assert(before[b].id@ == after[b].id@);
    }
    let want = as_map(before).insert(after[i].id@, after[i].state);
    assert forall|id: Seq<char>| as_map(after).contains_key(id) <==> want.contains_key(id) by {
        if listed(after, id, after.len() as int) {
            let k = choose|k: int| 0 <= k < after.len() && (#[trigger] after[k]).id@ == id;
            assert(before[k].id@ == id);
        }
        if listed(before, id, before.len() as int) {
            let k = choose|k: int| 0 <= k < before.len() && (#[trigger] before[k]).id@ == id;
            assert(after[k].id@ == id);
        }
        if id == after[i].id@ {
            assert(after[i].id@ == id);
        }
    }
    assert forall|id: Seq<char>| as_map(after).contains_key(id) implies as_map(after)[id]
        == want[id] by {
        let k = position(after, id);
        assert(after[k].id@ == id);
        assert(before[k].id@ == id);
        if k != i {
            let kb = position(before, id);
            assert(before[kb].id@ == id);
            assert(kb == k);
        }
    }
    assert(as_map(after) =~= want);
}

/// Appending an entry with a new id is an insertion under its id.
proof fn lemma_push_is_insert(before: Seq<Entry>, after: Seq<Entry>)
    requires
        distinct(before),
        after.len() == before.len() + 1,
        forall|j: int| 0 <= j < before.len() ==> after[j] == before[j],
        !listed(before, after.last().id@, before.len() as int),
    ensures
        distinct(after),
        as_map(after) == as_map(before).insert(after.last().id@, after.last().state),
{
    let n = before.len() as int;
    assert forall|a: int, b: int|
        0 <= a < after.len() && 0 <= b < after.len() && (#[trigger] after[a]).id@ == (
        #[trigger] after[b]).id@ implies a == b by {
        if a < n && b < n {
            assert(before[a].id@ == before[b].id@);
        } else if a < n {
            assert(before[a].id@ == after.last().id@);
        } else if b < n {
            assert(before[b].id@ == after.last().id@);
        }
    }
    let want = as_map(before).insert(after.last().id@, after.last().state);
    assert forall|id: Seq<char>| as_map(after).contains_key(id) <==> want.contains_key(id) by {
        if listed(after, id, after.len() as int) {
            let k = choose|k: int| 0 <= k < after.len() && (#[trigger] after[k]).id@ == id;
            if k < n {
                assert(before[k].id@ == id);
            }
        }
        if listed(before, id, n) {
            let k = choose|k: int| 0 <= k < before.len() && (#[trigger] before[k]).id@ == id;
            assert(after[k].id@ == id);
        }
        if id == after.last().id@ {
            assert(after[n].id@ == id);
        }
    }
    assert forall|id: Seq<char>| as_map(after).contains_key(id) implies as_map(after)[id]
        == want[id] by {
        let k = position(after, id);
        assert(after[k].id@ == id);
        if k < n {
            assert(before[k].id@ == id);
            let kb = position(before, id);
            assert(before[kb].id@ == id);
            assert(kb == k);
        }
    }
    assert(as_map(after) =~= want);
}

} // verus!
