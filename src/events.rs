use vstd::prelude::*;
use vstd::string::*;

verus! {

/// The schema version of the events that the engine publishes.
pub const SYSTEM_EVENT_SCHEMA_VERSION: u16 = 1;

/// An event with the schema version it was written under. The major
/// version must match exactly; new variants are additive within it.
#[derive(Debug, Clone)]
pub struct VersionedSystemEvent {
    pub schema_version: u16,
    pub event: SystemEvent,
}

/// A change in the life of a goal.
#[derive(Debug, Clone)]
pub enum SystemEvent {
    GoalCreated { goal_id: String, task: String },
    GoalCancelled { goal_id: String },
    GoalStatusChanged { goal_id: String, status: GoalStatus },
}

/// Where a goal stands.
#[derive(Debug, Clone, Copy, PartialEq, Eq, Structural)]
pub enum GoalStatus {
    Pending,
    Running,
    Completed,
    Failed,
    Cancelled,
}

/// Why a goal operation was refused.
#[derive(Debug)]
pub enum AntError {
    GoalAlreadyExists(String),
    GoalNotFound(String),
}

impl AntError {
    pub open spec fn spec_message(&self) -> Seq<char> {
        match self {
            AntError::GoalAlreadyExists(id) => "goal already exists: "@ + id@,
            AntError::GoalNotFound(id) => "goal not found: "@ + id@,
        }
    }

    /// The error as text.
    pub fn message(&self) -> (r: String)
        ensures
            r@ == self.spec_message(),
    {
        match self {
            AntError::GoalAlreadyExists(id) => String::from_str("goal already exists: ").concat(
                id.as_str(),
            ),
            AntError::GoalNotFound(id) => String::from_str("goal not found: ").concat(id.as_str()),
        }
    }
}

impl VersionedSystemEvent {
    /// `event` under the current schema version.
    pub fn current(event: SystemEvent) -> (r: Self)
        ensures
            r.schema_version == SYSTEM_EVENT_SCHEMA_VERSION,
            r.event == event,
    {
        VersionedSystemEvent { schema_version: SYSTEM_EVENT_SCHEMA_VERSION, event }
    }
}

#[verifier::external_type_specification]
#[verifier::external_body]
#[verifier::reject_recursive_types(T)]
pub struct ExSender<T>(tokio::sync::broadcast::Sender<T>);

#[verifier::external_type_specification]
#[verifier::external_body]
#[verifier::reject_recursive_types(T)]
pub struct ExReceiver<T>(tokio::sync::broadcast::Receiver<T>);

/// The number of events the bus holds for a slow subscriber.
pub const BUS_CAPACITY: usize = 1024;

/// Relies on tokio::sync::broadcast::channel, which panics on a capacity of
/// 0 or above `usize::MAX / 2`.
#[verifier::external_body]
fn event_bus(capacity: usize) -> (r: (
    tokio::sync::broadcast::Sender<VersionedSystemEvent>,
    tokio::sync::broadcast::Receiver<VersionedSystemEvent>,
))
    requires
        0 < capacity <= usize::MAX / 2,
{
    tokio::sync::broadcast::channel(capacity)
}

/// Relies on tokio::sync::broadcast::Sender::subscribe: a receiver of the
/// events sent from now on.
#[verifier::external_body]
fn subscribe(bus: &tokio::sync::broadcast::Sender<VersionedSystemEvent>) -> (r:
    tokio::sync::broadcast::Receiver<VersionedSystemEvent>) {
    bus.subscribe()
}

/// Relies on tokio::sync::broadcast::Sender::send, whose only failure is
/// that nobody subscribes: that is no error here.
#[verifier::external_body]
fn publish(bus: &tokio::sync::broadcast::Sender<VersionedSystemEvent>, event: VersionedSystemEvent) {
    let _ = bus.send(event);
}

/// The status of goal `id` among `goals`, looking from index `i` on; the
/// first entry with that id decides.
pub open spec fn goal_lookup(goals: Seq<(String, GoalStatus)>, id: Seq<char>, i: int) -> Option<
    GoalStatus,
>
    decreases goals.len() - i,
{
    if i < 0 || i >= goals.len() {
        None
    } else if goals[i].0@ == id {
        Some(goals[i].1)
    } else {
        goal_lookup(goals, id, i + 1)
    }
}

proof fn lemma_lookup_absent(goals: Seq<(String, GoalStatus)>, id: Seq<char>, i: int)
    requires
        0 <= i,
        forall|k: int| i <= k < goals.len() ==> (#[trigger] goals[k]).0@ != id,
    ensures
        goal_lookup(goals, id, i) is None,
    decreases goals.len() - i,
{
    if i < goals.len() {
        lemma_lookup_absent(goals, id, i + 1);
    }
}

proof fn lemma_lookup_first(goals: Seq<(String, GoalStatus)>, id: Seq<char>, i: int, j: int)
    requires
        0 <= i <= j < goals.len(),
        goals[j].0@ == id,
        forall|k: int| i <= k < j ==> (#[trigger] goals[k]).0@ != id,
    ensures
        goal_lookup(goals, id, i) == Some(goals[j].1),
    decreases j - i,
{
    if i < j {
        lemma_lookup_first(goals, id, i + 1, j);
    }
}

proof fn lemma_lookup_push(
    goals: Seq<(String, GoalStatus)>,
    entry: (String, GoalStatus),
    id: Seq<char>,
    i: int,
)
    requires
        0 <= i <= goals.len(),
    ensures
        goal_lookup(goals.push(entry), id, i) == (if goal_lookup(goals, id, i) is Some {
            goal_lookup(goals, id, i)
        } else if entry.0@ == id {
            Some(entry.1)
        } else {
            None
        }),
    decreases goals.len() - i,
{
    let pushed = goals.push(entry);
    if i < goals.len() {
        assert(pushed[i] == goals[i]);
        lemma_lookup_push(goals, entry, id, i + 1);
    } else {
        assert(pushed[i] == entry);
        assert(goal_lookup(pushed, id, i + 1) is None);
    }
}

proof fn lemma_lookup_update_key(
    goals: Seq<(String, GoalStatus)>,
    j: int,
    key: String,
    status: GoalStatus,
    id: Seq<char>,
)
    requires
        0 <= j < goals.len(),
        key@ == goals[j].0@,
        forall|k: int| 0 <= k < j ==> (#[trigger] goals[k]).0@ != key@,
    ensures
        goal_lookup(goals.update(j, (key, status)), id, 0) == (if id == key@ {
            Some(status)
        } else {
            goal_lookup(goals, id, 0)
        }),
{
    let after = goals.update(j, (key, status));
    if id == key@ {
        lemma_lookup_first(after, id, 0, j);
        lemma_lookup_first(goals, id, 0, j);
    } else {
        lemma_lookup_skip(after, goals, j, id, 0);
    }
}

/// Two sequences that differ at most at index `j`, whose entries there
/// both have an id other than `id`, agree on `id`.
proof fn lemma_lookup_skip(
    a: Seq<(String, GoalStatus)>,
    b: Seq<(String, GoalStatus)>,
    j: int,
    id: Seq<char>,
    i: int,
)
    requires
        0 <= i,
        0 <= j < a.len(),
        a.len() == b.len(),
        a[j].0@ != id,
        b[j].0@ != id,
        forall|k: int| 0 <= k < a.len() && k != j ==> a[k] == b[k],
    ensures
        goal_lookup(a, id, i) == goal_lookup(b, id, i),
    decreases a.len() - i,
{
    if i < a.len() {
        lemma_lookup_skip(a, b, j, id, i + 1);
    }
}

/// Whether `v` announces, under the current schema, that goal `id` was
/// created for `task`.
pub open spec fn is_created_event(v: VersionedSystemEvent, id: Seq<char>, task: Seq<char>) -> bool {
    &&& v.schema_version == SYSTEM_EVENT_SCHEMA_VERSION
    &&& v.event matches SystemEvent::GoalCreated { goal_id, task: t } && goal_id@ == id && t@ == task
}

/// Whether `v` announces, under the current schema, that goal `id` was
/// cancelled.
pub open spec fn is_cancelled_event(v: VersionedSystemEvent, id: Seq<char>) -> bool {
    &&& v.schema_version == SYSTEM_EVENT_SCHEMA_VERSION
    &&& v.event matches SystemEvent::GoalCancelled { goal_id } && goal_id@ == id
}

/// Whether `v` announces, under the current schema, that goal `id` now
/// stands at `status`.
pub open spec fn is_status_event(v: VersionedSystemEvent, id: Seq<char>, status: GoalStatus) -> bool {
    &&& v.schema_version == SYSTEM_EVENT_SCHEMA_VERSION
    &&& v.event matches SystemEvent::GoalStatusChanged { goal_id, status: s } && goal_id@ == id
        && s == status
}

/// Whether `after` is `before` followed by a pair of events `a` and `b`.
pub open spec fn published_pair(
    before: Seq<VersionedSystemEvent>,
    after: Seq<VersionedSystemEvent>,
    a: spec_fn(VersionedSystemEvent) -> bool,
    b: spec_fn(VersionedSystemEvent) -> bool,
) -> bool {
    &&& after.len() == before.len() + 2
    &&& after.subrange(0, before.len() as int) == before
    &&& a(after[before.len() as int])
    &&& b(after[before.len() + 1 as int])
}

/// Tracks goals and publishes each change of their lives to subscribers.
/// Goals are kept in creation order, each id once.
pub struct AntEngine {
    bus: tokio::sync::broadcast::Sender<VersionedSystemEvent>,
    goals: Vec<(String, GoalStatus)>,
    published: Ghost<Seq<VersionedSystemEvent>>,
}

impl AntEngine {
    /// The status of goal `id`, if it exists.
    pub closed spec fn status_of(&self, id: Seq<char>) -> Option<GoalStatus> {
        goal_lookup(self.goals@, id, 0)
    }

    /// Every event this engine has handed to its bus, in order.
    pub closed spec fn published(&self) -> Seq<VersionedSystemEvent> {
        self.published@
    }

    /// Whether `self` holds the same goals as `other`.
    pub open spec fn same_goals(&self, other: &AntEngine) -> bool {
        forall|id: Seq<char>| #[trigger] self.status_of(id) == other.status_of(id)
    }

    /// An engine with no goals.
    pub fn new() -> (r: Self)
        ensures
            forall|id: Seq<char>| (#[trigger] r.status_of(id)) is None,
            r.published() == Seq::<VersionedSystemEvent>::empty(),
    {
        let (bus, _) = event_bus(BUS_CAPACITY);
        let r = AntEngine { bus, goals: Vec::new(), published: Ghost(Seq::empty()) };
        assert forall|id: Seq<char>| (#[trigger] r.status_of(id)) is None by {
            lemma_lookup_absent(r.goals@, id, 0);
        }
        r
    }

    /// The index of goal `id`, if it exists.
    fn find(&self, id: &str) -> (r: Option<usize>)
        ensures
            r matches Some(j) ==> j < self.goals@.len() && self.goals@[j as int].0@ == id@
                && forall|k: int| 0 <= k < j ==> (#[trigger] self.goals@[k]).0@ != id@,
            r is None ==> forall|k: int|
                0 <= k < self.goals@.len() ==> (#[trigger] self.goals@[k]).0@ != id@,
    {
        let key = String::from_str(id);
        let mut i: usize = 0;
        while i < self.goals.len()
            invariant
                key@ == id@,
                i <= self.goals@.len(),
                forall|k: int| 0 <= k < i ==> (#[trigger] self.goals@[k]).0@ != id@,
            decreases self.goals.len() - i,
        {
            if self.goals[i].0 == key {
                return Some(i);
            }
            i = i + 1;
        }
        None
    }

    /// Creates goal `goal_id`, pending, and publishes its creation and its
    /// status; refused where the goal exists.
    pub fn create_goal(&mut self, goal_id: &str, task: &str) -> (r: Result<(), AntError>)
        ensures
            old(self).status_of(goal_id@) is Some ==> (r matches Err(AntError::GoalAlreadyExists(g))
                && g@ == goal_id@),
            old(self).status_of(goal_id@) is Some ==> final(self).same_goals(old(self))
                && final(self).published() == old(self).published(),
            old(self).status_of(goal_id@) is None ==> r is Ok && final(self).status_of(goal_id@)
                == Some(GoalStatus::Pending) && forall|id: Seq<char>|
                id != goal_id@ ==> #[trigger] final(self).status_of(id) == old(self).status_of(id),
            old(self).status_of(goal_id@) is None ==> published_pair(
                old(self).published(),
                final(self).published(),
                |v: VersionedSystemEvent| is_created_event(v, goal_id@, task@),
                |v: VersionedSystemEvent| is_status_event(v, goal_id@, GoalStatus::Pending),
            ),
    {
        match self.find(goal_id) {
            Some(j) => {
                proof {
                    lemma_lookup_first(self.goals@, goal_id@, 0, j as int);
                }
                return Err(AntError::GoalAlreadyExists(String::from_str(goal_id)));
            },
            None => {},
        }
        proof {
            lemma_lookup_absent(self.goals@, goal_id@, 0);
        }
        let ghost before = self.goals@;
        let ghost log = self.published@;
        let entry = (String::from_str(goal_id), GoalStatus::Pending);
        self.goals.push(entry);
        proof {
            assert forall|id: Seq<char>| #[trigger] goal_lookup(self.goals@, id, 0) == (if id
                == goal_id@ {
                Some(GoalStatus::Pending)
            } else {
                goal_lookup(before, id, 0)
            }) by {
                lemma_lookup_push(before, entry, id, 0);
                if id == goal_id@ {
                    lemma_lookup_absent(before, id, 0);
                }
            }
        }
        self.emit(
            SystemEvent::GoalCreated {
                goal_id: String::from_str(goal_id),
                task: String::from_str(task),
            },
        );
        let ghost mid = self.published@;
        self.emit(
            SystemEvent::GoalStatusChanged {
                goal_id: String::from_str(goal_id),
                status: GoalStatus::Pending,
            },
        );
        proof {
            let after = self.published@;
            assert(mid.drop_last() == log);
            assert(after.drop_last() == mid);
            assert(after.subrange(0, log.len() as int) =~= log);
            assert(after[log.len() as int] == mid.last());
        }
        Ok(())
    }

    /// A receiver of the events published from now on.
    pub fn subscribe_events(&self) -> tokio::sync::broadcast::Receiver<VersionedSystemEvent> {
        subscribe(&self.bus)
    }

    /// The status of goal `goal_id`.
    pub fn get_goal_status(&self, goal_id: &str) -> (r: Result<GoalStatus, AntError>)
        ensures
            self.status_of(goal_id@) matches Some(s) ==> r == Ok::<GoalStatus, AntError>(s),
            self.status_of(goal_id@) is None ==> (r matches Err(AntError::GoalNotFound(g)) && g@
                == goal_id@),
    {
        match self.find(goal_id) {
            Some(j) => {
                proof {
                    lemma_lookup_first(self.goals@, goal_id@, 0, j as int);
                }
                Ok(self.goals[j].1)
            },
            None => {
                proof {
                    lemma_lookup_absent(self.goals@, goal_id@, 0);
                }
                Err(AntError::GoalNotFound(String::from_str(goal_id)))
            },
        }
    }

    /// Marks goal `goal_id` cancelled and publishes the cancellation and
    /// the new status; refused where the goal does not exist.
    pub fn cancel_goal(&mut self, goal_id: &str) -> (r: Result<(), AntError>)
        ensures
            old(self).status_of(goal_id@) is None ==> (r matches Err(AntError::GoalNotFound(g)) && g@
                == goal_id@),
            old(self).status_of(goal_id@) is None ==> final(self).same_goals(old(self))
                && final(self).published() == old(self).published(),
            old(self).status_of(goal_id@) is Some ==> r is Ok && final(self).status_of(goal_id@)
                == Some(GoalStatus::Cancelled) && forall|id: Seq<char>|
                id != goal_id@ ==> #[trigger] final(self).status_of(id) == old(self).status_of(id),
            old(self).status_of(goal_id@) is Some ==> published_pair(
                old(self).published(),
                final(self).published(),
                |v: VersionedSystemEvent| is_cancelled_event(v, goal_id@),
                |v: VersionedSystemEvent| is_status_event(v, goal_id@, GoalStatus::Cancelled),
            ),
    {
        let j = match self.find(goal_id) {
            Some(j) => j,
            None => {
                proof {
                    lemma_lookup_absent(self.goals@, goal_id@, 0);
                }
                return Err(AntError::GoalNotFound(String::from_str(goal_id)));
            },
        };
        proof {
            lemma_lookup_first(self.goals@, goal_id@, 0, j as int);
        }
        let ghost before = self.goals@;
        let ghost log = self.published@;
        let key = String::from_str(goal_id);
        let ghost k = key;
        self.goals.set(j, (key, GoalStatus::Cancelled));
        proof {
            assert(self.goals@ == before.update(j as int, (k, GoalStatus::Cancelled)));
            assert forall|id: Seq<char>| #[trigger] goal_lookup(self.goals@, id, 0) == (if id
                == goal_id@ {
                Some(GoalStatus::Cancelled)
            } else {
                goal_lookup(before, id, 0)
            }) by {
                lemma_lookup_update_key(before, j as int, k, GoalStatus::Cancelled, id);
            }
        }
        self.emit(SystemEvent::GoalCancelled { goal_id: String::from_str(goal_id) });
        let ghost mid = self.published@;
        self.emit(
            SystemEvent::GoalStatusChanged {
                goal_id: String::from_str(goal_id),
                status: GoalStatus::Cancelled,
            },
        );
        proof {
            let after = self.published@;
            assert(mid.drop_last() == log);
            assert(after.drop_last() == mid);
            assert(after.subrange(0, log.len() as int) =~= log);
            assert(after[log.len() as int] == mid.last());
        }
        Ok(())
    }

    /// Publishes `event` under the current schema.
    fn emit(&mut self, event: SystemEvent)
        ensures
            final(self).goals@ == old(self).goals@,
            final(self).published@.len() == old(self).published@.len() + 1,
            final(self).published@.drop_last() == old(self).published@,
            final(self).published@.last().schema_version == SYSTEM_EVENT_SCHEMA_VERSION,
            final(self).published@.last().event == event,
    {
        let v = VersionedSystemEvent::current(event);
        let ghost handed = v;
        publish(&self.bus, v);
        self.published = Ghost(self.published@.push(handed));
        assert(self.published@.drop_last() =~= old(self).published@);
    }
}

impl Default for AntEngine {
    fn default() -> (r: Self)
        ensures
            forall|id: Seq<char>| (#[trigger] r.status_of(id)) is None,
            r.published() == Seq::<VersionedSystemEvent>::empty(),
    {
        Self::new()
    }
}

} // verus!
