//! Per-component logging state and the registry that holds it.

use vstd::prelude::*;

verus! {

/// What a [`ComponentState`] stands for: the name of the component, its
/// current and previous target paths, whether a collection process is
/// believed to be running, and the handle of that process.
pub struct ComponentStateView<H> {
    pub name: Seq<char>,
    pub log_path: Option<Seq<char>>,
    pub previous_log_path: Option<Seq<char>>,
    pub active: bool,
    pub command: Option<H>,
}

impl<H> ComponentStateView<H> {
    /// A component that has never logged.
    pub open spec fn idle(name: Seq<char>) -> Self {
        ComponentStateView {
            name,
            log_path: None,
            previous_log_path: None,
            active: false,
            command: None,
        }
    }

    /// A component is active exactly when it owns a process handle, and an
    /// active component has a current target path.
    pub open spec fn wf(self) -> bool {
        &&& self.active <==> self.command is Some
        &&& self.active ==> self.log_path is Some
    }

    /// The component once a process writing to `log_path` has been launched
    /// for it: the path that was current, if any, becomes the previous one.
    pub open spec fn started(self, log_path: Seq<char>, command: H) -> Self {
        ComponentStateView {
            name: self.name,
            log_path: Some(log_path),
            previous_log_path: if self.log_path is Some {
                self.log_path
            } else {
                self.previous_log_path
            },
            active: true,
            command: Some(command),
        }
    }

    /// The component once its process has been told to terminate: the current
    /// path moves to the previous one and the handle is given up.
    pub open spec fn stopped(self) -> Self {
        ComponentStateView {
            name: self.name,
            log_path: None,
            previous_log_path: self.log_path,
            active: false,
            command: None,
        }
    }

    /// Whether the component is logging to `log_path` right now.
    pub open spec fn is_logging_to(self, log_path: Seq<char>) -> bool {
        self.active && self.log_path == Some(log_path)
    }
}

/// The view of an optional string.
pub open spec fn opt_view(s: Option<String>) -> Option<Seq<char>> {
    match s {
        Some(s) => Some(s@),
        None => None,
    }
}

/// Copies an optional string.
pub(crate) fn clone_opt(s: &Option<String>) -> (r: Option<String>)
    ensures
        opt_view(r) == opt_view(*s),
{
    match s {
        Some(s) => Some(s.clone()),
        None => None,
    }
}

/// The logging state of one named component. `H` is the handle of the
/// collection process; the component owns it exclusively while it is active.
#[derive(Debug)]
pub struct ComponentState<H> {
    name: String,
    log_path: Option<String>,
    previous_log_path: Option<String>,
    active: bool,
    command: Option<H>,
}

impl<H> View for ComponentState<H> {
    type V = ComponentStateView<H>;

    closed spec fn view(&self) -> ComponentStateView<H> {
        ComponentStateView {
            name: self.name@,
            log_path: opt_view(self.log_path),
            previous_log_path: opt_view(self.previous_log_path),
            active: self.active,
            command: self.command,
        }
    }
}

impl<H> ComponentState<H> {
    /// An idle component called `name`.
    pub fn new(name: String) -> (c: ComponentState<H>)
        ensures
            c@ == ComponentStateView::<H>::idle(name@),
            c@.wf(),
    {
        ComponentState {
            name: name,
            log_path: None,
            previous_log_path: None,
            command: None,
            active: false,
        }
    }

    /// The component's name.
    pub fn name(&self) -> (r: &String)
        ensures
            r@ == self@.name,
    {
        &self.name
    }

    /// The path the component is logging to; `None` when idle.
    pub fn log_path(&self) -> (r: &Option<String>)
        ensures
            opt_view(*r) == self@.log_path,
    {
        &self.log_path
    }

    /// The last path the component logged to before the current one.
    pub fn previous_log_path(&self) -> (r: &Option<String>)
        ensures
            opt_view(*r) == self@.previous_log_path,
    {
        &self.previous_log_path
    }

    /// Whether a collection process is believed to be running.
    pub fn active(&self) -> (r: bool)
        ensures
            r == self@.active,
    {
        self.active
    }

    /// Whether the component is active and logging to `log_path`.
    pub fn is_logging_to(&self, log_path: &String) -> (r: bool)
        ensures
            r == self@.is_logging_to(log_path@),
    {
        match &self.log_path {
            Some(current) => self.active && *current == *log_path,
            None => false,
        }
    }

    /// Records that `command` was launched with its output bound to
    /// `log_path`. Returns the handle this one replaces, which the caller
    /// now owns and should terminate.
    pub fn begin_logging(&mut self, log_path: String, command: H) -> (replaced: Option<H>)
        ensures
            final(self)@ == old(self)@.started(log_path@, command),
            final(self)@.wf(),
            replaced == old(self)@.command,
    {
        if self.log_path.is_some() {
            self.previous_log_path = self.log_path.take();
        }
        self.log_path = Some(log_path);
        self.active = true;
        let replaced = self.command.take();
        self.command = Some(command);
        replaced
    }

    /// Records that the component's process was told to terminate. Returns
    /// its handle, which the caller now owns. The component is idle
    /// afterwards whether or not the process really exits.
    pub fn end_logging(&mut self) -> (command: Option<H>)
        requires
            old(self)@.wf(),
            old(self)@.active,
        ensures
            final(self)@ == old(self)@.stopped(),
            final(self)@.wf(),
            command == old(self)@.command,
            command is Some,
    {
        self.previous_log_path = self.log_path.take();
        self.active = false;
        self.command.take()
    }
}

/// What a [`LoggerState`] stands for: its counters, the names of the known
/// components in the order in which they are reported, and the state of
/// each component by name.
pub struct LoggerStateView<H> {
    pub serial_number: u64,
    pub call_count: nat,
    pub names: Seq<Seq<char>>,
    pub components: Map<Seq<char>, ComponentStateView<H>>,
}

impl<H> LoggerStateView<H> {
    /// No name is listed twice, the registry holds exactly the listed names,
    /// and each entry is a well-formed component that carries its own name.
    pub open spec fn wf(self) -> bool {
        &&& self.names.no_duplicates()
        &&& self.components.dom() == self.names.to_set()
        &&& forall|n: Seq<char>| #[trigger]
            self.components.dom().contains(n) ==> self.components[n].name == n
                && self.components[n].wf()
    }

    /// Whether `name` is the name of a known component.
    pub open spec fn knows(self, name: Seq<char>) -> bool {
        self.components.dom().contains(name)
    }

    /// Whether any component is active.
    pub open spec fn any_active(self) -> bool {
        exists|n: Seq<char>| #[trigger] self.components.dom().contains(n) && self.components[n].active
    }

    /// The state of a controller that has just been made: it knows the
    /// components of [`known_names`], all of them idle.
    pub open spec fn fresh() -> Self {
        LoggerStateView {
            serial_number: 0,
            call_count: 0,
            names: known_names(),
            components: Map::new(
                |n: Seq<char>| known_names().contains(n),
                |n: Seq<char>| ComponentStateView::idle(n),
            ),
        }
    }

    /// The state once one more operation has been counted.
    pub open spec fn counted(self) -> Self {
        LoggerStateView { call_count: self.call_count + 1, ..self }
    }

    /// The state with the component called `name` replaced by `component`.
    pub open spec fn with_component(self, name: Seq<char>, component: ComponentStateView<H>) -> Self {
        LoggerStateView { components: self.components.insert(name, component), ..self }
    }
}

/// The names of the components that a fresh controller knows, in the order
/// in which it reports them.
pub open spec fn known_names() -> Seq<Seq<char>> {
    seq!["sc_phy"@, "sc_scheduler"@, "sc_sm"@, "kernel"@]
}

/// The state of the whole controller: one entry per known component, and
/// the counters. The set of components is fixed when the state is made.
#[derive(Debug)]
pub struct LoggerState<H> {
    serial_number: u64,
    call_count: u32,
    components: Vec<ComponentState<H>>,
}

/// The names of a list of components, in order.
spec fn names_of<H>(components: Seq<ComponentState<H>>) -> Seq<Seq<char>> {
    components.map_values(|c: ComponentState<H>| c@.name)
}

/// The registry that a list of components stands for.
spec fn registry_of<H>(components: Seq<ComponentState<H>>) -> Map<
    Seq<char>,
    ComponentStateView<H>,
> {
    Map::new(
        |n: Seq<char>| names_of(components).contains(n),
        |n: Seq<char>| components[names_of(components).index_of(n)]@,
    )
}

/// In a list without repeated names, each component is the registry's entry
/// for its own name.
proof fn lemma_registry_entry<H>(components: Seq<ComponentState<H>>, i: int)
    requires
        names_of(components).no_duplicates(),
        0 <= i < components.len(),
    ensures
        names_of(components)[i] == components[i]@.name,
        names_of(components).contains(components[i]@.name),
        names_of(components).index_of(components[i]@.name) == i,
        registry_of(components).dom().contains(components[i]@.name),
        registry_of(components)[components[i]@.name] == components[i]@,
{
    let names = names_of(components);
    assert(names[i] == components[i]@.name);
    let j = names.index_of(names[i]);
    assert(0 <= j < names.len() && names[j] == names[i]);
}

/// Replacing one component by another of the same name replaces the
/// registry's entry for that name and nothing else.
proof fn lemma_registry_update<H>(
    before: Seq<ComponentState<H>>,
    after: Seq<ComponentState<H>>,
    i: int,
)
    requires
        names_of(before).no_duplicates(),
        0 <= i < before.len(),
        after.len() == before.len(),
        after[i]@.name == before[i]@.name,
        forall|j: int| 0 <= j < before.len() && j != i ==> after[j] == before[j],
    ensures
        names_of(after) == names_of(before),
        registry_of(after) == registry_of(before).insert(before[i]@.name, after[i]@),
{
    assert(names_of(after) =~= names_of(before)) by {
        assert forall|j: int| 0 <= j < before.len() implies names_of(after)[j] == names_of(
            before,
        )[j] by {
            if j != i {
                assert(after[j] == before[j]);
            }
        }
    }
    lemma_registry_entry(before, i);
    assert(registry_of(after) =~= registry_of(before).insert(before[i]@.name, after[i]@)) by {
        assert forall|n: Seq<char>| #[trigger]
            registry_of(after).dom().contains(n) implies registry_of(after)[n] == registry_of(
            before,
        ).insert(before[i]@.name, after[i]@)[n] by {
            let j = names_of(before).index_of(n);
            lemma_registry_entry(before, j);
            if j != i {
                assert(after[j] == before[j]);
            }
        }
    }
}

impl<H> View for LoggerState<H> {
    type V = LoggerStateView<H>;

    closed spec fn view(&self) -> LoggerStateView<H> {
        LoggerStateView {
            serial_number: self.serial_number,
            call_count: self.call_count as nat,
            names: names_of(self.components@),
            components: registry_of(self.components@),
        }
    }
}

impl<H> LoggerState<H> {
    /// A controller that knows the components of [`known_names`], all idle,
    /// and has counted no operation yet.
    pub fn new() -> (s: LoggerState<H>)
        ensures
            s@ == LoggerStateView::<H>::fresh(),
            s@.wf(),
            !s@.any_active(),
    {
        let mut components: Vec<ComponentState<H>> = Vec::new();
        components.push(ComponentState::new("sc_phy".to_owned()));
        components.push(ComponentState::new("sc_scheduler".to_owned()));
        components.push(ComponentState::new("sc_sm".to_owned()));
        components.push(ComponentState::new("kernel".to_owned()));
        let s = LoggerState { serial_number: 0, call_count: 0, components: components };
        proof {
            lemma_known_names_differ();
            assert(names_of(s.components@) =~= known_names());
            assert(s@.components =~= LoggerStateView::<H>::fresh().components) by {
                assert forall|n: Seq<char>| #[trigger]
                    s@.components.dom().contains(n) implies s@.components[n]
                    == ComponentStateView::<H>::idle(n) by {
                    lemma_registry_entry(s.components@, s@.names.index_of(n));
                }
            }
        }
        s
    }

    /// The identifier of this controller.
    pub fn serial_number(&self) -> (r: u64)
        ensures
            r == self@.serial_number,
    {
        self.serial_number
    }

    /// How many operations the controller has been asked for.
    pub fn call_count(&self) -> (r: u32)
        ensures
            r == self@.call_count,
    {
        self.call_count
    }

    /// The position of the component called `name` in the order of report,
    /// if the controller knows it.
    pub fn position(&self, name: &String) -> (r: Option<usize>)
        ensures
            r is Some <==> self@.knows(name@),
            r matches Some(i) ==> {
                &&& i < self@.names.len()
                &&& self@.names[i as int] == name@
                &&& forall|j: int| 0 <= j < i ==> self@.names[j] != name@
            },
    {
        let mut i: usize = 0;
        while i < self.components.len()
            invariant
                i <= self.components.len(),
                forall|j: int| 0 <= j < i ==> names_of(self.components@)[j] != name@,
            decreases self.components.len() - i,
        {
            if *self.components[i].name() == *name {
                assert(names_of(self.components@)[i as int] == name@);
                return Some(i);
            }
            i += 1;
        }
        None
    }

    /// The component at position `i` of the order of report.
    pub fn component(&self, i: usize) -> (c: &ComponentState<H>)
        requires
            self@.wf(),
            i < self@.names.len(),
        ensures
            c@ == self@.components[self@.names[i as int]],
            c@.name == self@.names[i as int],
            c@.wf(),
    {
        proof {
            lemma_registry_entry(self.components@, i as int);
        }
        &self.components[i]
    }

    /// Looks up the component called `name`.
    pub fn lookup(&self, name: &String) -> (r: Option<&ComponentState<H>>)
        requires
            self@.wf(),
        ensures
            r is Some <==> self@.knows(name@),
            r matches Some(c) ==> c@ == self@.components[name@],
    {
        match self.position(name) {
            Some(i) => Some(self.component(i)),
            None => None,
        }
    }

    /// Whether any component is active.
    pub fn active(&self) -> (r: bool)
        requires
            self@.wf(),
        ensures
            r == self@.any_active(),
    {
        let mut i: usize = 0;
        while i < self.components.len()
            invariant
                i <= self.components.len(),
                self@.wf(),
                forall|j: int| 0 <= j < i ==> !self.components[j]@.active,
            decreases self.components.len() - i,
        {
            if self.components[i].active() {
                proof {
                    lemma_registry_entry(self.components@, i as int);
                }
                return true;
            }
            i += 1;
        }
        proof {
            assert forall|n: Seq<char>| #[trigger]
                self@.components.dom().contains(n) implies !self@.components[n].active by {
                lemma_registry_entry(self.components@, names_of(self.components@).index_of(n));
            }
        }
        false
    }

    /// Counts one more operation.
    pub(crate) fn count_call(&mut self)
        requires
            old(self)@.call_count < u32::MAX,
        ensures
            final(self)@ == old(self)@.counted(),
    {
        self.call_count = self.call_count + 1;
    }

    /// Records, for the component at position `i`, that `command` was
    /// launched with its output bound to `log_path`. Returns the handle that
    /// this one replaces.
    pub(crate) fn begin_logging(&mut self, i: usize, log_path: String, command: H) -> (replaced:
        Option<H>)
        requires
            old(self)@.wf(),
            i < old(self)@.names.len(),
        ensures
            final(self)@.wf(),
            final(self)@ == old(self)@.with_component(
                old(self)@.names[i as int],
                old(self)@.components[old(self)@.names[i as int]].started(log_path@, command),
            ),
            replaced == old(self)@.components[old(self)@.names[i as int]].command,
    {
        proof {
            lemma_registry_entry(self.components@, i as int);
        }
        let replaced = self.components[i].begin_logging(log_path, command);
        proof {
            lemma_registry_update(old(self).components@, self.components@, i as int);
        }
        replaced
    }

    /// Records, for the component at position `i`, that its process was told
    /// to terminate. Returns the handle of that process.
    pub(crate) fn end_logging(&mut self, i: usize) -> (command: Option<H>)
        requires
            old(self)@.wf(),
            i < old(self)@.names.len(),
            old(self)@.components[old(self)@.names[i as int]].active,
        ensures
            final(self)@.wf(),
            final(self)@ == old(self)@.with_component(
                old(self)@.names[i as int],
                old(self)@.components[old(self)@.names[i as int]].stopped(),
            ),
            command == old(self)@.components[old(self)@.names[i as int]].command,
            command is Some,
    {
        proof {
            lemma_registry_entry(self.components@, i as int);
        }
        let command = self.components[i].end_logging();
        proof {
            lemma_registry_update(old(self).components@, self.components@, i as int);
        }
        command
    }

    /// How many components the controller knows.
    pub fn len(&self) -> (r: usize)
        ensures
            r == self@.names.len(),
    {
        proof {
            assert(names_of(self.components@).len() == self.components@.len());
        }
        self.components.len()
    }
}

/// The names of a fresh controller's components are four different strings.
pub proof fn lemma_known_names_differ()
    ensures
        known_names().no_duplicates(),
        known_names().len() == 4,
{
    reveal_strlit("sc_phy");
    reveal_strlit("sc_scheduler");
    reveal_strlit("sc_sm");
    reveal_strlit("kernel");
    assert("sc_phy"@.len() == 6);
    assert("sc_scheduler"@.len() == 12);
    assert("sc_sm"@.len() == 5);
    assert("kernel"@.len() == 6);
    assert("sc_phy"@[0] == 's');
    assert("kernel"@[0] == 'k');
}

} // verus!
