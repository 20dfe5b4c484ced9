//! The registry of live tabs and the lifecycle of each.
//!
//! A tab comes into being when it is created, runs until its PTY exits, and
//! is then forgotten. Closing a tab only asks its PTY session to end; the
//! tab leaves the registry when the exit is confirmed.

use crate::message::{TabManagerRecv, TabManagerSend, TabRecv, TabSend};
use crate::tab::{
    is_normal, lemma_normalized_is_normal, normalize_name, normalized, CreateTabMetadata,
    CreateTabMetadataView, TabId, TabMetadata, TabMetadataView,
};
use std::collections::HashMap;
use vstd::prelude::*;
use vstd::std_specs::hash::spec_values_iter;
use vstd::std_specs::iter::IteratorSpec;

verus! {

broadcast use vstd::std_specs::hash::group_hash_axioms;

/// The mathematical content of the registry: the live tabs, each under the
/// number of its identifier, and the identifier that the next tab will get.
#[verifier::ext_equal]
pub struct RegistryView {
    pub tabs: Map<u64, TabMetadataView>,
    pub next_id: nat,
}

impl RegistryView {
    /// Every tab stands under its own identifier, which lies below
    /// `next_id`, itself an identifier at most; names are in normal form,
    /// and no two live tabs share a name.
    pub open spec fn valid(self) -> bool {
        &&& self.next_id <= u64::MAX
        &&& forall|number: u64| #[trigger]
            self.tabs.contains_key(number) ==> {
                &&& self.tabs[number].id == TabId(number)
                &&& number < self.next_id
                &&& is_normal(self.tabs[number].name)
            }
        &&& forall|one: u64, other: u64|
            #![trigger self.tabs.contains_key(one), self.tabs.contains_key(other)]
            self.tabs.contains_key(one) && self.tabs.contains_key(other) && one != other
                ==> self.tabs[one].name != self.tabs[other].name
    }

    /// Whether a tab with this identifier is live.
    pub open spec fn is_live(self, id: TabId) -> bool {
        self.tabs.contains_key(id.0)
    }

    /// Whether this tab is among the live tabs.
    pub open spec fn holds(self, tab: TabMetadataView) -> bool {
        self.tabs.contains_key(tab.id.0) && self.tabs[tab.id.0] == tab
    }

    /// Whether a live tab has exactly this name.
    pub open spec fn has_name(self, name: Seq<char>) -> bool {
        exists|number: u64| #[trigger]
            self.tabs.contains_key(number) && self.tabs[number].name == name
    }

    /// The live tab with exactly this name.
    pub open spec fn named(self, name: Seq<char>) -> TabMetadataView {
        self.tabs[choose|number: u64| #[trigger]
            self.tabs.contains_key(number) && self.tabs[number].name == name]
    }

    /// Whether the identifiers have run out, so that no new tab can be
    /// registered.
    pub open spec fn is_full(self) -> bool {
        self.next_id >= u64::MAX
    }

    /// The metadata that a new tab gets for this request.
    pub open spec fn fresh(self, create: CreateTabMetadataView) -> TabMetadataView {
        TabMetadataView {
            id: TabId(self.next_id as u64),
            name: normalized(create.name),
            dimensions: create.dimensions,
            shell: create.shell,
            dir: create.dir,
        }
    }

    /// The registry after a request to create a tab: unchanged where a live
    /// tab has the requested name or no identifier is left, else with the
    /// new tab under the next identifier.
    pub open spec fn create(self, create: CreateTabMetadataView) -> RegistryView {
        if self.has_name(normalized(create.name)) || self.is_full() {
            self
        } else {
            RegistryView {
                tabs: self.tabs.insert(self.next_id as u64, self.fresh(create)),
                next_id: self.next_id + 1,
            }
        }
    }

    /// The tab that answers a request to create a tab, where there is one.
    pub open spec fn created(self, create: CreateTabMetadataView) -> TabMetadataView {
        if self.has_name(normalized(create.name)) {
            self.named(normalized(create.name))
        } else {
            self.fresh(create)
        }
    }

    /// The registry after the tab with this identifier has gone.
    pub open spec fn without(self, id: TabId) -> RegistryView {
        RegistryView { tabs: self.tabs.remove(id.0), next_id: self.next_id }
    }

    /// The registry after one event.
    pub open spec fn step(self, event: RegistryEvent) -> RegistryView {
        match event {
            RegistryEvent::Create(create) => self.create(create),
            RegistryEvent::Exited(id) => self.without(id),
        }
    }

    /// The registry after a sequence of events, in order.
    pub open spec fn after(self, events: Seq<RegistryEvent>) -> RegistryView
        decreases events.len(),
    {
        if events.len() == 0 {
            self
        } else {
            self.after(events.drop_last()).step(events.last())
        }
    }
}

/// Something that changes the registry.
pub enum RegistryEvent {
    /// A request to create a tab.
    Create(CreateTabMetadataView),
    /// The confirmed exit of a tab's PTY.
    Exited(TabId),
}

/// The views of the tabs of a map.
pub open spec fn views_of(tabs: Map<u64, TabMetadata>) -> Map<u64, TabMetadataView> {
    tabs.map_values(|tab: TabMetadata| tab@)
}

/// A snapshot of the live tabs, as it is published to every connection:
/// each tab under the number of its identifier.
#[derive(Debug, PartialEq, Eq)]
pub struct TabsState {
    pub tabs: HashMap<u64, TabMetadata>,
}

impl View for TabsState {
    type V = Map<u64, TabMetadataView>;

    open spec fn view(&self) -> Map<u64, TabMetadataView> {
        views_of(self.tabs@)
    }
}

impl Clone for TabsState {
    fn clone(&self) -> (copy: Self)
        ensures
            copy@ == self@,
    {
        TabsState { tabs: self.tabs.clone() }
    }
}

impl Default for TabsState {
    fn default() -> (state: Self)
        ensures
            state@ == Map::<u64, TabMetadataView>::empty(),
    {
        let state = TabsState { tabs: HashMap::new() };
        state
    }
}

impl TabsState {
    /// Whether a tab of the snapshot has exactly this name.
    pub open spec fn has_name(&self, name: Seq<char>) -> bool {
        exists|number: u64| #[trigger] self@.contains_key(number) && self@[number].name == name
    }

    /// Whether a tab of the snapshot has exactly this name.
    pub fn contains_name(&self, name: &str) -> (found: bool)
        ensures
            found == self.has_name(name@),
    {
        let wanted = name.to_owned();
        let found = find_name(&self.tabs, &wanted);
        proof {
            if found is Some {
                let number = choose|number: u64| #[trigger]
                    self.tabs@.contains_key(number) && self.tabs@[number].name@ == name@;
                assert(self@.contains_key(number) && self@[number].name == name@);
            }
            if self.has_name(name@) {
                let number = choose|number: u64| #[trigger]
                    self@.contains_key(number) && self@[number].name == name@;
            }
        }
        found.is_some()
    }

    /// The tab that the snapshot holds under this identifier, if there is
    /// one.
    pub fn get(&self, id: TabId) -> (found: Option<&TabMetadata>)
        ensures
            match found {
                Some(tab) => self.tabs@.contains_key(id.0) && *tab == self.tabs@[id.0],
                None => !self.tabs@.contains_key(id.0),
            },
    {
        self.tabs.get(&id.0)
    }
}

/// The tab of a map that has exactly this name, if one has.
fn find_name(tabs: &HashMap<u64, TabMetadata>, name: &String) -> (found: Option<TabMetadata>)
    ensures
        found is Some <==> exists|number: u64| #[trigger]
            tabs@.contains_key(number) && tabs@[number].name@ == name@,
        found matches Some(tab) ==> tab.name@ == name@ && exists|number: u64| #[trigger]
            tabs@.contains_key(number) && tabs@[number] == tab,
{
    let mut found: Option<TabMetadata> = None;
    let ghost all = spec_values_iter(tabs).remaining().unref();
    let ghost mut seen: int = 0;
    for tab in it: tabs.values()
        invariant
            it.seq().unref() == all,
            seen == it.index(),
            found is Some <==> exists|k: int| 0 <= k < seen && (#[trigger] all[k]).name@ == name@,
            found matches Some(tab) ==> tab.name@ == name@ && exists|k: int|
                0 <= k < seen && #[trigger] all[k] == tab,
    {
        proof {
            seen = seen + 1;
        }
        if tab.name == *name {
            found = Some(tab.clone());
        }
    }
    proof {
        if found is Some {
            assert(tabs@.values().contains(found->0));
        }
        if exists|number: u64| #[trigger] tabs@.contains_key(number) && tabs@[number].name@ == name@ {
            let number = choose|number: u64| #[trigger]
                tabs@.contains_key(number) && tabs@[number].name@ == name@;
            assert(all.to_set().contains(tabs@[number]));
        }
    }
    found
}

/// What a message for the tabs has the daemon announce to the clients: a
/// retask is passed on to them as it is, and nothing else is. Retasks do not
/// touch the registry.
pub fn retask(msg: &TabRecv) -> (announced: Option<TabSend>)
    ensures
        announced == match *msg {
            TabRecv::Retask(from, to) => Some(TabSend::Retask(from, to)),
            _ => None,
        },
{
    match msg {
        TabRecv::Retask(from, to) => Some(TabSend::Retask(*from, *to)),
        _ => None,
    }
}

/// How a request to create a tab was answered.
#[derive(Debug, PartialEq, Eq)]
pub enum Created {
    /// No live tab had the name. The tab is new: it needs a PTY session,
    /// and its start is to be published.
    Started(TabMetadata),
    /// A live tab has the name. It answers the request; nothing is spawned
    /// and nothing is published.
    Reused(TabMetadata),
    /// No live tab has the name, and no identifier is left for a new one.
    /// Nothing has changed.
    Exhausted,
}

/// What the daemon is to do after a request to the manager.
#[derive(Debug, PartialEq, Eq)]
pub enum ManagerAction {
    /// Spawn a PTY session for this new tab and publish its start.
    Spawn(TabMetadata),
    /// Answer with this live tab; nothing is spawned.
    Attach(TabMetadata),
    /// Ask the PTY session of this tab to end.
    Terminate(TabId),
    /// Report that no identifier is left for a new tab.
    Refuse,
    /// Nothing.
    Nothing,
}

/// Owns the registry of live tabs and hands out tab identifiers.
pub struct TabManager {
    tabs: HashMap<u64, TabMetadata>,
    next_id: u64,
}

impl View for TabManager {
    type V = RegistryView;

    closed spec fn view(&self) -> RegistryView {
        RegistryView { tabs: views_of(self.tabs@), next_id: self.next_id as nat }
    }
}

/// In a valid registry a name belongs to one tab at most.
proof fn lemma_named_is_unique(registry: RegistryView, number: u64)
    requires
        registry.valid(),
        registry.tabs.contains_key(number),
    ensures
        registry.has_name(registry.tabs[number].name),
        registry.named(registry.tabs[number].name) == registry.tabs[number],
{
}

impl TabManager {
    #[verifier::type_invariant]
    spec fn well_formed(self) -> bool {
        self@.valid()
    }

    /// A manager without tabs, whose first tab will be `TabId(0)`.
    pub fn new() -> (manager: Self)
        ensures
            manager@ == (RegistryView { tabs: Map::empty(), next_id: 0 }),
            manager@.valid(),
    {
        let manager = TabManager { tabs: HashMap::new(), next_id: 0 };
        manager
    }

    /// A manager without tabs, whose first tab will get the given
    /// identifier.
    pub fn starting_at(next_id: u64) -> (manager: Self)
        ensures
            manager@ == (RegistryView { tabs: Map::empty(), next_id: next_id as nat }),
            manager@.valid(),
    {
        let manager = TabManager { tabs: HashMap::new(), next_id };
        manager
    }

    /// The identifier that the next new tab will get.
    pub fn next_id(&self) -> (id: u64)
        ensures
            id == self@.next_id,
    {
        self.next_id
    }

    /// A snapshot of the live tabs.
    pub fn state(&self) -> (state: TabsState)
        ensures
            state@ == self@.tabs,
            self@.valid(),
    {
        proof {
            use_type_invariant(self);
        }
        TabsState { tabs: self.tabs.clone() }
    }

    /// Answers a request to create a tab. The requested name is normalized.
    /// Where a live tab has that name, it is the answer and nothing
    /// changes. Otherwise a tab is registered under the next identifier,
    /// which is then used up; unless none is left.
    pub fn create_tab(&mut self, create: CreateTabMetadata) -> (outcome: Created)
        ensures
            final(self)@ == old(self)@.create(create@),
            old(self)@.valid() && final(self)@.valid(),
            outcome is Reused <==> old(self)@.has_name(normalized(create@.name)),
            outcome is Exhausted <==> !old(self)@.has_name(normalized(create@.name)) && old(
                self,
            )@.is_full(),
            match outcome {
                Created::Started(tab) => tab@ == old(self)@.created(create@),
                Created::Reused(tab) => tab@ == old(self)@.created(create@),
                Created::Exhausted => true,
            },
    {
        proof {
            use_type_invariant(&*self);
        }
        let name = normalize_name(create.name.as_str());
        proof {
            lemma_normalized_is_normal(create.name@);
        }
        let ghost before = self@;
        match find_name(&self.tabs, &name) {
            Some(tab) => {
                proof {
                    let number = choose|number: u64| #[trigger]
                        self.tabs@.contains_key(number) && self.tabs@[number] == tab;
                    lemma_named_is_unique(before, number);
                }
                Created::Reused(tab)
            },
            None => {
                proof {
                    assert forall|number: u64| #[trigger]
                        before.tabs.contains_key(number) implies before.tabs[number].name
                        != name@ by {}
                }
                if self.next_id == u64::MAX {
                    return Created::Exhausted;
                }
                let tab = TabMetadata {
                    id: TabId(self.next_id),
                    name,
                    dimensions: create.dimensions,
                    shell: create.shell,
                    dir: create.dir,
                };
                let answer = tab.clone();
                let number: u64 = self.next_id;
                let mut tabs: HashMap<u64, TabMetadata> = HashMap::new();
                core::mem::swap(&mut self.tabs, &mut tabs);
                self.next_id = self.next_id + 1;
                tabs.insert(number, tab);
                proof {
                    assert(views_of(tabs@) =~= before.tabs.insert(number, tab@));
                }
                self.tabs = tabs;
                Created::Started(answer)
            },
        }
    }

    /// Answers a request to close the tab with this identifier: the tab
    /// whose PTY session is to be asked to end, if the tab is live. The
    /// registry changes only when the exit has been confirmed.
    pub fn close_tab(&self, id: TabId) -> (signal: Option<TabId>)
        ensures
            signal == if self@.is_live(id) {
                Some(id)
            } else {
                None
            },
    {
        if self.tabs.contains_key(&id.0) {
            Some(id)
        } else {
            None
        }
    }

    /// Answers a request to close the tab with this name, which is
    /// normalized first: the tab whose PTY session is to be asked to end, if
    /// a live tab has the name.
    pub fn close_named_tab(&self, name: &str) -> (signal: Option<TabId>)
        ensures
            signal == if self@.has_name(normalized(name@)) {
                Some(self@.named(normalized(name@)).id)
            } else {
                None
            },
    {
        proof {
            use_type_invariant(self);
        }
        let wanted = normalize_name(name);
        match find_name(&self.tabs, &wanted) {
            Some(tab) => {
                proof {
                    let number = choose|number: u64| #[trigger]
                        self.tabs@.contains_key(number) && self.tabs@[number] == tab;
                    lemma_named_is_unique(self@, number);
                }
                Some(tab.id)
            },
            None => {
                assert forall|number: u64| #[trigger]
                    self@.tabs.contains_key(number) implies self@.tabs[number].name
                    != wanted@ by {}
                None
            },
        }
    }

    /// Records that the PTY of a tab has exited. A live tab leaves the
    /// registry, and its termination is to be announced. For a tab that is
    /// not live nothing changes and nothing is announced.
    pub fn tab_exited(&mut self, id: TabId) -> (notice: Option<TabManagerSend>)
        ensures
            final(self)@ == old(self)@.without(id),
            old(self)@.valid() && final(self)@.valid(),
            notice == if old(self)@.is_live(id) {
                Some(TabManagerSend::TabTerminated(id))
            } else {
                None
            },
    {
        proof {
            use_type_invariant(&*self);
        }
        let ghost before = self@;
        if self.tabs.contains_key(&id.0) {
            let mut tabs: HashMap<u64, TabMetadata> = HashMap::new();
            core::mem::swap(&mut self.tabs, &mut tabs);
            let _ = tabs.remove(&id.0);
            proof {
                assert(views_of(tabs@) =~= before.tabs.remove(id.0));
            }
            self.tabs = tabs;
            Some(TabManagerSend::TabTerminated(id))
        } else {
            None
        }
    }

    /// Answers one request to the manager, as `create_tab`, `close_tab` and
    /// `close_named_tab` do.
    pub fn handle(&mut self, msg: TabManagerRecv) -> (action: ManagerAction)
        ensures
            old(self)@.valid() && final(self)@.valid(),
            match msg {
                TabManagerRecv::CreateTab(create) => {
                    &&& final(self)@ == old(self)@.create(create@)
                    &&& if old(self)@.has_name(normalized(create@.name)) {
                        action matches ManagerAction::Attach(tab) && tab@ == old(self)@.created(
                            create@,
                        )
                    } else if old(self)@.is_full() {
                        action == ManagerAction::Refuse
                    } else {
                        action matches ManagerAction::Spawn(tab) && tab@ == old(self)@.created(
                            create@,
                        )
                    }
                },
                TabManagerRecv::CloseTab(id) => {
                    &&& final(self)@ == old(self)@
                    &&& action == if old(self)@.is_live(id) {
                        ManagerAction::Terminate(id)
                    } else {
                        ManagerAction::Nothing
                    }
                },
                TabManagerRecv::CloseNamedTab(name) => {
                    &&& final(self)@ == old(self)@
                    &&& action == if old(self)@.has_name(normalized(name@)) {
                        ManagerAction::Terminate(old(self)@.named(normalized(name@)).id)
                    } else {
                        ManagerAction::Nothing
                    }
                },
            },
    {
        proof {
            use_type_invariant(&*self);
        }
        match msg {
            TabManagerRecv::CreateTab(create) => {
                match self.create_tab(create) {
                    Created::Started(tab) => ManagerAction::Spawn(tab),
                    Created::Reused(tab) => ManagerAction::Attach(tab),
                    Created::Exhausted => ManagerAction::Refuse,
                }
            },
            TabManagerRecv::CloseTab(id) => {
                match self.close_tab(id) {
                    Some(id) => ManagerAction::Terminate(id),
                    None => ManagerAction::Nothing,
                }
            },
            TabManagerRecv::CloseNamedTab(name) => {
                match self.close_named_tab(name.as_str()) {
                    Some(id) => ManagerAction::Terminate(id),
                    None => ManagerAction::Nothing,
                }
            },
        }
    }
}

/// One event keeps the registry valid and never lowers `next_id`.
pub proof fn lemma_step_keeps_valid(registry: RegistryView, event: RegistryEvent)
    requires
        registry.valid(),
    ensures
        registry.step(event).valid(),
        registry.next_id <= registry.step(event).next_id,
{
    let next = registry.step(event);
    match event {
        RegistryEvent::Create(create) => {
            lemma_normalized_is_normal(create.name);
            if !registry.has_name(normalized(create.name)) && !registry.is_full() {
                assert forall|one: u64, other: u64|
                    #![trigger next.tabs.contains_key(one), next.tabs.contains_key(other)]
                    next.tabs.contains_key(one) && next.tabs.contains_key(other) && one
                        != other implies next.tabs[one].name != next.tabs[other].name by {}
                assert forall|k: u64| #[trigger] next.tabs.contains_key(k) implies {
                    &&& next.tabs[k].id == TabId(k)
                    &&& k < next.next_id
                    &&& is_normal(next.tabs[k].name)
                } by {}
            }
        },
        RegistryEvent::Exited(id) => {
            assert forall|k: u64| #[trigger] next.tabs.contains_key(k) implies {
                &&& next.tabs[k].id == TabId(k)
                &&& k < next.next_id
                &&& is_normal(next.tabs[k].name)
            } by {}
            assert forall|one: u64, other: u64|
                #![trigger next.tabs.contains_key(one), next.tabs.contains_key(other)]
                next.tabs.contains_key(one) && next.tabs.contains_key(other) && one
                    != other implies next.tabs[one].name != next.tabs[other].name by {}
        },
    }
}

/// One event keeps every live tab but the one whose exit it reports.
pub proof fn lemma_step_keeps_tabs(
    registry: RegistryView,
    event: RegistryEvent,
    tab: TabMetadataView,
)
    requires
        registry.valid(),
        registry.holds(tab),
        event != RegistryEvent::Exited(tab.id),
    ensures
        registry.step(event).holds(tab),
{
}

/// A sequence of events keeps the registry valid, never lowers `next_id`,
/// and keeps a live tab whose exit is not among them.
pub proof fn lemma_after_keeps_tabs(
    registry: RegistryView,
    events: Seq<RegistryEvent>,
    tab: TabMetadataView,
)
    requires
        registry.valid(),
        registry.holds(tab),
        forall|k: int| 0 <= k < events.len() ==> events[k] != RegistryEvent::Exited(tab.id),
    ensures
        registry.after(events).valid(),
        registry.after(events).holds(tab),
        registry.next_id <= registry.after(events).next_id,
    decreases events.len(),
{
    if events.len() > 0 {
        let before = registry.after(events.drop_last());
        lemma_after_keeps_tabs(registry, events.drop_last(), tab);
        lemma_step_keeps_valid(before, events.last());
        lemma_step_keeps_tabs(before, events.last(), tab);
    }
}

/// Two requests to create a tab whose names normalize to the same name
/// resolve to the same tab, whatever happens between them but the exit of
/// that tab: if the first request was answered with a tab, the second finds
/// that tab, so that it changes nothing and starts nothing.
pub proof fn lemma_create_twice_is_one_tab(
    registry: RegistryView,
    first: CreateTabMetadataView,
    between: Seq<RegistryEvent>,
    second: CreateTabMetadataView,
)
    requires
        registry.valid(),
        normalized(first.name) == normalized(second.name),
        registry.has_name(normalized(first.name)) || !registry.is_full(),
        forall|k: int|
            0 <= k < between.len() ==> between[k] != RegistryEvent::Exited(
                registry.created(first).id,
            ),
    ensures
        ({
            let later = registry.create(first).after(between);
            &&& later.valid()
            &&& later.has_name(normalized(second.name))
            &&& later.created(second) == registry.created(first)
            &&& later.create(second) == later
        }),
{
    let tab = registry.created(first);
    let started = registry.create(first);
    lemma_step_keeps_valid(registry, RegistryEvent::Create(first));
    lemma_after_keeps_tabs(started, between, tab);
    let later = started.after(between);
    lemma_named_is_unique(later, tab.id.0);
}

} // verus!
