//! The client's side of creating a tab: whether to ask the daemon at all,
//! and what to ask for.

use crate::manager::TabsState;
use crate::tab::{normalize_name, normalized, CreateTabMetadata, CreateTabMetadataView};
use crate::wire::Request;
use vstd::prelude::*;

verus! {

/// How long the client waits between two looks at a workspace that is not
/// ready yet, in milliseconds.
pub const WORKSPACE_POLL_MILLIS: u64 = 25;

/// A tab that the workspace's configuration names.
#[derive(Debug, PartialEq, Eq)]
pub struct WorkspaceTab {
    pub name: String,
    pub directory: String,
}

impl Clone for WorkspaceTab {
    fn clone(&self) -> (copy: Self)
        ensures
            copy == *self,
    {
        WorkspaceTab { name: self.name.clone(), directory: self.directory.clone() }
    }
}

/// What is known of the workspace.
#[derive(Debug, PartialEq, Eq)]
pub enum WorkspaceState {
    /// The configuration is still being read.
    Loading,
    /// The configuration has been read: these are its tabs.
    Ready(Vec<WorkspaceTab>),
}

impl Default for WorkspaceState {
    fn default() -> (state: Self)
        ensures
            state == WorkspaceState::Loading,
    {
        WorkspaceState::Loading
    }
}

impl Clone for WorkspaceState {
    fn clone(&self) -> (copy: Self)
        ensures
            match *self {
                WorkspaceState::Loading => copy == WorkspaceState::Loading,
                WorkspaceState::Ready(tabs) => copy matches WorkspaceState::Ready(same) && same@
                    == tabs@,
            },
    {
        match self {
            WorkspaceState::Loading => WorkspaceState::Loading,
            WorkspaceState::Ready(tabs) => WorkspaceState::Ready(copy_tabs(tabs)),
        }
    }
}

fn copy_tabs(tabs: &Vec<WorkspaceTab>) -> (copy: Vec<WorkspaceTab>)
    ensures
        copy@ == tabs@,
{
    let mut copy: Vec<WorkspaceTab> = Vec::new();
    let mut i: usize = 0;
    while i < tabs.len()
        invariant
            i <= tabs@.len(),
            copy@ == tabs@.take(i as int),
        decreases tabs@.len() - i,
    {
        copy.push(tabs[i].clone());
        i = i + 1;
    }
    copy
}

/// A request, made on the client's side, for a tab to attach to.
#[derive(Debug, Clone, PartialEq, Eq)]
pub enum CreateTabRequest {
    Named(String),
}

/// The shell that a tab runs where the environment names none.
pub open spec fn default_shell() -> Seq<char> {
    "/usr/bin/env bash"@
}

/// Whether some tab of a list has exactly this name.
pub open spec fn names(tabs: Seq<WorkspaceTab>, name: Seq<char>) -> bool {
    exists|i: int| 0 <= i < tabs.len() && (#[trigger] tabs[i]).name@ == name
}

/// The first tab of a list that has exactly this name.
pub open spec fn first_named(tabs: Seq<WorkspaceTab>, name: Seq<char>) -> WorkspaceTab
    decreases tabs.len(),
{
    if tabs.len() == 0 {
        arbitrary()
    } else if tabs.first().name@ == name {
        tabs.first()
    } else {
        first_named(tabs.drop_first(), name)
    }
}

/// What the daemon is asked for under a requested name, if anything can be
/// asked for. The tab gets the name that the workspace configures, or else
/// the normalized requested name; it starts in the directory that the
/// workspace configures, if that exists, or else in the current directory;
/// it runs the shell of the environment, or else the default one.
pub open spec fn assembled(
    name: Seq<char>,
    workspace_tab: Option<WorkspaceTab>,
    exists: bool,
    current_dir: Option<String>,
    dimensions: (u16, u16),
    shell: Option<String>,
) -> Option<CreateTabMetadataView> {
    let configured = workspace_tab is Some && exists;
    if !configured && current_dir is None {
        None
    } else {
        Some(
            CreateTabMetadataView {
                name: match workspace_tab {
                    Some(tab) => tab.name@,
                    None => normalized(name),
                },
                dimensions,
                shell: match shell {
                    Some(named) => named@,
                    None => default_shell(),
                },
                dir: if configured {
                    workspace_tab->0.directory@
                } else {
                    current_dir->0@
                },
            },
        )
    }
}

/// Receives requests for tabs, decides whether the daemon has to be asked
/// to create one, and assembles what it is asked for.
pub struct CreateTabService {}

impl CreateTabService {
    /// Whether a request makes the client ask the daemon for a new tab: it
    /// does unless a running tab has exactly the requested name.
    pub fn needs_tab(request: &CreateTabRequest, tabs: &TabsState) -> (ask: bool)
        ensures
            request matches CreateTabRequest::Named(name) && ask == !tabs.has_name(name@),
    {
        match request {
            CreateTabRequest::Named(name) => !tabs.contains_name(name.as_str()),
        }
    }

    /// The tabs of the workspace once it is ready; until then the client
    /// waits `WORKSPACE_POLL_MILLIS` and looks again.
    pub fn await_workspace(state: &WorkspaceState) -> (ready: Option<Vec<WorkspaceTab>>)
        ensures
            match *state {
                WorkspaceState::Loading => ready is None,
                WorkspaceState::Ready(tabs) => ready matches Some(copy) && copy@ == tabs@,
            },
    {
        match state {
            WorkspaceState::Loading => None,
            WorkspaceState::Ready(tabs) => Some(copy_tabs(tabs)),
        }
    }

    /// The tab of the workspace that a requested name stands for: the first
    /// one whose name is the normalized requested name.
    pub fn workspace_tab(name: &str, workspace: Vec<WorkspaceTab>) -> (found: Option<WorkspaceTab>)
        ensures
            found == if names(workspace@, normalized(name@)) {
                Some(first_named(workspace@, normalized(name@)))
            } else {
                None
            },
            found matches Some(tab) ==> tab.name@ == normalized(name@),
    {
        let wanted = normalize_name(name);
        let mut i: usize = 0;
        assert(workspace@.skip(0) =~= workspace@);
        while i < workspace.len()
            invariant
                i <= workspace@.len(),
                wanted@ == normalized(name@),
                forall|k: int| 0 <= k < i ==> (#[trigger] workspace@[k]).name@ != wanted@,
                first_named(workspace@, wanted@) == first_named(workspace@.skip(i as int), wanted@),
            decreases workspace@.len() - i,
        {
            if workspace[i].name == wanted {
                return Some(workspace[i].clone());
            }
            proof {
                let rest = workspace@.skip(i as int);
                assert(rest.drop_first() =~= workspace@.skip(i + 1));
            }
            i = i + 1;
        }
        None
    }

    /// The directory that a new tab starts in: the one that the workspace
    /// configures for it, if there is one and it exists; otherwise the
    /// current directory, if that is known.
    pub fn compute_directory(
        tab: &Option<WorkspaceTab>,
        exists: bool,
        current_dir: Option<String>,
    ) -> (directory: Option<String>)
        ensures
            directory == match *tab {
                Some(configured) => if exists {
                    Some(configured.directory)
                } else {
                    current_dir
                },
                None => current_dir,
            },
    {
        if let Some(ref tab) = tab {
            if exists {
                return Some(tab.directory.clone());
            }
        }
        current_dir
    }

    /// The name that a new tab gets: the one that the workspace configures
    /// for it, if there is one; otherwise the requested name.
    pub fn compute_name(tab: &Option<WorkspaceTab>, name: &str) -> (chosen: String)
        ensures
            chosen@ == match *tab {
                Some(configured) => configured.name@,
                None => name@,
            },
    {
        if let Some(ref tab) = tab {
            tab.name.clone()
        } else {
            name.to_owned()
        }
    }

    /// Assembles the request to create a tab under a requested name, which
    /// is normalized. `workspace_tab` is the workspace's tab of that name,
    /// `exists` says whether its directory exists, `current_dir` is the
    /// current directory where it is known, and `shell` is the shell that
    /// the environment names. Without a directory nothing can be asked for.
    pub fn create_named(
        name: &str,
        workspace_tab: Option<WorkspaceTab>,
        exists: bool,
        current_dir: Option<String>,
        dimensions: (u16, u16),
        shell: Option<String>,
    ) -> (request: Option<Request>)
        ensures
            match request {
                Some(Request::CreateTab(metadata)) => Some(metadata@) == assembled(
                    name@,
                    workspace_tab,
                    exists,
                    current_dir,
                    dimensions,
                    shell,
                ),
                Some(_) => false,
                None => assembled(name@, workspace_tab, exists, current_dir, dimensions, shell)
                    is None,
            },
    {
        let name = normalize_name(name);
        let shell = match shell {
            Some(named) => named,
            None => "/usr/bin/env bash".to_owned(),
        };
        let directory = Self::compute_directory(&workspace_tab, exists, current_dir);
        match directory {
            Some(dir) => {
                let metadata = CreateTabMetadata {
                    name: Self::compute_name(&workspace_tab, name.as_str()),
                    dir,
                    dimensions,
                    shell,
                };
                Some(Request::CreateTab(metadata))
            },
            None => None,
        }
    }
}

/// Two requested names with one normal form are asked for in one and the
/// same way.
pub proof fn lemma_one_name_one_request(
    first: Seq<char>,
    second: Seq<char>,
    workspace_tab: Option<WorkspaceTab>,
    exists: bool,
    current_dir: Option<String>,
    dimensions: (u16, u16),
    shell: Option<String>,
)
    requires
        normalized(first) == normalized(second),
    ensures
        assembled(first, workspace_tab, exists, current_dir, dimensions, shell) == assembled(
            second,
            workspace_tab,
            exists,
            current_dir,
            dimensions,
            shell,
        ),
{
}

/// Where the workspace's tab was found by the requested name, the name
/// asked for is the normalized requested name.
pub proof fn lemma_asked_name_is_normal(
    name: Seq<char>,
    workspace: Seq<WorkspaceTab>,
    exists: bool,
    current_dir: Option<String>,
    dimensions: (u16, u16),
    shell: Option<String>,
)
    ensures
        ({
            let found = if names(workspace, normalized(name)) {
                Some(first_named(workspace, normalized(name)))
            } else {
                None
            };
            assembled(name, found, exists, current_dir, dimensions, shell) matches Some(
                metadata,
            ) ==> metadata.name == normalized(name)
        }),
{
    if names(workspace, normalized(name)) {
        lemma_first_named(workspace, normalized(name));
    }
}

proof fn lemma_first_named(tabs: Seq<WorkspaceTab>, name: Seq<char>)
    requires
        names(tabs, name),
    ensures
        first_named(tabs, name).name@ == name,
    decreases tabs.len(),
{
    if tabs.len() > 0 && tabs.first().name@ != name {
        let at = choose|i: int| 0 <= i < tabs.len() && (#[trigger] tabs[i]).name@ == name;
        assert(tabs.drop_first()[at - 1] == tabs[at]);
        lemma_first_named(tabs.drop_first(), name);
    }
}

} // verus!
