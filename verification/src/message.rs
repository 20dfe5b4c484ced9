//! The messages that travel between the daemon's services.

use crate::chunk::{InputChunk, OutputChunk};
use crate::tab::{CreateTabMetadata, TabId, TabMetadata};
use std::sync::Arc;
use vstd::prelude::*;

verus! {

/// Stdin for one tab. The chunk is shared, not copied, between receivers.
#[derive(Debug, PartialEq, Eq)]
pub struct TabInput {
    pub id: TabId,
    pub stdin: Arc<InputChunk>,
}

impl Clone for TabInput {
    fn clone(&self) -> (copy: Self)
        ensures
            copy == *self,
    {
        TabInput { id: self.id, stdin: self.stdin.clone() }
    }
}

impl TabInput {
    /// Input for `id` that carries the given bytes.
    pub fn new(id: TabId, stdin: Vec<u8>) -> (input: Self)
        ensures
            input.id == id,
            input.stdin@ == stdin@,
    {
        TabInput { id, stdin: Arc::new(InputChunk { data: stdin }) }
    }
}

/// Stdout of one tab. The chunk is shared, not copied, between receivers.
#[derive(Debug, PartialEq, Eq)]
pub struct TabOutput {
    pub id: TabId,
    pub stdout: Arc<OutputChunk>,
}

impl Clone for TabOutput {
    fn clone(&self) -> (copy: Self)
        ensures
            copy == *self,
    {
        TabOutput { id: self.id, stdout: self.stdout.clone() }
    }
}

/// The retained history of one tab, coalesced into a single chunk.
#[derive(Debug, Clone, PartialEq, Eq)]
pub struct TabScrollback {
    pub id: TabId,
    pub scrollback: OutputChunk,
}

/// What tabs publish to every connection.
#[derive(Debug, Clone, PartialEq, Eq)]
pub enum TabSend {
    Started(TabMetadata),
    Stopped(TabId),
    Scrollback(TabScrollback),
    Output(TabOutput),
    Retask(TabId, TabId),
}

/// What connections send towards the tabs.
#[derive(Debug, PartialEq, Eq)]
pub enum TabRecv {
    Input(TabInput),
    Resize(TabId, (u16, u16)),
    Scrollback(TabId),
    Retask(TabId, TabId),
    TerminateAll,
}

impl Clone for TabRecv {
    fn clone(&self) -> (copy: Self)
        ensures
            copy == *self,
    {
        match self {
            TabRecv::Input(input) => TabRecv::Input(input.clone()),
            TabRecv::Resize(id, dimensions) => TabRecv::Resize(*id, *dimensions),
            TabRecv::Scrollback(id) => TabRecv::Scrollback(*id),
            TabRecv::Retask(from, to) => TabRecv::Retask(*from, *to),
            TabRecv::TerminateAll => TabRecv::TerminateAll,
        }
    }
}

/// Lifecycle requests to the tab manager.
#[derive(Debug, Clone, PartialEq, Eq)]
pub enum TabManagerRecv {
    CreateTab(CreateTabMetadata),
    CloseTab(TabId),
    CloseNamedTab(String),
}

/// Lifecycle events from the tab manager.
#[derive(Debug, Clone, Copy, PartialEq, Eq, Structural)]
pub enum TabManagerSend {
    TabTerminated(TabId),
}

/// What a client session receives from its connection.
#[derive(Debug, PartialEq, Eq)]
pub enum CliSend {
    CreateTab(CreateTabMetadata),
    CloseTab(TabId),
    CloseNamedTab(String),
    RequestScrollback(TabId),
    Input(TabId, InputChunk),
    ResizeTab(TabId, (u16, u16)),
    Retask(TabId, TabId),
    GlobalShutdown,
}

impl Clone for CliSend {
    fn clone(&self) -> (copy: Self)
        ensures
            !(self is Input) ==> copy == *self,
            self matches CliSend::Input(id, input) ==> copy matches CliSend::Input(same, bytes)
                && same == id && bytes@ == input@,
    {
        match self {
            CliSend::CreateTab(create) => CliSend::CreateTab(create.clone()),
            CliSend::CloseTab(id) => CliSend::CloseTab(*id),
            CliSend::CloseNamedTab(name) => CliSend::CloseNamedTab(name.clone()),
            CliSend::RequestScrollback(id) => CliSend::RequestScrollback(*id),
            CliSend::Input(id, input) => CliSend::Input(*id, input.clone()),
            CliSend::ResizeTab(id, dimensions) => CliSend::ResizeTab(*id, *dimensions),
            CliSend::Retask(from, to) => CliSend::Retask(*from, *to),
            CliSend::GlobalShutdown => CliSend::GlobalShutdown,
        }
    }
}

/// What a client session hands to its connection.
#[derive(Debug, Clone, PartialEq, Eq)]
pub enum CliRecv {
    TabStarted(TabMetadata),
    TabStopped(TabId),
    Scrollback(TabScrollback),
    Output(TabId, OutputChunk),
    Retask(TabId, TabId),
}

/// Tells the listener that a client session has ended.
#[derive(Debug, Clone, Copy, PartialEq, Eq, Structural)]
pub struct CliShutdown {}

/// Tells the listener to stop accepting connections.
#[derive(Debug, Clone, Copy, PartialEq, Eq, Structural)]
pub struct ListenerShutdown {}

} // verus!
