//! The client's terminal: what it sends and receives, and which of its two
//! modes of operation is running.

use vstd::prelude::*;

verus! {

/// How many messages the terminal's channels hold before senders wait.
pub const TERMINAL_CAPACITY: usize = 2048;

/// What the terminal produces.
#[derive(Debug, PartialEq, Eq)]
pub enum TerminalSend {
    /// Bytes typed by the user.
    Stdin(Vec<u8>),
    /// The terminal's new size: columns, then rows.
    Resize((u16, u16)),
}

impl Clone for TerminalSend {
    fn clone(&self) -> (copy: Self)
        ensures
            match (*self, copy) {
                (TerminalSend::Stdin(bytes), TerminalSend::Stdin(same)) => same@ == bytes@,
                (TerminalSend::Resize(size), TerminalSend::Resize(same)) => same == size,
                _ => false,
            },
    {
        match self {
            TerminalSend::Stdin(bytes) => TerminalSend::Stdin(bytes.clone()),
            TerminalSend::Resize(size) => TerminalSend::Resize(*size),
        }
    }
}

/// What the terminal is given to show.
#[derive(Debug, Clone, PartialEq, Eq)]
pub enum TerminalRecv {
    /// Bytes written by the tab.
    Stdout(Vec<u8>),
}

/// Tells the terminal to shut down.
#[derive(Debug, Clone, Copy, PartialEq, Eq, Structural)]
pub struct TerminalShutdown {}

/// The mode that the client asks the terminal to be in.
#[derive(Debug, Clone, Copy, PartialEq, Eq, Structural)]
pub enum TerminalMode {
    /// Raw echo of the tab's output.
    Echo,
    /// A full-screen terminal interface.
    Crossterm,
}

/// The terminal mode that is running, if any.
#[derive(Debug, Clone, Copy, PartialEq, Eq, Structural)]
pub enum ServiceLifeline {
    Echo,
    Crossterm,
    /// No mode is running.
    Idle,
}

impl ServiceLifeline {
    /// Whether the running mode is the one asked for.
    pub open spec fn serves(self, mode: TerminalMode) -> bool {
        match mode {
            TerminalMode::Echo => self == ServiceLifeline::Echo,
            TerminalMode::Crossterm => self == ServiceLifeline::Crossterm,
        }
    }

    /// The state in which the mode asked for is running.
    pub open spec fn of(mode: TerminalMode) -> ServiceLifeline {
        match mode {
            TerminalMode::Echo => ServiceLifeline::Echo,
            TerminalMode::Crossterm => ServiceLifeline::Crossterm,
        }
    }
}

/// Launches and cancels the terminal's modes as the client asks.
pub struct TerminalService {}

impl TerminalService {
    /// Decides what a request for a mode means while `service` is running.
    /// Where that mode runs already, nothing is to be done. Otherwise the
    /// running mode is to be cancelled and the requested one launched; the
    /// result is the state that this leads to.
    pub fn dispatch_mode(service: ServiceLifeline, mode: TerminalMode) -> (switch: Option<
        ServiceLifeline,
    >)
        ensures
            switch == if service.serves(mode) {
                None
            } else {
                Some(ServiceLifeline::of(mode))
            },
    {
        match mode {
            TerminalMode::Echo => {
                if let ServiceLifeline::Echo = service {
                    return None;
                }
                Some(ServiceLifeline::Echo)
            },
            TerminalMode::Crossterm => {
                if let ServiceLifeline::Crossterm = service {
                    return None;
                }
                Some(ServiceLifeline::Crossterm)
            },
        }
    }
}

} // verus!
