//! Which standard streams of the host a plugin may use.

use vstd::prelude::*;
use crate::setup::{InputSource, OutputTarget};

verus! {

/// Whether the plugin reads the host's standard input.
pub struct StdinAccess {
    enabled: bool,
}

/// Whether the plugin writes to the host's standard output.
pub struct StdoutAccess {
    enabled: bool,
}

/// Whether the plugin writes to the host's standard error.
pub struct StderrAccess {
    enabled: bool,
}

/// The standard streams a plugin may use.
pub struct IoAccess {
    stdin: StdinAccess,
    stdout: StdoutAccess,
    stderr: StderrAccess,
}

/// The model of an `IoAccess`: which of the three streams are allowed.
pub struct IoAccessView {
    pub stdin: bool,
    pub stdout: bool,
    pub stderr: bool,
}

impl View for StdinAccess {
    type V = bool;

    closed spec fn view(&self) -> bool {
        self.enabled
    }
}

impl View for StdoutAccess {
    type V = bool;

    closed spec fn view(&self) -> bool {
        self.enabled
    }
}

impl View for StderrAccess {
    type V = bool;

    closed spec fn view(&self) -> bool {
        self.enabled
    }
}

impl View for IoAccess {
    type V = IoAccessView;

    closed spec fn view(&self) -> IoAccessView {
        IoAccessView { stdin: self.stdin@, stdout: self.stdout@, stderr: self.stderr@ }
    }
}

/// The standard input a plugin gets: the host's through a pipe when
/// allowed, else an empty one.
pub open spec fn piped_input(allowed: bool) -> InputSource {
    if allowed {
        InputSource::HostPipe
    } else {
        InputSource::Empty
    }
}

/// The standard output or error a plugin gets: the host's through a pipe
/// when allowed, else one that discards everything.
pub open spec fn piped_output(allowed: bool) -> OutputTarget {
    if allowed {
        OutputTarget::HostPipe
    } else {
        OutputTarget::Sink
    }
}

impl StdinAccess {
    /// Access to standard input, allowed when `enabled`.
    pub fn new(enabled: bool) -> (r: Self)
        ensures
            r@ == enabled,
    {
        StdinAccess { enabled }
    }

    /// The standard input the plugin gets.
    pub fn provide(&self) -> (r: InputSource)
        ensures
            r == piped_input(self@),
    {
        if self.enabled {
            InputSource::HostPipe
        } else {
            InputSource::Empty
        }
    }
}

impl StdoutAccess {
    /// Access to standard output, allowed when `enabled`.
    pub fn new(enabled: bool) -> (r: Self)
        ensures
            r@ == enabled,
    {
        StdoutAccess { enabled }
    }

    /// The standard output the plugin gets.
    pub fn provide(&self) -> (r: OutputTarget)
        ensures
            r == piped_output(self@),
    {
        if self.enabled {
            OutputTarget::HostPipe
        } else {
            OutputTarget::Sink
        }
    }
}

impl StderrAccess {
    /// Access to standard error, allowed when `enabled`.
    pub fn new(enabled: bool) -> (r: Self)
        ensures
            r@ == enabled,
    {
        StderrAccess { enabled }
    }

    /// The standard error the plugin gets.
    pub fn provide(&self) -> (r: OutputTarget)
        ensures
            r == piped_output(self@),
    {
        if self.enabled {
            OutputTarget::HostPipe
        } else {
            OutputTarget::Sink
        }
    }
}

impl IoAccess {
    /// Access to the three streams.
    pub fn new(stdin: StdinAccess, stdout: StdoutAccess, stderr: StderrAccess) -> (r: Self)
        ensures
            r@ == (IoAccessView { stdin: stdin@, stdout: stdout@, stderr: stderr@ }),
    {
        IoAccess { stdin, stdout, stderr }
    }

    /// Whether standard input is allowed.
    pub fn stdin(&self) -> (r: bool)
        ensures
            r == self@.stdin,
    {
        self.stdin.enabled
    }

    /// Whether standard output is allowed.
    pub fn stdout(&self) -> (r: bool)
        ensures
            r == self@.stdout,
    {
        self.stdout.enabled
    }

    /// Whether standard error is allowed.
    pub fn stderr(&self) -> (r: bool)
        ensures
            r == self@.stderr,
    {
        self.stderr.enabled
    }

    /// The three streams the plugin gets: input, output, error.
    pub fn provide(&self) -> (r: (InputSource, OutputTarget, OutputTarget))
        ensures
            r == (piped_input(self@.stdin), piped_output(self@.stdout), piped_output(self@.stderr)),
    {
        let i = self.stdin.provide();
        let o = self.stdout.provide();
        let e = self.stderr.provide();
        (i, o, e)
    }
}

} // verus!
