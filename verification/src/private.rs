//! Implementation details: the standard streams as seen by the resolver.

use std::io::{Stderr, Stdout};
use vstd::prelude::*;

verus! {

/// The handle of standard output, carried through without a look inside.
#[verifier::external_type_specification]
#[verifier::external_body]
pub struct ExStdout(Stdout);

/// The handle of standard error, carried through without a look inside.
#[verifier::external_type_specification]
#[verifier::external_body]
pub struct ExStderr(Stderr);

/// `std::io::stdout` hands out a handle of the process's standard output.
/// Nothing is claimed of the handle.
pub assume_specification[ std::io::stdout ]() -> Stdout;

/// `std::io::stderr` hands out a handle of the process's standard error.
/// Nothing is claimed of the handle.
pub assume_specification[ std::io::stderr ]() -> Stderr;

/// Asks `terminal_size::terminal_size_of` for the size of the terminal behind
/// standard output, as columns and rows.
///
/// Nothing is claimed of the answer: it is `None` where the stream is no
/// terminal or the terminal does not tell, and otherwise whatever the terminal
/// reports at that moment.
#[verifier::external_body]
fn terminal_size_of_stdout(stream: Stdout) -> (size: Option<(u16, u16)>) {
    terminal_size::terminal_size_of(stream).map(|(width, height)| (width.0, height.0))
}

/// Asks `terminal_size::terminal_size_of` for the size of the terminal behind
/// standard error, as columns and rows.
///
/// Nothing is claimed of the answer: it is `None` where the stream is no
/// terminal or the terminal does not tell, and otherwise whatever the terminal
/// reports at that moment.
#[verifier::external_body]
fn terminal_size_of_stderr(stream: Stderr) -> (size: Option<(u16, u16)>) {
    terminal_size::terminal_size_of(stream).map(|(width, height)| (width.0, height.0))
}

/// Provides access to a standard stream instance.
pub trait StdStream {
    /// The standard stream type.
    type Stream;

    /// Returns the standard stream instance.
    #[must_use]
    fn get_stream() -> Self::Stream;

    /// Returns the size, as columns and rows, of the terminal that `stream`
    /// refers to, or `None` where there is none to be had.
    fn terminal_size_of(stream: Self::Stream) -> Option<(u16, u16)>;
}

impl StdStream for Stdout {
    type Stream = Stdout;

    #[inline]
    fn get_stream() -> Stdout {
        std::io::stdout()
    }

    #[inline]
    fn terminal_size_of(stream: Stdout) -> Option<(u16, u16)> {
        terminal_size_of_stdout(stream)
    }
}

impl StdStream for Stderr {
    type Stream = Stderr;

    #[inline]
    fn get_stream() -> Stderr {
        std::io::stderr()
    }

    #[inline]
    fn terminal_size_of(stream: Stderr) -> Option<(u16, u16)> {
        terminal_size_of_stderr(stream)
    }
}

} // verus!
