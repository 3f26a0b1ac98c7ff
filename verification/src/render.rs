//! The rendering protocol and its two backends.
//!
//! A backend consumes [`Node`] trees and appends their formatted image to a
//! destination: [`TermRenderer`] submits text to standard output at once,
//! [`PagedRenderer`] buffers it so a pager can show the whole tree after a
//! single flush. Both produce exactly [`fmt_node`]'s image under the same
//! styling flag; only the destination differs.
//!
//! A broken pipe on the direct backend means the consumer stopped reading
//! and is treated as success; every other write failure is reported.

use std::io::Write;

use vstd::prelude::*;
use vstd::string::StringExecFns;

use crate::fmt::fmt_node;
use crate::fmt::format_node;
use crate::node::Node;

verus! {

/// A downstream write failure, as the destination reported it.
#[derive(Debug)]
pub enum WriteError {
    /// The consumer of the output stopped reading.
    BrokenPipe,
    /// Any other failure, with its description.
    Failed(String),
}

/// The failure a rendering call surfaces to its caller; it only ever
/// signals a downstream write problem, never a malformed tree.
#[derive(Debug)]
pub struct RenderError {
    pub message: String,
}

/// A consumer of display trees. `out()` models the text submitted to the
/// destination so far; `styled()` says whether escape codes are emitted.
/// Rendering is append-only: each call adds exactly the formatted image of
/// its tree, so two renders of the same tree append two copies with nothing
/// between them.
pub trait Render: Sized {
    spec fn out(&self) -> Seq<char>;

    spec fn styled(&self) -> bool;

    /// Writes the tree without a trailing line break.
    fn render(&mut self, node: &Node) -> (r: Result<(), RenderError>)
        ensures
            final(self).styled() == old(self).styled(),
            final(self).out() == old(self).out() + fmt_node(*node, old(self).styled()),
    ;

    /// Writes the tree followed by a line break.
    fn renderln(&mut self, node: &Node) -> (r: Result<(), RenderError>)
        ensures
            final(self).styled() == old(self).styled(),
            final(self).out() == old(self).out() + fmt_node(*node, old(self).styled())
                + seq!['\n'],
    ;
}

/// Relies on std::io::Write::write_all and flush on the process's standard
/// output: the bytes are handed to the stream, and a failure is returned as
/// an error whose kind distinguishes a broken pipe. Nothing is promised of
/// the outcome, which depends on where output goes.
#[verifier::external_body]
fn write_stdout(s: &str) -> (r: Result<(), WriteError>) {
    let mut stdout = std::io::stdout();
    match stdout.write_all(s.as_bytes()).and_then(|()| stdout.flush()) {
        Ok(()) => Ok(()),
        Err(e) => match e.kind() {
            std::io::ErrorKind::BrokenPipe => Err(WriteError::BrokenPipe),
            _ => Err(WriteError::Failed(e.to_string())),
        },
    }
}

/// Turns a write outcome into the rendering result: success stays success,
/// a broken pipe is absorbed as success because the consumer merely stopped
/// reading, and any other failure is reported with its description.
pub fn absorb_pipe_errors(r: Result<(), WriteError>) -> (out: Result<(), RenderError>)
    ensures
        match r {
            Result::Ok(()) => out is Ok,
            Result::Err(WriteError::BrokenPipe) => out is Ok,
            Result::Err(WriteError::Failed(m)) => out matches Result::Err(e) && e.message@ == m@,
        },
{
    match r {
        Result::Ok(()) => Result::Ok(()),
        Result::Err(WriteError::BrokenPipe) => Result::Ok(()),
        Result::Err(WriteError::Failed(m)) => Result::Err(RenderError { message: m }),
    }
}

/// The direct backend: formats a tree and submits it to standard output
/// immediately. `submitted` is the model of all text handed to the stream.
pub struct TermRenderer {
    pub styled: bool,
    pub submitted: Ghost<Seq<char>>,
}

impl TermRenderer {
    /// A direct renderer; `styled` says whether the destination understands
    /// escape codes, a capability the caller supplies.
    pub fn new(styled: bool) -> (r: TermRenderer)
        ensures
            r.out() == Seq::<char>::empty(),
            r.styled() == styled,
    {
        TermRenderer { styled, submitted: Ghost(Seq::empty()) }
    }
}

impl Render for TermRenderer {
    open spec fn out(&self) -> Seq<char> {
        self.submitted@
    }

    open spec fn styled(&self) -> bool {
        self.styled
    }

    fn render(&mut self, node: &Node) -> (r: Result<(), RenderError>) {
        let text = format_node(node, self.styled);
        let outcome = write_stdout(text.as_str());
        self.submitted = Ghost(self.submitted@ + text@);
        absorb_pipe_errors(outcome)
    }

    fn renderln(&mut self, node: &Node) -> (r: Result<(), RenderError>) {
        let mut text = format_node(node, self.styled);
        text.append("\n");
        proof {
            reveal_strlit("\n");
            assert(text@ =~= fmt_node(*node, self.styled) + seq!['\n']);
        }
        let outcome = write_stdout(text.as_str());
        self.submitted = Ghost(self.submitted@ + text@);
        proof {
            assert(self.submitted@ =~= old(self).out() + fmt_node(*node, old(self).styled())
                + seq!['\n']);
        }
        absorb_pipe_errors(outcome)
    }
}

/// The paged backend: accumulates the formatted text of a whole command
/// into a buffer, which the caller hands to a pager in one flush once the
/// full tree has been submitted.
pub struct PagedRenderer {
    pub styled: bool,
    pub buffer: String,
}

impl PagedRenderer {
    /// An empty paged renderer with the given styling capability.
    pub fn new(styled: bool) -> (r: PagedRenderer)
        ensures
            r.out() == Seq::<char>::empty(),
            r.styled() == styled,
    {
        PagedRenderer { styled, buffer: String::new() }
    }

    /// The accumulated text, handed out for the single flush into a pager.
    pub fn into_buffer(self) -> (r: String)
        ensures
            r@ == self.out(),
    {
        self.buffer
    }
}

impl Render for PagedRenderer {
    open spec fn out(&self) -> Seq<char> {
        self.buffer@
    }

    open spec fn styled(&self) -> bool {
        self.styled
    }

    /// Buffering cannot fail: the paged backend meets every render call
    /// with success, on top of the trait's append contract.
    fn render(&mut self, node: &Node) -> (r: Result<(), RenderError>)
        ensures
            r is Ok,
    {
        let text = format_node(node, self.styled);
        self.buffer.append(text.as_str());
        Result::Ok(())
    }

    fn renderln(&mut self, node: &Node) -> (r: Result<(), RenderError>)
        ensures
            r is Ok,
    {
        let text = format_node(node, self.styled);
        self.buffer.append(text.as_str());
        self.buffer.append("\n");
        proof {
            reveal_strlit("\n");
            assert(self.buffer@ =~= old(self).out() + fmt_node(*node, old(self).styled())
                + seq!['\n']);
        }
        Result::Ok(())
    }
}

/// Rendering a tree twice appends exactly two copies of its formatted form
/// with nothing between them: the output after two renders is the old
/// output followed directly by the image of the tree, twice. Together with
/// the `Render` contract, which appends one image per call, this is the
/// statement that rendering never deduplicates or separates repeated trees.
pub proof fn lemma_render_twice(out0: Seq<char>, n: Node, styled: bool)
    ensures
        (out0 + fmt_node(n, styled)) + fmt_node(n, styled) == out0 + (fmt_node(n, styled)
            + fmt_node(n, styled)),
{
    assert((out0 + fmt_node(n, styled)) + fmt_node(n, styled) =~= out0 + (fmt_node(n, styled)
        + fmt_node(n, styled)));
}

} // verus!
