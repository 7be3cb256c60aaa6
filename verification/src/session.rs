//! The decision logic of one render call, as a state machine.
//!
//! A render call is a fixed sequence of native calls — acquire the output
//! pipe, parse the graph text, run layout, run rendering — with a decision
//! after each: go on, or stop with a definite error, releasing exactly the
//! native resources acquired so far. The native calls themselves are foreign;
//! an unverified shell performs them and reports each outcome here. The
//! session decides everything else: which call comes next, which error each
//! failure yields, and which releases every exit path owes.

use vstd::prelude::*;
use vstd::string::StringSliceAdditionalSpecFns;
use crate::enums::{Engine, OutputFormat, engine_token, format_token, has_nul};
use crate::enums::{lemma_engine_token_nul_free, lemma_format_token_nul_free, format_token_c};
use crate::error::GenericError;
use crate::marshal::{c_string_bytes, c_str_wf, lemma_converted_is_wf};

verus! {

/// Where a render call stands: which native call is owed next.
#[derive(Debug, Clone, Copy, PartialEq, Eq, Structural)]
pub enum Phase {
    /// The OS pipe that captures the engine's output is to be acquired.
    AcquirePipe,
    /// The graph text is to be parsed into the engine's graph structure.
    Parse,
    /// Layout is to be run on the parsed graph.
    Layout,
    /// Rendering is to be run into the pipe's write end.
    Render,
    /// The call is over: no native call is owed and no resource is held.
    Done,
}

/// What the native side reports after performing the call a phase asks for.
#[derive(Debug, Clone, Copy, PartialEq, Eq, Structural)]
pub enum NativeEvent {
    /// Whether the OS delivered a connected pipe pair.
    PipeResult { ok: bool },
    /// Whether parsing produced a graph handle (false for a null handle).
    ParseResult { ok: bool },
    /// The return code of the layout call.
    LayoutResult { code: i32 },
    /// The return code of the render call.
    RenderResult { code: i32 },
}

/// What the caller of `advance` must do next.
pub enum Step {
    /// Make the native call the session's new phase asks for and report its
    /// outcome with the next `advance`.
    Continue,
    /// Rendering succeeded: release the listed resources, then close the
    /// pipe's write end, drain its read end, and deliver the bytes.
    Finish { free_layout: bool, close_graph: bool, close_pipe: bool },
    /// A step failed: release exactly the listed resources, close the pipe
    /// fully if one was acquired, and return the error. Nothing else is held.
    Abort { free_layout: bool, close_graph: bool, close_pipe: bool, error: GenericError },
}

/// Whether the pipe pair is held in a phase.
pub open spec fn pipe_open(p: Phase) -> bool {
    p == Phase::Parse || p == Phase::Layout || p == Phase::Render
}

/// Whether the parsed graph structure is held in a phase.
pub open spec fn graph_open(p: Phase) -> bool {
    p == Phase::Layout || p == Phase::Render
}

/// Whether computed layout results are held in a phase.
pub open spec fn layout_open(p: Phase) -> bool {
    p == Phase::Render
}

/// Whether an event reports on the call that the phase asked for.
pub open spec fn event_fits(p: Phase, ev: NativeEvent) -> bool {
    match ev {
        NativeEvent::PipeResult { .. } => p == Phase::AcquirePipe,
        NativeEvent::ParseResult { .. } => p == Phase::Parse,
        NativeEvent::LayoutResult { .. } => p == Phase::Layout,
        NativeEvent::RenderResult { .. } => p == Phase::Render,
    }
}

/// Whether an event reports failure: a missing pipe, a null graph handle, or
/// a negative return code.
pub open spec fn event_fails(ev: NativeEvent) -> bool {
    match ev {
        NativeEvent::PipeResult { ok } => !ok,
        NativeEvent::ParseResult { ok } => !ok,
        NativeEvent::LayoutResult { code } => code < 0,
        NativeEvent::RenderResult { code } => code < 0,
    }
}

/// The phase after an event: the next call on success, Done on failure or
/// after a successful render.
pub open spec fn next_phase(p: Phase, ev: NativeEvent) -> Phase {
    if event_fails(ev) {
        Phase::Done
    } else {
        match p {
            Phase::AcquirePipe => Phase::Parse,
            Phase::Parse => Phase::Layout,
            Phase::Layout => Phase::Render,
            Phase::Render => Phase::Done,
            Phase::Done => Phase::Done,
        }
    }
}

/// The error message a failure in each phase yields.
pub open spec fn failure_message(p: Phase) -> Seq<char> {
    match p {
        Phase::AcquirePipe => "pipe creation failed"@,
        Phase::Parse => "agmemread failed. try adding a newline after the closing } of the graph"@,
        Phase::Layout => "gvLayout failed"@,
        Phase::Render => "gvRender failed"@,
        Phase::Done => Seq::<char>::empty(),
    }
}

/// One render call in flight: the resolved nul-terminated tokens, the
/// converted graph text, and the phase reached so far.
pub struct RenderSession {
    /// Token selecting the layout engine, nul-terminated.
    pub engine_token: Vec<u8>,
    /// Token selecting the output format, nul-terminated.
    pub format_token: Vec<u8>,
    /// The graph description, nul-terminated.
    pub graph_text: Vec<u8>,
    /// The native call owed next.
    pub phase: Phase,
}

impl RenderSession {
    /// The three byte strings handed to the native engine are well-formed C
    /// strings: each ends in its only nul byte.
    pub open spec fn wf(self) -> bool {
        &&& c_str_wf(self.engine_token@)
        &&& c_str_wf(self.format_token@)
        &&& c_str_wf(self.graph_text@)
    }

    /// Starts a render call: resolves the configured engine and format to
    /// their tokens and converts the graph text. The outcome is a function of
    /// the arguments alone; it fails exactly when the graph text carries an
    /// embedded nul byte, and then nothing has been acquired.
    pub fn begin(engine: Engine, format: Option<OutputFormat>, graph_text: &str) -> (r: Result<
        RenderSession,
        GenericError,
    >)
        ensures
            match r {
                Ok(s) => {
                    &&& !has_nul(graph_text.spec_bytes())
                    &&& s.wf()
                    &&& s.phase == Phase::AcquirePipe
                    &&& s.engine_token@ == engine_token(engine).push(0u8)
                    &&& s.format_token@ == format_token(format).push(0u8)
                    &&& s.graph_text@ == graph_text.spec_bytes().push(0u8)
                },
                Err(e) => {
                    &&& has_nul(graph_text.spec_bytes())
                    &&& e@ == "string contains an embedded nul byte"@
                },
            },
    {
        let graph = match c_string_bytes(graph_text) {
            Ok(g) => g,
            Err(e) => {
                return Err(e);
            },
        };
        let et = engine.token_c();
        let ft = format_token_c(&format);
        proof {
            lemma_engine_token_nul_free(engine);
            lemma_format_token_nul_free(format);
            lemma_converted_is_wf(engine_token(engine));
            lemma_converted_is_wf(format_token(format));
            lemma_converted_is_wf(graph_text.spec_bytes());
        }
        Ok(
            RenderSession {
                engine_token: et,
                format_token: ft,
                graph_text: graph,
                phase: Phase::AcquirePipe,
            },
        )
    }

    /// Takes the outcome of the native call the current phase asked for and
    /// decides what comes next. On a failing outcome the step releases
    /// exactly the resources held so far and carries the definite error for
    /// that phase; on a successful render it releases everything and hands
    /// over to the drain. Either way the session itself ends every terminal
    /// step holding nothing.
    pub fn advance(&mut self, ev: &NativeEvent) -> (step: Step)
        requires
            old(self).wf(),
            event_fits(old(self).phase, *ev),
        ensures
            final(self).wf(),
            final(self).phase == next_phase(old(self).phase, *ev),
            final(self).engine_token@ == old(self).engine_token@,
            final(self).format_token@ == old(self).format_token@,
            final(self).graph_text@ == old(self).graph_text@,
            match step {
                Step::Continue => !event_fails(*ev) && old(self).phase != Phase::Render,
                Step::Finish { free_layout, close_graph, close_pipe } => {
                    &&& !event_fails(*ev)
                    &&& old(self).phase == Phase::Render
                    &&& free_layout == layout_open(old(self).phase)
                    &&& close_graph == graph_open(old(self).phase)
                    &&& close_pipe == pipe_open(old(self).phase)
                },
                Step::Abort { free_layout, close_graph, close_pipe, error } => {
                    &&& event_fails(*ev)
                    &&& free_layout == layout_open(old(self).phase)
                    &&& close_graph == graph_open(old(self).phase)
                    &&& close_pipe == pipe_open(old(self).phase)
                    &&& error@ == failure_message(old(self).phase)
                },
            },
    {
        let failed: bool = match ev {
            NativeEvent::PipeResult { ok } => !*ok,
            NativeEvent::ParseResult { ok } => !*ok,
            NativeEvent::LayoutResult { code } => *code < 0,
            NativeEvent::RenderResult { code } => *code < 0,
        };
        let p = self.phase;
        if failed {
            let msg: &str = match p {
                Phase::AcquirePipe => "pipe creation failed",
                Phase::Parse => "agmemread failed. try adding a newline after the closing } of the graph",
                Phase::Layout => "gvLayout failed",
                Phase::Render => "gvRender failed",
                Phase::Done => "",
            };
            self.phase = Phase::Done;
            Step::Abort {
                free_layout: (p == Phase::Render),
                close_graph: (p == Phase::Layout || p == Phase::Render),
                close_pipe: (p == Phase::Parse || p == Phase::Layout || p == Phase::Render),
                error: GenericError::new(msg),
            }
        } else {
            match p {
                Phase::AcquirePipe => {
                    self.phase = Phase::Parse;
                    Step::Continue
                },
                Phase::Parse => {
                    self.phase = Phase::Layout;
                    Step::Continue
                },
                Phase::Layout => {
                    self.phase = Phase::Render;
                    Step::Continue
                },
                Phase::Render => {
                    self.phase = Phase::Done;
                    Step::Finish { free_layout: true, close_graph: true, close_pipe: true }
                },
                Phase::Done => {
                    proof {
                        assert(false);
                    }
                    Step::Continue
                },
            }
        }
    }
}

/// No exit path leaks: every terminal step — a failure in any phase, or a
/// successful render — moves the session to Done, and in Done no pipe, graph
/// or layout resource is held. Together with `advance`'s guarantee that a
/// terminal step's release flags name exactly the resources the session held,
/// every native resource acquired during the call is released before it
/// returns.
pub proof fn lemma_no_exit_path_leaks(p: Phase, ev: NativeEvent)
    requires
        event_fits(p, ev),
        event_fails(ev) || p == Phase::Render,
    ensures
        next_phase(p, ev) == Phase::Done,
        !pipe_open(next_phase(p, ev)),
        !graph_open(next_phase(p, ev)),
        !layout_open(next_phase(p, ev)),
{
}

/// A failure before anything was acquired owes no release: nothing is held
/// while the pipe is still to be acquired, so an abort there carries only
/// false flags.
pub proof fn lemma_earliest_failure_owes_nothing()
    ensures
        !pipe_open(Phase::AcquirePipe),
        !graph_open(Phase::AcquirePipe),
        !layout_open(Phase::AcquirePipe),
{
}

} // verus!
