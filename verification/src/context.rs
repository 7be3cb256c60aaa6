//! The engine context: the configuration a render call reads.
//!
//! The native engine's opaque context pointer cannot be held here — acquiring
//! and releasing it is foreign and unsafe — so the unverified shell owns that
//! pointer and pairs it with this value. Everything a render call decides is
//! a function of this configuration and the graph text: `begin_render` turns
//! the two into a session for the shell to drive.

use vstd::prelude::*;
use vstd::string::StringSliceAdditionalSpecFns;
use crate::enums::{Engine, OutputFormat, OutputLocation, engine_token, format_token, has_nul};
use crate::error::GenericError;
use crate::session::{Phase, RenderSession};

verus! {

/// The configuration of one engine context: the layout engine to run, the
/// output format to render, and where the bytes go.
pub struct GVC {
    /// The layout algorithm a render call runs.
    pub engine: Engine,
    /// Where rendered bytes are delivered; absent means in memory.
    pub output_location: Option<OutputLocation>,
    /// The target encoding; absent falls back to the textual passthrough.
    pub output_format: Option<OutputFormat>,
}

impl GVC {
    /// A fresh context: engine and format are chosen, delivery defaults to
    /// returning the bytes in memory.
    pub fn new(engine: Engine, output_format: OutputFormat) -> (r: GVC)
        ensures
            r.engine == engine,
            r.output_format == Some(output_format),
            r.output_location is None,
    {
        GVC { engine, output_location: None, output_format: Some(output_format) }
    }

    /// Chooses the output format; nothing else changes.
    pub fn output_format(&mut self, format: OutputFormat)
        ensures
            final(self).output_format == Some(format),
            final(self).engine == old(self).engine,
            final(self).output_location == old(self).output_location,
    {
        self.output_format = Some(format);
    }

    /// Chooses where rendered bytes are delivered; nothing else changes.
    pub fn output_location(&mut self, location: OutputLocation)
        ensures
            final(self).output_location == Some(location),
            final(self).engine == old(self).engine,
            final(self).output_format == old(self).output_format,
    {
        self.output_location = Some(location);
    }

    /// Chooses the layout engine; nothing else changes.
    pub fn engine(&mut self, engine: Engine)
        ensures
            final(self).engine == engine,
            final(self).output_format == old(self).output_format,
            final(self).output_location == old(self).output_location,
    {
        self.engine = engine;
    }

    /// Starts a render call under the current configuration. The session is
    /// a function of this configuration and the graph text alone — an
    /// earlier render leaves no trace in it, and reconfiguring the format
    /// changes exactly the format token of the next session. Fails exactly
    /// when the graph text carries an embedded nul byte.
    pub fn begin_render(&self, graph_text: &str) -> (r: Result<RenderSession, GenericError>)
        ensures
            match r {
                Ok(s) => {
                    &&& !has_nul(graph_text.spec_bytes())
                    &&& s.wf()
                    &&& s.phase == Phase::AcquirePipe
                    &&& s.engine_token@ == engine_token(self.engine).push(0u8)
                    &&& s.format_token@ == format_token(self.output_format).push(0u8)
                    &&& s.graph_text@ == graph_text.spec_bytes().push(0u8)
                },
                Err(e) => {
                    &&& has_nul(graph_text.spec_bytes())
                    &&& e@ == "string contains an embedded nul byte"@
                },
            },
    {
        RenderSession::begin(self.engine, self.output_format, graph_text)
    }
}

} // verus!
