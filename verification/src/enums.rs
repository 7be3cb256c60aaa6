//! The closed configuration sets of the wrapper: the layout engines, the
//! output formats, and the output locations, each with the token the native
//! engine expects, given as nul-terminated bytes.

use vstd::prelude::*;

verus! {

/// The layout algorithm families the native engine offers.
#[derive(Debug, Clone, Copy, PartialEq, Eq, Structural)]
pub enum Engine {
    /// Hierarchical (layered) layout.
    Dot,
    /// Force-directed (spring-model) layout.
    Neato,
    /// Force-directed layout for larger graphs.
    Fdp,
    /// Circular layout.
    Circo,
    /// Radial layout.
    Twopi,
}

/// The target encodings of the rendered output.
#[derive(Debug, Clone, Copy, PartialEq, Eq, Structural)]
pub enum OutputFormat {
    /// Raster image.
    PNG,
    /// Vector image.
    SVG,
    /// Animated image.
    GIF,
}

/// Where the rendered bytes are delivered. Only in-memory delivery is wired
/// up; the set is closed but extensible to file-path targets.
#[derive(Debug, Clone, Copy, PartialEq, Eq, Structural)]
pub enum OutputLocation {
    /// Return the rendered bytes to the caller.
    Memory,
}

/// The token bytes that select a layout engine, without the trailing nul.
pub open spec fn engine_token(e: Engine) -> Seq<u8> {
    match e {
        Engine::Dot => seq![100u8, 111u8, 116u8],  // "dot"
        Engine::Neato => seq![110u8, 101u8, 97u8, 116u8, 111u8],  // "neato"
        Engine::Fdp => seq![102u8, 100u8, 112u8],  // "fdp"
        Engine::Circo => seq![99u8, 105u8, 114u8, 99u8, 111u8],  // "circo"
        Engine::Twopi => seq![116u8, 119u8, 111u8, 112u8, 105u8],  // "twopi"
    }
}

/// The token bytes that select an output format, without the trailing nul.
/// Only the raster-image format has a token of its own; every other choice,
/// including an absent one, falls back to the textual passthrough token.
pub open spec fn format_token(f: Option<OutputFormat>) -> Seq<u8> {
    match f {
        Some(OutputFormat::PNG) => seq![112u8, 110u8, 103u8],  // "png"
        _ => seq![100u8, 111u8, 116u8],  // "dot"
    }
}

/// Whether a nul byte occurs in the sequence. The native engine takes
/// nul-terminated strings, so no token or graph text may contain one.
pub open spec fn has_nul(bs: Seq<u8>) -> bool {
    exists|i: int| 0 <= i < bs.len() && bs[i] == 0u8
}

/// No engine token contains a nul byte: token resolution never fails.
pub proof fn lemma_engine_token_nul_free(e: Engine)
    ensures
        !has_nul(engine_token(e)),
{
    let t = engine_token(e);
    assert forall|i: int| 0 <= i < t.len() implies t[i] != 0u8 by {
        match e {
            Engine::Dot => {},
            Engine::Neato => {},
            Engine::Fdp => {},
            Engine::Circo => {},
            Engine::Twopi => {},
        }
    }
}

/// No format token contains a nul byte: token resolution never fails.
pub proof fn lemma_format_token_nul_free(f: Option<OutputFormat>)
    ensures
        !has_nul(format_token(f)),
{
    let t = format_token(f);
    assert forall|i: int| 0 <= i < t.len() implies t[i] != 0u8 by {
        match f {
            Some(OutputFormat::PNG) => {},
            _ => {},
        }
    }
}

impl Engine {
    /// The nul-terminated token handed to the native engine to select this
    /// layout algorithm.
    pub fn token_c(&self) -> (r: Vec<u8>)
        ensures
            r@ == engine_token(*self).push(0u8),
    {
        let mut v: Vec<u8> = Vec::new();
        match self {
            Engine::Dot => {
                v.push(100u8);
                v.push(111u8);
                v.push(116u8);
            },
            Engine::Neato => {
                v.push(110u8);
                v.push(101u8);
                v.push(97u8);
                v.push(116u8);
                v.push(111u8);
            },
            Engine::Fdp => {
                v.push(102u8);
                v.push(100u8);
                v.push(112u8);
            },
            Engine::Circo => {
                v.push(99u8);
                v.push(105u8);
                v.push(114u8);
                v.push(99u8);
                v.push(111u8);
            },
            Engine::Twopi => {
                v.push(116u8);
                v.push(119u8);
                v.push(111u8);
                v.push(112u8);
                v.push(105u8);
            },
        }
        v.push(0u8);
        proof {
            assert(v@ =~= engine_token(*self).push(0u8));
        }
        v
    }
}

/// The nul-terminated token handed to the native engine to select the output
/// format; the textual passthrough token when the format is absent or has no
/// token of its own.
pub fn format_token_c(f: &Option<OutputFormat>) -> (r: Vec<u8>)
    ensures
        r@ == format_token(*f).push(0u8),
{
    let mut v: Vec<u8> = Vec::new();
    match f {
        Some(OutputFormat::PNG) => {
            v.push(112u8);
            v.push(110u8);
            v.push(103u8);
        },
        _ => {
            v.push(100u8);
            v.push(111u8);
            v.push(116u8);
        },
    }
    v.push(0u8);
    proof {
        assert(v@ =~= format_token(*f).push(0u8));
    }
    v
}

} // verus!
