use gvwrap::GVC;
use gvwrap::enums::{Engine, OutputFormat, OutputLocation};
use gvwrap::enums::format_token_c;
use gvwrap::error::GenericError;
use gvwrap::marshal::c_string_bytes;
use gvwrap::pipe::PipeState;
use gvwrap::session::{NativeEvent, Phase, RenderSession, Step};

const PARSE_ERR: &str = "agmemread failed. try adding a newline after the closing } of the graph";

#[test]
fn engine_tokens() {
    assert_eq!(Engine::Dot.token_c(), vec![b'd', b'o', b't', 0]);
    assert_eq!(Engine::Neato.token_c(), vec![b'n', b'e', b'a', b't', b'o', 0]);
    assert_eq!(Engine::Fdp.token_c(), vec![b'f', b'd', b'p', 0]);
    assert_eq!(Engine::Circo.token_c(), vec![b'c', b'i', b'r', b'c', b'o', 0]);
    assert_eq!(Engine::Twopi.token_c(), vec![b't', b'w', b'o', b'p', b'i', 0]);
}

#[test]
fn format_tokens() {
    assert_eq!(format_token_c(&Some(OutputFormat::PNG)), vec![b'p', b'n', b'g', 0]);
    // Formats without a token of their own fall back to the textual
    // passthrough, as does an absent format.
    assert_eq!(format_token_c(&Some(OutputFormat::SVG)), vec![b'd', b'o', b't', 0]);
    assert_eq!(format_token_c(&Some(OutputFormat::GIF)), vec![b'd', b'o', b't', 0]);
    assert_eq!(format_token_c(&None), vec![b'd', b'o', b't', 0]);
}

#[test]
fn error_carries_message() {
    let e = GenericError::new("gvLayout failed");
    assert_eq!(e.message(), "gvLayout failed");
}

#[test]
fn c_string_conversion_appends_terminator() {
    let v = c_string_bytes("ab").unwrap();
    assert_eq!(v, vec![b'a', b'b', 0]);
    let empty = c_string_bytes("").unwrap();
    assert_eq!(empty, vec![0]);
}

#[test]
fn c_string_conversion_rejects_embedded_nul() {
    let r = c_string_bytes("a\0b");
    let e = r.err().unwrap();
    assert_eq!(e.message(), "string contains an embedded nul byte");
}

#[test]
fn new_context_defaults() {
    let g = GVC::new(Engine::Dot, OutputFormat::PNG);
    assert_eq!(g.engine, Engine::Dot);
    assert_eq!(g.output_format, Some(OutputFormat::PNG));
    assert_eq!(g.output_location, None);
}

#[test]
fn setters_change_only_their_field() {
    let mut g = GVC::new(Engine::Dot, OutputFormat::PNG);
    g.engine(Engine::Circo);
    assert_eq!(g.engine, Engine::Circo);
    assert_eq!(g.output_format, Some(OutputFormat::PNG));
    g.output_format(OutputFormat::GIF);
    assert_eq!(g.engine, Engine::Circo);
    assert_eq!(g.output_format, Some(OutputFormat::GIF));
    g.output_location(OutputLocation::Memory);
    assert_eq!(g.output_location, Some(OutputLocation::Memory));
    assert_eq!(g.engine, Engine::Circo);
    assert_eq!(g.output_format, Some(OutputFormat::GIF));
}

fn drive_to_success(s: &mut RenderSession) -> Step {
    match s.advance(&NativeEvent::PipeResult { ok: true }) {
        Step::Continue => {}
        _ => panic!("pipe acquisition should continue"),
    }
    assert_eq!(s.phase, Phase::Parse);
    match s.advance(&NativeEvent::ParseResult { ok: true }) {
        Step::Continue => {}
        _ => panic!("successful parse should continue"),
    }
    assert_eq!(s.phase, Phase::Layout);
    match s.advance(&NativeEvent::LayoutResult { code: 0 }) {
        Step::Continue => {}
        _ => panic!("successful layout should continue"),
    }
    assert_eq!(s.phase, Phase::Render);
    s.advance(&NativeEvent::RenderResult { code: 0 })
}

#[test]
fn successful_render_releases_everything() {
    // Hierarchical engine, raster-image format: the session walks all four
    // phases and the final step releases layout, graph and pipe.
    let g = GVC::new(Engine::Dot, OutputFormat::PNG);
    let mut s = g.begin_render("digraph { a -> b }\n").unwrap();
    assert_eq!(s.phase, Phase::AcquirePipe);
    assert_eq!(s.engine_token, vec![b'd', b'o', b't', 0]);
    assert_eq!(s.format_token, vec![b'p', b'n', b'g', 0]);
    let last = drive_to_success(&mut s);
    assert_eq!(s.phase, Phase::Done);
    match last {
        Step::Finish { free_layout, close_graph, close_pipe } => {
            assert!(free_layout);
            assert!(close_graph);
            assert!(close_pipe);
        }
        _ => panic!("successful render should finish"),
    }
}

#[test]
fn parse_failure_names_the_newline_hint() {
    // The scenario of a graph text without its trailing newline: the engine
    // reports a null graph handle, and the session yields the parse error
    // whose message carries the missing-newline hint. Nothing but the pipe
    // was acquired, and only the pipe is to be closed.
    let g = GVC::new(Engine::Dot, OutputFormat::PNG);
    let mut s = g.begin_render("digraph { a -> b }").unwrap();
    s.advance(&NativeEvent::PipeResult { ok: true });
    match s.advance(&NativeEvent::ParseResult { ok: false }) {
        Step::Abort { free_layout, close_graph, close_pipe, error } => {
            assert!(!free_layout);
            assert!(!close_graph);
            assert!(close_pipe);
            assert_eq!(error.message(), PARSE_ERR);
            assert!(error.message().contains("newline"));
        }
        _ => panic!("failed parse should abort"),
    }
    assert_eq!(s.phase, Phase::Done);
}

#[test]
fn layout_failure_releases_the_graph() {
    let g = GVC::new(Engine::Neato, OutputFormat::PNG);
    let mut s = g.begin_render("graph { a -- b }\n").unwrap();
    s.advance(&NativeEvent::PipeResult { ok: true });
    s.advance(&NativeEvent::ParseResult { ok: true });
    match s.advance(&NativeEvent::LayoutResult { code: -1 }) {
        Step::Abort { free_layout, close_graph, close_pipe, error } => {
            assert!(!free_layout);
            assert!(close_graph);
            assert!(close_pipe);
            assert_eq!(error.message(), "gvLayout failed");
        }
        _ => panic!("failed layout should abort"),
    }
    assert_eq!(s.phase, Phase::Done);
}

#[test]
fn render_failure_releases_layout_and_graph() {
    let g = GVC::new(Engine::Dot, OutputFormat::PNG);
    let mut s = g.begin_render("digraph { a }\n").unwrap();
    s.advance(&NativeEvent::PipeResult { ok: true });
    s.advance(&NativeEvent::ParseResult { ok: true });
    s.advance(&NativeEvent::LayoutResult { code: 0 });
    match s.advance(&NativeEvent::RenderResult { code: -1 }) {
        Step::Abort { free_layout, close_graph, close_pipe, error } => {
            assert!(free_layout);
            assert!(close_graph);
            assert!(close_pipe);
            assert_eq!(error.message(), "gvRender failed");
        }
        _ => panic!("failed render should abort"),
    }
    assert_eq!(s.phase, Phase::Done);
}

#[test]
fn pipe_failure_owes_no_release() {
    let g = GVC::new(Engine::Dot, OutputFormat::PNG);
    let mut s = g.begin_render("digraph { a }\n").unwrap();
    match s.advance(&NativeEvent::PipeResult { ok: false }) {
        Step::Abort { free_layout, close_graph, close_pipe, error } => {
            assert!(!free_layout);
            assert!(!close_graph);
            assert!(!close_pipe);
            assert_eq!(error.message(), "pipe creation failed");
        }
        _ => panic!("failed pipe acquisition should abort"),
    }
    assert_eq!(s.phase, Phase::Done);
}

#[test]
fn embedded_nul_in_graph_text_is_rejected() {
    let g = GVC::new(Engine::Dot, OutputFormat::PNG);
    let e = g.begin_render("digraph { a\0 }\n").err().unwrap();
    assert_eq!(e.message(), "string contains an embedded nul byte");
}

#[test]
fn successive_renders_are_independent() {
    // Two renders on one context: each session is built from that call's own
    // text, and driving the first leaves no trace in the second.
    let g = GVC::new(Engine::Dot, OutputFormat::PNG);
    let mut first = g.begin_render("digraph { a -> b }\n").unwrap();
    let first_text = first.graph_text.clone();
    let last = drive_to_success(&mut first);
    assert!(matches!(last, Step::Finish { .. }));
    let second = g.begin_render("digraph { c -> d }\n").unwrap();
    assert_eq!(second.phase, Phase::AcquirePipe);
    assert_eq!(first.graph_text, first_text);
    assert_ne!(second.graph_text, first_text);
    assert_eq!(second.engine_token, first.engine_token);
    assert_eq!(second.format_token, first.format_token);
}

#[test]
fn reconfiguring_format_changes_only_the_next_session() {
    let mut g = GVC::new(Engine::Dot, OutputFormat::PNG);
    let first = g.begin_render("digraph { a }\n").unwrap();
    assert_eq!(first.format_token, vec![b'p', b'n', b'g', 0]);
    g.output_format(OutputFormat::SVG);
    let second = g.begin_render("digraph { a }\n").unwrap();
    assert_eq!(second.format_token, vec![b'd', b'o', b't', 0]);
    // The first session keeps the token it was built with.
    assert_eq!(first.format_token, vec![b'p', b'n', b'g', 0]);
}

#[test]
fn pipe_close_is_idempotent() {
    let mut p = PipeState::acquire();
    assert!(p.write_open);
    assert!(p.read_open);
    assert!(p.close_write());
    assert!(!p.close_write());
    assert!(p.close_read());
    assert!(!p.close_read());
}

#[test]
fn second_drain_finds_nothing() {
    let mut p = PipeState::acquire();
    let (release_write, drain_read) = p.drain_and_close();
    assert!(release_write);
    assert!(drain_read);
    let (release_again, drain_again) = p.drain_and_close();
    assert!(!release_again);
    assert!(!drain_again);
}

#[test]
fn drain_after_close_write_still_reads() {
    let mut p = PipeState::acquire();
    assert!(p.close_write());
    let (release_write, drain_read) = p.drain_and_close();
    assert!(!release_write);
    assert!(drain_read);
}
