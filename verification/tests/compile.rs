use vglang::device::{check_structure, Device, Program};
use vglang::drawing::{animated, apply, with, Graphic};
use vglang::errors::Error;
use vglang::generator::Generator;
use vglang::instruction::{Instr, ScopeValue};
use vglang::markup::MarkupDevice;
use vglang::text::{Font, Text, TextSpan};

fn bare_font() -> Font {
    Font { family: None, style: None }
}

fn bare_text() -> Text {
    Text { lang: None }
}

#[test]
fn scenario_unmatched_open_is_structural_error() {
    let mut g = Generator::new();
    g.push_from(ScopeValue::Font(bare_font()));
    g.push(Instr::Leaf("dangling".to_string()));
    let mut device = MarkupDevice::default();
    let r = g.compile(&mut device);
    assert_eq!(r, Err(Error::StructuralError));
}

#[test]
fn negative_counter_is_structural_error() {
    let mut g = Generator::new();
    g.pop(1);
    let mut device = MarkupDevice::default();
    assert_eq!(g.compile(&mut device), Err(Error::StructuralError));
}

#[test]
fn overwide_close_is_structural_error() {
    let mut g = Generator::new();
    g.push_from(ScopeValue::Text(bare_text()));
    g.pop(2);
    let mut device = MarkupDevice::default();
    assert_eq!(g.compile(&mut device), Err(Error::StructuralError));
}

#[test]
fn check_structure_replays_the_counter() {
    let mut g = Generator::new();
    apply(bare_font(), "x").draw(&mut g);
    assert!(check_structure(g.instructions()));

    let mut bad = Generator::new();
    bad.push(Instr::ScopeClose(1));
    assert!(!check_structure(bad.instructions()));

    let empty = Generator::new();
    assert!(check_structure(empty.instructions()));
}

#[test]
fn empty_register_name_is_unresolved_reference() {
    let mut g = Generator::new();
    g.push(Instr::AnimatedRef(String::new()));
    let mut device = MarkupDevice::default();
    assert_eq!(
        g.compile(&mut device),
        Err(Error::UnresolvedReference(String::new()))
    );
}

#[test]
fn empty_register_in_scope_payload_is_unresolved_reference() {
    let font = Font::default().family_animated(String::new());
    let mut g = Generator::new();
    apply(font, "x").draw(&mut g);
    let mut device = MarkupDevice::default();
    assert_eq!(
        g.compile(&mut device),
        Err(Error::UnresolvedReference(String::new()))
    );
}

#[test]
fn compiled_program_holds_the_log() {
    let mut g = Generator::new();
    apply(bare_font(), with(bare_text(), "hi")).draw(&mut g);
    let mut device = MarkupDevice::default();
    let program = g.compile(&mut device).unwrap();
    assert_eq!(program.instructions(), g.instructions());
}

#[test]
fn execute_serializes_scopes_as_tag_pairs() {
    let font = Font::default().family("serif".to_string());
    let d = apply(font, with(bare_text(), "hi"));
    let mut g = Generator::new();
    d.draw(&mut g);
    let mut device = MarkupDevice::default();
    let program = g.compile(&mut device).unwrap();
    let out = program.execute().unwrap();
    assert_eq!(out, "<font family=\"serif\"><text>hi</text></font>");
}

#[test]
fn execute_defers_animation_references_as_placeholders() {
    let font = Font::default().style_animated("styler".to_string());
    let d = apply(font, ("a", animated("wave")));
    let mut g = Generator::new();
    d.draw(&mut g);
    let mut device = MarkupDevice::default();
    let out = g.compile(&mut device).unwrap().execute().unwrap();
    assert_eq!(out, "<font style=\"${styler}\">a${wave}</font>");
}

#[test]
fn execute_closes_innermost_scope_first() {
    let d = with(bare_text(), with(TextSpan { lang: None }, "x"));
    let mut g = Generator::new();
    d.draw(&mut g);
    let mut device = MarkupDevice::default();
    let out = g.compile(&mut device).unwrap().execute().unwrap();
    assert_eq!(out, "<text><tspan>x</tspan></text>");
}

#[test]
fn multi_level_close_pops_each_level() {
    let mut g = Generator::new();
    g.push_from(ScopeValue::Font(bare_font()));
    g.push_from(ScopeValue::Text(bare_text()));
    g.push(Instr::Leaf("x".to_string()));
    g.pop(2);
    let mut device = MarkupDevice::default();
    let out = g.compile(&mut device).unwrap().execute().unwrap();
    assert_eq!(out, "<font><text>x</text></font>");
}

#[test]
fn compile_does_not_consume_the_generator_log() {
    let mut g = Generator::new();
    "only".draw(&mut g);
    let before = g.instructions().clone();
    let mut device = MarkupDevice::default();
    let _ = g.compile(&mut device).unwrap();
    assert_eq!(g.instructions(), &before);
}

#[test]
fn same_device_compiles_independent_documents() {
    let mut device = MarkupDevice::default();

    let mut g1 = Generator::new();
    with(bare_text(), "one").draw(&mut g1);
    let out1 = g1.compile(&mut device).unwrap().execute().unwrap();

    let mut g2 = Generator::new();
    with(bare_text(), "two").draw(&mut g2);
    let out2 = g2.compile(&mut device).unwrap().execute().unwrap();

    assert_eq!(out1, "<text>one</text>");
    assert_eq!(out2, "<text>two</text>");
}

#[test]
fn program_is_reexecutable_and_deterministic() {
    let mut g = Generator::new();
    with(bare_text(), "same").draw(&mut g);
    let mut device = MarkupDevice::default();
    let program = g.compile(&mut device).unwrap();
    assert_eq!(program.execute().unwrap(), program.execute().unwrap());
}

#[test]
fn error_messages_name_the_failure_class() {
    assert_eq!(
        Error::StructuralError.message(),
        "scope imbalance in instruction log"
    );
    assert_eq!(
        Error::UnresolvedReference("r".to_string()).message(),
        "unresolved animation register"
    );
    assert_eq!(Error::BackendError("io".to_string()).message(), "backend failure");
}
