use vglang::animatable::Animatable;
use vglang::drawing::{animated, apply, with, Appliable, Graphic, WithContent};
use vglang::generator::Generator;
use vglang::instruction::{Instr, ScopeValue};
use vglang::text::{Font, Text, TextLayout, TextSpan};

fn bare_font() -> Font {
    Font { family: None, style: None }
}

fn bare_text() -> Text {
    Text { lang: None }
}

#[test]
fn scenario_leaf_in_one_scope() {
    let d = apply(bare_font(), "hello");
    let mut g = Generator::new();
    d.draw(&mut g);
    assert_eq!(
        g.instructions(),
        &vec![
            Instr::ScopeOpen(ScopeValue::Font(bare_font())),
            Instr::Leaf("hello".to_string()),
            Instr::ScopeClose(1),
        ]
    );
}

#[test]
fn scenario_two_leaves_no_scoping() {
    let d = ("a", "b");
    let mut g = Generator::new();
    d.draw(&mut g);
    assert_eq!(
        g.instructions(),
        &vec![Instr::Leaf("a".to_string()), Instr::Leaf("b".to_string())]
    );
}

#[test]
fn scenario_container_inside_scope() {
    let d = apply(bare_font(), with(bare_text(), "payload"));
    let mut g = Generator::new();
    d.draw(&mut g);
    assert_eq!(
        g.instructions(),
        &vec![
            Instr::ScopeOpen(ScopeValue::Font(bare_font())),
            Instr::ScopeOpen(ScopeValue::Text(bare_text())),
            Instr::Leaf("payload".to_string()),
            Instr::ScopeClose(1),
            Instr::ScopeClose(1),
        ]
    );
}

#[test]
fn draw_order_matches_individual_logs() {
    let mut g0 = Generator::new();
    "a".draw(&mut g0);
    let mut g1 = Generator::new();
    animated("r").draw(&mut g1);
    let mut g2 = Generator::new();
    "c".to_string().draw(&mut g2);

    let mut combined = Generator::new();
    ("a", animated("r"), "c".to_string()).draw(&mut combined);

    let mut expected: Vec<Instr> = Vec::new();
    expected.extend(g0.into_instructions());
    expected.extend(g1.into_instructions());
    expected.extend(g2.into_instructions());
    assert_eq!(combined.instructions(), &expected);
}

#[test]
fn drawing_twice_is_deterministic() {
    let build = || {
        apply(
            (bare_font(), TextLayout { anchor: None }),
            with(bare_text(), (with(TextSpan { lang: None }, "x"), animated("reg"))),
        )
    };
    let mut g1 = Generator::new();
    build().draw(&mut g1);
    let mut g2 = Generator::new();
    build().draw(&mut g2);
    assert_eq!(g1.instructions(), g2.instructions());
}

#[test]
fn animated_records_register_reference() {
    let mut g = Generator::new();
    animated("wave").draw(&mut g);
    assert_eq!(
        g.instructions(),
        &vec![Instr::AnimatedRef("wave".to_string())]
    );
}

#[test]
fn applying_attribute_tuple_nests_outer_to_inner() {
    let layout = TextLayout { anchor: None };
    let d = apply((bare_font(), layout.clone()), "t");
    let mut g = Generator::new();
    d.draw(&mut g);
    assert_eq!(
        g.instructions(),
        &vec![
            Instr::ScopeOpen(ScopeValue::Font(bare_font())),
            Instr::ScopeOpen(ScopeValue::TextLayout(layout)),
            Instr::Leaf("t".to_string()),
            Instr::ScopeClose(1),
            Instr::ScopeClose(1),
        ]
    );
}

#[test]
fn five_drawables_keep_document_order() {
    let d = ("a", "b", "c", "d", "e");
    let mut g = Generator::new();
    d.draw(&mut g);
    let expected: Vec<Instr> = ["a", "b", "c", "d", "e"]
        .iter()
        .map(|s| Instr::Leaf(s.to_string()))
        .collect();
    assert_eq!(g.instructions(), &expected);
}

#[test]
fn eight_drawables_keep_document_order() {
    let d = ("a", "b", "c", "d", "e", "f", "g", "h");
    let mut g = Generator::new();
    d.draw(&mut g);
    let expected: Vec<Instr> = ["a", "b", "c", "d", "e", "f", "g", "h"]
        .iter()
        .map(|s| Instr::Leaf(s.to_string()))
        .collect();
    assert_eq!(g.instructions(), &expected);
}

#[test]
fn trait_methods_match_free_functions() {
    let mut g1 = Generator::new();
    bare_font().apply("x").draw(&mut g1);
    let mut g2 = Generator::new();
    apply(bare_font(), "x").draw(&mut g2);
    assert_eq!(g1.instructions(), g2.instructions());

    let mut g3 = Generator::new();
    bare_text().with_content("x").draw(&mut g3);
    let mut g4 = Generator::new();
    with(bare_text(), "x").draw(&mut g4);
    assert_eq!(g3.instructions(), g4.instructions());
}

#[test]
fn setters_assign_animatable_fields() {
    let f = bare_font().family("serif".to_string()).style_animated("s".to_string());
    assert_eq!(f.family, Some(Animatable::Constant("serif".to_string())));
    assert_eq!(f.style, Some(Animatable::Animated("s".to_string())));

    let l = TextLayout::default().anchor("middle".to_string());
    assert_eq!(l.anchor, Some(Animatable::Constant("middle".to_string())));

    let t = Text::default().lang_animated("lang-reg".to_string());
    assert_eq!(t.lang, Some(Animatable::Animated("lang-reg".to_string())));

    let sp = TextSpan::default().lang("en".to_string());
    assert_eq!(sp.lang, Some(Animatable::Constant("en".to_string())));
}

#[test]
fn generator_counts_appended_instructions() {
    let mut g = Generator::new();
    assert_eq!(g.len(), 0);
    apply(bare_font(), "x").draw(&mut g);
    assert_eq!(g.len(), 3);
    assert_eq!(g.into_instructions().len(), 3);
}

#[test]
fn scope_balance_holds_for_nested_descriptions() {
    // Replay the open/close counter over a deeply nested description.
    let d = apply(
        (bare_font(), TextLayout { anchor: None }, bare_font()),
        with(
            bare_text(),
            (
                with(TextSpan { lang: None }, ("a", "b")),
                animated("r"),
                with(TextSpan { lang: None }, "c"),
            ),
        ),
    );
    let mut g = Generator::new();
    d.draw(&mut g);
    let mut counter: i64 = 0;
    for i in g.instructions() {
        match i {
            Instr::ScopeOpen(_) => counter += 1,
            Instr::ScopeClose(n) => counter -= *n as i64,
            _ => {}
        }
        assert!(counter >= 0);
    }
    assert_eq!(counter, 0);
}
