use vglang::animatable::Animatable;
use vglang::dimension::{MeetOrSlice, PreserveAspectRatio, Unit};
use vglang::errors::Error;
use vglang::primitives::{ChannelSelector, Href, MapCollect, UnicodeRange, Units};

#[test]
fn constant_reads_back_the_wrapped_value() {
    let a = Animatable::constant(42u32);
    assert!(a.is_constant());
    assert_eq!(a.as_constant(), Some(&42));
    assert_eq!(a.register(), None);
}

#[test]
fn animated_never_exposes_a_constant_payload() {
    let a: Animatable<u32> = Animatable::animated("spin".to_string());
    assert!(!a.is_constant());
    assert_eq!(a.as_constant(), None);
    assert_eq!(a.register(), Some(&"spin".to_string()));
}

#[test]
fn animatable_constructors_match_variants() {
    assert_eq!(
        Animatable::constant("v".to_string()),
        Animatable::Constant("v".to_string())
    );
    assert_eq!(
        Animatable::<String>::animated("n".to_string()),
        Animatable::Animated("n".to_string())
    );
}

#[test]
fn unit_identifiers_serialize_to_their_text() {
    assert_eq!(Unit::Em.as_ref(), "em");
    assert_eq!(Unit::Ex.as_ref(), "ex");
    assert_eq!(Unit::Px.as_ref(), "px");
    assert_eq!(Unit::In.as_ref(), "in");
    assert_eq!(Unit::Cm.as_ref(), "cm");
    assert_eq!(Unit::Mm.as_ref(), "mm");
    assert_eq!(Unit::Pt.as_ref(), "pt");
    assert_eq!(Unit::Pc.as_ref(), "pc");
    assert_eq!(Unit::Percentages.as_ref(), "%");
}

#[test]
fn meet_or_slice_serializes_to_its_text() {
    assert_eq!(MeetOrSlice::Meet.as_ref(), "meet");
    assert_eq!(MeetOrSlice::Slice.as_ref(), "slice");
}

#[test]
fn aspect_ratio_defaults_to_centred_meet() {
    assert_eq!(
        PreserveAspectRatio::default(),
        PreserveAspectRatio::xMidYMid(MeetOrSlice::Meet)
    );
}

#[test]
fn channel_selector_defaults_to_alpha() {
    assert_eq!(ChannelSelector::default(), ChannelSelector::A);
}

#[test]
fn unicode_range_defaults_to_all_characters() {
    assert_eq!(
        UnicodeRange::default(),
        UnicodeRange::Range { from: '\u{0}', to: '\u{10ffff}' }
    );
}

#[test]
fn map_collect_keeps_one_value() {
    assert_eq!(
        "a".to_string().map_collect(),
        vec!["a".to_string()]
    );
    assert_eq!(
        UnicodeRange::Char('x').map_collect(),
        vec![UnicodeRange::Char('x')]
    );
    assert_eq!(
        Href("#id".to_string()).map_collect(),
        vec![Href("#id".to_string())]
    );
}

#[test]
fn map_collect_keeps_tuple_order() {
    assert_eq!(
        ("a".to_string(), "b".to_string()).map_collect(),
        vec!["a".to_string(), "b".to_string()]
    );
    assert_eq!(
        ("a".to_string(), "b".to_string(), "c".to_string()).map_collect(),
        vec!["a".to_string(), "b".to_string(), "c".to_string()]
    );
    assert_eq!(
        (UnicodeRange::Char('x'), UnicodeRange::Char('y')).map_collect(),
        vec![UnicodeRange::Char('x'), UnicodeRange::Char('y')]
    );
}

#[test]
fn units_variants_are_distinct() {
    assert_ne!(Units::UserSpaceOnUse, Units::ObjectBoundingBox);
}

#[test]
fn error_variants_carry_their_context() {
    let e = Error::UnresolvedReference("reg".to_string());
    match e {
        Error::UnresolvedReference(name) => assert_eq!(name, "reg"),
        _ => panic!("wrong variant"),
    }
    let b = Error::BackendError("asset missing".to_string());
    match b {
        Error::BackendError(desc) => assert_eq!(desc, "asset missing"),
        _ => panic!("wrong variant"),
    }
}
