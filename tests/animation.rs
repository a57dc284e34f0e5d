use css_animation::animation::{Animation, AnimationName, ParseError};
use css_animation::handler::{minify_declarations, AnimationHandler};
use css_animation::properties::{is_animation_property, AnimationProperty, Property, PropertyId, UnparsedProperty};
use css_animation::color::{TokenList, TokenOrValue};
use css_animation::values::{
    AnimationDirection, AnimationFillMode, AnimationIterationCount, AnimationPlayState, Component, EasingFunction,
    Time,
};
use css_animation::vendor_prefix::VendorPrefix;

fn ident(s: &str) -> Component {
    Component::Ident(s.to_string())
}

fn animation(name: AnimationName) -> Animation {
    Animation {
        name,
        duration: Time::Seconds(0),
        timing_function: EasingFunction::Ease,
        iteration_count: AnimationIterationCount::Number(1),
        direction: AnimationDirection::Normal,
        play_state: AnimationPlayState::Running,
        delay: Time::Seconds(0),
        fill_mode: AnimationFillMode::NoFill,
    }
}

fn foo_animation() -> Animation {
    Animation {
        name: AnimationName::Ident("foo".to_string()),
        duration: Time::Seconds(1),
        timing_function: EasingFunction::Linear,
        iteration_count: AnimationIterationCount::Number(3),
        direction: AnimationDirection::Normal,
        play_state: AnimationPlayState::Running,
        delay: Time::Seconds(0),
        fill_mode: AnimationFillMode::NoFill,
    }
}

fn longhands(a: &Animation, vp: VendorPrefix) -> Vec<Property> {
    vec![
        Property::AnimationName(vec![a.name.clone()], vp),
        Property::AnimationDuration(vec![a.duration], vp),
        Property::AnimationTimingFunction(vec![a.timing_function], vp),
        Property::AnimationIterationCount(vec![a.iteration_count], vp),
        Property::AnimationDirection(vec![a.direction], vp),
        Property::AnimationPlayState(vec![a.play_state], vp),
        Property::AnimationDelay(vec![a.delay], vp),
        Property::AnimationFillMode(vec![a.fill_mode], vp),
    ]
}

fn debug(v: &Vec<Property>) -> String {
    format!("{:?}", v)
}

#[test]
fn incomplete_group_stays_split() {
    let none = VendorPrefix::unprefixed();
    let decls = vec![
        Property::AnimationName(vec![AnimationName::NoAnimation], none),
        Property::AnimationDuration(vec![Time::Seconds(2)], none),
        Property::AnimationTimingFunction(vec![EasingFunction::Ease], none),
        Property::AnimationIterationCount(vec![AnimationIterationCount::Infinite], none),
    ];
    let out = minify_declarations(&decls, None);
    assert_eq!(debug(&out), debug(&decls));
}

#[test]
fn full_group_merges_and_elides_defaults() {
    let a = foo_animation();
    let out = minify_declarations(&longhands(&a, VendorPrefix::unprefixed()), None);
    assert_eq!(out.len(), 1);
    match &out[0] {
        Property::Animation(list, vp) => {
            assert_eq!(*vp, VendorPrefix::unprefixed());
            assert_eq!(list.len(), 1);
            assert_eq!(list[0].to_css(), "foo 1s linear 3");
        }
        other => panic!("expected a shorthand, got {:?}", other),
    }
}

#[test]
fn colliding_name_forces_count() {
    let a = animation(AnimationName::Ident("infinite".to_string()));
    assert_eq!(a.to_css(), "infinite 1");
    let mut b = foo_animation();
    b.name = AnimationName::Ident("infinite".to_string());
    b.iteration_count = AnimationIterationCount::Number(1);
    assert_eq!(b.to_css(), "infinite 1s linear 1");
}

#[test]
fn diverging_prefixed_names_flush_in_order() {
    let webkit = VendorPrefix::webkit();
    let none = VendorPrefix::unprefixed();
    let decls = vec![
        Property::AnimationName(vec![AnimationName::Ident("a".to_string())], webkit),
        Property::AnimationName(vec![AnimationName::Ident("b".to_string())], none),
        Property::AnimationDuration(vec![Time::Seconds(1)], webkit),
    ];
    let mut handler = AnimationHandler::new(None);
    let mut out = Vec::new();
    assert!(handler.handle_property(&decls[0], &mut out));
    assert!(out.is_empty());
    assert!(handler.handle_property(&decls[1], &mut out));
    assert_eq!(debug(&out), debug(&vec![Property::AnimationName(vec![AnimationName::Ident("a".to_string())], webkit)]));
    assert!(handler.handle_property(&decls[2], &mut out));
    assert_eq!(out.len(), 1);
    handler.finalize(&mut out);
    let expected = vec![
        Property::AnimationName(vec![AnimationName::Ident("a".to_string())], webkit),
        Property::AnimationName(vec![AnimationName::Ident("b".to_string())], none),
        Property::AnimationDuration(vec![Time::Seconds(1)], webkit),
    ];
    assert_eq!(debug(&out), debug(&expected));
}

#[test]
fn printed_value_parses_back() {
    let mut values = vec![foo_animation(), animation(AnimationName::Ident("slide".to_string()))];
    let mut c = foo_animation();
    c.name = AnimationName::Custom("initial".to_string());
    c.delay = Time::Milliseconds(-250);
    c.direction = AnimationDirection::AlternateReverse;
    c.fill_mode = AnimationFillMode::Both;
    c.play_state = AnimationPlayState::Paused;
    c.iteration_count = AnimationIterationCount::Infinite;
    values.push(c);
    values.push(animation(AnimationName::NoAnimation));
    for a in values {
        let parsed = Animation::parse(&a.to_components()).unwrap();
        assert_eq!(format!("{:?}", parsed), format!("{:?}", a));
    }
}

#[test]
fn shorthand_and_longhands_give_the_same_output() {
    let a = foo_animation();
    let webkit = VendorPrefix::webkit();
    let short = minify_declarations(&vec![Property::Animation(vec![a.clone()], webkit)], None);
    let long = minify_declarations(&longhands(&a, webkit), None);
    assert_eq!(debug(&short), debug(&long));
    assert_eq!(short.len(), 1);
}

#[test]
fn moving_an_unrelated_declaration_keeps_flush_points() {
    let none = VendorPrefix::unprefixed();
    let webkit = VendorPrefix::webkit();
    let name_a = Property::AnimationName(vec![AnimationName::Ident("a".to_string())], webkit);
    let name_b = Property::AnimationName(vec![AnimationName::Ident("b".to_string())], none);
    let dur = Property::AnimationDuration(vec![Time::Seconds(2)], webkit);
    let first = minify_declarations(&vec![name_a.duplicate(), dur.duplicate(), name_b.duplicate()], None);
    let second = minify_declarations(&vec![dur.duplicate(), name_a.duplicate(), name_b.duplicate()], None);
    assert_eq!(debug(&first), debug(&second));
    assert_eq!(first.len(), 3);
}

#[test]
fn parse_is_order_independent() {
    let comps = vec![ident("3"), Component::Seconds(2), ident("slide"), ident("ease-in"), Component::Number(4)];
    assert_eq!(Animation::parse(&comps).unwrap_err(), ParseError::UnexpectedToken(2));
    let comps = vec![ident("slide"), Component::Number(4), ident("EASE-IN"), Component::Seconds(2), Component::Milliseconds(500)];
    let a = Animation::parse(&comps).unwrap();
    assert_eq!(format!("{:?}", a.name), "Ident(\"slide\")");
    assert_eq!(a.iteration_count, AnimationIterationCount::Number(4));
    assert_eq!(a.timing_function, EasingFunction::EaseIn);
    assert_eq!(a.duration, Time::Seconds(2));
    assert_eq!(a.delay, Time::Milliseconds(500));
    assert_eq!(a.to_css(), "slide 2s ease-in 500ms 4");
}

#[test]
fn none_goes_to_fill_mode_first() {
    let a = Animation::parse(&vec![ident("none"), ident("none")]).unwrap();
    assert_eq!(a.fill_mode, AnimationFillMode::NoFill);
    assert_eq!(format!("{:?}", a.name), "NoAnimation");
    assert_eq!(a.to_css(), "none none");
    let b = Animation::parse(&vec![ident("forwards"), ident("none")]).unwrap();
    assert_eq!(b.fill_mode, AnimationFillMode::Forwards);
    assert!(matches!(b.name, AnimationName::NoAnimation));
}

#[test]
fn css_wide_keyword_is_not_a_name() {
    assert_eq!(Animation::parse(&vec![ident("inherit")]).unwrap_err(), ParseError::UnexpectedToken(0));
    let a = Animation::parse(&vec![Component::QuotedString("inherit".to_string())]).unwrap();
    assert_eq!(a.to_css(), "\"inherit\"");
    assert_eq!(Animation::parse(&vec![Component::Seconds(1), Component::Seconds(2), Component::Seconds(3)]).unwrap_err(), ParseError::UnexpectedToken(2));
}

#[test]
fn names_are_escaped_when_printed() {
    let a = animation(AnimationName::Ident("1st".to_string()));
    assert_eq!(a.to_css(), "\\31 st");
    let b = animation(AnimationName::Custom("two words".to_string()));
    assert_eq!(b.to_css(), "two\\ words");
}

#[test]
fn direction_collision_is_printed() {
    let a = animation(AnimationName::Ident("reverse".to_string()));
    assert_eq!(a.to_css(), "reverse normal");
    let b = animation(AnimationName::Ident("paused".to_string()));
    assert_eq!(b.to_css(), "paused running");
    let c = animation(AnimationName::Ident("both".to_string()));
    assert_eq!(c.to_css(), "both none");
}

#[test]
fn unequal_lengths_stay_split() {
    let none = VendorPrefix::unprefixed();
    let a = foo_animation();
    let mut decls = longhands(&a, none);
    decls[1] = Property::AnimationDuration(vec![Time::Seconds(1), Time::Seconds(2)], none);
    let out = minify_declarations(&decls, None);
    assert_eq!(debug(&out), debug(&decls));
}

#[test]
fn common_prefixes_merge_and_rest_stays() {
    let a = foo_animation();
    let both = VendorPrefix::webkit().union(VendorPrefix::unprefixed());
    let mut decls = longhands(&a, VendorPrefix::unprefixed());
    decls[0] = Property::AnimationName(vec![a.name.clone()], both);
    let out = minify_declarations(&decls, None);
    assert_eq!(out.len(), 2);
    assert!(matches!(&out[0], Property::Animation(_, vp) if *vp == VendorPrefix::unprefixed()));
    assert!(matches!(&out[1], Property::AnimationName(_, vp) if *vp == VendorPrefix::webkit()));
}

#[test]
fn unprefixed_output_takes_target_prefixes() {
    let a = foo_animation();
    let targets = VendorPrefix::webkit().union(VendorPrefix::unprefixed());
    let out = minify_declarations(&longhands(&a, VendorPrefix::unprefixed()), Some(targets));
    assert!(matches!(&out[0], Property::Animation(_, vp) if *vp == targets));
}

#[test]
fn unparsed_animation_declaration_flushes_and_passes() {
    let none = VendorPrefix::unprefixed();
    let unparsed = Property::Unparsed(UnparsedProperty {
        property_id: PropertyId::Animation(AnimationProperty::Duration, none),
        value: TokenList { tokens: vec![TokenOrValue::Token(ident("var"))] },
    });
    let other = Property::Unparsed(UnparsedProperty {
        property_id: PropertyId::Other("color".to_string()),
        value: TokenList { tokens: vec![] },
    });
    assert!(is_animation_property(&PropertyId::Animation(AnimationProperty::Shorthand, none)));
    assert!(!is_animation_property(&PropertyId::Other("color".to_string())));
    let decls = vec![
        Property::AnimationName(vec![AnimationName::Ident("a".to_string())], none),
        unparsed.duplicate(),
        other.duplicate(),
    ];
    let out = minify_declarations(&decls, Some(VendorPrefix::moz().union(none)));
    assert_eq!(out.len(), 3);
    assert!(matches!(&out[0], Property::AnimationName(..)));
    match &out[1] {
        Property::Unparsed(u) => {
            assert!(matches!(u.property_id, PropertyId::Animation(AnimationProperty::Duration, vp) if vp == VendorPrefix::moz().union(none)));
        }
        p => panic!("unexpected {:?}", p),
    }
    assert_eq!(format!("{:?}", out[2]), format!("{:?}", other));
    let mut handler = AnimationHandler::new(None);
    let mut dest = Vec::new();
    assert!(!handler.handle_property(&other, &mut dest));
    assert!(dest.is_empty());
}

#[test]
fn same_value_under_new_prefix_merges_without_flush() {
    let none = VendorPrefix::unprefixed();
    let webkit = VendorPrefix::webkit();
    let decls = vec![
        Property::AnimationName(vec![AnimationName::Ident("a".to_string())], webkit),
        Property::AnimationName(vec![AnimationName::Ident("a".to_string())], none),
    ];
    let out = minify_declarations(&decls, None);
    assert_eq!(out.len(), 1);
    assert!(matches!(&out[0], Property::AnimationName(_, vp) if *vp == webkit.union(none)));
}

#[test]
fn none_name_keeps_other_slots() {
    let a = Animation::parse(&vec![ident("none"), Component::Seconds(1)]).unwrap();
    assert_eq!(a.duration, Time::Seconds(1));
    assert_eq!(a.to_css(), "none 1s none");
    let back = Animation::parse(&a.to_components()).unwrap();
    assert_eq!(format!("{:?}", back), format!("{:?}", a));
}
