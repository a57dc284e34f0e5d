use css_animation::color::{ColorFallbackKind, ColorSpace, ColorTargets, TokenList, TokenOrValue};
use css_animation::keyframes::{Keyframe, KeyframeSelector, KeyframesRule};
use css_animation::properties::{CustomProperty, Property, PropertyId, UnparsedProperty};
use css_animation::animation::AnimationName;
use css_animation::values::{Component, Time};
use css_animation::vendor_prefix::VendorPrefix;

fn colored(space: ColorSpace) -> Property {
    Property::Unparsed(UnparsedProperty {
        property_id: PropertyId::Other("color".to_string()),
        value: TokenList { tokens: vec![TokenOrValue::Color(space)] },
    })
}

fn custom(space: ColorSpace) -> Property {
    Property::Custom(CustomProperty {
        name: "--accent".to_string(),
        value: TokenList { tokens: vec![TokenOrValue::Token(Component::Ident("solid".to_string())), TokenOrValue::Color(space)] },
    })
}

fn rule(decls: Vec<Property>) -> KeyframesRule {
    KeyframesRule {
        name: "fade".to_string(),
        keyframes: vec![Keyframe { selectors: vec![KeyframeSelector::From, KeyframeSelector::Percentage(50)], declarations: decls }],
        vendor_prefix: VendorPrefix::unprefixed(),
    }
}

fn space_of(p: &Property) -> Option<ColorSpace> {
    match p {
        Property::Unparsed(u) => u.value.tokens.iter().find_map(|t| match t {
            TokenOrValue::Color(c) => Some(*c),
            _ => None,
        }),
        Property::Custom(c) => c.value.tokens.iter().find_map(|t| match t {
            TokenOrValue::Color(c) => Some(*c),
            _ => None,
        }),
        _ => None,
    }
}

#[test]
fn lab_only_copy_then_original() {
    let targets = ColorTargets { p3: false, lab: true, oklab: false };
    let mut r = rule(vec![colored(ColorSpace::Oklab)]);
    let copies = r.get_fallbacks(targets);
    assert_eq!(copies.len(), 1);
    assert_eq!(copies[0].kind, ColorFallbackKind { rgb: false, p3: false, lab: true, oklab: false });
    assert_eq!(copies[0].condition(), "color: lab(0% 0 0)");
    assert_eq!(space_of(&copies[0].rule.keyframes[0].declarations[0]), Some(ColorSpace::Lab));
    assert_eq!(space_of(&r.keyframes[0].declarations[0]), Some(ColorSpace::Srgb));
}

#[test]
fn no_fallback_needed_leaves_rule_alone() {
    let targets = ColorTargets { p3: true, lab: true, oklab: true };
    let mut r = rule(vec![colored(ColorSpace::Lab)]);
    let before = format!("{:?}", r);
    let copies = r.get_fallbacks(targets);
    assert!(copies.is_empty());
    assert_eq!(format!("{:?}", r), before);
}

#[test]
fn p3_copy_comes_before_lab_copy() {
    let targets = ColorTargets { p3: true, lab: false, oklab: false };
    for decls in [
        vec![colored(ColorSpace::Lab), custom(ColorSpace::DisplayP3)],
        vec![custom(ColorSpace::DisplayP3), colored(ColorSpace::Lab)],
    ] {
        let mut r = rule(decls);
        let copies = r.get_fallbacks(targets);
        assert_eq!(copies.len(), 2);
        assert_eq!(copies[0].kind, ColorFallbackKind { rgb: false, p3: true, lab: false, oklab: false });
        assert_eq!(copies[0].condition(), "color: color(display-p3 0 0 0)");
        assert_eq!(copies[1].kind, ColorFallbackKind { rgb: false, p3: false, lab: true, oklab: false });
        for p in &r.keyframes[0].declarations {
            assert_eq!(space_of(p), Some(ColorSpace::Srgb));
        }
        for p in &copies[0].rule.keyframes[0].declarations {
            assert_eq!(space_of(p), Some(ColorSpace::DisplayP3));
        }
    }
}

#[test]
fn fallback_kind_sets() {
    let all = ColorFallbackKind { rgb: false, p3: true, lab: true, oklab: false };
    assert_eq!(all.lowest(), ColorFallbackKind::p3_kind());
    assert_eq!(all.difference(all.lowest()), ColorFallbackKind::lab_kind());
    assert!(ColorFallbackKind::empty().lowest().is_empty());
    assert_eq!(ColorSpace::Oklab.fallbacks(ColorTargets { p3: true, lab: true, oklab: false }),
        ColorFallbackKind { rgb: true, p3: true, lab: true, oklab: false });
    assert_eq!(ColorSpace::DisplayP3.fallback(ColorFallbackKind::lab_kind()), ColorSpace::DisplayP3);
}

#[test]
fn selectors_print_and_parse() {
    assert_eq!(KeyframeSelector::Percentage(100).to_css(true), "to");
    assert_eq!(KeyframeSelector::Percentage(100).to_css(false), "100%");
    assert_eq!(KeyframeSelector::From.to_css(true), "0%");
    assert_eq!(KeyframeSelector::From.to_css(false), "from");
    assert_eq!(KeyframeSelector::To.to_css(false), "to");
    assert_eq!(KeyframeSelector::parse(&Component::Ident("FROM".to_string())), Some(KeyframeSelector::From));
    assert_eq!(KeyframeSelector::parse(&Component::Percentage(250)), Some(KeyframeSelector::Percentage(250)));
    assert_eq!(KeyframeSelector::parse(&Component::Ident("middle".to_string())), None);
}

#[test]
fn minify_merges_keyframe_declarations() {
    let none = VendorPrefix::unprefixed();
    let mut r = rule(vec![
        Property::AnimationName(vec![AnimationName::Ident("a".to_string())], none),
        colored(ColorSpace::Srgb),
        Property::AnimationDuration(vec![Time::Seconds(1)], none),
    ]);
    r.minify(None);
    let d = &r.keyframes[0].declarations;
    assert_eq!(d.len(), 3);
    assert!(matches!(d[0], Property::Unparsed(_)));
    assert!(matches!(d[1], Property::AnimationName(..)));
    assert!(matches!(d[2], Property::AnimationDuration(..)));
    assert_eq!(r.keyframes[0].selectors, vec![KeyframeSelector::From, KeyframeSelector::Percentage(50)]);
}

#[test]
fn selector_lists() {
    let items = vec![Component::Ident("from".to_string()), Component::Percentage(40), Component::Ident("TO".to_string())];
    assert_eq!(
        KeyframeSelector::parse_list(&items),
        Some(vec![KeyframeSelector::From, KeyframeSelector::Percentage(40), KeyframeSelector::To])
    );
    assert_eq!(KeyframeSelector::parse_list(&vec![]), None);
    assert_eq!(KeyframeSelector::parse_list(&vec![Component::Number(3)]), None);
}

#[test]
fn rule_prints_one_block_per_prefix_in_order() {
    let mut r = rule(vec![]);
    r.vendor_prefix = VendorPrefix::unprefixed().union(VendorPrefix::webkit()).union(VendorPrefix::moz());
    r.keyframes.push(Keyframe { selectors: vec![KeyframeSelector::Percentage(100)], declarations: vec![] });
    let blocks = vec!["opacity:0".to_string(), "opacity:1".to_string()];
    assert_eq!(
        r.to_css(&blocks).unwrap(),
        "@-webkit-keyframes fade{0%,50%{opacity:0}to{opacity:1}}@-moz-keyframes fade{0%,50%{opacity:0}to{opacity:1}}@keyframes fade{0%,50%{opacity:0}to{opacity:1}}"
    );
    assert_eq!(r.to_css(&vec![]), None);
}
