//! The `@keyframes` rule, and the copies of it that colour fallbacks need.
use vstd::prelude::*;
use crate::color::{spec_list_fallback, spec_list_fallbacks, ColorFallbackKind, ColorTargets};
use crate::properties::{CustomModel, CustomProperty, Property, PropertyModel, UnparsedModel};
use crate::text::{chars_of, decimal, ident_text, push_all, push_decimal, push_str, serialize_ident, string_of};
use crate::values::{views, Component, ComponentModel, is_keyword};
use crate::handler::{minify_declarations, spec_minify};
use crate::vendor_prefix::VendorPrefix;

verus! {

/// Where a keyframe sits in the animation.
#[derive(Clone, Copy, Debug, PartialEq, Eq, Structural)]
pub enum KeyframeSelector {
    /// A whole percentage; not checked against the range 0 to 100.
    Percentage(u32),
    /// `from`, the same as `0%`.
    From,
    /// `to`, the same as `100%`.
    To,
}

impl KeyframeSelector {
    pub open spec fn spec_parse(c: ComponentModel) -> Option<KeyframeSelector> {
        match c {
            ComponentModel::Percentage(p) => Some(KeyframeSelector::Percentage(p)),
            ComponentModel::Ident(s) => if is_keyword(s, "from") {
                Some(KeyframeSelector::From)
            } else if is_keyword(s, "to") {
                Some(KeyframeSelector::To)
            } else {
                None
            },
            _ => None,
        }
    }

    /// The text of a selector: with `minify`, `100%` is written `to` and
    /// `from` is written `0%`, the shorter forms.
    pub open spec fn spec_css(self, minify: bool) -> Seq<char> {
        match self {
            KeyframeSelector::Percentage(p) => if minify && p == 100 {
                "to"@
            } else {
                decimal(p as nat) + "%"@
            },
            KeyframeSelector::From => if minify {
                "0%"@
            } else {
                "from"@
            },
            KeyframeSelector::To => "to"@,
        }
    }

    /// Reads a selector: a percentage, `from` or `to`.
    pub fn parse(c: &Component) -> (r: Option<KeyframeSelector>)
        ensures
            r == KeyframeSelector::spec_parse(c@),
    {
        match c {
            Component::Percentage(p) => Some(KeyframeSelector::Percentage(*p)),
            Component::Ident(s) => {
                let cs = chars_of(s.as_str());
                if crate::text::matches_ignore_case(&cs, "from") {
                    Some(KeyframeSelector::From)
                } else if crate::text::matches_ignore_case(&cs, "to") {
                    Some(KeyframeSelector::To)
                } else {
                    None
                }
            },
            _ => None,
        }
    }

    /// Reads the selectors of a keyframe, one per comma-separated item: none
    /// where the list is empty or an item is not a selector.
    pub fn parse_list(items: &Vec<Component>) -> (r: Option<Vec<KeyframeSelector>>)
        ensures
            r is Some <==> (items@.len() > 0 && forall|i: int|
                0 <= i < items@.len() ==> (#[trigger] KeyframeSelector::spec_parse(items@[i]@)) is Some),
            r is Some ==> r.unwrap()@.len() == items@.len() && forall|i: int|
                0 <= i < items@.len() ==> Some(#[trigger] r.unwrap()@[i]) == KeyframeSelector::spec_parse(
                    items@[i]@,
                ),
    {
        if items.len() == 0 {
            return None;
        }
        let mut out: Vec<KeyframeSelector> = Vec::new();
        let mut i: usize = 0;
        while i < items.len()
            invariant
                0 <= i <= items@.len(),
                out@.len() == i,
                forall|j: int| 0 <= j < i ==> Some(#[trigger] out@[j]) == KeyframeSelector::spec_parse(items@[j]@),
            decreases items@.len() - i,
        {
            match KeyframeSelector::parse(&items[i]) {
                Some(sel) => out.push(sel),
                None => {
                    return None;
                },
            }
            i = i + 1;
        }
        assert forall|j: int| 0 <= j < items@.len() implies (#[trigger] KeyframeSelector::spec_parse(
            items@[j]@,
        )) is Some by {
            assert(Some(out@[j]) == KeyframeSelector::spec_parse(items@[j]@));
        }
        Some(out)
    }

    /// The text of this selector.
    pub fn to_css(&self, minify: bool) -> (r: String)
        ensures
            r@ == self.spec_css(minify),
    {
        let mut out: Vec<char> = Vec::new();
        match self {
            KeyframeSelector::Percentage(p) => {
                if minify && *p == 100 {
                    push_str(&mut out, "to");
                } else {
                    push_decimal(&mut out, *p);
                    push_str(&mut out, "%");
                }
            },
            KeyframeSelector::From => {
                if minify {
                    push_str(&mut out, "0%");
                } else {
                    push_str(&mut out, "from");
                }
            },
            KeyframeSelector::To => push_str(&mut out, "to"),
        }
        assert(out@ =~= self.spec_css(minify));
        string_of(&out)
    }
}

/// One keyframe: its selectors, never empty, and its declarations.
#[derive(Debug)]
pub struct Keyframe {
    pub selectors: Vec<KeyframeSelector>,
    pub declarations: Vec<Property>,
}

pub struct KeyframeModel {
    pub selectors: Seq<KeyframeSelector>,
    pub declarations: Seq<PropertyModel>,
}

impl View for Keyframe {
    type V = KeyframeModel;

    open spec fn view(&self) -> KeyframeModel {
        KeyframeModel { selectors: self.selectors@, declarations: views(self.declarations@) }
    }
}

/// An `@keyframes` rule.
#[derive(Debug)]
pub struct KeyframesRule {
    /// The animation name.
    pub name: String,
    pub keyframes: Vec<Keyframe>,
    /// The prefixes the rule is written with, e.g. `@-webkit-keyframes`.
    pub vendor_prefix: VendorPrefix,
}

pub struct KeyframesModel {
    pub name: Seq<char>,
    pub keyframes: Seq<KeyframeModel>,
    pub vendor_prefix: VendorPrefix,
}

impl View for KeyframesRule {
    type V = KeyframesModel;

    open spec fn view(&self) -> KeyframesModel {
        KeyframesModel { name: self.name@, keyframes: views(self.keyframes@), vendor_prefix: self.vendor_prefix }
    }
}

/// A rule that applies only where the engine reads the colour representation `kind`.
#[derive(Debug)]
pub struct SupportsRule {
    pub kind: ColorFallbackKind,
    pub rule: KeyframesRule,
}

pub struct SupportsModel {
    pub kind: ColorFallbackKind,
    pub rule: KeyframesModel,
}

impl View for SupportsRule {
    type V = SupportsModel;

    open spec fn view(&self) -> SupportsModel {
        SupportsModel { kind: self.kind, rule: self.rule@ }
    }
}

impl SupportsRule {
    /// The text of the `@supports` condition.
    pub fn condition(&self) -> (r: &'static str)
        ensures
            self.kind.rgb ==> r@ == "color: rgb(0 0 0)"@,
            !self.kind.rgb && self.kind.p3 ==> r@ == "color: color(display-p3 0 0 0)"@,
            !self.kind.rgb && !self.kind.p3 && self.kind.lab ==> r@ == "color: lab(0% 0 0)"@,
            !self.kind.rgb && !self.kind.p3 && !self.kind.lab ==> r@ == "color: oklab(0 0 0)"@,
    {
        self.kind.supports_condition()
    }
}

/// The fallbacks that a declaration needs: those of its colours, for custom
/// and unparsed declarations; none for the others.
pub open spec fn decl_fallbacks(p: PropertyModel, t: ColorTargets) -> ColorFallbackKind {
    match p {
        PropertyModel::Custom(c) => spec_list_fallbacks(c.value, t),
        PropertyModel::Unparsed(u) => spec_list_fallbacks(u.value, t),
        _ => ColorFallbackKind::spec_empty(),
    }
}

/// The union of the fallbacks that the declarations `s` need.
pub open spec fn decls_fallbacks(s: Seq<PropertyModel>, t: ColorTargets) -> ColorFallbackKind
    decreases s.len(),
{
    if s.len() == 0 {
        ColorFallbackKind::spec_empty()
    } else {
        decls_fallbacks(s.drop_last(), t).spec_union(decl_fallbacks(s.last(), t))
    }
}

/// The union of the fallbacks that the keyframes `s` need.
pub open spec fn keyframes_fallbacks(s: Seq<KeyframeModel>, t: ColorTargets) -> ColorFallbackKind
    decreases s.len(),
{
    if s.len() == 0 {
        ColorFallbackKind::spec_empty()
    } else {
        keyframes_fallbacks(s.drop_last(), t).spec_union(decls_fallbacks(s.last().declarations, t))
    }
}

/// A declaration with its colours rewritten for `kind`.
pub open spec fn decl_fallback(p: PropertyModel, kind: ColorFallbackKind) -> PropertyModel {
    match p {
        PropertyModel::Custom(c) => PropertyModel::Custom(
            CustomModel { name: c.name, value: spec_list_fallback(c.value, kind) },
        ),
        PropertyModel::Unparsed(u) => PropertyModel::Unparsed(
            UnparsedModel { property_id: u.property_id, value: spec_list_fallback(u.value, kind) },
        ),
        _ => p,
    }
}

/// A keyframe with its colours rewritten for `kind`.
pub open spec fn keyframe_fallback(k: KeyframeModel, kind: ColorFallbackKind) -> KeyframeModel {
    KeyframeModel {
        selectors: k.selectors,
        declarations: k.declarations.map_values(|p: PropertyModel| decl_fallback(p, kind)),
    }
}

/// A rule with its colours rewritten for `kind`.
pub open spec fn rule_fallback(r: KeyframesModel, kind: ColorFallbackKind) -> KeyframesModel {
    KeyframesModel {
        name: r.name,
        keyframes: r.keyframes.map_values(|k: KeyframeModel| keyframe_fallback(k, kind)),
        vendor_prefix: r.vendor_prefix,
    }
}

pub open spec fn p3_only() -> ColorFallbackKind {
    ColorFallbackKind { p3: true, ..ColorFallbackKind::spec_empty() }
}

pub open spec fn lab_only() -> ColorFallbackKind {
    ColorFallbackKind { lab: true, ..ColorFallbackKind::spec_empty() }
}

/// Whether a rule whose colours need the fallbacks `all` gets a copy gated on P3.
pub open spec fn needs_p3_copy(all: ColorFallbackKind) -> bool {
    all.spec_difference(all.spec_lowest()).p3
}

/// Whether a rule whose colours need the fallbacks `all` gets a copy gated on LAB.
pub open spec fn needs_lab_copy(all: ColorFallbackKind) -> bool {
    let lowest = all.spec_lowest();
    all.spec_difference(lowest).lab || (!lowest.spec_is_empty() && lowest != lab_only())
}

/// The gated copies of `r`, for the fallbacks `all`: the P3 copy, then the LAB
/// copy, each where it is needed.
pub open spec fn fallback_rules(r: KeyframesModel, all: ColorFallbackKind) -> Seq<SupportsModel> {
    (if needs_p3_copy(all) {
        seq![SupportsModel { kind: p3_only(), rule: rule_fallback(r, p3_only()) }]
    } else {
        Seq::empty()
    }) + (if needs_lab_copy(all) {
        seq![SupportsModel { kind: lab_only(), rule: rule_fallback(r, lab_only()) }]
    } else {
        Seq::empty()
    })
}

/// `r` once its own colours are rewritten for the lowest of `all`, where there is one.
pub open spec fn rewritten_rule(r: KeyframesModel, all: ColorFallbackKind) -> KeyframesModel {
    if all.spec_lowest().spec_is_empty() {
        r
    } else {
        rule_fallback(r, all.spec_lowest())
    }
}

fn decl_fallback_exec(p: &Property, kind: ColorFallbackKind) -> (r: Property)
    ensures
        r@ == decl_fallback(p@, kind),
{
    match p {
        Property::Custom(c) => Property::Custom(CustomProperty { name: c.name.clone(), value: c.value.get_fallback(kind) }),
        Property::Unparsed(u) => {
            let mut d = u.duplicate();
            d.value = u.value.get_fallback(kind);
            Property::Unparsed(d)
        },
        _ => p.duplicate(),
    }
}

impl Keyframe {
    fn fallback(&self, kind: ColorFallbackKind) -> (r: Keyframe)
        ensures
            r@ == keyframe_fallback(self@, kind),
    {
        let mut decls: Vec<Property> = Vec::new();
        let mut i: usize = 0;
        while i < self.declarations.len()
            invariant
                0 <= i <= self.declarations@.len(),
                views(decls@) == views(self.declarations@).subrange(0, i as int).map_values(
                    |p: PropertyModel| decl_fallback(p, kind),
                ),
            decreases self.declarations@.len() - i,
        {
            let ghost before = views(decls@);
            let d = decl_fallback_exec(&self.declarations[i], kind);
            decls.push(d);
            assert(views(decls@) =~= before.push(d@));
            i = i + 1;
            assert(views(decls@) =~= views(self.declarations@).subrange(0, i as int).map_values(
                |p: PropertyModel| decl_fallback(p, kind),
            ));
        }
        assert(views(self.declarations@).subrange(0, self.declarations@.len() as int) =~= views(
            self.declarations@,
        ));
        let mut sels: Vec<KeyframeSelector> = Vec::new();
        let mut j: usize = 0;
        while j < self.selectors.len()
            invariant
                0 <= j <= self.selectors@.len(),
                sels@ == self.selectors@.subrange(0, j as int),
            decreases self.selectors@.len() - j,
        {
            sels.push(self.selectors[j]);
            j = j + 1;
            assert(sels@ =~= self.selectors@.subrange(0, j as int));
        }
        assert(self.selectors@.subrange(0, self.selectors@.len() as int) =~= self.selectors@);
        Keyframe { selectors: sels, declarations: decls }
    }

    fn necessary_fallbacks(&self, t: ColorTargets) -> (r: ColorFallbackKind)
        ensures
            r == decls_fallbacks(self@.declarations, t),
    {
        let ghost s = views(self.declarations@);
        let mut acc = ColorFallbackKind::empty();
        let mut i: usize = 0;
        while i < self.declarations.len()
            invariant
                0 <= i <= self.declarations@.len(),
                s == views(self.declarations@),
                acc == decls_fallbacks(s.subrange(0, i as int), t),
            decreases self.declarations@.len() - i,
        {
            assert(s.subrange(0, i + 1).drop_last() =~= s.subrange(0, i as int));
            match &self.declarations[i] {
                Property::Custom(c) => {
                    acc = acc.union(c.value.get_necessary_fallbacks(t));
                },
                Property::Unparsed(u) => {
                    acc = acc.union(u.value.get_necessary_fallbacks(t));
                },
                _ => {
                    acc = acc.union(ColorFallbackKind::empty());
                },
            }
            i = i + 1;
        }
        assert(s.subrange(0, s.len() as int) =~= s);
        acc
    }
}

impl KeyframesRule {
    /// A copy of this rule with the colours of its custom and unparsed
    /// declarations rewritten for `kind`.
    pub fn get_fallback(&self, kind: ColorFallbackKind) -> (r: KeyframesRule)
        ensures
            r@ == rule_fallback(self@, kind),
    {
        let mut frames: Vec<Keyframe> = Vec::new();
        let mut i: usize = 0;
        while i < self.keyframes.len()
            invariant
                0 <= i <= self.keyframes@.len(),
                views(frames@) == views(self.keyframes@).subrange(0, i as int).map_values(
                    |k: KeyframeModel| keyframe_fallback(k, kind),
                ),
            decreases self.keyframes@.len() - i,
        {
            let ghost before = views(frames@);
            let k = self.keyframes[i].fallback(kind);
            frames.push(k);
            assert(views(frames@) =~= before.push(k@));
            i = i + 1;
            assert(views(frames@) =~= views(self.keyframes@).subrange(0, i as int).map_values(
                |k: KeyframeModel| keyframe_fallback(k, kind),
            ));
        }
        assert(views(self.keyframes@).subrange(0, self.keyframes@.len() as int) =~= views(self.keyframes@));
        KeyframesRule { name: self.name.clone(), keyframes: frames, vendor_prefix: self.vendor_prefix }
    }

    /// The fallbacks that the colours of this rule's custom and unparsed
    /// declarations need for the targets `t`.
    pub fn necessary_fallbacks(&self, t: ColorTargets) -> (r: ColorFallbackKind)
        ensures
            r == keyframes_fallbacks(self@.keyframes, t),
    {
        let ghost s = views(self.keyframes@);
        let mut acc = ColorFallbackKind::empty();
        let mut i: usize = 0;
        while i < self.keyframes.len()
            invariant
                0 <= i <= self.keyframes@.len(),
                s == views(self.keyframes@),
                acc == keyframes_fallbacks(s.subrange(0, i as int), t),
            decreases self.keyframes@.len() - i,
        {
            assert(s.subrange(0, i + 1).drop_last() =~= s.subrange(0, i as int));
            acc = acc.union(self.keyframes[i].necessary_fallbacks(t));
            i = i + 1;
        }
        assert(s.subrange(0, s.len() as int) =~= s);
        acc
    }

    /// The copies of this rule that engines with wider colour support read:
    /// one gated on P3, then one gated on LAB, each where the rule's colours
    /// need it. This rule itself is rewritten for the lowest fallback needed,
    /// if any, and goes after the copies.
    pub fn get_fallbacks(&mut self, t: ColorTargets) -> (r: Vec<SupportsRule>)
        ensures
            views(r@) == fallback_rules(old(self)@, keyframes_fallbacks(old(self)@.keyframes, t)),
            final(self)@ == rewritten_rule(old(self)@, keyframes_fallbacks(old(self)@.keyframes, t)),
    {
        let all = self.necessary_fallbacks(t);
        let lowest = all.lowest();
        let rest = all.difference(lowest);
        let mut res: Vec<SupportsRule> = Vec::new();
        if rest.p3 {
            let kind = ColorFallbackKind::p3_kind();
            res.push(SupportsRule { kind, rule: self.get_fallback(kind) });
        }
        if rest.lab || (!lowest.is_empty() && lowest != ColorFallbackKind::lab_kind()) {
            let kind = ColorFallbackKind::lab_kind();
            res.push(SupportsRule { kind, rule: self.get_fallback(kind) });
        }
        assert(views(res@) =~= fallback_rules(self@, all));
        if !lowest.is_empty() {
            let rewritten = self.get_fallback(lowest);
            *self = rewritten;
        }
        res
    }

    /// Merges the animation declarations of each keyframe; `targets` is the
    /// set of prefixes that the browser targets need, where known.
    pub fn minify(&mut self, targets: Option<VendorPrefix>)
        ensures
            final(self)@.name == old(self)@.name,
            final(self)@.vendor_prefix == old(self)@.vendor_prefix,
            final(self)@.keyframes.len() == old(self)@.keyframes.len(),
            forall|i: int|
                0 <= i < old(self)@.keyframes.len() ==> (#[trigger] final(self)@.keyframes[i]).selectors
                    == old(self)@.keyframes[i].selectors && final(self)@.keyframes[i].declarations
                    == spec_minify(old(self)@.keyframes[i].declarations, targets),
    {
        let mut frames: Vec<Keyframe> = Vec::new();
        let mut i: usize = 0;
        while i < self.keyframes.len()
            invariant
                0 <= i <= self.keyframes@.len(),
                frames@.len() == i,
                forall|j: int|
                    0 <= j < i ==> (#[trigger] frames@[j])@.selectors == self.keyframes@[j]@.selectors
                        && frames@[j]@.declarations == spec_minify(self.keyframes@[j]@.declarations, targets),
            decreases self.keyframes@.len() - i,
        {
            let k = &self.keyframes[i];
            let mut sels: Vec<KeyframeSelector> = Vec::new();
            let mut j: usize = 0;
            while j < k.selectors.len()
                invariant
                    0 <= j <= k.selectors@.len(),
                    sels@ == k.selectors@.subrange(0, j as int),
                decreases k.selectors@.len() - j,
            {
                sels.push(k.selectors[j]);
                j = j + 1;
                assert(sels@ =~= k.selectors@.subrange(0, j as int));
            }
            assert(k.selectors@.subrange(0, k.selectors@.len() as int) =~= k.selectors@);
            frames.push(Keyframe { selectors: sels, declarations: minify_declarations(&k.declarations, targets) });
            i = i + 1;
        }
        self.keyframes = frames;
    }
}

/// The selectors `s`, separated by commas, in minified form.
pub open spec fn selectors_css(s: Seq<KeyframeSelector>) -> Seq<char>
    decreases s.len(),
{
    if s.len() == 0 {
        Seq::empty()
    } else if s.len() == 1 {
        s[0].spec_css(true)
    } else {
        selectors_css(s.drop_last()) + seq![','] + s.last().spec_css(true)
    }
}

/// The keyframes `ks`, each with its selectors and, in braces, the text of
/// its declaration block from `blocks`.
pub open spec fn keyframes_css(ks: Seq<KeyframeModel>, blocks: Seq<Seq<char>>) -> Seq<char>
    decreases ks.len(),
{
    if ks.len() == 0 {
        Seq::empty()
    } else {
        keyframes_css(ks.drop_last(), blocks) + selectors_css(ks.last().selectors) + seq!['{']
            + blocks[ks.len() - 1] + seq!['}']
    }
}

/// One `@keyframes` block of `r` written with the prefix text `p`.
pub open spec fn rule_block_css(r: KeyframesModel, p: Seq<char>, blocks: Seq<Seq<char>>) -> Seq<char> {
    seq!['@'] + p + "keyframes "@ + ident_text(r.name) + seq!['{'] + keyframes_css(r.keyframes, blocks) + seq!['}']
}

/// The minified text of `r`: one block for each of its prefixes, in the order
/// `-webkit-`, `-moz-`, `-o-`, unprefixed.
pub open spec fn rule_css(r: KeyframesModel, blocks: Seq<Seq<char>>) -> Seq<char> {
    (if r.vendor_prefix.webkit { rule_block_css(r, "-webkit-"@, blocks) } else { Seq::empty() })
        + (if r.vendor_prefix.moz { rule_block_css(r, "-moz-"@, blocks) } else { Seq::empty() })
        + (if r.vendor_prefix.o { rule_block_css(r, "-o-"@, blocks) } else { Seq::empty() })
        + (if r.vendor_prefix.none { rule_block_css(r, ""@, blocks) } else { Seq::empty() })
}

fn push_selectors(out: &mut Vec<char>, s: &Vec<KeyframeSelector>)
    ensures
        final(out)@ == old(out)@ + selectors_css(s@),
{
    let mut i: usize = 0;
    while i < s.len()
        invariant
            0 <= i <= s@.len(),
            out@ == old(out)@ + selectors_css(s@.subrange(0, i as int)),
        decreases s@.len() - i,
    {
        let ghost sub = s@.subrange(0, i + 1);
        assert(sub.drop_last() =~= s@.subrange(0, i as int));
        assert(sub.last() == s@[i as int]);
        assert(sub[0] == s@[0]);
        if i > 0 {
            out.push(',');
        }
        let t = s[i].to_css(true);
        let cs = chars_of(t.as_str());
        push_all(out, &cs);
        assert(out@ =~= old(out)@ + selectors_css(sub));
        i = i + 1;
    }
    assert(s@.subrange(0, s@.len() as int) =~= s@);
}

fn push_rule_block(out: &mut Vec<char>, r: &KeyframesRule, p: &str, blocks: &Vec<String>)
    requires
        blocks@.len() == r.keyframes@.len(),
    ensures
        final(out)@ == old(out)@ + rule_block_css(r@, p@, blocks@.map_values(|b: String| b@)),
{
    let ghost bs = blocks@.map_values(|b: String| b@);
    let ghost ks = r@.keyframes;
    out.push('@');
    push_str(out, p);
    push_str(out, "keyframes ");
    let name = serialize_ident(r.name.as_str());
    push_all(out, &name);
    out.push('{');
    let ghost start = out@;
    let mut i: usize = 0;
    while i < r.keyframes.len()
        invariant
            0 <= i <= r.keyframes@.len(),
            blocks@.len() == r.keyframes@.len(),
            bs == blocks@.map_values(|b: String| b@),
            ks == r@.keyframes,
            out@ == start + keyframes_css(ks.subrange(0, i as int), bs),
        decreases r.keyframes@.len() - i,
    {
        let ghost sub = ks.subrange(0, i + 1);
        assert(sub.drop_last() =~= ks.subrange(0, i as int));
        assert(sub.last() == r.keyframes@[i as int]@);
        push_selectors(out, &r.keyframes[i].selectors);
        out.push('{');
        let cs = chars_of(blocks[i].as_str());
        push_all(out, &cs);
        out.push('}');
        assert(out@ =~= start + keyframes_css(sub, bs));
        i = i + 1;
    }
    assert(ks.subrange(0, ks.len() as int) =~= ks);
    out.push('}');
    assert(final(out)@ =~= old(out)@ + rule_block_css(r@, p@, bs));
}

impl KeyframesRule {
    /// The minified text of this rule: one `@keyframes` block for each of its
    /// prefixes, in the order `-webkit-`, `-moz-`, `-o-`, unprefixed. Each
    /// keyframe's declarations are written as the text at its index in
    /// `blocks`, which the declaration printer produces; `None` where
    /// `blocks` does not hold one text per keyframe.
    pub fn to_css(&self, blocks: &Vec<String>) -> (r: Option<String>)
        ensures
            r is Some <==> blocks@.len() == self.keyframes@.len(),
            r is Some ==> r.unwrap()@ == rule_css(self@, blocks@.map_values(|b: String| b@)),
    {
        if blocks.len() != self.keyframes.len() {
            return None;
        }
        let ghost bs = blocks@.map_values(|b: String| b@);
        let mut out: Vec<char> = Vec::new();
        if self.vendor_prefix.webkit {
            push_rule_block(&mut out, self, "-webkit-", blocks);
        }
        if self.vendor_prefix.moz {
            push_rule_block(&mut out, self, "-moz-", blocks);
        }
        if self.vendor_prefix.o {
            push_rule_block(&mut out, self, "-o-", blocks);
        }
        if self.vendor_prefix.none {
            push_rule_block(&mut out, self, "", blocks);
        }
        assert(out@ =~= rule_css(self@, bs));
        Some(string_of(&out))
    }
}

proof fn lemma_decls_fallbacks_concat(a: Seq<PropertyModel>, b: Seq<PropertyModel>, t: ColorTargets)
    ensures
        decls_fallbacks(a + b, t) == decls_fallbacks(a, t).spec_union(decls_fallbacks(b, t)),
    decreases b.len(),
{
    if b.len() == 0 {
        assert(a + b =~= a);
    } else {
        lemma_decls_fallbacks_concat(a, b.drop_last(), t);
        assert((a + b).drop_last() =~= a + b.drop_last());
        assert((a + b).last() == b.last());
    }
}

proof fn lemma_keyframes_fallbacks_concat(a: Seq<KeyframeModel>, b: Seq<KeyframeModel>, t: ColorTargets)
    ensures
        keyframes_fallbacks(a + b, t) == keyframes_fallbacks(a, t).spec_union(keyframes_fallbacks(b, t)),
    decreases b.len(),
{
    if b.len() == 0 {
        assert(a + b =~= a);
    } else {
        lemma_keyframes_fallbacks_concat(a, b.drop_last(), t);
        assert((a + b).drop_last() =~= a + b.drop_last());
        assert((a + b).last() == b.last());
    }
}

proof fn lemma_decls_fallbacks_members(s: Seq<PropertyModel>, t: ColorTargets)
    ensures
        decls_fallbacks(s, t).rgb == exists|i: int| 0 <= i < s.len() && (#[trigger] decl_fallbacks(s[i], t)).rgb,
        decls_fallbacks(s, t).p3 == exists|i: int| 0 <= i < s.len() && (#[trigger] decl_fallbacks(s[i], t)).p3,
        decls_fallbacks(s, t).lab == exists|i: int| 0 <= i < s.len() && (#[trigger] decl_fallbacks(s[i], t)).lab,
        decls_fallbacks(s, t).oklab == exists|i: int| 0 <= i < s.len() && (#[trigger] decl_fallbacks(s[i], t)).oklab,
    decreases s.len(),
{
    if s.len() > 0 {
        let d = s.drop_last();
        lemma_decls_fallbacks_members(d, t);
        assert forall|i: int| 0 <= i < d.len() implies #[trigger] d[i] == s[i] by {}
        let last = decl_fallbacks(s[s.len() - 1], t);
        if last.rgb { assert(decl_fallbacks(s[s.len() - 1], t).rgb); }
        if last.p3 { assert(decl_fallbacks(s[s.len() - 1], t).p3); }
        if last.lab { assert(decl_fallbacks(s[s.len() - 1], t).lab); }
        if last.oklab { assert(decl_fallbacks(s[s.len() - 1], t).oklab); }
        if decls_fallbacks(d, t).rgb { let i = choose|i: int| 0 <= i < d.len() && (#[trigger] decl_fallbacks(d[i], t)).rgb; assert(decl_fallbacks(s[i], t).rgb); }
        if decls_fallbacks(d, t).p3 { let i = choose|i: int| 0 <= i < d.len() && (#[trigger] decl_fallbacks(d[i], t)).p3; assert(decl_fallbacks(s[i], t).p3); }
        if decls_fallbacks(d, t).lab { let i = choose|i: int| 0 <= i < d.len() && (#[trigger] decl_fallbacks(d[i], t)).lab; assert(decl_fallbacks(s[i], t).lab); }
        if decls_fallbacks(d, t).oklab { let i = choose|i: int| 0 <= i < d.len() && (#[trigger] decl_fallbacks(d[i], t)).oklab; assert(decl_fallbacks(s[i], t).oklab); }
        assert forall|i: int| 0 <= i < s.len() && (#[trigger] decl_fallbacks(s[i], t)).rgb implies decls_fallbacks(s, t).rgb by {
            if i < s.len() - 1 { assert(decl_fallbacks(d[i], t).rgb); }
        }
        assert forall|i: int| 0 <= i < s.len() && (#[trigger] decl_fallbacks(s[i], t)).p3 implies decls_fallbacks(s, t).p3 by {
            if i < s.len() - 1 { assert(decl_fallbacks(d[i], t).p3); }
        }
        assert forall|i: int| 0 <= i < s.len() && (#[trigger] decl_fallbacks(s[i], t)).lab implies decls_fallbacks(s, t).lab by {
            if i < s.len() - 1 { assert(decl_fallbacks(d[i], t).lab); }
        }
        assert forall|i: int| 0 <= i < s.len() && (#[trigger] decl_fallbacks(s[i], t)).oklab implies decls_fallbacks(s, t).oklab by {
            if i < s.len() - 1 { assert(decl_fallbacks(d[i], t).oklab); }
        }
    }
}

/// Two blocks that hold the same declarations, in any order and any number of
/// times, need the same fallbacks, and so get the same gated copies in the same
/// order: which copies a rule gets depends on the set of its declarations alone.
pub proof fn lemma_fallbacks_ignore_declaration_order(s1: Seq<PropertyModel>, s2: Seq<PropertyModel>, t: ColorTargets)
    requires
        forall|i: int| 0 <= i < s1.len() ==> s2.contains(#[trigger] s1[i]),
        forall|j: int| 0 <= j < s2.len() ==> s1.contains(#[trigger] s2[j]),
    ensures
        decls_fallbacks(s1, t) == decls_fallbacks(s2, t),
        needs_p3_copy(decls_fallbacks(s1, t)) == needs_p3_copy(decls_fallbacks(s2, t)),
        needs_lab_copy(decls_fallbacks(s1, t)) == needs_lab_copy(decls_fallbacks(s2, t)),
{
    lemma_decls_fallbacks_members(s1, t);
    lemma_decls_fallbacks_members(s2, t);
    assert forall|i: int| 0 <= i < s1.len() implies exists|j: int| 0 <= j < s2.len() && s2[j] == #[trigger] s1[i] by {
        assert(s2.contains(s1[i]));
    }
    assert forall|j: int| 0 <= j < s2.len() implies exists|i: int| 0 <= i < s1.len() && s1[i] == #[trigger] s2[j] by {
        assert(s1.contains(s2[j]));
    }
    if decls_fallbacks(s1, t).rgb { let i = choose|i: int| 0 <= i < s1.len() && (#[trigger] decl_fallbacks(s1[i], t)).rgb; let j = choose|j: int| 0 <= j < s2.len() && s2[j] == s1[i]; assert(decl_fallbacks(s2[j], t).rgb); }
    if decls_fallbacks(s1, t).p3 { let i = choose|i: int| 0 <= i < s1.len() && (#[trigger] decl_fallbacks(s1[i], t)).p3; let j = choose|j: int| 0 <= j < s2.len() && s2[j] == s1[i]; assert(decl_fallbacks(s2[j], t).p3); }
    if decls_fallbacks(s1, t).lab { let i = choose|i: int| 0 <= i < s1.len() && (#[trigger] decl_fallbacks(s1[i], t)).lab; let j = choose|j: int| 0 <= j < s2.len() && s2[j] == s1[i]; assert(decl_fallbacks(s2[j], t).lab); }
    if decls_fallbacks(s1, t).oklab { let i = choose|i: int| 0 <= i < s1.len() && (#[trigger] decl_fallbacks(s1[i], t)).oklab; let j = choose|j: int| 0 <= j < s2.len() && s2[j] == s1[i]; assert(decl_fallbacks(s2[j], t).oklab); }
    if decls_fallbacks(s2, t).rgb { let j = choose|j: int| 0 <= j < s2.len() && (#[trigger] decl_fallbacks(s2[j], t)).rgb; let i = choose|i: int| 0 <= i < s1.len() && s1[i] == s2[j]; assert(decl_fallbacks(s1[i], t).rgb); }
    if decls_fallbacks(s2, t).p3 { let j = choose|j: int| 0 <= j < s2.len() && (#[trigger] decl_fallbacks(s2[j], t)).p3; let i = choose|i: int| 0 <= i < s1.len() && s1[i] == s2[j]; assert(decl_fallbacks(s1[i], t).p3); }
    if decls_fallbacks(s2, t).lab { let j = choose|j: int| 0 <= j < s2.len() && (#[trigger] decl_fallbacks(s2[j], t)).lab; let i = choose|i: int| 0 <= i < s1.len() && s1[i] == s2[j]; assert(decl_fallbacks(s1[i], t).lab); }
    if decls_fallbacks(s2, t).oklab { let j = choose|j: int| 0 <= j < s2.len() && (#[trigger] decl_fallbacks(s2[j], t)).oklab; let i = choose|i: int| 0 <= i < s1.len() && s1[i] == s2[j]; assert(decl_fallbacks(s1[i], t).oklab); }
}

/// The fallbacks that a block of declarations needs do not depend on the
/// order in which its declarations are scanned.
pub proof fn lemma_declaration_scan_order(a: Seq<PropertyModel>, b: Seq<PropertyModel>, t: ColorTargets)
    ensures
        decls_fallbacks(a + b, t) == decls_fallbacks(b + a, t),
{
    lemma_decls_fallbacks_concat(a, b, t);
    lemma_decls_fallbacks_concat(b, a, t);
}

/// The gated copies of a rule come in one fixed order, the P3 copy before the
/// LAB copy (the rule itself goes after both), and which copies there are
/// depends on the keyframes' fallbacks alone, not on the order in which the
/// keyframes are scanned.
pub proof fn lemma_fallback_order(r1: KeyframesModel, r2: KeyframesModel, a: Seq<KeyframeModel>, b: Seq<KeyframeModel>, t: ColorTargets)
    requires
        r1.keyframes == a + b,
        r2.keyframes == b + a,
    ensures
        keyframes_fallbacks(r1.keyframes, t) == keyframes_fallbacks(r2.keyframes, t),
        fallback_rules(r1, keyframes_fallbacks(r1.keyframes, t)).map_values(|s: SupportsModel| s.kind)
            == fallback_rules(r2, keyframes_fallbacks(r2.keyframes, t)).map_values(|s: SupportsModel| s.kind),
        fallback_rules(r1, keyframes_fallbacks(r1.keyframes, t)).map_values(|s: SupportsModel| s.kind) == (if needs_p3_copy(keyframes_fallbacks(r1.keyframes, t)) {
            seq![p3_only()]
        } else {
            Seq::empty()
        }) + (if needs_lab_copy(keyframes_fallbacks(r1.keyframes, t)) {
            seq![lab_only()]
        } else {
            Seq::empty()
        }),
{
    lemma_keyframes_fallbacks_concat(a, b, t);
    lemma_keyframes_fallbacks_concat(b, a, t);
    let all = keyframes_fallbacks(r1.keyframes, t);
    assert(fallback_rules(r1, all).map_values(|s: SupportsModel| s.kind) =~= fallback_rules(r2, all).map_values(
        |s: SupportsModel| s.kind,
    ));
    assert(fallback_rules(r1, all).map_values(|s: SupportsModel| s.kind) =~= (if needs_p3_copy(all) {
        seq![p3_only()]
    } else {
        Seq::empty()
    }) + (if needs_lab_copy(all) {
        seq![lab_only()]
    } else {
        Seq::empty()
    }));
}

/// The declarations of the keyframes `ks`, keyframe after keyframe.
pub open spec fn all_declarations(ks: Seq<KeyframeModel>) -> Seq<PropertyModel>
    decreases ks.len(),
{
    if ks.len() == 0 {
        Seq::empty()
    } else {
        all_declarations(ks.drop_last()) + ks.last().declarations
    }
}

proof fn lemma_keyframes_as_declarations(ks: Seq<KeyframeModel>, t: ColorTargets)
    ensures
        keyframes_fallbacks(ks, t) == decls_fallbacks(all_declarations(ks), t),
    decreases ks.len(),
{
    if ks.len() > 0 {
        lemma_keyframes_as_declarations(ks.drop_last(), t);
        lemma_decls_fallbacks_concat(all_declarations(ks.drop_last()), ks.last().declarations, t);
    }
}

/// Two rules whose keyframes hold the same declarations, in any order within
/// and across keyframes, get the same gated copies in the same order: the P3
/// copy, then the LAB copy, each where needed.
pub proof fn lemma_fallback_copies_ignore_order(r1: KeyframesModel, r2: KeyframesModel, t: ColorTargets)
    requires
        forall|i: int|
            0 <= i < all_declarations(r1.keyframes).len() ==> all_declarations(r2.keyframes).contains(
                #[trigger] all_declarations(r1.keyframes)[i],
            ),
        forall|j: int|
            0 <= j < all_declarations(r2.keyframes).len() ==> all_declarations(r1.keyframes).contains(
                #[trigger] all_declarations(r2.keyframes)[j],
            ),
    ensures
        keyframes_fallbacks(r1.keyframes, t) == keyframes_fallbacks(r2.keyframes, t),
        fallback_rules(r1, keyframes_fallbacks(r1.keyframes, t)).map_values(|s: SupportsModel| s.kind)
            == fallback_rules(r2, keyframes_fallbacks(r2.keyframes, t)).map_values(|s: SupportsModel| s.kind),
{
    lemma_keyframes_as_declarations(r1.keyframes, t);
    lemma_keyframes_as_declarations(r2.keyframes, t);
    lemma_fallbacks_ignore_declaration_order(all_declarations(r1.keyframes), all_declarations(r2.keyframes), t);
    let all = keyframes_fallbacks(r1.keyframes, t);
    assert(fallback_rules(r1, all).map_values(|s: SupportsModel| s.kind) =~= fallback_rules(r2, all).map_values(
        |s: SupportsModel| s.kind,
    ));
}

} // verus!
