//! Colour spaces, the fallback representations that older engines need, and
//! the values of declarations that this layer reads colours from.
use vstd::prelude::*;
use crate::values::{views, Component, ComponentModel};

verus! {

/// The colour space in which a colour is written.
#[derive(Clone, Copy, Debug, PartialEq, Eq, Structural)]
pub enum ColorSpace {
    Srgb,
    DisplayP3,
    Lab,
    Oklab,
}

/// The colour spaces that the target engines read natively (sRGB always).
#[derive(Clone, Copy, Debug, PartialEq, Eq, Structural)]
pub struct ColorTargets {
    pub p3: bool,
    pub lab: bool,
    pub oklab: bool,
}

/// A set of fallback representations, ranked from the most widely read:
/// sRGB, then P3, then LAB, then OKLAB.
#[derive(Clone, Copy, Debug, PartialEq, Eq, Structural)]
pub struct ColorFallbackKind {
    pub rgb: bool,
    pub p3: bool,
    pub lab: bool,
    pub oklab: bool,
}

impl ColorFallbackKind {
    pub open spec fn spec_empty() -> ColorFallbackKind {
        ColorFallbackKind { rgb: false, p3: false, lab: false, oklab: false }
    }

    pub open spec fn spec_is_empty(self) -> bool {
        !self.rgb && !self.p3 && !self.lab && !self.oklab
    }

    pub open spec fn spec_union(self, o: ColorFallbackKind) -> ColorFallbackKind {
        ColorFallbackKind {
            rgb: self.rgb || o.rgb,
            p3: self.p3 || o.p3,
            lab: self.lab || o.lab,
            oklab: self.oklab || o.oklab,
        }
    }

    pub open spec fn spec_difference(self, o: ColorFallbackKind) -> ColorFallbackKind {
        ColorFallbackKind {
            rgb: self.rgb && !o.rgb,
            p3: self.p3 && !o.p3,
            lab: self.lab && !o.lab,
            oklab: self.oklab && !o.oklab,
        }
    }

    /// The member of lowest rank, alone; empty for the empty set.
    pub open spec fn spec_lowest(self) -> ColorFallbackKind {
        if self.rgb {
            ColorFallbackKind { rgb: true, ..ColorFallbackKind::spec_empty() }
        } else if self.p3 {
            ColorFallbackKind { p3: true, ..ColorFallbackKind::spec_empty() }
        } else if self.lab {
            ColorFallbackKind { lab: true, ..ColorFallbackKind::spec_empty() }
        } else if self.oklab {
            ColorFallbackKind { oklab: true, ..ColorFallbackKind::spec_empty() }
        } else {
            ColorFallbackKind::spec_empty()
        }
    }

    pub fn empty() -> (r: ColorFallbackKind)
        ensures
            r == ColorFallbackKind::spec_empty(),
    {
        ColorFallbackKind { rgb: false, p3: false, lab: false, oklab: false }
    }

    /// The set of P3 alone.
    pub fn p3_kind() -> (r: ColorFallbackKind)
        ensures
            r == (ColorFallbackKind { p3: true, ..ColorFallbackKind::spec_empty() }),
    {
        ColorFallbackKind { rgb: false, p3: true, lab: false, oklab: false }
    }

    /// The set of LAB alone.
    pub fn lab_kind() -> (r: ColorFallbackKind)
        ensures
            r == (ColorFallbackKind { lab: true, ..ColorFallbackKind::spec_empty() }),
    {
        ColorFallbackKind { rgb: false, p3: false, lab: true, oklab: false }
    }

    pub fn is_empty(self) -> (r: bool)
        ensures
            r == self.spec_is_empty(),
    {
        !self.rgb && !self.p3 && !self.lab && !self.oklab
    }

    pub fn union(self, o: ColorFallbackKind) -> (r: ColorFallbackKind)
        ensures
            r == self.spec_union(o),
    {
        ColorFallbackKind {
            rgb: self.rgb || o.rgb,
            p3: self.p3 || o.p3,
            lab: self.lab || o.lab,
            oklab: self.oklab || o.oklab,
        }
    }

    pub fn difference(self, o: ColorFallbackKind) -> (r: ColorFallbackKind)
        ensures
            r == self.spec_difference(o),
    {
        ColorFallbackKind {
            rgb: self.rgb && !o.rgb,
            p3: self.p3 && !o.p3,
            lab: self.lab && !o.lab,
            oklab: self.oklab && !o.oklab,
        }
    }

    pub fn lowest(self) -> (r: ColorFallbackKind)
        ensures
            r == self.spec_lowest(),
    {
        if self.rgb {
            ColorFallbackKind { rgb: true, p3: false, lab: false, oklab: false }
        } else if self.p3 {
            ColorFallbackKind { rgb: false, p3: true, lab: false, oklab: false }
        } else if self.lab {
            ColorFallbackKind { rgb: false, p3: false, lab: true, oklab: false }
        } else if self.oklab {
            ColorFallbackKind { rgb: false, p3: false, lab: false, oklab: true }
        } else {
            ColorFallbackKind { rgb: false, p3: false, lab: false, oklab: false }
        }
    }

    /// The `@supports` condition that admits engines which read this
    /// representation.
    pub fn supports_condition(self) -> (r: &'static str)
        ensures
            self.rgb ==> r@ == "color: rgb(0 0 0)"@,
            !self.rgb && self.p3 ==> r@ == "color: color(display-p3 0 0 0)"@,
            !self.rgb && !self.p3 && self.lab ==> r@ == "color: lab(0% 0 0)"@,
            !self.rgb && !self.p3 && !self.lab ==> r@ == "color: oklab(0 0 0)"@,
    {
        if self.rgb {
            "color: rgb(0 0 0)"
        } else if self.p3 {
            "color: color(display-p3 0 0 0)"
        } else if self.lab {
            "color: lab(0% 0 0)"
        } else {
            "color: oklab(0 0 0)"
        }
    }
}

/// The fallbacks that a colour written in `space` needs for the targets `t`:
/// none where the targets read `space`; else sRGB and each representation
/// below `space` that the targets read.
pub open spec fn spec_color_fallbacks(space: ColorSpace, t: ColorTargets) -> ColorFallbackKind {
    match space {
        ColorSpace::Srgb => ColorFallbackKind::spec_empty(),
        ColorSpace::DisplayP3 => if t.p3 {
            ColorFallbackKind::spec_empty()
        } else {
            ColorFallbackKind { rgb: true, ..ColorFallbackKind::spec_empty() }
        },
        ColorSpace::Lab => if t.lab {
            ColorFallbackKind::spec_empty()
        } else {
            ColorFallbackKind { rgb: true, p3: t.p3, ..ColorFallbackKind::spec_empty() }
        },
        ColorSpace::Oklab => if t.oklab {
            ColorFallbackKind::spec_empty()
        } else {
            ColorFallbackKind { rgb: true, p3: t.p3, lab: t.lab, oklab: false }
        },
    }
}

/// The space of a colour written in `space` once rewritten for the lowest
/// member of `kind`: a colour above that representation comes down to it.
pub open spec fn spec_fallback_space(space: ColorSpace, kind: ColorFallbackKind) -> ColorSpace {
    let target = if kind.rgb {
        ColorSpace::Srgb
    } else if kind.p3 {
        ColorSpace::DisplayP3
    } else if kind.lab {
        ColorSpace::Lab
    } else {
        ColorSpace::Oklab
    };
    if space_rank(space) > space_rank(target) {
        target
    } else {
        space
    }
}

pub open spec fn space_rank(space: ColorSpace) -> int {
    match space {
        ColorSpace::Srgb => 0,
        ColorSpace::DisplayP3 => 1,
        ColorSpace::Lab => 2,
        ColorSpace::Oklab => 3,
    }
}

fn rank(space: ColorSpace) -> (r: u8)
    ensures
        r as int == space_rank(space),
{
    match space {
        ColorSpace::Srgb => 0,
        ColorSpace::DisplayP3 => 1,
        ColorSpace::Lab => 2,
        ColorSpace::Oklab => 3,
    }
}

impl ColorSpace {
    /// The fallbacks that a colour in this space needs for the targets `t`.
    pub fn fallbacks(self, t: ColorTargets) -> (r: ColorFallbackKind)
        ensures
            r == spec_color_fallbacks(self, t),
    {
        match self {
            ColorSpace::Srgb => ColorFallbackKind::empty(),
            ColorSpace::DisplayP3 => if t.p3 {
                ColorFallbackKind::empty()
            } else {
                ColorFallbackKind { rgb: true, p3: false, lab: false, oklab: false }
            },
            ColorSpace::Lab => if t.lab {
                ColorFallbackKind::empty()
            } else {
                ColorFallbackKind { rgb: true, p3: t.p3, lab: false, oklab: false }
            },
            ColorSpace::Oklab => if t.oklab {
                ColorFallbackKind::empty()
            } else {
                ColorFallbackKind { rgb: true, p3: t.p3, lab: t.lab, oklab: false }
            },
        }
    }

    /// This space once rewritten for the representation `kind`.
    pub fn fallback(self, kind: ColorFallbackKind) -> (r: ColorSpace)
        ensures
            r == spec_fallback_space(self, kind),
    {
        let target = if kind.rgb {
            ColorSpace::Srgb
        } else if kind.p3 {
            ColorSpace::DisplayP3
        } else if kind.lab {
            ColorSpace::Lab
        } else {
            ColorSpace::Oklab
        };
        if rank(self) > rank(target) {
            target
        } else {
            self
        }
    }
}

/// One item of a declaration's raw value.
#[derive(Debug)]
pub enum TokenOrValue {
    /// Any component but a colour.
    Token(Component),
    /// A colour, which this layer knows by its space.
    Color(ColorSpace),
}

pub enum TokenModel {
    Token(ComponentModel),
    Color(ColorSpace),
}

impl View for TokenOrValue {
    type V = TokenModel;

    open spec fn view(&self) -> TokenModel {
        match self {
            TokenOrValue::Token(c) => TokenModel::Token(c@),
            TokenOrValue::Color(s) => TokenModel::Color(*s),
        }
    }
}

/// The raw value of a declaration that was kept unparsed.
#[derive(Debug)]
pub struct TokenList {
    pub tokens: Vec<TokenOrValue>,
}

impl View for TokenList {
    type V = Seq<TokenModel>;

    open spec fn view(&self) -> Seq<TokenModel> {
        views(self.tokens@)
    }
}

/// The union of the fallbacks that the colours of `s` need.
pub open spec fn spec_list_fallbacks(s: Seq<TokenModel>, t: ColorTargets) -> ColorFallbackKind
    decreases s.len(),
{
    if s.len() == 0 {
        ColorFallbackKind::spec_empty()
    } else {
        let rest = spec_list_fallbacks(s.drop_last(), t);
        match s.last() {
            TokenModel::Color(c) => rest.spec_union(spec_color_fallbacks(c, t)),
            _ => rest,
        }
    }
}

/// `s` with each colour rewritten for `kind`.
pub open spec fn spec_list_fallback(s: Seq<TokenModel>, kind: ColorFallbackKind) -> Seq<TokenModel> {
    s.map_values(|x: TokenModel| match x {
        TokenModel::Color(c) => TokenModel::Color(spec_fallback_space(c, kind)),
        _ => x,
    })
}

fn duplicate_component(c: &Component) -> (r: Component)
    ensures
        r@ == c@,
{
    match c {
        Component::Ident(s) => Component::Ident(s.clone()),
        Component::QuotedString(s) => Component::QuotedString(s.clone()),
        Component::Number(n) => Component::Number(*n),
        Component::Seconds(n) => Component::Seconds(*n),
        Component::Milliseconds(n) => Component::Milliseconds(*n),
        Component::Percentage(n) => Component::Percentage(*n),
    }
}

impl TokenList {
    /// The fallbacks that the colours of this value need for the targets `t`.
    pub fn get_necessary_fallbacks(&self, t: ColorTargets) -> (r: ColorFallbackKind)
        ensures
            r == spec_list_fallbacks(self@, t),
    {
        let mut acc = ColorFallbackKind::empty();
        let mut i: usize = 0;
        while i < self.tokens.len()
            invariant
                0 <= i <= self.tokens@.len(),
                acc == spec_list_fallbacks(self@.subrange(0, i as int), t),
            decreases self.tokens@.len() - i,
        {
            assert(self@.subrange(0, i + 1).drop_last() =~= self@.subrange(0, i as int));
            match &self.tokens[i] {
                TokenOrValue::Color(c) => {
                    acc = acc.union(c.fallbacks(t));
                },
                _ => {},
            }
            i = i + 1;
        }
        assert(self@.subrange(0, self@.len() as int) =~= self@);
        acc
    }

    /// A copy of this value with each colour rewritten for `kind`.
    pub fn get_fallback(&self, kind: ColorFallbackKind) -> (r: TokenList)
        ensures
            r@ == spec_list_fallback(self@, kind),
    {
        let mut out: Vec<TokenOrValue> = Vec::new();
        let mut i: usize = 0;
        while i < self.tokens.len()
            invariant
                0 <= i <= self.tokens@.len(),
                views(out@) == spec_list_fallback(self@.subrange(0, i as int), kind),
            decreases self.tokens@.len() - i,
        {
            let ghost old_out = out@;
            let item = match &self.tokens[i] {
                TokenOrValue::Color(c) => TokenOrValue::Color(c.fallback(kind)),
                TokenOrValue::Token(c) => TokenOrValue::Token(duplicate_component(c)),
            };
            assert(item@ == spec_list_fallback(self@, kind)[i as int]);
            assert(spec_list_fallback(self@.subrange(0, i + 1), kind) =~= spec_list_fallback(
                self@.subrange(0, i as int),
                kind,
            ).push(item@));
            out.push(item);
            assert(views(out@) =~= views(old_out).push(item@)) by {
                assert(views(old_out) == spec_list_fallback(self@.subrange(0, i as int), kind));
            }
            i = i + 1;
            assert(views(out@) =~= spec_list_fallback(self@.subrange(0, i as int), kind));
        }
        assert(self@.subrange(0, self@.len() as int) =~= self@);
        TokenList { tokens: out }
    }

    /// A copy of this value.
    pub fn duplicate(&self) -> (r: TokenList)
        ensures
            r@ == self@,
    {
        let mut out: Vec<TokenOrValue> = Vec::new();
        let mut i: usize = 0;
        while i < self.tokens.len()
            invariant
                0 <= i <= self.tokens@.len(),
                views(out@) == self@.subrange(0, i as int),
            decreases self.tokens@.len() - i,
        {
            let ghost old_out = out@;
            let item = match &self.tokens[i] {
                TokenOrValue::Color(c) => TokenOrValue::Color(*c),
                TokenOrValue::Token(c) => TokenOrValue::Token(duplicate_component(c)),
            };
            assert(item@ == self@[i as int]);
            out.push(item);
            assert(views(out@) =~= views(old_out).push(item@));
            i = i + 1;
            assert(views(out@) =~= self@.subrange(0, i as int));
        }
        assert(self@.subrange(0, self@.len() as int) =~= self@);
        TokenList { tokens: out }
    }
}

} // verus!
