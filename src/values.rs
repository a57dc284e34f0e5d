//! The values of the animation longhands, each read from one component of a
//! declaration and written back as one.
use vstd::prelude::*;
use crate::text::{
    chars_of, decimal, eq_ignore_case, ident_text, matches_ignore_case, push_decimal, push_signed_decimal,
    push_str, push_all, quoted_text, serialize_ident, serialize_quoted, signed_decimal,
};

verus! {

/// One space-separated component of a declaration's value, as the tokenizer
/// hands it over.
#[derive(Clone, Debug)]
pub enum Component {
    /// A bare identifier.
    Ident(String),
    /// A quoted string, without its quotes.
    QuotedString(String),
    /// A non-negative integer.
    Number(u32),
    /// A time in seconds.
    Seconds(i32),
    /// A time in milliseconds.
    Milliseconds(i32),
    /// A whole percentage.
    Percentage(u32),
}

/// The mathematical value of a [`Component`].
pub enum ComponentModel {
    Ident(Seq<char>),
    QuotedString(Seq<char>),
    Number(u32),
    Seconds(i32),
    Milliseconds(i32),
    Percentage(u32),
}

impl View for Component {
    type V = ComponentModel;

    open spec fn view(&self) -> ComponentModel {
        match self {
            Component::Ident(s) => ComponentModel::Ident(s@),
            Component::QuotedString(s) => ComponentModel::QuotedString(s@),
            Component::Number(n) => ComponentModel::Number(*n),
            Component::Seconds(n) => ComponentModel::Seconds(*n),
            Component::Milliseconds(n) => ComponentModel::Milliseconds(*n),
            Component::Percentage(n) => ComponentModel::Percentage(*n),
        }
    }
}

/// The CSS text of a component.
pub open spec fn component_css(c: ComponentModel) -> Seq<char> {
    match c {
        ComponentModel::Ident(s) => ident_text(s),
        ComponentModel::QuotedString(s) => quoted_text(s),
        ComponentModel::Number(n) => decimal(n as nat),
        ComponentModel::Seconds(n) => signed_decimal(n as int) + "s"@,
        ComponentModel::Milliseconds(n) => signed_decimal(n as int) + "ms"@,
        ComponentModel::Percentage(n) => decimal(n as nat) + "%"@,
    }
}

impl Component {
    /// Appends the CSS text of this component.
    pub fn to_css(&self, out: &mut Vec<char>)
        ensures
            final(out)@ == old(out)@ + component_css(self@),
    {
        match self {
            Component::Ident(s) => {
                let t = serialize_ident(s.as_str());
                push_all(out, &t);
            },
            Component::QuotedString(s) => {
                let t = serialize_quoted(s.as_str());
                push_all(out, &t);
            },
            Component::Number(n) => push_decimal(out, *n),
            Component::Seconds(n) => {
                push_signed_decimal(out, *n);
                push_str(out, "s");
                assert(final(out)@ =~= old(out)@ + component_css(self@));
            },
            Component::Milliseconds(n) => {
                push_signed_decimal(out, *n);
                push_str(out, "ms");
                assert(final(out)@ =~= old(out)@ + component_css(self@));
            },
            Component::Percentage(n) => {
                push_decimal(out, *n);
                push_str(out, "%");
                assert(final(out)@ =~= old(out)@ + component_css(self@));
            },
        }
    }
}

/// `s` is the keyword `kw`, up to the case of ASCII letters.
pub open spec fn is_keyword(s: Seq<char>, kw: &str) -> bool {
    eq_ignore_case(s, kw@)
}

/// A value that the accumulator can compare and copy by its model.
pub trait SlotValue: View + Sized {
    fn same_as(&self, other: &Self) -> (r: bool)
        ensures
            r == (self@ == other@);

    fn duplicate(&self) -> (r: Self)
        ensures
            r@ == self@;
}

/// A time, for `animation-duration` and `animation-delay`.
#[derive(Clone, Copy, Debug, PartialEq, Eq, Structural)]
pub enum Time {
    Seconds(i32),
    Milliseconds(i32),
}

impl View for Time {
    type V = Time;

    open spec fn view(&self) -> Time {
        *self
    }
}

impl SlotValue for Time {
    fn same_as(&self, other: &Self) -> (r: bool) {
        *self == *other
    }

    fn duplicate(&self) -> (r: Self) {
        *self
    }
}

impl Time {
    pub open spec fn spec_parse(c: ComponentModel) -> Option<Time> {
        match c {
            ComponentModel::Seconds(n) => Some(Time::Seconds(n)),
            ComponentModel::Milliseconds(n) => Some(Time::Milliseconds(n)),
            _ => None,
        }
    }

    pub open spec fn spec_component(self) -> ComponentModel {
        match self {
            Time::Seconds(n) => ComponentModel::Seconds(n),
            Time::Milliseconds(n) => ComponentModel::Milliseconds(n),
        }
    }

    pub open spec fn spec_is_zero(self) -> bool {
        match self {
            Time::Seconds(n) => n == 0,
            Time::Milliseconds(n) => n == 0,
        }
    }

    pub fn parse(c: &Component) -> (r: Option<Time>)
        ensures
            r == Time::spec_parse(c@),
    {
        match c {
            Component::Seconds(n) => Some(Time::Seconds(*n)),
            Component::Milliseconds(n) => Some(Time::Milliseconds(*n)),
            _ => None,
        }
    }

    pub fn to_component(&self) -> (r: Component)
        ensures
            r@ == self.spec_component(),
    {
        match self {
            Time::Seconds(n) => Component::Seconds(*n),
            Time::Milliseconds(n) => Component::Milliseconds(*n),
        }
    }

    pub fn is_zero(&self) -> (r: bool)
        ensures
            r == self.spec_is_zero(),
    {
        match self {
            Time::Seconds(n) => *n == 0,
            Time::Milliseconds(n) => *n == 0,
        }
    }
}

/// The component for the keyword `kw`.
pub fn keyword_component(kw: &str) -> (r: Component)
    ensures
        r@ == ComponentModel::Ident(kw@),
{
    Component::Ident(kw.to_owned())
}

/// An easing function, for `animation-timing-function`.
#[derive(Clone, Copy, Debug, PartialEq, Eq, Structural)]
pub enum EasingFunction {
    Linear,
    Ease,
    EaseIn,
    EaseOut,
    EaseInOut,
    StepStart,
    StepEnd,
}

/// The number of times an animation runs, for `animation-iteration-count`.
#[derive(Clone, Copy, Debug, PartialEq, Eq, Structural)]
pub enum AnimationIterationCount {
    /// The animation runs this many times.
    Number(u32),
    /// The animation repeats forever.
    Infinite,
}

/// A value for `animation-direction`.
#[derive(Clone, Copy, Debug, PartialEq, Eq, Structural)]
pub enum AnimationDirection {
    Normal,
    Reverse,
    Alternate,
    AlternateReverse,
}

/// A value for `animation-play-state`.
#[derive(Clone, Copy, Debug, PartialEq, Eq, Structural)]
pub enum AnimationPlayState {
    Running,
    Paused,
}

/// A value for `animation-fill-mode`.
#[derive(Clone, Copy, Debug, PartialEq, Eq, Structural)]
pub enum AnimationFillMode {
    /// The `none` keyword: no effect while not playing.
    NoFill,
    Forwards,
    Backwards,
    Both,
}

impl View for EasingFunction {
    type V = EasingFunction;

    open spec fn view(&self) -> EasingFunction {
        *self
    }
}

impl View for AnimationIterationCount {
    type V = AnimationIterationCount;

    open spec fn view(&self) -> AnimationIterationCount {
        *self
    }
}

impl View for AnimationDirection {
    type V = AnimationDirection;

    open spec fn view(&self) -> AnimationDirection {
        *self
    }
}

impl View for AnimationPlayState {
    type V = AnimationPlayState;

    open spec fn view(&self) -> AnimationPlayState {
        *self
    }
}

impl View for AnimationFillMode {
    type V = AnimationFillMode;

    open spec fn view(&self) -> AnimationFillMode {
        *self
    }
}

impl SlotValue for EasingFunction {
    fn same_as(&self, other: &Self) -> (r: bool) {
        *self == *other
    }

    fn duplicate(&self) -> (r: Self) {
        *self
    }
}

impl SlotValue for AnimationIterationCount {
    fn same_as(&self, other: &Self) -> (r: bool) {
        *self == *other
    }

    fn duplicate(&self) -> (r: Self) {
        *self
    }
}

impl SlotValue for AnimationDirection {
    fn same_as(&self, other: &Self) -> (r: bool) {
        *self == *other
    }

    fn duplicate(&self) -> (r: Self) {
        *self
    }
}

impl SlotValue for AnimationPlayState {
    fn same_as(&self, other: &Self) -> (r: bool) {
        *self == *other
    }

    fn duplicate(&self) -> (r: Self) {
        *self
    }
}

impl SlotValue for AnimationFillMode {
    fn same_as(&self, other: &Self) -> (r: bool) {
        *self == *other
    }

    fn duplicate(&self) -> (r: Self) {
        *self
    }
}

impl EasingFunction {
    pub open spec fn spec_from_ident(s: Seq<char>) -> Option<EasingFunction> {
        if is_keyword(s, "linear") {
            Some(EasingFunction::Linear)
        } else if is_keyword(s, "ease") {
            Some(EasingFunction::Ease)
        } else if is_keyword(s, "ease-in") {
            Some(EasingFunction::EaseIn)
        } else if is_keyword(s, "ease-out") {
            Some(EasingFunction::EaseOut)
        } else if is_keyword(s, "ease-in-out") {
            Some(EasingFunction::EaseInOut)
        } else if is_keyword(s, "step-start") {
            Some(EasingFunction::StepStart)
        } else if is_keyword(s, "step-end") {
            Some(EasingFunction::StepEnd)
        } else {
            None
        }
    }

    pub open spec fn spec_parse(c: ComponentModel) -> Option<EasingFunction> {
        match c {
            ComponentModel::Ident(s) => EasingFunction::spec_from_ident(s),
            _ => None,
        }
    }

    pub open spec fn keyword(self) -> &'static str {
        match self {
            EasingFunction::Linear => "linear",
            EasingFunction::Ease => "ease",
            EasingFunction::EaseIn => "ease-in",
            EasingFunction::EaseOut => "ease-out",
            EasingFunction::EaseInOut => "ease-in-out",
            EasingFunction::StepStart => "step-start",
            EasingFunction::StepEnd => "step-end",
        }
    }

    pub open spec fn spec_component(self) -> ComponentModel {
        ComponentModel::Ident(self.keyword()@)
    }

    pub fn parse(c: &Component) -> (r: Option<EasingFunction>)
        ensures
            r == EasingFunction::spec_parse(c@),
    {
        match c {
            Component::Ident(s) => {
                let cs = chars_of(s.as_str());
                if matches_ignore_case(&cs, "linear") {
                    Some(EasingFunction::Linear)
                } else if matches_ignore_case(&cs, "ease") {
                    Some(EasingFunction::Ease)
                } else if matches_ignore_case(&cs, "ease-in") {
                    Some(EasingFunction::EaseIn)
                } else if matches_ignore_case(&cs, "ease-out") {
                    Some(EasingFunction::EaseOut)
                } else if matches_ignore_case(&cs, "ease-in-out") {
                    Some(EasingFunction::EaseInOut)
                } else if matches_ignore_case(&cs, "step-start") {
                    Some(EasingFunction::StepStart)
                } else if matches_ignore_case(&cs, "step-end") {
                    Some(EasingFunction::StepEnd)
                } else {
                    None
                }
            },
            _ => None,
        }
    }

    pub fn to_component(&self) -> (r: Component)
        ensures
            r@ == self.spec_component(),
    {
        match self {
            EasingFunction::Linear => keyword_component("linear"),
            EasingFunction::Ease => keyword_component("ease"),
            EasingFunction::EaseIn => keyword_component("ease-in"),
            EasingFunction::EaseOut => keyword_component("ease-out"),
            EasingFunction::EaseInOut => keyword_component("ease-in-out"),
            EasingFunction::StepStart => keyword_component("step-start"),
            EasingFunction::StepEnd => keyword_component("step-end"),
        }
    }
}

impl AnimationIterationCount {
    pub open spec fn spec_parse(c: ComponentModel) -> Option<AnimationIterationCount> {
        match c {
            ComponentModel::Ident(s) => if is_keyword(s, "infinite") {
                Some(AnimationIterationCount::Infinite)
            } else {
                None
            },
            ComponentModel::Number(n) => Some(AnimationIterationCount::Number(n)),
            _ => None,
        }
    }

    pub open spec fn spec_component(self) -> ComponentModel {
        match self {
            AnimationIterationCount::Number(n) => ComponentModel::Number(n),
            AnimationIterationCount::Infinite => ComponentModel::Ident("infinite"@),
        }
    }

    pub fn parse(c: &Component) -> (r: Option<AnimationIterationCount>)
        ensures
            r == AnimationIterationCount::spec_parse(c@),
    {
        match c {
            Component::Ident(s) => {
                let cs = chars_of(s.as_str());
                if matches_ignore_case(&cs, "infinite") {
                    Some(AnimationIterationCount::Infinite)
                } else {
                    None
                }
            },
            Component::Number(n) => Some(AnimationIterationCount::Number(*n)),
            _ => None,
        }
    }

    pub fn to_component(&self) -> (r: Component)
        ensures
            r@ == self.spec_component(),
    {
        match self {
            AnimationIterationCount::Number(n) => Component::Number(*n),
            AnimationIterationCount::Infinite => keyword_component("infinite"),
        }
    }
}

impl AnimationDirection {
    pub open spec fn spec_from_ident(s: Seq<char>) -> Option<AnimationDirection> {
        if is_keyword(s, "normal") {
            Some(AnimationDirection::Normal)
        } else if is_keyword(s, "reverse") {
            Some(AnimationDirection::Reverse)
        } else if is_keyword(s, "alternate") {
            Some(AnimationDirection::Alternate)
        } else if is_keyword(s, "alternate-reverse") {
            Some(AnimationDirection::AlternateReverse)
        } else {
            None
        }
    }

    pub open spec fn spec_parse(c: ComponentModel) -> Option<AnimationDirection> {
        match c {
            ComponentModel::Ident(s) => AnimationDirection::spec_from_ident(s),
            _ => None,
        }
    }

    pub open spec fn keyword(self) -> &'static str {
        match self {
            AnimationDirection::Normal => "normal",
            AnimationDirection::Reverse => "reverse",
            AnimationDirection::Alternate => "alternate",
            AnimationDirection::AlternateReverse => "alternate-reverse",
        }
    }

    pub open spec fn spec_component(self) -> ComponentModel {
        ComponentModel::Ident(self.keyword()@)
    }

    pub fn parse(c: &Component) -> (r: Option<AnimationDirection>)
        ensures
            r == AnimationDirection::spec_parse(c@),
    {
        match c {
            Component::Ident(s) => {
                let cs = chars_of(s.as_str());
                if matches_ignore_case(&cs, "normal") {
                    Some(AnimationDirection::Normal)
                } else if matches_ignore_case(&cs, "reverse") {
                    Some(AnimationDirection::Reverse)
                } else if matches_ignore_case(&cs, "alternate") {
                    Some(AnimationDirection::Alternate)
                } else if matches_ignore_case(&cs, "alternate-reverse") {
                    Some(AnimationDirection::AlternateReverse)
                } else {
                    None
                }
            },
            _ => None,
        }
    }

    pub fn to_component(&self) -> (r: Component)
        ensures
            r@ == self.spec_component(),
    {
        match self {
            AnimationDirection::Normal => keyword_component("normal"),
            AnimationDirection::Reverse => keyword_component("reverse"),
            AnimationDirection::Alternate => keyword_component("alternate"),
            AnimationDirection::AlternateReverse => keyword_component("alternate-reverse"),
        }
    }
}

impl AnimationPlayState {
    pub open spec fn spec_from_ident(s: Seq<char>) -> Option<AnimationPlayState> {
        if is_keyword(s, "running") {
            Some(AnimationPlayState::Running)
        } else if is_keyword(s, "paused") {
            Some(AnimationPlayState::Paused)
        } else {
            None
        }
    }

    pub open spec fn spec_parse(c: ComponentModel) -> Option<AnimationPlayState> {
        match c {
            ComponentModel::Ident(s) => AnimationPlayState::spec_from_ident(s),
            _ => None,
        }
    }

    pub open spec fn keyword(self) -> &'static str {
        match self {
            AnimationPlayState::Running => "running",
            AnimationPlayState::Paused => "paused",
        }
    }

    pub open spec fn spec_component(self) -> ComponentModel {
        ComponentModel::Ident(self.keyword()@)
    }

    pub fn parse(c: &Component) -> (r: Option<AnimationPlayState>)
        ensures
            r == AnimationPlayState::spec_parse(c@),
    {
        match c {
            Component::Ident(s) => {
                let cs = chars_of(s.as_str());
                if matches_ignore_case(&cs, "running") {
                    Some(AnimationPlayState::Running)
                } else if matches_ignore_case(&cs, "paused") {
                    Some(AnimationPlayState::Paused)
                } else {
                    None
                }
            },
            _ => None,
        }
    }

    pub fn to_component(&self) -> (r: Component)
        ensures
            r@ == self.spec_component(),
    {
        match self {
            AnimationPlayState::Running => keyword_component("running"),
            AnimationPlayState::Paused => keyword_component("paused"),
        }
    }
}

impl AnimationFillMode {
    pub open spec fn spec_from_ident(s: Seq<char>) -> Option<AnimationFillMode> {
        if is_keyword(s, "none") {
            Some(AnimationFillMode::NoFill)
        } else if is_keyword(s, "forwards") {
            Some(AnimationFillMode::Forwards)
        } else if is_keyword(s, "backwards") {
            Some(AnimationFillMode::Backwards)
        } else if is_keyword(s, "both") {
            Some(AnimationFillMode::Both)
        } else {
            None
        }
    }

    pub open spec fn spec_parse(c: ComponentModel) -> Option<AnimationFillMode> {
        match c {
            ComponentModel::Ident(s) => AnimationFillMode::spec_from_ident(s),
            _ => None,
        }
    }

    pub open spec fn keyword(self) -> &'static str {
        match self {
            AnimationFillMode::NoFill => "none",
            AnimationFillMode::Forwards => "forwards",
            AnimationFillMode::Backwards => "backwards",
            AnimationFillMode::Both => "both",
        }
    }

    pub open spec fn spec_component(self) -> ComponentModel {
        ComponentModel::Ident(self.keyword()@)
    }

    pub fn parse(c: &Component) -> (r: Option<AnimationFillMode>)
        ensures
            r == AnimationFillMode::spec_parse(c@),
    {
        match c {
            Component::Ident(s) => {
                let cs = chars_of(s.as_str());
                if matches_ignore_case(&cs, "none") {
                    Some(AnimationFillMode::NoFill)
                } else if matches_ignore_case(&cs, "forwards") {
                    Some(AnimationFillMode::Forwards)
                } else if matches_ignore_case(&cs, "backwards") {
                    Some(AnimationFillMode::Backwards)
                } else if matches_ignore_case(&cs, "both") {
                    Some(AnimationFillMode::Both)
                } else {
                    None
                }
            },
            _ => None,
        }
    }

    pub fn to_component(&self) -> (r: Component)
        ensures
            r@ == self.spec_component(),
    {
        match self {
            AnimationFillMode::NoFill => keyword_component("none"),
            AnimationFillMode::Forwards => keyword_component("forwards"),
            AnimationFillMode::Backwards => keyword_component("backwards"),
            AnimationFillMode::Both => keyword_component("both"),
        }
    }
}

/// The models of the items of `s`, in order.
pub open spec fn views<T: View>(s: Seq<T>) -> Seq<T::V> {
    s.map_values(|x: T| x@)
}

/// Whether two lists hold the same values.
pub fn vec_same<T: SlotValue>(a: &Vec<T>, b: &Vec<T>) -> (r: bool)
    ensures
        r == (views(a@) == views(b@)),
{
    if a.len() != b.len() {
        assert(views(a@).len() != views(b@).len());
        return false;
    }
    let mut i: usize = 0;
    while i < a.len()
        invariant
            a@.len() == b@.len(),
            0 <= i <= a@.len(),
            forall|j: int| 0 <= j < i ==> #[trigger] views(a@)[j] == views(b@)[j],
        decreases a@.len() - i,
    {
        if !a[i].same_as(&b[i]) {
            assert(views(a@)[i as int] != views(b@)[i as int]);
            return false;
        }
        i = i + 1;
    }
    assert(views(a@) =~= views(b@));
    true
}

/// A copy of a list.
pub fn vec_duplicate<T: SlotValue>(a: &Vec<T>) -> (r: Vec<T>)
    ensures
        views(r@) == views(a@),
{
    let mut out: Vec<T> = Vec::new();
    let mut i: usize = 0;
    while i < a.len()
        invariant
            0 <= i <= a@.len(),
            views(out@) == views(a@).subrange(0, i as int),
        decreases a@.len() - i,
    {
        let ghost before = out@;
        out.push(a[i].duplicate());
        assert(views(out@) =~= views(before).push(a@[i as int]@));
        i = i + 1;
        assert(views(out@) =~= views(a@).subrange(0, i as int));
    }
    assert(views(a@).subrange(0, a@.len() as int) =~= views(a@));
    out
}

} // verus!
