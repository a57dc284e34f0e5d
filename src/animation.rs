//! The `animation` shorthand: its name value, its parser and its printer.
use vstd::prelude::*;
use crate::text::{chars_of, push_all, string_of};
use crate::values::{
    component_css, is_keyword, keyword_component, views, AnimationDirection, AnimationFillMode,
    AnimationIterationCount, AnimationPlayState, Component, ComponentModel, EasingFunction,
    SlotValue, Time,
};

verus! {

/// A value for `animation-name`.
#[derive(Clone, Debug)]
pub enum AnimationName {
    /// The `none` keyword.
    NoAnimation,
    /// A name written as an identifier.
    Ident(String),
    /// A name written as a quoted string.
    Custom(String),
}

/// The mathematical value of an [`AnimationName`].
pub enum NameModel {
    NoAnimation,
    Ident(Seq<char>),
    Custom(Seq<char>),
}

impl View for AnimationName {
    type V = NameModel;

    open spec fn view(&self) -> NameModel {
        match self {
            AnimationName::NoAnimation => NameModel::NoAnimation,
            AnimationName::Ident(s) => NameModel::Ident(s@),
            AnimationName::Custom(s) => NameModel::Custom(s@),
        }
    }
}

impl SlotValue for AnimationName {
    fn same_as(&self, other: &Self) -> (r: bool) {
        match self {
            AnimationName::NoAnimation => match other {
                AnimationName::NoAnimation => true,
                _ => false,
            },
            AnimationName::Ident(a) => match other {
                AnimationName::Ident(b) => *a == *b,
                _ => false,
            },
            AnimationName::Custom(a) => match other {
                AnimationName::Custom(b) => *a == *b,
                _ => false,
            },
        }
    }

    fn duplicate(&self) -> (r: Self) {
        match self {
            AnimationName::NoAnimation => AnimationName::NoAnimation,
            AnimationName::Ident(s) => AnimationName::Ident(s.clone()),
            AnimationName::Custom(s) => AnimationName::Custom(s.clone()),
        }
    }
}

/// `none` or a CSS-wide keyword: a name that must be quoted.
pub open spec fn is_reserved_name(s: Seq<char>) -> bool {
    is_keyword(s, "none") || is_keyword(s, "initial") || is_keyword(s, "inherit") || is_keyword(
        s,
        "unset",
    ) || is_keyword(s, "default") || is_keyword(s, "revert") || is_keyword(s, "revert-layer")
}

fn reserved_name(s: &String) -> (r: bool)
    ensures
        r == is_reserved_name(s@),
{
    let cs = chars_of(s.as_str());
    crate::text::matches_ignore_case(&cs, "none") || crate::text::matches_ignore_case(&cs, "initial")
        || crate::text::matches_ignore_case(&cs, "inherit") || crate::text::matches_ignore_case(
        &cs,
        "unset",
    ) || crate::text::matches_ignore_case(&cs, "default") || crate::text::matches_ignore_case(
        &cs,
        "revert",
    ) || crate::text::matches_ignore_case(&cs, "revert-layer")
}

impl NameModel {
    /// The text of a name; `none` for the `none` keyword.
    pub open spec fn text(self) -> Seq<char> {
        match self {
            NameModel::NoAnimation => "none"@,
            NameModel::Ident(s) => s,
            NameModel::Custom(s) => s,
        }
    }
}

impl AnimationName {
    pub open spec fn spec_parse(c: ComponentModel) -> Option<NameModel> {
        match c {
            ComponentModel::Ident(s) => if is_keyword(s, "none") {
                Some(NameModel::NoAnimation)
            } else if is_reserved_name(s) {
                None
            } else {
                Some(NameModel::Ident(s))
            },
            ComponentModel::QuotedString(s) => Some(NameModel::Custom(s)),
            _ => None,
        }
    }

    pub open spec fn spec_component(n: NameModel) -> ComponentModel {
        match n {
            NameModel::NoAnimation => ComponentModel::Ident("none"@),
            NameModel::Ident(s) => ComponentModel::Ident(s),
            NameModel::Custom(s) => if is_reserved_name(s) {
                ComponentModel::QuotedString(s)
            } else {
                ComponentModel::Ident(s)
            },
        }
    }

    /// Reads a name: `none`, an identifier that is not a CSS-wide keyword, or a
    /// quoted string.
    pub fn parse(c: &Component) -> (r: Option<AnimationName>)
        ensures
            r is Some <==> AnimationName::spec_parse(c@) is Some,
            r is Some ==> r.unwrap()@ == AnimationName::spec_parse(c@).unwrap(),
    {
        match c {
            Component::Ident(s) => {
                let cs = chars_of(s.as_str());
                if crate::text::matches_ignore_case(&cs, "none") {
                    Some(AnimationName::NoAnimation)
                } else if reserved_name(s) {
                    None
                } else {
                    Some(AnimationName::Ident(s.clone()))
                }
            },
            Component::QuotedString(s) => Some(AnimationName::Custom(s.clone())),
            _ => None,
        }
    }

    /// The component that writes this name: a name that equals `none` or a
    /// CSS-wide keyword keeps its quotes.
    pub fn to_component(&self) -> (r: Component)
        ensures
            r@ == AnimationName::spec_component(self@),
    {
        match self {
            AnimationName::NoAnimation => keyword_component("none"),
            AnimationName::Ident(s) => Component::Ident(s.clone()),
            AnimationName::Custom(s) => if reserved_name(s) {
                Component::QuotedString(s.clone())
            } else {
                Component::Ident(s.clone())
            },
        }
    }
}

/// A value of the `animation` shorthand: one value for each of its eight longhands.
#[derive(Clone, Debug)]
pub struct Animation {
    pub name: AnimationName,
    pub duration: Time,
    pub timing_function: EasingFunction,
    pub iteration_count: AnimationIterationCount,
    pub direction: AnimationDirection,
    pub play_state: AnimationPlayState,
    pub delay: Time,
    pub fill_mode: AnimationFillMode,
}

impl SlotValue for Animation {
    fn same_as(&self, other: &Self) -> (r: bool) {
        self.name.same_as(&other.name) && self.duration == other.duration && self.timing_function
            == other.timing_function && self.iteration_count == other.iteration_count && self.direction
            == other.direction && self.play_state == other.play_state && self.delay == other.delay
            && self.fill_mode == other.fill_mode
    }

    fn duplicate(&self) -> (r: Self) {
        Animation {
            name: self.name.duplicate(),
            duration: self.duration,
            timing_function: self.timing_function,
            iteration_count: self.iteration_count,
            direction: self.direction,
            play_state: self.play_state,
            delay: self.delay,
            fill_mode: self.fill_mode,
        }
    }
}

/// The mathematical value of an [`Animation`].
pub struct AnimationModel {
    pub name: NameModel,
    pub duration: Time,
    pub timing_function: EasingFunction,
    pub iteration_count: AnimationIterationCount,
    pub direction: AnimationDirection,
    pub play_state: AnimationPlayState,
    pub delay: Time,
    pub fill_mode: AnimationFillMode,
}

impl View for Animation {
    type V = AnimationModel;

    open spec fn view(&self) -> AnimationModel {
        AnimationModel {
            name: self.name@,
            duration: self.duration,
            timing_function: self.timing_function,
            iteration_count: self.iteration_count,
            direction: self.direction,
            play_state: self.play_state,
            delay: self.delay,
            fill_mode: self.fill_mode,
        }
    }
}

/// The slots of a shorthand that a parse has filled so far.
pub struct SlotsModel {
    pub name: Option<NameModel>,
    pub duration: Option<Time>,
    pub timing_function: Option<EasingFunction>,
    pub iteration_count: Option<AnimationIterationCount>,
    pub direction: Option<AnimationDirection>,
    pub play_state: Option<AnimationPlayState>,
    pub delay: Option<Time>,
    pub fill_mode: Option<AnimationFillMode>,
}

/// No slot filled.
pub open spec fn empty_slots() -> SlotsModel {
    SlotsModel {
        name: None,
        duration: None,
        timing_function: None,
        iteration_count: None,
        direction: None,
        play_state: None,
        delay: None,
        fill_mode: None,
    }
}

/// Gives one component to the first slot, in the order duration, timing
/// function, delay, iteration count, direction, fill mode, play state, name,
/// that is still empty and whose grammar accepts it; `None` where no such slot
/// exists. Names come last, as they accept almost any identifier.
pub open spec fn parse_step(st: SlotsModel, c: ComponentModel) -> Option<SlotsModel> {
    if st.duration is None && Time::spec_parse(c) is Some {
        Some(SlotsModel { duration: Time::spec_parse(c), ..st })
    } else if st.timing_function is None && EasingFunction::spec_parse(c) is Some {
        Some(SlotsModel { timing_function: EasingFunction::spec_parse(c), ..st })
    } else if st.delay is None && Time::spec_parse(c) is Some {
        Some(SlotsModel { delay: Time::spec_parse(c), ..st })
    } else if st.iteration_count is None && AnimationIterationCount::spec_parse(c) is Some {
        Some(SlotsModel { iteration_count: AnimationIterationCount::spec_parse(c), ..st })
    } else if st.direction is None && AnimationDirection::spec_parse(c) is Some {
        Some(SlotsModel { direction: AnimationDirection::spec_parse(c), ..st })
    } else if st.fill_mode is None && AnimationFillMode::spec_parse(c) is Some {
        Some(SlotsModel { fill_mode: AnimationFillMode::spec_parse(c), ..st })
    } else if st.play_state is None && AnimationPlayState::spec_parse(c) is Some {
        Some(SlotsModel { play_state: AnimationPlayState::spec_parse(c), ..st })
    } else if st.name is None && AnimationName::spec_parse(c) is Some {
        Some(SlotsModel { name: AnimationName::spec_parse(c), ..st })
    } else {
        None
    }
}

/// The default of each slot that the input left empty.
pub open spec fn with_defaults(st: SlotsModel) -> AnimationModel {
    AnimationModel {
        name: if st.name is Some { st.name.unwrap() } else { NameModel::NoAnimation },
        duration: if st.duration is Some { st.duration.unwrap() } else { Time::Seconds(0) },
        timing_function: if st.timing_function is Some { st.timing_function.unwrap() } else { EasingFunction::Ease },
        iteration_count: if st.iteration_count is Some { st.iteration_count.unwrap() } else { AnimationIterationCount::Number(1) },
        direction: if st.direction is Some { st.direction.unwrap() } else { AnimationDirection::Normal },
        play_state: if st.play_state is Some { st.play_state.unwrap() } else { AnimationPlayState::Running },
        delay: if st.delay is Some { st.delay.unwrap() } else { Time::Seconds(0) },
        fill_mode: if st.fill_mode is Some { st.fill_mode.unwrap() } else { AnimationFillMode::NoFill },
    }
}

/// Parses the components `s`, which start at position `pos` of the input, from
/// the slots `st`: the value, or the position of the first component that no
/// empty slot accepts.
pub open spec fn parse_from(st: SlotsModel, s: Seq<ComponentModel>, pos: nat) -> Result<AnimationModel, nat>
    decreases s.len(),
{
    if s.len() == 0 {
        Ok(with_defaults(st))
    } else {
        match parse_step(st, s[0]) {
            Some(next) => parse_from(next, s.drop_first(), pos + 1),
            None => Err(pos),
        }
    }
}

/// The shorthand value that the components `s` spell.
pub open spec fn spec_parse_animation(s: Seq<ComponentModel>) -> Result<AnimationModel, nat> {
    parse_from(empty_slots(), s, 0)
}

/// A component that the shorthand's grammar does not accept.
#[derive(Clone, Copy, Debug, PartialEq, Eq, Structural)]
pub enum ParseError {
    /// No empty slot accepts the component at this position.
    UnexpectedToken(usize),
}

struct Slots {
    name: Option<AnimationName>,
    duration: Option<Time>,
    timing_function: Option<EasingFunction>,
    iteration_count: Option<AnimationIterationCount>,
    direction: Option<AnimationDirection>,
    play_state: Option<AnimationPlayState>,
    delay: Option<Time>,
    fill_mode: Option<AnimationFillMode>,
}

impl View for Slots {
    type V = SlotsModel;

    closed spec fn view(&self) -> SlotsModel {
        SlotsModel {
            name: match self.name {
                Some(n) => Some(n@),
                None => None,
            },
            duration: self.duration,
            timing_function: self.timing_function,
            iteration_count: self.iteration_count,
            direction: self.direction,
            play_state: self.play_state,
            delay: self.delay,
            fill_mode: self.fill_mode,
        }
    }
}

impl Slots {
    fn step(&mut self, c: &Component) -> (r: bool)
        ensures
            r == (parse_step(old(self)@, c@) is Some),
            r ==> final(self)@ == parse_step(old(self)@, c@).unwrap(),
    {
        if self.duration.is_none() {
            if let Some(v) = Time::parse(c) {
                self.duration = Some(v);
                return true;
            }
        }
        if self.timing_function.is_none() {
            if let Some(v) = EasingFunction::parse(c) {
                self.timing_function = Some(v);
                return true;
            }
        }
        if self.delay.is_none() {
            if let Some(v) = Time::parse(c) {
                self.delay = Some(v);
                return true;
            }
        }
        if self.iteration_count.is_none() {
            if let Some(v) = AnimationIterationCount::parse(c) {
                self.iteration_count = Some(v);
                return true;
            }
        }
        if self.direction.is_none() {
            if let Some(v) = AnimationDirection::parse(c) {
                self.direction = Some(v);
                return true;
            }
        }
        if self.fill_mode.is_none() {
            if let Some(v) = AnimationFillMode::parse(c) {
                self.fill_mode = Some(v);
                return true;
            }
        }
        if self.play_state.is_none() {
            if let Some(v) = AnimationPlayState::parse(c) {
                self.play_state = Some(v);
                return true;
            }
        }
        if self.name.is_none() {
            if let Some(v) = AnimationName::parse(c) {
                self.name = Some(v);
                return true;
            }
        }
        false
    }

    fn finish(self) -> (r: Animation)
        ensures
            r@ == with_defaults(self@),
    {
        Animation {
            name: match self.name {
                Some(v) => v,
                None => AnimationName::NoAnimation,
            },
            duration: match self.duration {
                Some(v) => v,
                None => Time::Seconds(0),
            },
            timing_function: match self.timing_function {
                Some(v) => v,
                None => EasingFunction::Ease,
            },
            iteration_count: match self.iteration_count {
                Some(v) => v,
                None => AnimationIterationCount::Number(1),
            },
            direction: match self.direction {
                Some(v) => v,
                None => AnimationDirection::Normal,
            },
            play_state: match self.play_state {
                Some(v) => v,
                None => AnimationPlayState::Running,
            },
            delay: match self.delay {
                Some(v) => v,
                None => Time::Seconds(0),
            },
            fill_mode: match self.fill_mode {
                Some(v) => v,
                None => AnimationFillMode::NoFill,
            },
        }
    }
}

impl Animation {
    /// Parses the space-separated components of one `animation` value, in any
    /// order; each longhand that the value leaves out takes its default.
    pub fn parse(input: &Vec<Component>) -> (r: Result<Animation, ParseError>)
        ensures
            match spec_parse_animation(views(input@)) {
                Ok(m) => r is Ok && r.unwrap()@ == m,
                Err(pos) => r == Err::<Animation, ParseError>(ParseError::UnexpectedToken(pos as usize)),
            },
    {
        let ghost s = views(input@);
        let mut slots = Slots {
            name: None,
            duration: None,
            timing_function: None,
            iteration_count: None,
            direction: None,
            play_state: None,
            delay: None,
            fill_mode: None,
        };
        let mut i: usize = 0;
        assert(s =~= s.subrange(0, s.len() as int));
        assert(slots@ == empty_slots());
        while i < input.len()
            invariant
                0 <= i <= input@.len(),
                s == views(input@),
                parse_from(slots@, s.subrange(i as int, s.len() as int), i as nat)
                    == spec_parse_animation(s),
            decreases input@.len() - i,
        {
            assert(s.subrange(i as int, s.len() as int).drop_first() =~= s.subrange(
                i + 1,
                s.len() as int,
            ));
            if !slots.step(&input[i]) {
                return Err(ParseError::UnexpectedToken(i));
            }
            i = i + 1;
        }
        Ok(slots.finish())
    }
}

/// `[c]` where `b` holds, else nothing.
pub open spec fn opt(b: bool, c: ComponentModel) -> Seq<ComponentModel> {
    if b {
        seq![c]
    } else {
        Seq::empty()
    }
}

/// The bare text `t` would be read back as a value of the slot whose grammar is `p`.
pub open spec fn collides<T>(p: spec_fn(ComponentModel) -> Option<T>, t: Seq<char>) -> bool {
    p(ComponentModel::Ident(t)) is Some
}

/// The components that write `a`: the name first; then, in the order
/// duration, timing function, delay, iteration count, direction, fill mode,
/// play state, each slot that is not at its default, or whose grammar would
/// read the name's text as one of its values. The duration is written where the
/// delay is, as the first time is read as the duration. A `none` name follows
/// the same rule; as `none` is also a fill mode, the fill mode is then always
/// written.
pub open spec fn spec_print(a: AnimationModel) -> Seq<ComponentModel> {
    let t = a.name.text();
    {
        seq![AnimationName::spec_component(a.name)]
            + opt(!a.duration.spec_is_zero() || !a.delay.spec_is_zero(), a.duration.spec_component())
            + opt(a.timing_function != EasingFunction::Ease || collides(|c| EasingFunction::spec_parse(c), t),
                  a.timing_function.spec_component())
            + opt(!a.delay.spec_is_zero(), a.delay.spec_component())
            + opt(a.iteration_count != AnimationIterationCount::Number(1)
                    || collides(|c| AnimationIterationCount::spec_parse(c), t),
                  a.iteration_count.spec_component())
            + opt(a.direction != AnimationDirection::Normal || collides(|c| AnimationDirection::spec_parse(c), t),
                  a.direction.spec_component())
            + opt(a.fill_mode != AnimationFillMode::NoFill || collides(|c| AnimationFillMode::spec_parse(c), t),
                  a.fill_mode.spec_component())
            + opt(a.play_state != AnimationPlayState::Running || collides(|c| AnimationPlayState::spec_parse(c), t),
                  a.play_state.spec_component())
    }
}

/// The CSS text of the components `s`, separated by single spaces.
pub open spec fn join_css(s: Seq<ComponentModel>) -> Seq<char>
    decreases s.len(),
{
    if s.len() == 0 {
        Seq::empty()
    } else if s.len() == 1 {
        component_css(s[0])
    } else {
        join_css(s.drop_last()) + seq![' '] + component_css(s.last())
    }
}

/// Appends `c` where `b` holds.
fn push_if(out: &mut Vec<Component>, b: bool, c: Component)
    ensures
        views(final(out)@) == views(old(out)@) + opt(b, c@),
{
    if b {
        out.push(c);
    }
    assert(views(final(out)@) =~= views(old(out)@) + opt(b, c@));
}

impl Animation {
    /// The components that write this value, shortest first: see [`spec_print`].
    pub fn to_components(&self) -> (r: Vec<Component>)
        ensures
            views(r@) == spec_print(self@),
    {
        let mut out: Vec<Component> = Vec::new();
        out.push(self.name.to_component());
        let ghost a = self@;
        assert(views(out@) =~= seq![AnimationName::spec_component(a.name)]);
        let probe = match &self.name {
            AnimationName::NoAnimation => keyword_component("none"),
            AnimationName::Ident(t) | AnimationName::Custom(t) => Component::Ident(t.clone()),
        };
        push_if(
            &mut out,
            !self.duration.is_zero() || !self.delay.is_zero(),
            self.duration.to_component(),
        );
        push_if(
            &mut out,
            self.timing_function != EasingFunction::Ease || EasingFunction::parse(&probe).is_some(),
            self.timing_function.to_component(),
        );
        push_if(&mut out, !self.delay.is_zero(), self.delay.to_component());
        push_if(
            &mut out,
            self.iteration_count != AnimationIterationCount::Number(1)
                || AnimationIterationCount::parse(&probe).is_some(),
            self.iteration_count.to_component(),
        );
        push_if(
            &mut out,
            self.direction != AnimationDirection::Normal || AnimationDirection::parse(&probe).is_some(),
            self.direction.to_component(),
        );
        push_if(
            &mut out,
            self.fill_mode != AnimationFillMode::NoFill || AnimationFillMode::parse(&probe).is_some(),
            self.fill_mode.to_component(),
        );
        push_if(
            &mut out,
            self.play_state != AnimationPlayState::Running || AnimationPlayState::parse(&probe).is_some(),
            self.play_state.to_component(),
        );
        out
    }

    /// The CSS text of this value: its components, separated by single spaces.
    pub fn to_css(&self) -> (r: String)
        ensures
            r@ == join_css(spec_print(self@)),
    {
        let comps = self.to_components();
        let mut out: Vec<char> = Vec::new();
        let mut i: usize = 0;
        while i < comps.len()
            invariant
                0 <= i <= comps@.len(),
                views(comps@) == spec_print(self@),
                out@ == join_css(views(comps@).subrange(0, i as int)),
            decreases comps@.len() - i,
        {
            let ghost before = views(comps@).subrange(0, i as int);
            let ghost after = views(comps@).subrange(0, i + 1);
            assert(after.drop_last() =~= before);
            assert(after.len() == i + 1);
            assert(after.last() == comps@[i as int]@);
            assert(after[0] == views(comps@)[0]);
            if i > 0 {
                out.push(' ');
            }
            comps[i].to_css(&mut out);
            assert(out@ =~= join_css(after));
            i = i + 1;
        }
        assert(views(comps@).subrange(0, comps@.len() as int) =~= views(comps@));
        string_of(&out)
    }
}

proof fn lemma_easing_keyword(x: EasingFunction)
    ensures
        EasingFunction::spec_from_ident(x.keyword()@) == Some(x),
{
    reveal_strlit("linear");
    reveal_strlit("ease");
    reveal_strlit("ease-in");
    reveal_strlit("ease-out");
    reveal_strlit("ease-in-out");
    reveal_strlit("step-start");
    reveal_strlit("step-end");
    reveal_strlit("normal");
    reveal_strlit("reverse");
    reveal_strlit("alternate");
    reveal_strlit("alternate-reverse");
    reveal_strlit("none");
    reveal_strlit("forwards");
    reveal_strlit("backwards");
    reveal_strlit("both");
    reveal_strlit("running");
    reveal_strlit("paused");
    reveal_strlit("infinite");
    match x {
        EasingFunction::Linear => {
        },
        EasingFunction::Ease => {
            assert(!is_keyword("ease"@, "linear"));
        },
        EasingFunction::EaseIn => {
            assert(!is_keyword("ease-in"@, "linear"));
            assert(!is_keyword("ease-in"@, "ease"));
        },
        EasingFunction::EaseOut => {
            assert(!is_keyword("ease-out"@, "linear"));
            assert(!is_keyword("ease-out"@, "ease"));
            assert(!is_keyword("ease-out"@, "ease-in"));
        },
        EasingFunction::EaseInOut => {
            assert(!is_keyword("ease-in-out"@, "linear"));
            assert(!is_keyword("ease-in-out"@, "ease"));
            assert(!is_keyword("ease-in-out"@, "ease-in"));
            assert(!is_keyword("ease-in-out"@, "ease-out"));
        },
        EasingFunction::StepStart => {
            assert(!is_keyword("step-start"@, "linear"));
            assert(!is_keyword("step-start"@, "ease"));
            assert(!is_keyword("step-start"@, "ease-in"));
            assert(!is_keyword("step-start"@, "ease-out"));
            assert(!is_keyword("step-start"@, "ease-in-out"));
        },
        EasingFunction::StepEnd => {
            assert(!is_keyword("step-end"@, "linear"));
            assert(!is_keyword("step-end"@, "ease"));
            assert(!is_keyword("step-end"@, "ease-in"));
            assert("step-end"@[0] == 's' && "ease-out"@[0] == 'e');
            assert(!is_keyword("step-end"@, "ease-out"));
            assert(!is_keyword("step-end"@, "ease-in-out"));
            assert(!is_keyword("step-end"@, "step-start"));
        },
    }
}

proof fn lemma_infinite_keyword()
    ensures
        EasingFunction::spec_from_ident("infinite"@) is None,
        is_keyword("infinite"@, "infinite"),
{
    reveal_strlit("linear");
    reveal_strlit("ease");
    reveal_strlit("ease-in");
    reveal_strlit("ease-out");
    reveal_strlit("ease-in-out");
    reveal_strlit("step-start");
    reveal_strlit("step-end");
    reveal_strlit("normal");
    reveal_strlit("reverse");
    reveal_strlit("alternate");
    reveal_strlit("alternate-reverse");
    reveal_strlit("none");
    reveal_strlit("forwards");
    reveal_strlit("backwards");
    reveal_strlit("both");
    reveal_strlit("running");
    reveal_strlit("paused");
    reveal_strlit("infinite");
    assert(!is_keyword("infinite"@, "linear"));
    assert(!is_keyword("infinite"@, "ease"));
    assert(!is_keyword("infinite"@, "ease-in"));
    assert("infinite"@[0] == 'i' && "ease-out"@[0] == 'e');
    assert(!is_keyword("infinite"@, "ease-out"));
    assert(!is_keyword("infinite"@, "ease-in-out"));
    assert(!is_keyword("infinite"@, "step-start"));
    assert("infinite"@[0] == 'i' && "step-end"@[0] == 's');
    assert(!is_keyword("infinite"@, "step-end"));
}

proof fn lemma_direction_keyword(x: AnimationDirection)
    ensures
        EasingFunction::spec_from_ident(x.keyword()@) is None,
        !is_keyword(x.keyword()@, "infinite"),
        AnimationDirection::spec_from_ident(x.keyword()@) == Some(x),
{
    reveal_strlit("linear");
    reveal_strlit("ease");
    reveal_strlit("ease-in");
    reveal_strlit("ease-out");
    reveal_strlit("ease-in-out");
    reveal_strlit("step-start");
    reveal_strlit("step-end");
    reveal_strlit("normal");
    reveal_strlit("reverse");
    reveal_strlit("alternate");
    reveal_strlit("alternate-reverse");
    reveal_strlit("none");
    reveal_strlit("forwards");
    reveal_strlit("backwards");
    reveal_strlit("both");
    reveal_strlit("running");
    reveal_strlit("paused");
    reveal_strlit("infinite");
    match x {
        AnimationDirection::Normal => {
            assert("normal"@[0] == 'n' && "linear"@[0] == 'l');
            assert(!is_keyword("normal"@, "linear"));
            assert(!is_keyword("normal"@, "ease"));
            assert(!is_keyword("normal"@, "ease-in"));
            assert(!is_keyword("normal"@, "ease-out"));
            assert(!is_keyword("normal"@, "ease-in-out"));
            assert(!is_keyword("normal"@, "step-start"));
            assert(!is_keyword("normal"@, "step-end"));
            assert(!is_keyword("normal"@, "infinite"));
        },
        AnimationDirection::Reverse => {
            assert(!is_keyword("reverse"@, "linear"));
            assert(!is_keyword("reverse"@, "ease"));
            assert("reverse"@[0] == 'r' && "ease-in"@[0] == 'e');
            assert(!is_keyword("reverse"@, "ease-in"));
            assert(!is_keyword("reverse"@, "ease-out"));
            assert(!is_keyword("reverse"@, "ease-in-out"));
            assert(!is_keyword("reverse"@, "step-start"));
            assert(!is_keyword("reverse"@, "step-end"));
            assert(!is_keyword("reverse"@, "infinite"));
            assert(!is_keyword("reverse"@, "normal"));
        },
        AnimationDirection::Alternate => {
            assert(!is_keyword("alternate"@, "linear"));
            assert(!is_keyword("alternate"@, "ease"));
            assert(!is_keyword("alternate"@, "ease-in"));
            assert(!is_keyword("alternate"@, "ease-out"));
            assert(!is_keyword("alternate"@, "ease-in-out"));
            assert(!is_keyword("alternate"@, "step-start"));
            assert(!is_keyword("alternate"@, "step-end"));
            assert(!is_keyword("alternate"@, "infinite"));
            assert(!is_keyword("alternate"@, "normal"));
            assert(!is_keyword("alternate"@, "reverse"));
        },
        AnimationDirection::AlternateReverse => {
            assert(!is_keyword("alternate-reverse"@, "linear"));
            assert(!is_keyword("alternate-reverse"@, "ease"));
            assert(!is_keyword("alternate-reverse"@, "ease-in"));
            assert(!is_keyword("alternate-reverse"@, "ease-out"));
            assert(!is_keyword("alternate-reverse"@, "ease-in-out"));
            assert(!is_keyword("alternate-reverse"@, "step-start"));
            assert(!is_keyword("alternate-reverse"@, "step-end"));
            assert(!is_keyword("alternate-reverse"@, "infinite"));
            assert(!is_keyword("alternate-reverse"@, "normal"));
            assert(!is_keyword("alternate-reverse"@, "reverse"));
            assert(!is_keyword("alternate-reverse"@, "alternate"));
        },
    }
}

proof fn lemma_fill_mode_keyword(x: AnimationFillMode)
    ensures
        EasingFunction::spec_from_ident(x.keyword()@) is None,
        !is_keyword(x.keyword()@, "infinite"),
        AnimationDirection::spec_from_ident(x.keyword()@) is None,
        AnimationFillMode::spec_from_ident(x.keyword()@) == Some(x),
{
    reveal_strlit("linear");
    reveal_strlit("ease");
    reveal_strlit("ease-in");
    reveal_strlit("ease-out");
    reveal_strlit("ease-in-out");
    reveal_strlit("step-start");
    reveal_strlit("step-end");
    reveal_strlit("normal");
    reveal_strlit("reverse");
    reveal_strlit("alternate");
    reveal_strlit("alternate-reverse");
    reveal_strlit("none");
    reveal_strlit("forwards");
    reveal_strlit("backwards");
    reveal_strlit("both");
    reveal_strlit("running");
    reveal_strlit("paused");
    reveal_strlit("infinite");
    match x {
        AnimationFillMode::NoFill => {
            assert(!is_keyword("none"@, "linear"));
            assert("none"@[0] == 'n' && "ease"@[0] == 'e');
            assert(!is_keyword("none"@, "ease"));
            assert(!is_keyword("none"@, "ease-in"));
            assert(!is_keyword("none"@, "ease-out"));
            assert(!is_keyword("none"@, "ease-in-out"));
            assert(!is_keyword("none"@, "step-start"));
            assert(!is_keyword("none"@, "step-end"));
            assert(!is_keyword("none"@, "infinite"));
            assert(!is_keyword("none"@, "normal"));
            assert(!is_keyword("none"@, "reverse"));
            assert(!is_keyword("none"@, "alternate"));
            assert(!is_keyword("none"@, "alternate-reverse"));
        },
        AnimationFillMode::Forwards => {
            assert(!is_keyword("forwards"@, "linear"));
            assert(!is_keyword("forwards"@, "ease"));
            assert(!is_keyword("forwards"@, "ease-in"));
            assert("forwards"@[0] == 'f' && "ease-out"@[0] == 'e');
            assert(!is_keyword("forwards"@, "ease-out"));
            assert(!is_keyword("forwards"@, "ease-in-out"));
            assert(!is_keyword("forwards"@, "step-start"));
            assert("forwards"@[0] == 'f' && "step-end"@[0] == 's');
            assert(!is_keyword("forwards"@, "step-end"));
            assert("forwards"@[0] == 'f' && "infinite"@[0] == 'i');
            assert(!is_keyword("forwards"@, "infinite"));
            assert(!is_keyword("forwards"@, "normal"));
            assert(!is_keyword("forwards"@, "reverse"));
            assert(!is_keyword("forwards"@, "alternate"));
            assert(!is_keyword("forwards"@, "alternate-reverse"));
            assert(!is_keyword("forwards"@, "none"));
        },
        AnimationFillMode::Backwards => {
            assert(!is_keyword("backwards"@, "linear"));
            assert(!is_keyword("backwards"@, "ease"));
            assert(!is_keyword("backwards"@, "ease-in"));
            assert(!is_keyword("backwards"@, "ease-out"));
            assert(!is_keyword("backwards"@, "ease-in-out"));
            assert(!is_keyword("backwards"@, "step-start"));
            assert(!is_keyword("backwards"@, "step-end"));
            assert(!is_keyword("backwards"@, "infinite"));
            assert(!is_keyword("backwards"@, "normal"));
            assert(!is_keyword("backwards"@, "reverse"));
            assert("backwards"@[0] == 'b' && "alternate"@[0] == 'a');
            assert(!is_keyword("backwards"@, "alternate"));
            assert(!is_keyword("backwards"@, "alternate-reverse"));
            assert(!is_keyword("backwards"@, "none"));
            assert(!is_keyword("backwards"@, "forwards"));
        },
        AnimationFillMode::Both => {
            assert(!is_keyword("both"@, "linear"));
            assert("both"@[0] == 'b' && "ease"@[0] == 'e');
            assert(!is_keyword("both"@, "ease"));
            assert(!is_keyword("both"@, "ease-in"));
            assert(!is_keyword("both"@, "ease-out"));
            assert(!is_keyword("both"@, "ease-in-out"));
            assert(!is_keyword("both"@, "step-start"));
            assert(!is_keyword("both"@, "step-end"));
            assert(!is_keyword("both"@, "infinite"));
            assert(!is_keyword("both"@, "normal"));
            assert(!is_keyword("both"@, "reverse"));
            assert(!is_keyword("both"@, "alternate"));
            assert(!is_keyword("both"@, "alternate-reverse"));
            assert("both"@[0] == 'b' && "none"@[0] == 'n');
            assert(!is_keyword("both"@, "none"));
            assert(!is_keyword("both"@, "forwards"));
            assert(!is_keyword("both"@, "backwards"));
        },
    }
}

proof fn lemma_play_state_keyword(x: AnimationPlayState)
    ensures
        EasingFunction::spec_from_ident(x.keyword()@) is None,
        !is_keyword(x.keyword()@, "infinite"),
        AnimationDirection::spec_from_ident(x.keyword()@) is None,
        AnimationFillMode::spec_from_ident(x.keyword()@) is None,
        AnimationPlayState::spec_from_ident(x.keyword()@) == Some(x),
{
    reveal_strlit("linear");
    reveal_strlit("ease");
    reveal_strlit("ease-in");
    reveal_strlit("ease-out");
    reveal_strlit("ease-in-out");
    reveal_strlit("step-start");
    reveal_strlit("step-end");
    reveal_strlit("normal");
    reveal_strlit("reverse");
    reveal_strlit("alternate");
    reveal_strlit("alternate-reverse");
    reveal_strlit("none");
    reveal_strlit("forwards");
    reveal_strlit("backwards");
    reveal_strlit("both");
    reveal_strlit("running");
    reveal_strlit("paused");
    reveal_strlit("infinite");
    match x {
        AnimationPlayState::Running => {
            assert(!is_keyword("running"@, "linear"));
            assert(!is_keyword("running"@, "ease"));
            assert("running"@[0] == 'r' && "ease-in"@[0] == 'e');
            assert(!is_keyword("running"@, "ease-in"));
            assert(!is_keyword("running"@, "ease-out"));
            assert(!is_keyword("running"@, "ease-in-out"));
            assert(!is_keyword("running"@, "step-start"));
            assert(!is_keyword("running"@, "step-end"));
            assert(!is_keyword("running"@, "infinite"));
            assert(!is_keyword("running"@, "normal"));
            assert("running"@[1] == 'u' && "reverse"@[1] == 'e');
            assert(!is_keyword("running"@, "reverse"));
            assert(!is_keyword("running"@, "alternate"));
            assert(!is_keyword("running"@, "alternate-reverse"));
            assert(!is_keyword("running"@, "none"));
            assert(!is_keyword("running"@, "forwards"));
            assert(!is_keyword("running"@, "backwards"));
            assert(!is_keyword("running"@, "both"));
        },
        AnimationPlayState::Paused => {
            assert("paused"@[0] == 'p' && "linear"@[0] == 'l');
            assert(!is_keyword("paused"@, "linear"));
            assert(!is_keyword("paused"@, "ease"));
            assert(!is_keyword("paused"@, "ease-in"));
            assert(!is_keyword("paused"@, "ease-out"));
            assert(!is_keyword("paused"@, "ease-in-out"));
            assert(!is_keyword("paused"@, "step-start"));
            assert(!is_keyword("paused"@, "step-end"));
            assert(!is_keyword("paused"@, "infinite"));
            assert("paused"@[0] == 'p' && "normal"@[0] == 'n');
            assert(!is_keyword("paused"@, "normal"));
            assert(!is_keyword("paused"@, "reverse"));
            assert(!is_keyword("paused"@, "alternate"));
            assert(!is_keyword("paused"@, "alternate-reverse"));
            assert(!is_keyword("paused"@, "none"));
            assert(!is_keyword("paused"@, "forwards"));
            assert(!is_keyword("paused"@, "backwards"));
            assert(!is_keyword("paused"@, "both"));
            assert(!is_keyword("paused"@, "running"));
        },
    }
}

/// No keyword grammar of another slot reads the text `t`.
pub open spec fn name_is_free(t: Seq<char>) -> bool {
    &&& EasingFunction::spec_from_ident(t) is None
    &&& !is_keyword(t, "infinite")
    &&& AnimationDirection::spec_from_ident(t) is None
    &&& AnimationFillMode::spec_from_ident(t) is None
    &&& AnimationPlayState::spec_from_ident(t) is None
}

/// The values whose printed form reads back: a `none` name with the fill
/// mode `none` (the first `none` read goes to the fill mode, which the name
/// precedes), or a name that no other slot's keyword grammar reads (and,
/// written as an identifier, not a CSS-wide keyword).
pub open spec fn prints_faithfully(a: AnimationModel) -> bool {
    match a.name {
        NameModel::NoAnimation => a.fill_mode == AnimationFillMode::NoFill,
        NameModel::Ident(t) => !is_reserved_name(t) && name_is_free(t),
        NameModel::Custom(t) => name_is_free(t),
    }
}

/// The value that the printed form of `a` reads back as: a quoted name that
/// needs no quotes becomes an identifier, and a zero time that is left out
/// becomes `0s`.
pub open spec fn canonical(a: AnimationModel) -> AnimationModel {
    AnimationModel {
        name: match a.name {
            NameModel::Custom(t) => if is_reserved_name(t) {
                a.name
            } else {
                NameModel::Ident(t)
            },
            _ => a.name,
        },
        duration: if a.duration.spec_is_zero() && a.delay.spec_is_zero() {
            Time::Seconds(0)
        } else {
            a.duration
        },
        delay: if a.delay.spec_is_zero() {
            Time::Seconds(0)
        } else {
            a.delay
        },
        ..a
    }
}

proof fn lemma_parse_cons(st: SlotsModel, c: ComponentModel, rest: Seq<ComponentModel>, pos: nat)
    ensures
        parse_from(st, seq![c] + rest, pos) == match parse_step(st, c) {
            Some(n) => parse_from(n, rest, pos + 1),
            None => Err(pos),
        },
{
    assert((seq![c] + rest).drop_first() =~= rest);
    assert((seq![c] + rest)[0] == c);
}

proof fn lemma_parse_opt(st: SlotsModel, b: bool, c: ComponentModel, rest: Seq<ComponentModel>, pos: nat)
    ensures
        parse_from(st, opt(b, c) + rest, pos) == if b {
            match parse_step(st, c) {
                Some(n) => parse_from(n, rest, pos + 1),
                None => Err(pos),
            }
        } else {
            parse_from(st, rest, pos)
        },
{
    if b {
        lemma_parse_cons(st, c, rest, pos);
    } else {
        assert(opt(b, c) + rest =~= rest);
    }
}

proof fn lemma_step_name(a: AnimationModel)
    requires
        prints_faithfully(a),
        !(a.name is NoAnimation),
    ensures
        parse_step(empty_slots(), AnimationName::spec_component(a.name)) == Some(
            SlotsModel { name: Some(canonical(a).name), ..empty_slots() },
        ),
{
}

proof fn lemma_step_duration(st: SlotsModel, x: Time)
    requires
        st.duration is None,
    ensures
        parse_step(st, x.spec_component()) == Some(SlotsModel { duration: Some(x), ..st }),
{
}

proof fn lemma_step_timing(st: SlotsModel, x: EasingFunction)
    requires
        st.timing_function is None,
    ensures
        parse_step(st, x.spec_component()) == Some(SlotsModel { timing_function: Some(x), ..st }),
{
    lemma_easing_keyword(x);
}

proof fn lemma_step_delay(st: SlotsModel, x: Time)
    requires
        st.duration is Some,
        st.delay is None,
    ensures
        parse_step(st, x.spec_component()) == Some(SlotsModel { delay: Some(x), ..st }),
{
}

proof fn lemma_step_count(st: SlotsModel, x: AnimationIterationCount)
    requires
        st.iteration_count is None,
    ensures
        parse_step(st, x.spec_component()) == Some(SlotsModel { iteration_count: Some(x), ..st }),
{
    lemma_infinite_keyword();
}

proof fn lemma_step_direction(st: SlotsModel, x: AnimationDirection)
    requires
        st.direction is None,
    ensures
        parse_step(st, x.spec_component()) == Some(SlotsModel { direction: Some(x), ..st }),
{
    lemma_direction_keyword(x);
}

proof fn lemma_step_fill_mode(st: SlotsModel, x: AnimationFillMode)
    requires
        st.fill_mode is None,
    ensures
        parse_step(st, x.spec_component()) == Some(SlotsModel { fill_mode: Some(x), ..st }),
{
    lemma_fill_mode_keyword(x);
}

proof fn lemma_step_play_state(st: SlotsModel, x: AnimationPlayState)
    requires
        st.play_state is None,
    ensures
        parse_step(st, x.spec_component()) == Some(SlotsModel { play_state: Some(x), ..st }),
{
    lemma_play_state_keyword(x);
}

proof fn lemma_none_keyword()
    ensures
        EasingFunction::spec_from_ident("none"@) is None,
        !is_keyword("none"@, "infinite"),
        AnimationDirection::spec_from_ident("none"@) is None,
        AnimationFillMode::spec_from_ident("none"@) == Some(AnimationFillMode::NoFill),
        AnimationPlayState::spec_from_ident("none"@) is None,
        AnimationName::spec_parse(ComponentModel::Ident("none"@)) == Some(NameModel::NoAnimation),
{
    lemma_fill_mode_keyword(AnimationFillMode::NoFill);
    reveal_strlit("none");
    reveal_strlit("running");
    reveal_strlit("paused");
    assert(!is_keyword("none"@, "running"));
    assert(!is_keyword("none"@, "paused"));
}

proof fn lemma_step_none_first(st: SlotsModel)
    requires
        st.fill_mode is None,
        st.duration is None,
        st.timing_function is None,
        st.delay is None,
        st.iteration_count is None,
        st.direction is None,
    ensures
        parse_step(st, ComponentModel::Ident("none"@)) == Some(
            SlotsModel { fill_mode: Some(AnimationFillMode::NoFill), ..st },
        ),
{
    lemma_none_keyword();
}

proof fn lemma_step_none_name(st: SlotsModel)
    requires
        st.fill_mode is Some,
        st.name is None,
    ensures
        parse_step(st, ComponentModel::Ident("none"@)) == Some(
            SlotsModel { name: Some(NameModel::NoAnimation), ..st },
        ),
{
    lemma_none_keyword();
}

#[verifier::rlimit(100)]
#[verifier::spinoff_prover]
proof fn lemma_none_round_trip(a: AnimationModel)
    requires
        a.name is NoAnimation,
        a.fill_mode == AnimationFillMode::NoFill,
    ensures
        spec_parse_animation(spec_print(a)) == Ok::<AnimationModel, nat>(canonical(a)),
{
    lemma_none_keyword();
    let st0 = empty_slots();
    let t = a.name.text();
    let n0 = AnimationName::spec_component(a.name);
    let b1 = !a.duration.spec_is_zero() || !a.delay.spec_is_zero();
    let b2 = a.timing_function != EasingFunction::Ease || collides(|c| EasingFunction::spec_parse(c), t);
    let b3 = !a.delay.spec_is_zero();
    let b4 = a.iteration_count != AnimationIterationCount::Number(1) || collides(
        |c| AnimationIterationCount::spec_parse(c),
        t,
    );
    let b5 = a.direction != AnimationDirection::Normal || collides(|c| AnimationDirection::spec_parse(c), t);
    let b6 = a.fill_mode != AnimationFillMode::NoFill || collides(|c| AnimationFillMode::spec_parse(c), t);
    let b7 = a.play_state != AnimationPlayState::Running || collides(|c| AnimationPlayState::spec_parse(c), t);
    assert(b6);
    let c1 = a.duration.spec_component();
    let c2 = a.timing_function.spec_component();
    let c3 = a.delay.spec_component();
    let c4 = a.iteration_count.spec_component();
    let c5 = a.direction.spec_component();
    let c6 = a.fill_mode.spec_component();
    let c7 = a.play_state.spec_component();
    assert(n0 == ComponentModel::Ident("none"@));
    assert(c6 == ComponentModel::Ident("none"@));
    let r8 = Seq::<ComponentModel>::empty();
    let r7 = opt(b7, c7) + r8;
    let r6 = opt(b6, c6) + r7;
    let r5 = opt(b5, c5) + r6;
    let r4 = opt(b4, c4) + r5;
    let r3 = opt(b3, c3) + r4;
    let r2 = opt(b2, c2) + r3;
    let r1 = opt(b1, c1) + r2;
    assert(spec_print(a) =~= seq![n0] + r1);
    let st1 = SlotsModel { fill_mode: Some(AnimationFillMode::NoFill), ..st0 };
    let st2 = if b1 { SlotsModel { duration: Some(a.duration), ..st1 } } else { st1 };
    let st3 = if b2 { SlotsModel { timing_function: Some(a.timing_function), ..st2 } } else { st2 };
    let st4 = if b3 { SlotsModel { delay: Some(a.delay), ..st3 } } else { st3 };
    let st5 = if b4 { SlotsModel { iteration_count: Some(a.iteration_count), ..st4 } } else { st4 };
    let st6 = if b5 { SlotsModel { direction: Some(a.direction), ..st5 } } else { st5 };
    let st7 = SlotsModel { name: Some(NameModel::NoAnimation), ..st6 };
    let st8 = if b7 { SlotsModel { play_state: Some(a.play_state), ..st7 } } else { st7 };
    let p1: nat = 1;
    let p2: nat = p1 + if b1 { 1nat } else { 0nat };
    let p3: nat = p2 + if b2 { 1nat } else { 0nat };
    let p4: nat = p3 + if b3 { 1nat } else { 0nat };
    let p5: nat = p4 + if b4 { 1nat } else { 0nat };
    let p6: nat = p5 + if b5 { 1nat } else { 0nat };
    let p7: nat = p6 + 1;
    let p8: nat = p7 + if b7 { 1nat } else { 0nat };
    lemma_parse_cons(st0, n0, r1, 0);
    lemma_step_none_first(st0);
    lemma_parse_opt(st1, b1, c1, r2, p1);
    if b1 {
        lemma_step_duration(st1, a.duration);
    }
    lemma_parse_opt(st2, b2, c2, r3, p2);
    if b2 {
        lemma_step_timing(st2, a.timing_function);
    }
    lemma_parse_opt(st3, b3, c3, r4, p3);
    if b3 {
        lemma_step_delay(st3, a.delay);
    }
    lemma_parse_opt(st4, b4, c4, r5, p4);
    if b4 {
        lemma_step_count(st4, a.iteration_count);
    }
    lemma_parse_opt(st5, b5, c5, r6, p5);
    if b5 {
        lemma_step_direction(st5, a.direction);
    }
    lemma_parse_opt(st6, b6, c6, r7, p6);
    lemma_step_none_name(st6);
    lemma_parse_opt(st7, b7, c7, r8, p7);
    if b7 {
        lemma_step_play_state(st7, a.play_state);
    }
    assert(parse_from(st8, r8, p8) == Ok::<AnimationModel, nat>(with_defaults(st8)));
    assert(with_defaults(st8) == canonical(a));
}

/// What the printer writes reads back as the value printed, up to the
/// spelling of names and zero times, whenever the name's text collides with no
/// keyword of another slot.
#[verifier::rlimit(100)]
#[verifier::spinoff_prover]
pub proof fn lemma_print_parse_round_trip(a: AnimationModel)
    requires
        prints_faithfully(a),
    ensures
        spec_parse_animation(spec_print(a)) == Ok::<AnimationModel, nat>(canonical(a)),
{
    let st0 = empty_slots();
    if a.name is NoAnimation {
        lemma_none_round_trip(a);
        return;
    }
    let t = a.name.text();
    let n0 = AnimationName::spec_component(a.name);
    let b1 = !a.duration.spec_is_zero() || !a.delay.spec_is_zero();
    let b2 = a.timing_function != EasingFunction::Ease || collides(|c| EasingFunction::spec_parse(c), t);
    let b3 = !a.delay.spec_is_zero();
    let b4 = a.iteration_count != AnimationIterationCount::Number(1) || collides(
        |c| AnimationIterationCount::spec_parse(c),
        t,
    );
    let b5 = a.direction != AnimationDirection::Normal || collides(|c| AnimationDirection::spec_parse(c), t);
    let b6 = a.fill_mode != AnimationFillMode::NoFill || collides(|c| AnimationFillMode::spec_parse(c), t);
    let b7 = a.play_state != AnimationPlayState::Running || collides(|c| AnimationPlayState::spec_parse(c), t);
    let c1 = a.duration.spec_component();
    let c2 = a.timing_function.spec_component();
    let c3 = a.delay.spec_component();
    let c4 = a.iteration_count.spec_component();
    let c5 = a.direction.spec_component();
    let c6 = a.fill_mode.spec_component();
    let c7 = a.play_state.spec_component();
    let r8 = Seq::<ComponentModel>::empty();
    let r7 = opt(b7, c7) + r8;
    let r6 = opt(b6, c6) + r7;
    let r5 = opt(b5, c5) + r6;
    let r4 = opt(b4, c4) + r5;
    let r3 = opt(b3, c3) + r4;
    let r2 = opt(b2, c2) + r3;
    let r1 = opt(b1, c1) + r2;
    assert(spec_print(a) =~= seq![n0] + r1);
    let st1 = SlotsModel { name: Some(canonical(a).name), ..st0 };
    let st2 = if b1 { SlotsModel { duration: Some(a.duration), ..st1 } } else { st1 };
    let st3 = if b2 { SlotsModel { timing_function: Some(a.timing_function), ..st2 } } else { st2 };
    let st4 = if b3 { SlotsModel { delay: Some(a.delay), ..st3 } } else { st3 };
    let st5 = if b4 { SlotsModel { iteration_count: Some(a.iteration_count), ..st4 } } else { st4 };
    let st6 = if b5 { SlotsModel { direction: Some(a.direction), ..st5 } } else { st5 };
    let st7 = if b6 { SlotsModel { fill_mode: Some(a.fill_mode), ..st6 } } else { st6 };
    let st8 = if b7 { SlotsModel { play_state: Some(a.play_state), ..st7 } } else { st7 };
    let p1: nat = 1;
    let p2: nat = p1 + if b1 { 1nat } else { 0nat };
    let p3: nat = p2 + if b2 { 1nat } else { 0nat };
    let p4: nat = p3 + if b3 { 1nat } else { 0nat };
    let p5: nat = p4 + if b4 { 1nat } else { 0nat };
    let p6: nat = p5 + if b5 { 1nat } else { 0nat };
    let p7: nat = p6 + if b6 { 1nat } else { 0nat };
    let p8: nat = p7 + if b7 { 1nat } else { 0nat };
    lemma_parse_cons(st0, n0, r1, 0);
    lemma_step_name(a);
    lemma_parse_opt(st1, b1, c1, r2, p1);
    if b1 {
        lemma_step_duration(st1, a.duration);
    }
    lemma_parse_opt(st2, b2, c2, r3, p2);
    if b2 {
        lemma_step_timing(st2, a.timing_function);
    }
    lemma_parse_opt(st3, b3, c3, r4, p3);
    if b3 {
        lemma_step_delay(st3, a.delay);
    }
    lemma_parse_opt(st4, b4, c4, r5, p4);
    if b4 {
        lemma_step_count(st4, a.iteration_count);
    }
    lemma_parse_opt(st5, b5, c5, r6, p5);
    if b5 {
        lemma_step_direction(st5, a.direction);
    }
    lemma_parse_opt(st6, b6, c6, r7, p6);
    if b6 {
        lemma_step_fill_mode(st6, a.fill_mode);
    }
    lemma_parse_opt(st7, b7, c7, r8, p7);
    if b7 {
        lemma_step_play_state(st7, a.play_state);
    }
    assert(parse_from(st8, r8, p8) == Ok::<AnimationModel, nat>(with_defaults(st8)));
    assert(with_defaults(st8) == canonical(a));
}

} // verus!
