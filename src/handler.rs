//! The accumulator that merges animation declarations into the shortest
//! equivalent list, without changing which engine sees which value.
use vstd::prelude::*;
use vstd::seq_lib::lemma_concat_associative;
use crate::animation::{Animation, AnimationModel, AnimationName, NameModel};
use crate::properties::{is_animation_property, spec_get_prefixed, spec_is_animation_property, Property, PropertyModel};
use crate::values::{
    views, AnimationDirection, AnimationFillMode, AnimationIterationCount, AnimationPlayState,
    EasingFunction, SlotValue, Time, vec_duplicate, vec_same,
};
use crate::vendor_prefix::{expand, spec_expand, VendorPrefix};

verus! {

/// The model of one slot: the values of the last declaration and every prefix
/// it has been declared with since the last flush.
pub type SlotModel<V> = Option<(Seq<V>, VendorPrefix)>;

/// The model of the accumulator.
pub struct HandlerModel {
    /// The prefixes that the browser targets need, where they are known.
    pub targets: Option<VendorPrefix>,
    pub names: SlotModel<NameModel>,
    pub durations: SlotModel<Time>,
    pub timing_functions: SlotModel<EasingFunction>,
    pub iteration_counts: SlotModel<AnimationIterationCount>,
    pub directions: SlotModel<AnimationDirection>,
    pub play_states: SlotModel<AnimationPlayState>,
    pub delays: SlotModel<Time>,
    pub fill_modes: SlotModel<AnimationFillMode>,
}

pub open spec fn slot_view<T: View>(s: Option<(Vec<T>, VendorPrefix)>) -> SlotModel<T::V> {
    match s {
        Some((v, vp)) => Some((views(v@), vp)),
        None => None,
    }
}

/// A declaration of `val` with prefixes `vp` must flush first: the slot holds
/// another value that was not declared with all of `vp`.
pub open spec fn conflicts<V>(slot: SlotModel<V>, val: Seq<V>, vp: VendorPrefix) -> bool {
    slot is Some && slot.unwrap().0 != val && !slot.unwrap().1.spec_contains(vp)
}

/// The slot after a declaration of `val` with prefixes `vp`.
pub open spec fn absorbed<V>(slot: SlotModel<V>, val: Seq<V>, vp: VendorPrefix) -> SlotModel<V> {
    match slot {
        Some((_, p)) => Some((val, p.spec_union(vp))),
        None => Some((val, vp)),
    }
}

pub open spec fn slot_prefix<V>(slot: SlotModel<V>) -> VendorPrefix {
    match slot {
        Some((_, p)) => p,
        None => VendorPrefix::spec_empty(),
    }
}

pub open spec fn slot_len<V>(slot: SlotModel<V>) -> nat {
    match slot {
        Some((v, _)) => v.len(),
        None => 0,
    }
}

/// The accumulator with no slot set.
pub open spec fn cleared(m: HandlerModel) -> HandlerModel {
    HandlerModel {
        targets: m.targets,
        names: None,
        durations: None,
        timing_functions: None,
        iteration_counts: None,
        directions: None,
        play_states: None,
        delays: None,
        fill_modes: None,
    }
}

/// The prefixes that every slot was declared with.
pub open spec fn intersection(m: HandlerModel) -> VendorPrefix {
    slot_prefix(m.names).spec_intersect(slot_prefix(m.durations)).spec_intersect(
        slot_prefix(m.timing_functions),
    ).spec_intersect(slot_prefix(m.iteration_counts)).spec_intersect(slot_prefix(m.directions)).spec_intersect(
        slot_prefix(m.play_states),
    ).spec_intersect(slot_prefix(m.delays)).spec_intersect(slot_prefix(m.fill_modes))
}

/// A flush writes a shorthand: every slot is set, some prefix is common to
/// all, and all hold the same number of animations.
pub open spec fn mergeable(m: HandlerModel) -> bool {
    let len = slot_len(m.names);
    &&& m.names is Some
    &&& m.durations is Some
    &&& m.timing_functions is Some
    &&& m.iteration_counts is Some
    &&& m.directions is Some
    &&& m.play_states is Some
    &&& m.delays is Some
    &&& m.fill_modes is Some
    &&& !intersection(m).spec_is_empty()
    &&& slot_len(m.durations) == len
    &&& slot_len(m.timing_functions) == len
    &&& slot_len(m.iteration_counts) == len
    &&& slot_len(m.directions) == len
    &&& slot_len(m.play_states) == len
    &&& slot_len(m.delays) == len
    &&& slot_len(m.fill_modes) == len
}

/// The animations that the slots spell, index by index.
pub open spec fn zipped(m: HandlerModel) -> Seq<AnimationModel> {
    Seq::new(
        slot_len(m.names),
        |i: int|
            AnimationModel {
                name: m.names.unwrap().0[i],
                duration: m.durations.unwrap().0[i],
                timing_function: m.timing_functions.unwrap().0[i],
                iteration_count: m.iteration_counts.unwrap().0[i],
                direction: m.directions.unwrap().0[i],
                play_state: m.play_states.unwrap().0[i],
                delay: m.delays.unwrap().0[i],
                fill_mode: m.fill_modes.unwrap().0[i],
            },
    )
}

/// The prefixes that a flush gives to the shorthand: none where it writes none.
pub open spec fn merged_prefixes(m: HandlerModel) -> VendorPrefix {
    if mergeable(m) {
        intersection(m)
    } else {
        VendorPrefix::spec_empty()
    }
}

/// The prefixes of a slot left for its longhand once `merged` went to the shorthand.
pub open spec fn remaining<V>(slot: SlotModel<V>, merged: VendorPrefix) -> VendorPrefix {
    slot_prefix(slot).spec_difference(merged)
}

/// Whether a flush writes the slot as a longhand.
pub open spec fn writes_longhand<V>(slot: SlotModel<V>, merged: VendorPrefix) -> bool {
    slot is Some && !remaining(slot, merged).spec_is_empty()
}

/// The shorthand that a flush writes, if any.
pub open spec fn shorthand_output(m: HandlerModel) -> Seq<PropertyModel> {
    if mergeable(m) {
        seq![PropertyModel::Animation(zipped(m), spec_expand(intersection(m), m.targets))]
    } else {
        Seq::empty()
    }
}

/// The longhands that a flush writes, in slot order, once `merged` went to the shorthand.
pub open spec fn longhand_output(m: HandlerModel, merged: VendorPrefix) -> Seq<PropertyModel> {
    (if writes_longhand(m.names, merged) {
        seq![PropertyModel::AnimationName(m.names.unwrap().0, spec_expand(remaining(m.names, merged), m.targets))]
    } else {
        Seq::empty()
    })
    + (if writes_longhand(m.durations, merged) {
        seq![PropertyModel::AnimationDuration(m.durations.unwrap().0, spec_expand(remaining(m.durations, merged), m.targets))]
    } else {
        Seq::empty()
    })
    + (if writes_longhand(m.timing_functions, merged) {
        seq![PropertyModel::AnimationTimingFunction(m.timing_functions.unwrap().0, spec_expand(remaining(m.timing_functions, merged), m.targets))]
    } else {
        Seq::empty()
    })
    + (if writes_longhand(m.iteration_counts, merged) {
        seq![PropertyModel::AnimationIterationCount(m.iteration_counts.unwrap().0, spec_expand(remaining(m.iteration_counts, merged), m.targets))]
    } else {
        Seq::empty()
    })
    + (if writes_longhand(m.directions, merged) {
        seq![PropertyModel::AnimationDirection(m.directions.unwrap().0, spec_expand(remaining(m.directions, merged), m.targets))]
    } else {
        Seq::empty()
    })
    + (if writes_longhand(m.play_states, merged) {
        seq![PropertyModel::AnimationPlayState(m.play_states.unwrap().0, spec_expand(remaining(m.play_states, merged), m.targets))]
    } else {
        Seq::empty()
    })
    + (if writes_longhand(m.delays, merged) {
        seq![PropertyModel::AnimationDelay(m.delays.unwrap().0, spec_expand(remaining(m.delays, merged), m.targets))]
    } else {
        Seq::empty()
    })
    + (if writes_longhand(m.fill_modes, merged) {
        seq![PropertyModel::AnimationFillMode(m.fill_modes.unwrap().0, spec_expand(remaining(m.fill_modes, merged), m.targets))]
    } else {
        Seq::empty()
    })
}

/// The declarations that a flush writes: the shorthand where the slots allow
/// it, then, in slot order, each slot with prefixes left over.
#[verifier::opaque]
pub open spec fn flush_output(m: HandlerModel) -> Seq<PropertyModel> {
    shorthand_output(m) + longhand_output(m, merged_prefixes(m))
}

/// Flushes where `flush` holds: the state to go on from, and what was written.
pub open spec fn flush_if(m: HandlerModel, flush: bool) -> (HandlerModel, Seq<PropertyModel>) {
    if flush {
        (cleared(m), flush_output(m))
    } else {
        (m, Seq::empty())
    }
}

pub open spec fn names_of(s: Seq<AnimationModel>) -> Seq<NameModel> {
    s.map_values(|a: AnimationModel| a.name)
}

pub open spec fn durations_of(s: Seq<AnimationModel>) -> Seq<Time> {
    s.map_values(|a: AnimationModel| a.duration)
}

pub open spec fn timing_functions_of(s: Seq<AnimationModel>) -> Seq<EasingFunction> {
    s.map_values(|a: AnimationModel| a.timing_function)
}

pub open spec fn iteration_counts_of(s: Seq<AnimationModel>) -> Seq<AnimationIterationCount> {
    s.map_values(|a: AnimationModel| a.iteration_count)
}

pub open spec fn directions_of(s: Seq<AnimationModel>) -> Seq<AnimationDirection> {
    s.map_values(|a: AnimationModel| a.direction)
}

pub open spec fn play_states_of(s: Seq<AnimationModel>) -> Seq<AnimationPlayState> {
    s.map_values(|a: AnimationModel| a.play_state)
}

pub open spec fn delays_of(s: Seq<AnimationModel>) -> Seq<Time> {
    s.map_values(|a: AnimationModel| a.delay)
}

pub open spec fn fill_modes_of(s: Seq<AnimationModel>) -> Seq<AnimationFillMode> {
    s.map_values(|a: AnimationModel| a.fill_mode)
}

/// A shorthand declaration of `s` with prefixes `vp` must flush first: one of
/// its longhands would.
pub open spec fn shorthand_conflicts(m: HandlerModel, s: Seq<AnimationModel>, vp: VendorPrefix) -> bool {
    conflicts(m.names, names_of(s), vp) || conflicts(m.durations, durations_of(s), vp) || conflicts(
        m.timing_functions,
        timing_functions_of(s),
        vp,
    ) || conflicts(m.iteration_counts, iteration_counts_of(s), vp) || conflicts(
        m.directions,
        directions_of(s),
        vp,
    ) || conflicts(m.play_states, play_states_of(s), vp) || conflicts(m.delays, delays_of(s), vp)
        || conflicts(m.fill_modes, fill_modes_of(s), vp)
}

/// One declaration handed to the accumulator in state `m`: the next state,
/// the declarations written, and whether the declaration belongs to the
/// animation family.
pub open spec fn spec_handle(m: HandlerModel, p: PropertyModel) -> (HandlerModel, Seq<PropertyModel>, bool) {
    match p {
        PropertyModel::AnimationName(v, vp) => {
            let (n, out) = flush_if(m, conflicts(m.names, v, vp));
            (HandlerModel { names: absorbed(n.names, v, vp), ..n }, out, true)
        },
        PropertyModel::AnimationDuration(v, vp) => {
            let (n, out) = flush_if(m, conflicts(m.durations, v, vp));
            (HandlerModel { durations: absorbed(n.durations, v, vp), ..n }, out, true)
        },
        PropertyModel::AnimationTimingFunction(v, vp) => {
            let (n, out) = flush_if(m, conflicts(m.timing_functions, v, vp));
            (HandlerModel { timing_functions: absorbed(n.timing_functions, v, vp), ..n }, out, true)
        },
        PropertyModel::AnimationIterationCount(v, vp) => {
            let (n, out) = flush_if(m, conflicts(m.iteration_counts, v, vp));
            (HandlerModel { iteration_counts: absorbed(n.iteration_counts, v, vp), ..n }, out, true)
        },
        PropertyModel::AnimationDirection(v, vp) => {
            let (n, out) = flush_if(m, conflicts(m.directions, v, vp));
            (HandlerModel { directions: absorbed(n.directions, v, vp), ..n }, out, true)
        },
        PropertyModel::AnimationPlayState(v, vp) => {
            let (n, out) = flush_if(m, conflicts(m.play_states, v, vp));
            (HandlerModel { play_states: absorbed(n.play_states, v, vp), ..n }, out, true)
        },
        PropertyModel::AnimationDelay(v, vp) => {
            let (n, out) = flush_if(m, conflicts(m.delays, v, vp));
            (HandlerModel { delays: absorbed(n.delays, v, vp), ..n }, out, true)
        },
        PropertyModel::AnimationFillMode(v, vp) => {
            let (n, out) = flush_if(m, conflicts(m.fill_modes, v, vp));
            (HandlerModel { fill_modes: absorbed(n.fill_modes, v, vp), ..n }, out, true)
        },
        PropertyModel::Animation(s, vp) => {
            let (n, out) = flush_if(m, shorthand_conflicts(m, s, vp));
            (
                HandlerModel {
                    names: absorbed(n.names, names_of(s), vp),
                    durations: absorbed(n.durations, durations_of(s), vp),
                    timing_functions: absorbed(n.timing_functions, timing_functions_of(s), vp),
                    iteration_counts: absorbed(n.iteration_counts, iteration_counts_of(s), vp),
                    directions: absorbed(n.directions, directions_of(s), vp),
                    play_states: absorbed(n.play_states, play_states_of(s), vp),
                    delays: absorbed(n.delays, delays_of(s), vp),
                    fill_modes: absorbed(n.fill_modes, fill_modes_of(s), vp),
                    ..n
                },
                out,
                true,
            )
        },
        PropertyModel::Unparsed(u) => if spec_is_animation_property(u.property_id) {
            (cleared(m), flush_output(m).push(PropertyModel::Unparsed(spec_get_prefixed(u, m.targets))), true)
        } else {
            (m, Seq::empty(), false)
        },
        PropertyModel::Custom(_) => (m, Seq::empty(), false),
    }
}

fn slot_conflicts<T: SlotValue>(slot: &Option<(Vec<T>, VendorPrefix)>, val: &Vec<T>, vp: VendorPrefix) -> (r: bool)
    ensures
        r == conflicts(slot_view(*slot), views(val@), vp),
{
    match slot {
        Some((v, p)) => !vec_same(v, val) && !p.contains(vp),
        None => false,
    }
}

fn absorb<T: SlotValue>(slot: &mut Option<(Vec<T>, VendorPrefix)>, val: Vec<T>, vp: VendorPrefix)
    ensures
        slot_view(*final(slot)) == absorbed(slot_view(*old(slot)), views(val@), vp),
{
    let p = match slot {
        Some((_, p)) => p.union(vp),
        None => vp,
    };
    *slot = Some((val, p));
}

fn prefix_of<T: View>(slot: &Option<(Vec<T>, VendorPrefix)>) -> (r: VendorPrefix)
    ensures
        r == slot_prefix(slot_view(*slot)),
{
    match slot {
        Some((_, p)) => *p,
        None => VendorPrefix::empty(),
    }
}

fn len_of<T: View>(slot: &Option<(Vec<T>, VendorPrefix)>) -> (r: usize)
    ensures
        r == slot_len(slot_view(*slot)),
{
    match slot {
        Some((v, _)) => v.len(),
        None => 0,
    }
}

/// The longhand that a flush writes for a slot, once the prefixes in `merged`
/// went to the shorthand.
fn leftover<T: View>(slot: Option<(Vec<T>, VendorPrefix)>, merged: VendorPrefix, targets: Option<VendorPrefix>) -> (r:
    Option<(Vec<T>, VendorPrefix)>)
    ensures
        r is Some <==> (slot is Some && !slot_prefix(slot_view(slot)).spec_difference(merged).spec_is_empty()),
        r is Some ==> views(r.unwrap().0@) == views(slot.unwrap().0@) && r.unwrap().1 == spec_expand(
            slot_prefix(slot_view(slot)).spec_difference(merged),
            targets,
        ),
{
    match slot {
        Some((v, p)) => {
            let rest = p.difference(merged);
            if rest.is_empty() {
                None
            } else {
                Some((v, expand(rest, targets)))
            }
        },
        None => None,
    }
}

fn values_of<T: View>(slot: &Option<(Vec<T>, VendorPrefix)>) -> (r: &Vec<T>)
    requires
        slot is Some,
    ensures
        *r == slot.unwrap().0,
{
    let pair = slot.as_ref().unwrap();
    &pair.0
}

/// The animations that eight slots of one length spell, index by index.
fn zip_slots(
    names: &Option<(Vec<AnimationName>, VendorPrefix)>,
    durations: &Option<(Vec<Time>, VendorPrefix)>,
    timing_functions: &Option<(Vec<EasingFunction>, VendorPrefix)>,
    iteration_counts: &Option<(Vec<AnimationIterationCount>, VendorPrefix)>,
    directions: &Option<(Vec<AnimationDirection>, VendorPrefix)>,
    play_states: &Option<(Vec<AnimationPlayState>, VendorPrefix)>,
    delays: &Option<(Vec<Time>, VendorPrefix)>,
    fill_modes: &Option<(Vec<AnimationFillMode>, VendorPrefix)>,
    targets: Option<VendorPrefix>,
) -> (r: Vec<Animation>)
    requires
        mergeable(
            HandlerModel {
                targets,
                names: slot_view(*names),
                durations: slot_view(*durations),
                timing_functions: slot_view(*timing_functions),
                iteration_counts: slot_view(*iteration_counts),
                directions: slot_view(*directions),
                play_states: slot_view(*play_states),
                delays: slot_view(*delays),
                fill_modes: slot_view(*fill_modes),
            },
        ),
    ensures
        views(r@) == zipped(
            HandlerModel {
                targets,
                names: slot_view(*names),
                durations: slot_view(*durations),
                timing_functions: slot_view(*timing_functions),
                iteration_counts: slot_view(*iteration_counts),
                directions: slot_view(*directions),
                play_states: slot_view(*play_states),
                delays: slot_view(*delays),
                fill_modes: slot_view(*fill_modes),
            },
        ),
{
    let ghost m = HandlerModel {
        targets,
        names: slot_view(*names),
        durations: slot_view(*durations),
        timing_functions: slot_view(*timing_functions),
        iteration_counts: slot_view(*iteration_counts),
        directions: slot_view(*directions),
        play_states: slot_view(*play_states),
        delays: slot_view(*delays),
        fill_modes: slot_view(*fill_modes),
    };
    let nv = values_of(names);
    let dv = values_of(durations);
    let tv = values_of(timing_functions);
    let cv = values_of(iteration_counts);
    let rv = values_of(directions);
    let pv = values_of(play_states);
    let lv = values_of(delays);
    let fv = values_of(fill_modes);
    let len = nv.len();
    let mut out: Vec<Animation> = Vec::new();
    let mut i: usize = 0;
    while i < len
        invariant
            0 <= i <= len,
            len == nv@.len(),
            mergeable(m),
            m.names.unwrap().0 == views(nv@),
            m.durations.unwrap().0 == views(dv@),
            m.timing_functions.unwrap().0 == views(tv@),
            m.iteration_counts.unwrap().0 == views(cv@),
            m.directions.unwrap().0 == views(rv@),
            m.play_states.unwrap().0 == views(pv@),
            m.delays.unwrap().0 == views(lv@),
            m.fill_modes.unwrap().0 == views(fv@),
            views(out@) == zipped(m).subrange(0, i as int),
        decreases len - i,
    {
        let a = Animation {
            name: nv[i].duplicate(),
            duration: dv[i],
            timing_function: tv[i],
            iteration_count: cv[i],
            direction: rv[i],
            play_state: pv[i],
            delay: lv[i],
            fill_mode: fv[i],
        };
        let ghost before = out@;
        assert(a@ == zipped(m)[i as int]);
        out.push(a);
        assert(views(out@) =~= views(before).push(a@));
        i = i + 1;
        assert(views(out@) =~= zipped(m).subrange(0, i as int));
    }
    assert(zipped(m).subrange(0, len as int) =~= zipped(m));
    out
}

/// Takes a shorthand's animations apart into one list per longhand.
fn decompose(s: &Vec<Animation>) -> (r: (
    Vec<AnimationName>,
    Vec<Time>,
    Vec<EasingFunction>,
    Vec<AnimationIterationCount>,
    Vec<AnimationDirection>,
    Vec<AnimationPlayState>,
    Vec<Time>,
    Vec<AnimationFillMode>,
))
    ensures
        views(r.0@) == names_of(views(s@)),
        views(r.1@) == durations_of(views(s@)),
        views(r.2@) == timing_functions_of(views(s@)),
        views(r.3@) == iteration_counts_of(views(s@)),
        views(r.4@) == directions_of(views(s@)),
        views(r.5@) == play_states_of(views(s@)),
        views(r.6@) == delays_of(views(s@)),
        views(r.7@) == fill_modes_of(views(s@)),
{
    let ghost m = views(s@);
    let mut n: Vec<AnimationName> = Vec::new();
    let mut d: Vec<Time> = Vec::new();
    let mut t: Vec<EasingFunction> = Vec::new();
    let mut c: Vec<AnimationIterationCount> = Vec::new();
    let mut r: Vec<AnimationDirection> = Vec::new();
    let mut p: Vec<AnimationPlayState> = Vec::new();
    let mut l: Vec<Time> = Vec::new();
    let mut f: Vec<AnimationFillMode> = Vec::new();
    let mut i: usize = 0;
    while i < s.len()
        invariant
            0 <= i <= s@.len(),
            m == views(s@),
            views(n@) == names_of(m.subrange(0, i as int)),
            views(d@) == durations_of(m.subrange(0, i as int)),
            views(t@) == timing_functions_of(m.subrange(0, i as int)),
            views(c@) == iteration_counts_of(m.subrange(0, i as int)),
            views(r@) == directions_of(m.subrange(0, i as int)),
            views(p@) == play_states_of(m.subrange(0, i as int)),
            views(l@) == delays_of(m.subrange(0, i as int)),
            views(f@) == fill_modes_of(m.subrange(0, i as int)),
        decreases s@.len() - i,
    {
        let a = &s[i];
        let ghost (n0, d0, t0, c0, r0, p0, l0, f0) = (n@, d@, t@, c@, r@, p@, l@, f@);
        n.push(a.name.duplicate());
        d.push(a.duration);
        t.push(a.timing_function);
        c.push(a.iteration_count);
        r.push(a.direction);
        p.push(a.play_state);
        l.push(a.delay);
        f.push(a.fill_mode);
        let ghost sub = m.subrange(0, i + 1);
        assert(sub =~= m.subrange(0, i as int).push(m[i as int]));
        assert(views(n@) =~= views(n0).push(m[i as int].name));
        assert(views(n@) =~= names_of(sub));
        assert(views(d@) =~= views(d0).push(m[i as int].duration));
        assert(views(t@) =~= views(t0).push(m[i as int].timing_function));
        assert(views(c@) =~= views(c0).push(m[i as int].iteration_count));
        assert(views(r@) =~= views(r0).push(m[i as int].direction));
        assert(views(p@) =~= views(p0).push(m[i as int].play_state));
        assert(views(l@) =~= views(l0).push(m[i as int].delay));
        assert(views(f@) =~= views(f0).push(m[i as int].fill_mode));
        assert(views(d@) =~= durations_of(sub));
        assert(views(t@) =~= timing_functions_of(sub));
        assert(views(c@) =~= iteration_counts_of(sub));
        assert(views(r@) =~= directions_of(sub));
        assert(views(p@) =~= play_states_of(sub));
        assert(views(l@) =~= delays_of(sub));
        assert(views(f@) =~= fill_modes_of(sub));
        i = i + 1;
    }
    assert(m.subrange(0, s@.len() as int) =~= m);
    (n, d, t, c, r, p, l, f)
}

fn emit_names(dest: &mut Vec<Property>, slot: Option<(Vec<AnimationName>, VendorPrefix)>, merged: VendorPrefix, targets: Option<VendorPrefix>)
    ensures
        views(final(dest)@) == views(old(dest)@) + (if writes_longhand(slot_view(slot), merged) {
            seq![PropertyModel::AnimationName(slot_view(slot).unwrap().0, spec_expand(remaining(slot_view(slot), merged), targets))]
        } else {
            Seq::empty()
        }),
{
    if let Some((v, p)) = leftover(slot, merged, targets) {
        let prop = Property::AnimationName(v, p);
        dest.push(prop);
        assert(views(final(dest)@) =~= views(old(dest)@).push(prop@));
    } else {
        assert(views(final(dest)@) =~= views(old(dest)@));
    }
}

fn emit_durations(dest: &mut Vec<Property>, slot: Option<(Vec<Time>, VendorPrefix)>, merged: VendorPrefix, targets: Option<VendorPrefix>)
    ensures
        views(final(dest)@) == views(old(dest)@) + (if writes_longhand(slot_view(slot), merged) {
            seq![PropertyModel::AnimationDuration(slot_view(slot).unwrap().0, spec_expand(remaining(slot_view(slot), merged), targets))]
        } else {
            Seq::empty()
        }),
{
    if let Some((v, p)) = leftover(slot, merged, targets) {
        let prop = Property::AnimationDuration(v, p);
        dest.push(prop);
        assert(views(final(dest)@) =~= views(old(dest)@).push(prop@));
    } else {
        assert(views(final(dest)@) =~= views(old(dest)@));
    }
}

fn emit_timing_functions(dest: &mut Vec<Property>, slot: Option<(Vec<EasingFunction>, VendorPrefix)>, merged: VendorPrefix, targets: Option<VendorPrefix>)
    ensures
        views(final(dest)@) == views(old(dest)@) + (if writes_longhand(slot_view(slot), merged) {
            seq![PropertyModel::AnimationTimingFunction(slot_view(slot).unwrap().0, spec_expand(remaining(slot_view(slot), merged), targets))]
        } else {
            Seq::empty()
        }),
{
    if let Some((v, p)) = leftover(slot, merged, targets) {
        let prop = Property::AnimationTimingFunction(v, p);
        dest.push(prop);
        assert(views(final(dest)@) =~= views(old(dest)@).push(prop@));
    } else {
        assert(views(final(dest)@) =~= views(old(dest)@));
    }
}

fn emit_iteration_counts(dest: &mut Vec<Property>, slot: Option<(Vec<AnimationIterationCount>, VendorPrefix)>, merged: VendorPrefix, targets: Option<VendorPrefix>)
    ensures
        views(final(dest)@) == views(old(dest)@) + (if writes_longhand(slot_view(slot), merged) {
            seq![PropertyModel::AnimationIterationCount(slot_view(slot).unwrap().0, spec_expand(remaining(slot_view(slot), merged), targets))]
        } else {
            Seq::empty()
        }),
{
    if let Some((v, p)) = leftover(slot, merged, targets) {
        let prop = Property::AnimationIterationCount(v, p);
        dest.push(prop);
        assert(views(final(dest)@) =~= views(old(dest)@).push(prop@));
    } else {
        assert(views(final(dest)@) =~= views(old(dest)@));
    }
}

fn emit_directions(dest: &mut Vec<Property>, slot: Option<(Vec<AnimationDirection>, VendorPrefix)>, merged: VendorPrefix, targets: Option<VendorPrefix>)
    ensures
        views(final(dest)@) == views(old(dest)@) + (if writes_longhand(slot_view(slot), merged) {
            seq![PropertyModel::AnimationDirection(slot_view(slot).unwrap().0, spec_expand(remaining(slot_view(slot), merged), targets))]
        } else {
            Seq::empty()
        }),
{
    if let Some((v, p)) = leftover(slot, merged, targets) {
        let prop = Property::AnimationDirection(v, p);
        dest.push(prop);
        assert(views(final(dest)@) =~= views(old(dest)@).push(prop@));
    } else {
        assert(views(final(dest)@) =~= views(old(dest)@));
    }
}

fn emit_play_states(dest: &mut Vec<Property>, slot: Option<(Vec<AnimationPlayState>, VendorPrefix)>, merged: VendorPrefix, targets: Option<VendorPrefix>)
    ensures
        views(final(dest)@) == views(old(dest)@) + (if writes_longhand(slot_view(slot), merged) {
            seq![PropertyModel::AnimationPlayState(slot_view(slot).unwrap().0, spec_expand(remaining(slot_view(slot), merged), targets))]
        } else {
            Seq::empty()
        }),
{
    if let Some((v, p)) = leftover(slot, merged, targets) {
        let prop = Property::AnimationPlayState(v, p);
        dest.push(prop);
        assert(views(final(dest)@) =~= views(old(dest)@).push(prop@));
    } else {
        assert(views(final(dest)@) =~= views(old(dest)@));
    }
}

fn emit_delays(dest: &mut Vec<Property>, slot: Option<(Vec<Time>, VendorPrefix)>, merged: VendorPrefix, targets: Option<VendorPrefix>)
    ensures
        views(final(dest)@) == views(old(dest)@) + (if writes_longhand(slot_view(slot), merged) {
            seq![PropertyModel::AnimationDelay(slot_view(slot).unwrap().0, spec_expand(remaining(slot_view(slot), merged), targets))]
        } else {
            Seq::empty()
        }),
{
    if let Some((v, p)) = leftover(slot, merged, targets) {
        let prop = Property::AnimationDelay(v, p);
        dest.push(prop);
        assert(views(final(dest)@) =~= views(old(dest)@).push(prop@));
    } else {
        assert(views(final(dest)@) =~= views(old(dest)@));
    }
}

fn emit_fill_modes(dest: &mut Vec<Property>, slot: Option<(Vec<AnimationFillMode>, VendorPrefix)>, merged: VendorPrefix, targets: Option<VendorPrefix>)
    ensures
        views(final(dest)@) == views(old(dest)@) + (if writes_longhand(slot_view(slot), merged) {
            seq![PropertyModel::AnimationFillMode(slot_view(slot).unwrap().0, spec_expand(remaining(slot_view(slot), merged), targets))]
        } else {
            Seq::empty()
        }),
{
    if let Some((v, p)) = leftover(slot, merged, targets) {
        let prop = Property::AnimationFillMode(v, p);
        dest.push(prop);
        assert(views(final(dest)@) =~= views(old(dest)@).push(prop@));
    } else {
        assert(views(final(dest)@) =~= views(old(dest)@));
    }
}

/// Writes, in slot order, each slot with prefixes left once `merged` went to
/// the shorthand.
fn emit_longhands(
    dest: &mut Vec<Property>,
    names: Option<(Vec<AnimationName>, VendorPrefix)>,
    durations: Option<(Vec<Time>, VendorPrefix)>,
    timing_functions: Option<(Vec<EasingFunction>, VendorPrefix)>,
    iteration_counts: Option<(Vec<AnimationIterationCount>, VendorPrefix)>,
    directions: Option<(Vec<AnimationDirection>, VendorPrefix)>,
    play_states: Option<(Vec<AnimationPlayState>, VendorPrefix)>,
    delays: Option<(Vec<Time>, VendorPrefix)>,
    fill_modes: Option<(Vec<AnimationFillMode>, VendorPrefix)>,
    merged: VendorPrefix,
    targets: Option<VendorPrefix>,
)
    ensures
        views(final(dest)@) == views(old(dest)@) + longhand_output(HandlerModel {
        targets,
        names: slot_view(names),
        durations: slot_view(durations),
        timing_functions: slot_view(timing_functions),
        iteration_counts: slot_view(iteration_counts),
        directions: slot_view(directions),
        play_states: slot_view(play_states),
        delays: slot_view(delays),
        fill_modes: slot_view(fill_modes),
    }, merged),
{
    let ghost m = HandlerModel {
        targets,
        names: slot_view(names),
        durations: slot_view(durations),
        timing_functions: slot_view(timing_functions),
        iteration_counts: slot_view(iteration_counts),
        directions: slot_view(directions),
        play_states: slot_view(play_states),
        delays: slot_view(delays),
        fill_modes: slot_view(fill_modes),
    };
    let ghost d0 = views(dest@);
    let ghost p0 = if writes_longhand(m.names, merged) {
        seq![PropertyModel::AnimationName(m.names.unwrap().0, spec_expand(remaining(m.names, merged), m.targets))]
    } else {
        Seq::empty()
    };
    let ghost p1 = if writes_longhand(m.durations, merged) {
        seq![PropertyModel::AnimationDuration(m.durations.unwrap().0, spec_expand(remaining(m.durations, merged), m.targets))]
    } else {
        Seq::empty()
    };
    let ghost p2 = if writes_longhand(m.timing_functions, merged) {
        seq![PropertyModel::AnimationTimingFunction(m.timing_functions.unwrap().0, spec_expand(remaining(m.timing_functions, merged), m.targets))]
    } else {
        Seq::empty()
    };
    let ghost p3 = if writes_longhand(m.iteration_counts, merged) {
        seq![PropertyModel::AnimationIterationCount(m.iteration_counts.unwrap().0, spec_expand(remaining(m.iteration_counts, merged), m.targets))]
    } else {
        Seq::empty()
    };
    let ghost p4 = if writes_longhand(m.directions, merged) {
        seq![PropertyModel::AnimationDirection(m.directions.unwrap().0, spec_expand(remaining(m.directions, merged), m.targets))]
    } else {
        Seq::empty()
    };
    let ghost p5 = if writes_longhand(m.play_states, merged) {
        seq![PropertyModel::AnimationPlayState(m.play_states.unwrap().0, spec_expand(remaining(m.play_states, merged), m.targets))]
    } else {
        Seq::empty()
    };
    let ghost p6 = if writes_longhand(m.delays, merged) {
        seq![PropertyModel::AnimationDelay(m.delays.unwrap().0, spec_expand(remaining(m.delays, merged), m.targets))]
    } else {
        Seq::empty()
    };
    let ghost p7 = if writes_longhand(m.fill_modes, merged) {
        seq![PropertyModel::AnimationFillMode(m.fill_modes.unwrap().0, spec_expand(remaining(m.fill_modes, merged), m.targets))]
    } else {
        Seq::empty()
    };
    emit_names(dest, names, merged, targets);
    emit_durations(dest, durations, merged, targets);
    emit_timing_functions(dest, timing_functions, merged, targets);
    emit_iteration_counts(dest, iteration_counts, merged, targets);
    emit_directions(dest, directions, merged, targets);
    emit_play_states(dest, play_states, merged, targets);
    emit_delays(dest, delays, merged, targets);
    emit_fill_modes(dest, fill_modes, merged, targets);
    proof {
        lemma_concat_associative(d0, p0, p1);
        lemma_concat_associative(d0, p0 + p1, p2);
        lemma_concat_associative(d0, p0 + p1 + p2, p3);
        lemma_concat_associative(d0, p0 + p1 + p2 + p3, p4);
        lemma_concat_associative(d0, p0 + p1 + p2 + p3 + p4, p5);
        lemma_concat_associative(d0, p0 + p1 + p2 + p3 + p4 + p5, p6);
        lemma_concat_associative(d0, p0 + p1 + p2 + p3 + p4 + p5 + p6, p7);
    }
}

/// Whether a flush of these slots writes a shorthand, and the prefixes common to all.
#[verifier::rlimit(100)]
fn merge_plan(
    names: &Option<(Vec<AnimationName>, VendorPrefix)>,
    durations: &Option<(Vec<Time>, VendorPrefix)>,
    timing_functions: &Option<(Vec<EasingFunction>, VendorPrefix)>,
    iteration_counts: &Option<(Vec<AnimationIterationCount>, VendorPrefix)>,
    directions: &Option<(Vec<AnimationDirection>, VendorPrefix)>,
    play_states: &Option<(Vec<AnimationPlayState>, VendorPrefix)>,
    delays: &Option<(Vec<Time>, VendorPrefix)>,
    fill_modes: &Option<(Vec<AnimationFillMode>, VendorPrefix)>,
    targets: Option<VendorPrefix>,
) -> (r: (bool, VendorPrefix))
    ensures
        r.0 == mergeable(HandlerModel {
                targets,
                names: slot_view(*names),
                durations: slot_view(*durations),
                timing_functions: slot_view(*timing_functions),
                iteration_counts: slot_view(*iteration_counts),
                directions: slot_view(*directions),
                play_states: slot_view(*play_states),
                delays: slot_view(*delays),
                fill_modes: slot_view(*fill_modes),
            }),
        r.1 == intersection(HandlerModel {
                targets,
                names: slot_view(*names),
                durations: slot_view(*durations),
                timing_functions: slot_view(*timing_functions),
                iteration_counts: slot_view(*iteration_counts),
                directions: slot_view(*directions),
                play_states: slot_view(*play_states),
                delays: slot_view(*delays),
                fill_modes: slot_view(*fill_modes),
            }),
{
    let inter = prefix_of(names).intersect(prefix_of(durations)).intersect(prefix_of(timing_functions)).intersect(
        prefix_of(iteration_counts),
    ).intersect(prefix_of(directions)).intersect(prefix_of(play_states)).intersect(prefix_of(delays)).intersect(
        prefix_of(fill_modes),
    );
    let len = len_of(names);
    let merge = names.is_some() && durations.is_some() && timing_functions.is_some()
        && iteration_counts.is_some() && directions.is_some() && play_states.is_some() && delays.is_some()
        && fill_modes.is_some() && !inter.is_empty() && len_of(durations) == len && len_of(timing_functions)
        == len && len_of(iteration_counts) == len && len_of(directions) == len && len_of(play_states) == len
        && len_of(delays) == len && len_of(fill_modes) == len;
    (merge, inter)
}

fn append_one(dest: &mut Vec<Property>, p: Property)
    ensures
        views(final(dest)@) == views(old(dest)@) + seq![p@],
{
    let ghost p_view = p@;
    dest.push(p);
    assert(views(final(dest)@) =~= views(old(dest)@) + seq![p_view]);
}

/// Accumulates the animation declarations of one declaration block, in source
/// order, and writes them back merged where that changes nothing for any engine.
pub struct AnimationHandler {
    targets: Option<VendorPrefix>,
    names: Option<(Vec<AnimationName>, VendorPrefix)>,
    durations: Option<(Vec<Time>, VendorPrefix)>,
    timing_functions: Option<(Vec<EasingFunction>, VendorPrefix)>,
    iteration_counts: Option<(Vec<AnimationIterationCount>, VendorPrefix)>,
    directions: Option<(Vec<AnimationDirection>, VendorPrefix)>,
    play_states: Option<(Vec<AnimationPlayState>, VendorPrefix)>,
    delays: Option<(Vec<Time>, VendorPrefix)>,
    fill_modes: Option<(Vec<AnimationFillMode>, VendorPrefix)>,
}

impl View for AnimationHandler {
    type V = HandlerModel;

    closed spec fn view(&self) -> HandlerModel {
        HandlerModel {
            targets: self.targets,
            names: slot_view(self.names),
            durations: slot_view(self.durations),
            timing_functions: slot_view(self.timing_functions),
            iteration_counts: slot_view(self.iteration_counts),
            directions: slot_view(self.directions),
            play_states: slot_view(self.play_states),
            delays: slot_view(self.delays),
            fill_modes: slot_view(self.fill_modes),
        }
    }
}

/// An accumulator with no slot set.
pub open spec fn fresh(targets: Option<VendorPrefix>) -> HandlerModel {
    cleared(HandlerModel {
        targets,
        names: None,
        durations: None,
        timing_functions: None,
        iteration_counts: None,
        directions: None,
        play_states: None,
        delays: None,
        fill_modes: None,
    })
}

impl AnimationHandler {
    /// An empty accumulator. `targets` is the set of prefixes that the browser
    /// targets need for animations, where targets are configured.
    pub fn new(targets: Option<VendorPrefix>) -> (r: AnimationHandler)
        ensures
            r@ == fresh(targets),
    {
        AnimationHandler {
            targets,
            names: None,
            durations: None,
            timing_functions: None,
            iteration_counts: None,
            directions: None,
            play_states: None,
            delays: None,
            fill_modes: None,
        }
    }

    /// Writes what has accumulated and clears every slot.
    pub fn flush(&mut self, dest: &mut Vec<Property>)
        ensures
            final(self)@ == cleared(old(self)@),
            views(final(dest)@) == views(old(dest)@) + flush_output(old(self)@),
    {
        let ghost m = self@;
        let ghost d0 = views(dest@);
        let targets = self.targets;
        let names = self.names.take();
        let durations = self.durations.take();
        let timing_functions = self.timing_functions.take();
        let iteration_counts = self.iteration_counts.take();
        let directions = self.directions.take();
        let play_states = self.play_states.take();
        let delays = self.delays.take();
        let fill_modes = self.fill_modes.take();
        let (merge, inter) = merge_plan(
            &names,
            &durations,
            &timing_functions,
            &iteration_counts,
            &directions,
            &play_states,
            &delays,
            &fill_modes,
            targets,
        );
        if merge {
            let animations = zip_slots(
                &names,
                &durations,
                &timing_functions,
                &iteration_counts,
                &directions,
                &play_states,
                &delays,
                &fill_modes,
                targets,
            );
            let prop = Property::Animation(animations, expand(inter, targets));
            assert(prop@ == PropertyModel::Animation(zipped(m), spec_expand(intersection(m), m.targets)));
            append_one(dest, prop);
        } else {
            proof {
                assert(d0 + Seq::<PropertyModel>::empty() =~= d0);
            }
        }
        let merged = if merge {
            inter
        } else {
            VendorPrefix::empty()
        };
        let ghost d1 = views(dest@);
        emit_longhands(
            dest,
            names,
            durations,
            timing_functions,
            iteration_counts,
            directions,
            play_states,
            delays,
            fill_modes,
            merged,
            targets,
        );
        proof {
            reveal(flush_output);
            lemma_concat_associative(d0, shorthand_output(m), longhand_output(m, merged_prefixes(m)));
        }
    }

    fn handle_names(&mut self, val: &Vec<AnimationName>, vp: VendorPrefix, dest: &mut Vec<Property>)
        ensures
            final(self)@ == spec_handle(old(self)@, PropertyModel::AnimationName(views(val@), vp)).0,
            views(final(dest)@) == views(old(dest)@) + spec_handle(old(self)@, PropertyModel::AnimationName(views(val@), vp)).1,
    {
        if slot_conflicts(&self.names, val, vp) {
            self.flush(dest);
        } else {
            assert(views(dest@) =~= views(old(dest)@) + Seq::<PropertyModel>::empty());
        }
        absorb(&mut self.names, vec_duplicate(val), vp);
    }

    fn handle_durations(&mut self, val: &Vec<Time>, vp: VendorPrefix, dest: &mut Vec<Property>)
        ensures
            final(self)@ == spec_handle(old(self)@, PropertyModel::AnimationDuration(views(val@), vp)).0,
            views(final(dest)@) == views(old(dest)@) + spec_handle(old(self)@, PropertyModel::AnimationDuration(views(val@), vp)).1,
    {
        if slot_conflicts(&self.durations, val, vp) {
            self.flush(dest);
        } else {
            assert(views(dest@) =~= views(old(dest)@) + Seq::<PropertyModel>::empty());
        }
        absorb(&mut self.durations, vec_duplicate(val), vp);
    }

    fn handle_timing_functions(&mut self, val: &Vec<EasingFunction>, vp: VendorPrefix, dest: &mut Vec<Property>)
        ensures
            final(self)@ == spec_handle(old(self)@, PropertyModel::AnimationTimingFunction(views(val@), vp)).0,
            views(final(dest)@) == views(old(dest)@) + spec_handle(old(self)@, PropertyModel::AnimationTimingFunction(views(val@), vp)).1,
    {
        if slot_conflicts(&self.timing_functions, val, vp) {
            self.flush(dest);
        } else {
            assert(views(dest@) =~= views(old(dest)@) + Seq::<PropertyModel>::empty());
        }
        absorb(&mut self.timing_functions, vec_duplicate(val), vp);
    }

    fn handle_iteration_counts(&mut self, val: &Vec<AnimationIterationCount>, vp: VendorPrefix, dest: &mut Vec<Property>)
        ensures
            final(self)@ == spec_handle(old(self)@, PropertyModel::AnimationIterationCount(views(val@), vp)).0,
            views(final(dest)@) == views(old(dest)@) + spec_handle(old(self)@, PropertyModel::AnimationIterationCount(views(val@), vp)).1,
    {
        if slot_conflicts(&self.iteration_counts, val, vp) {
            self.flush(dest);
        } else {
            assert(views(dest@) =~= views(old(dest)@) + Seq::<PropertyModel>::empty());
        }
        absorb(&mut self.iteration_counts, vec_duplicate(val), vp);
    }

    fn handle_directions(&mut self, val: &Vec<AnimationDirection>, vp: VendorPrefix, dest: &mut Vec<Property>)
        ensures
            final(self)@ == spec_handle(old(self)@, PropertyModel::AnimationDirection(views(val@), vp)).0,
            views(final(dest)@) == views(old(dest)@) + spec_handle(old(self)@, PropertyModel::AnimationDirection(views(val@), vp)).1,
    {
        if slot_conflicts(&self.directions, val, vp) {
            self.flush(dest);
        } else {
            assert(views(dest@) =~= views(old(dest)@) + Seq::<PropertyModel>::empty());
        }
        absorb(&mut self.directions, vec_duplicate(val), vp);
    }

    fn handle_play_states(&mut self, val: &Vec<AnimationPlayState>, vp: VendorPrefix, dest: &mut Vec<Property>)
        ensures
            final(self)@ == spec_handle(old(self)@, PropertyModel::AnimationPlayState(views(val@), vp)).0,
            views(final(dest)@) == views(old(dest)@) + spec_handle(old(self)@, PropertyModel::AnimationPlayState(views(val@), vp)).1,
    {
        if slot_conflicts(&self.play_states, val, vp) {
            self.flush(dest);
        } else {
            assert(views(dest@) =~= views(old(dest)@) + Seq::<PropertyModel>::empty());
        }
        absorb(&mut self.play_states, vec_duplicate(val), vp);
    }

    fn handle_delays(&mut self, val: &Vec<Time>, vp: VendorPrefix, dest: &mut Vec<Property>)
        ensures
            final(self)@ == spec_handle(old(self)@, PropertyModel::AnimationDelay(views(val@), vp)).0,
            views(final(dest)@) == views(old(dest)@) + spec_handle(old(self)@, PropertyModel::AnimationDelay(views(val@), vp)).1,
    {
        if slot_conflicts(&self.delays, val, vp) {
            self.flush(dest);
        } else {
            assert(views(dest@) =~= views(old(dest)@) + Seq::<PropertyModel>::empty());
        }
        absorb(&mut self.delays, vec_duplicate(val), vp);
    }

    fn handle_fill_modes(&mut self, val: &Vec<AnimationFillMode>, vp: VendorPrefix, dest: &mut Vec<Property>)
        ensures
            final(self)@ == spec_handle(old(self)@, PropertyModel::AnimationFillMode(views(val@), vp)).0,
            views(final(dest)@) == views(old(dest)@) + spec_handle(old(self)@, PropertyModel::AnimationFillMode(views(val@), vp)).1,
    {
        if slot_conflicts(&self.fill_modes, val, vp) {
            self.flush(dest);
        } else {
            assert(views(dest@) =~= views(old(dest)@) + Seq::<PropertyModel>::empty());
        }
        absorb(&mut self.fill_modes, vec_duplicate(val), vp);
    }

    fn handle_shorthand(&mut self, val: &Vec<Animation>, vp: VendorPrefix, dest: &mut Vec<Property>)
        ensures
            final(self)@ == spec_handle(old(self)@, PropertyModel::Animation(views(val@), vp)).0,
            views(final(dest)@) == views(old(dest)@) + spec_handle(old(self)@, PropertyModel::Animation(views(val@), vp)).1,
    {
        let (names, durations, timing_functions, iteration_counts, directions, play_states, delays, fill_modes) =
            decompose(val);
        let any = slot_conflicts(&self.names, &names, vp) || slot_conflicts(&self.durations, &durations, vp) || slot_conflicts(&self.timing_functions, &timing_functions, vp) || slot_conflicts(&self.iteration_counts, &iteration_counts, vp) || slot_conflicts(&self.directions, &directions, vp) || slot_conflicts(&self.play_states, &play_states, vp) || slot_conflicts(&self.delays, &delays, vp) || slot_conflicts(&self.fill_modes, &fill_modes, vp);
        if any {
            self.flush(dest);
        } else {
            assert(views(dest@) =~= views(old(dest)@) + Seq::<PropertyModel>::empty());
        }
        absorb(&mut self.names, names, vp);
        absorb(&mut self.durations, durations, vp);
        absorb(&mut self.timing_functions, timing_functions, vp);
        absorb(&mut self.iteration_counts, iteration_counts, vp);
        absorb(&mut self.directions, directions, vp);
        absorb(&mut self.play_states, play_states, vp);
        absorb(&mut self.delays, delays, vp);
        absorb(&mut self.fill_modes, fill_modes, vp);
    }

    /// Takes one declaration, in source order. A longhand or shorthand of the
    /// animation family first flushes where one of its slots holds another
    /// value not declared with all of its prefixes, then updates its slots; an
    /// unparsed declaration of the family flushes and is written as it is, with
    /// the prefixes that the targets need. Returns whether the declaration
    /// belongs to the family; any other declaration changes nothing.
    pub fn handle_property(&mut self, property: &Property, dest: &mut Vec<Property>) -> (r: bool)
        ensures
            final(self)@ == spec_handle(old(self)@, property@).0,
            views(final(dest)@) == views(old(dest)@) + spec_handle(old(self)@, property@).1,
            r == spec_handle(old(self)@, property@).2,
    {
        match property {
            Property::AnimationName(val, vp) => self.handle_names(val, *vp, dest),
            Property::AnimationDuration(val, vp) => self.handle_durations(val, *vp, dest),
            Property::AnimationTimingFunction(val, vp) => self.handle_timing_functions(val, *vp, dest),
            Property::AnimationIterationCount(val, vp) => self.handle_iteration_counts(val, *vp, dest),
            Property::AnimationDirection(val, vp) => self.handle_directions(val, *vp, dest),
            Property::AnimationPlayState(val, vp) => self.handle_play_states(val, *vp, dest),
            Property::AnimationDelay(val, vp) => self.handle_delays(val, *vp, dest),
            Property::AnimationFillMode(val, vp) => self.handle_fill_modes(val, *vp, dest),
            Property::Animation(val, vp) => self.handle_shorthand(val, *vp, dest),
            Property::Unparsed(u) => {
                if is_animation_property(&u.property_id) {
                    self.flush(dest);
                    let ghost d1 = views(dest@);
                    let prop = Property::Unparsed(u.get_prefixed(self.targets));
                    dest.push(prop);
                    assert(views(dest@) =~= d1.push(prop@));
                } else {
                    assert(views(dest@) =~= views(old(dest)@) + Seq::<PropertyModel>::empty());
                    return false;
                }
            },
            Property::Custom(_) => {
                assert(views(dest@) =~= views(old(dest)@) + Seq::<PropertyModel>::empty());
                return false;
            },
        }
        true
    }

    /// Ends the block: writes what has accumulated.
    pub fn finalize(&mut self, dest: &mut Vec<Property>)
        ensures
            final(self)@ == cleared(old(self)@),
            views(final(dest)@) == views(old(dest)@) + flush_output(old(self)@),
    {
        self.flush(dest);
    }
}

/// The accumulator after the declarations `s`, from state `m`, and what it
/// wrote; a declaration outside the animation family is written as it comes.
pub open spec fn run(m: HandlerModel, s: Seq<PropertyModel>) -> (HandlerModel, Seq<PropertyModel>)
    decreases s.len(),
{
    if s.len() == 0 {
        (m, Seq::empty())
    } else {
        let (m1, out1) = run(m, s.drop_last());
        let (m2, out2, handled) = spec_handle(m1, s.last());
        (m2, out1 + out2 + if handled {
            Seq::empty()
        } else {
            seq![s.last()]
        })
    }
}

/// A declaration block once its animation declarations are merged.
pub open spec fn spec_minify(s: Seq<PropertyModel>, targets: Option<VendorPrefix>) -> Seq<PropertyModel> {
    run(fresh(targets), s).1 + flush_output(run(fresh(targets), s).0)
}

/// Merges the animation declarations of a block: each declaration goes to an
/// accumulator in order, those outside the family are kept where they stand,
/// and the accumulator is flushed at the end.
pub fn minify_declarations(decls: &Vec<Property>, targets: Option<VendorPrefix>) -> (r: Vec<Property>)
    ensures
        views(r@) == spec_minify(views(decls@), targets),
{
    let ghost s = views(decls@);
    let mut handler = AnimationHandler::new(targets);
    let mut out: Vec<Property> = Vec::new();
    let mut i: usize = 0;
    assert(s.subrange(0, 0) =~= Seq::<PropertyModel>::empty());
    while i < decls.len()
        invariant
            0 <= i <= decls@.len(),
            s == views(decls@),
            handler@ == run(fresh(targets), s.subrange(0, i as int)).0,
            views(out@) == run(fresh(targets), s.subrange(0, i as int)).1,
        decreases decls@.len() - i,
    {
        let ghost sub = s.subrange(0, i + 1);
        assert(sub.drop_last() =~= s.subrange(0, i as int));
        assert(sub.last() == decls@[i as int]@);
        let ghost before = views(out@);
        let handled = handler.handle_property(&decls[i], &mut out);
        if !handled {
            let ghost mid = views(out@);
            let d = decls[i].duplicate();
            out.push(d);
            assert(views(out@) =~= mid.push(d@));
            assert(views(out@) =~= mid + seq![sub.last()]);
        } else {
            assert(views(out@) =~= views(out@) + Seq::<PropertyModel>::empty());
        }
        i = i + 1;
    }
    assert(s.subrange(0, s.len() as int) =~= s);
    handler.finalize(&mut out);
    out
}

/// The slot that a longhand declaration sets, by its position in slot order;
/// `None` for any other declaration.
pub open spec fn longhand_slot(p: PropertyModel) -> Option<int> {
    match p {
        PropertyModel::AnimationName(..) => Some(0),
        PropertyModel::AnimationDuration(..) => Some(1),
        PropertyModel::AnimationTimingFunction(..) => Some(2),
        PropertyModel::AnimationIterationCount(..) => Some(3),
        PropertyModel::AnimationDirection(..) => Some(4),
        PropertyModel::AnimationPlayState(..) => Some(5),
        PropertyModel::AnimationDelay(..) => Some(6),
        PropertyModel::AnimationFillMode(..) => Some(7),
        _ => None,
    }
}

/// Whether the declaration `p` finds, in state `m`, a slot that holds another
/// value not declared with all of `p`'s prefixes.
pub open spec fn decl_conflicts(m: HandlerModel, p: PropertyModel) -> bool {
    match p {
        PropertyModel::AnimationName(v, vp) => conflicts(m.names, v, vp),
        PropertyModel::AnimationDuration(v, vp) => conflicts(m.durations, v, vp),
        PropertyModel::AnimationTimingFunction(v, vp) => conflicts(m.timing_functions, v, vp),
        PropertyModel::AnimationIterationCount(v, vp) => conflicts(m.iteration_counts, v, vp),
        PropertyModel::AnimationDirection(v, vp) => conflicts(m.directions, v, vp),
        PropertyModel::AnimationPlayState(v, vp) => conflicts(m.play_states, v, vp),
        PropertyModel::AnimationDelay(v, vp) => conflicts(m.delays, v, vp),
        PropertyModel::AnimationFillMode(v, vp) => conflicts(m.fill_modes, v, vp),
        PropertyModel::Animation(s, vp) => shorthand_conflicts(m, s, vp),
        _ => false,
    }
}

/// A longhand or shorthand declaration flushes exactly when one of its slots
/// holds a different value that was not declared with all of its prefixes:
/// then it writes what had accumulated, else it writes nothing.
pub proof fn lemma_flush_exactly_on_conflict(m: HandlerModel, p: PropertyModel)
    requires
        longhand_slot(p) is Some || p is Animation,
    ensures
        spec_handle(m, p).1 == (if decl_conflicts(m, p) {
            flush_output(m)
        } else {
            Seq::empty()
        }),
        spec_handle(m, p).2,
{
}

#[verifier::rlimit(100)]
proof fn lemma_commute_names(m: HandlerModel, v: Seq<<AnimationName as View>::V>, vp: VendorPrefix, q: PropertyModel)
    requires
        longhand_slot(q) is Some,
        longhand_slot(q) != longhand_slot(PropertyModel::AnimationName(v, vp)),
        !decl_conflicts(m, PropertyModel::AnimationName(v, vp)),
        !decl_conflicts(m, q),
    ensures
        !decl_conflicts(spec_handle(m, PropertyModel::AnimationName(v, vp)).0, q),
        spec_handle(spec_handle(m, PropertyModel::AnimationName(v, vp)).0, q).0 == spec_handle(
            spec_handle(m, q).0,
            PropertyModel::AnimationName(v, vp),
        ).0,
        spec_handle(m, PropertyModel::AnimationName(v, vp)).1.len() == 0,
        spec_handle(spec_handle(m, PropertyModel::AnimationName(v, vp)).0, q).1.len() == 0,
{
    match q {
        PropertyModel::AnimationName(w, wp) => {},
        PropertyModel::AnimationDuration(w, wp) => {},
        PropertyModel::AnimationTimingFunction(w, wp) => {},
        PropertyModel::AnimationIterationCount(w, wp) => {},
        PropertyModel::AnimationDirection(w, wp) => {},
        PropertyModel::AnimationPlayState(w, wp) => {},
        PropertyModel::AnimationDelay(w, wp) => {},
        PropertyModel::AnimationFillMode(w, wp) => {},
        _ => {},
    }
}

#[verifier::rlimit(100)]
proof fn lemma_commute_durations(m: HandlerModel, v: Seq<<Time as View>::V>, vp: VendorPrefix, q: PropertyModel)
    requires
        longhand_slot(q) is Some,
        longhand_slot(q) != longhand_slot(PropertyModel::AnimationDuration(v, vp)),
        !decl_conflicts(m, PropertyModel::AnimationDuration(v, vp)),
        !decl_conflicts(m, q),
    ensures
        !decl_conflicts(spec_handle(m, PropertyModel::AnimationDuration(v, vp)).0, q),
        spec_handle(spec_handle(m, PropertyModel::AnimationDuration(v, vp)).0, q).0 == spec_handle(
            spec_handle(m, q).0,
            PropertyModel::AnimationDuration(v, vp),
        ).0,
        spec_handle(m, PropertyModel::AnimationDuration(v, vp)).1.len() == 0,
        spec_handle(spec_handle(m, PropertyModel::AnimationDuration(v, vp)).0, q).1.len() == 0,
{
    match q {
        PropertyModel::AnimationName(w, wp) => {},
        PropertyModel::AnimationDuration(w, wp) => {},
        PropertyModel::AnimationTimingFunction(w, wp) => {},
        PropertyModel::AnimationIterationCount(w, wp) => {},
        PropertyModel::AnimationDirection(w, wp) => {},
        PropertyModel::AnimationPlayState(w, wp) => {},
        PropertyModel::AnimationDelay(w, wp) => {},
        PropertyModel::AnimationFillMode(w, wp) => {},
        _ => {},
    }
}

#[verifier::rlimit(100)]
proof fn lemma_commute_timing_functions(m: HandlerModel, v: Seq<<EasingFunction as View>::V>, vp: VendorPrefix, q: PropertyModel)
    requires
        longhand_slot(q) is Some,
        longhand_slot(q) != longhand_slot(PropertyModel::AnimationTimingFunction(v, vp)),
        !decl_conflicts(m, PropertyModel::AnimationTimingFunction(v, vp)),
        !decl_conflicts(m, q),
    ensures
        !decl_conflicts(spec_handle(m, PropertyModel::AnimationTimingFunction(v, vp)).0, q),
        spec_handle(spec_handle(m, PropertyModel::AnimationTimingFunction(v, vp)).0, q).0 == spec_handle(
            spec_handle(m, q).0,
            PropertyModel::AnimationTimingFunction(v, vp),
        ).0,
        spec_handle(m, PropertyModel::AnimationTimingFunction(v, vp)).1.len() == 0,
        spec_handle(spec_handle(m, PropertyModel::AnimationTimingFunction(v, vp)).0, q).1.len() == 0,
{
    match q {
        PropertyModel::AnimationName(w, wp) => {},
        PropertyModel::AnimationDuration(w, wp) => {},
        PropertyModel::AnimationTimingFunction(w, wp) => {},
        PropertyModel::AnimationIterationCount(w, wp) => {},
        PropertyModel::AnimationDirection(w, wp) => {},
        PropertyModel::AnimationPlayState(w, wp) => {},
        PropertyModel::AnimationDelay(w, wp) => {},
        PropertyModel::AnimationFillMode(w, wp) => {},
        _ => {},
    }
}

#[verifier::rlimit(100)]
proof fn lemma_commute_iteration_counts(m: HandlerModel, v: Seq<<AnimationIterationCount as View>::V>, vp: VendorPrefix, q: PropertyModel)
    requires
        longhand_slot(q) is Some,
        longhand_slot(q) != longhand_slot(PropertyModel::AnimationIterationCount(v, vp)),
        !decl_conflicts(m, PropertyModel::AnimationIterationCount(v, vp)),
        !decl_conflicts(m, q),
    ensures
        !decl_conflicts(spec_handle(m, PropertyModel::AnimationIterationCount(v, vp)).0, q),
        spec_handle(spec_handle(m, PropertyModel::AnimationIterationCount(v, vp)).0, q).0 == spec_handle(
            spec_handle(m, q).0,
            PropertyModel::AnimationIterationCount(v, vp),
        ).0,
        spec_handle(m, PropertyModel::AnimationIterationCount(v, vp)).1.len() == 0,
        spec_handle(spec_handle(m, PropertyModel::AnimationIterationCount(v, vp)).0, q).1.len() == 0,
{
    match q {
        PropertyModel::AnimationName(w, wp) => {},
        PropertyModel::AnimationDuration(w, wp) => {},
        PropertyModel::AnimationTimingFunction(w, wp) => {},
        PropertyModel::AnimationIterationCount(w, wp) => {},
        PropertyModel::AnimationDirection(w, wp) => {},
        PropertyModel::AnimationPlayState(w, wp) => {},
        PropertyModel::AnimationDelay(w, wp) => {},
        PropertyModel::AnimationFillMode(w, wp) => {},
        _ => {},
    }
}

#[verifier::rlimit(100)]
proof fn lemma_commute_directions(m: HandlerModel, v: Seq<<AnimationDirection as View>::V>, vp: VendorPrefix, q: PropertyModel)
    requires
        longhand_slot(q) is Some,
        longhand_slot(q) != longhand_slot(PropertyModel::AnimationDirection(v, vp)),
        !decl_conflicts(m, PropertyModel::AnimationDirection(v, vp)),
        !decl_conflicts(m, q),
    ensures
        !decl_conflicts(spec_handle(m, PropertyModel::AnimationDirection(v, vp)).0, q),
        spec_handle(spec_handle(m, PropertyModel::AnimationDirection(v, vp)).0, q).0 == spec_handle(
            spec_handle(m, q).0,
            PropertyModel::AnimationDirection(v, vp),
        ).0,
        spec_handle(m, PropertyModel::AnimationDirection(v, vp)).1.len() == 0,
        spec_handle(spec_handle(m, PropertyModel::AnimationDirection(v, vp)).0, q).1.len() == 0,
{
    match q {
        PropertyModel::AnimationName(w, wp) => {},
        PropertyModel::AnimationDuration(w, wp) => {},
        PropertyModel::AnimationTimingFunction(w, wp) => {},
        PropertyModel::AnimationIterationCount(w, wp) => {},
        PropertyModel::AnimationDirection(w, wp) => {},
        PropertyModel::AnimationPlayState(w, wp) => {},
        PropertyModel::AnimationDelay(w, wp) => {},
        PropertyModel::AnimationFillMode(w, wp) => {},
        _ => {},
    }
}

#[verifier::rlimit(100)]
proof fn lemma_commute_play_states(m: HandlerModel, v: Seq<<AnimationPlayState as View>::V>, vp: VendorPrefix, q: PropertyModel)
    requires
        longhand_slot(q) is Some,
        longhand_slot(q) != longhand_slot(PropertyModel::AnimationPlayState(v, vp)),
        !decl_conflicts(m, PropertyModel::AnimationPlayState(v, vp)),
        !decl_conflicts(m, q),
    ensures
        !decl_conflicts(spec_handle(m, PropertyModel::AnimationPlayState(v, vp)).0, q),
        spec_handle(spec_handle(m, PropertyModel::AnimationPlayState(v, vp)).0, q).0 == spec_handle(
            spec_handle(m, q).0,
            PropertyModel::AnimationPlayState(v, vp),
        ).0,
        spec_handle(m, PropertyModel::AnimationPlayState(v, vp)).1.len() == 0,
        spec_handle(spec_handle(m, PropertyModel::AnimationPlayState(v, vp)).0, q).1.len() == 0,
{
    match q {
        PropertyModel::AnimationName(w, wp) => {},
        PropertyModel::AnimationDuration(w, wp) => {},
        PropertyModel::AnimationTimingFunction(w, wp) => {},
        PropertyModel::AnimationIterationCount(w, wp) => {},
        PropertyModel::AnimationDirection(w, wp) => {},
        PropertyModel::AnimationPlayState(w, wp) => {},
        PropertyModel::AnimationDelay(w, wp) => {},
        PropertyModel::AnimationFillMode(w, wp) => {},
        _ => {},
    }
}

#[verifier::rlimit(100)]
proof fn lemma_commute_delays(m: HandlerModel, v: Seq<<Time as View>::V>, vp: VendorPrefix, q: PropertyModel)
    requires
        longhand_slot(q) is Some,
        longhand_slot(q) != longhand_slot(PropertyModel::AnimationDelay(v, vp)),
        !decl_conflicts(m, PropertyModel::AnimationDelay(v, vp)),
        !decl_conflicts(m, q),
    ensures
        !decl_conflicts(spec_handle(m, PropertyModel::AnimationDelay(v, vp)).0, q),
        spec_handle(spec_handle(m, PropertyModel::AnimationDelay(v, vp)).0, q).0 == spec_handle(
            spec_handle(m, q).0,
            PropertyModel::AnimationDelay(v, vp),
        ).0,
        spec_handle(m, PropertyModel::AnimationDelay(v, vp)).1.len() == 0,
        spec_handle(spec_handle(m, PropertyModel::AnimationDelay(v, vp)).0, q).1.len() == 0,
{
    match q {
        PropertyModel::AnimationName(w, wp) => {},
        PropertyModel::AnimationDuration(w, wp) => {},
        PropertyModel::AnimationTimingFunction(w, wp) => {},
        PropertyModel::AnimationIterationCount(w, wp) => {},
        PropertyModel::AnimationDirection(w, wp) => {},
        PropertyModel::AnimationPlayState(w, wp) => {},
        PropertyModel::AnimationDelay(w, wp) => {},
        PropertyModel::AnimationFillMode(w, wp) => {},
        _ => {},
    }
}

#[verifier::rlimit(100)]
proof fn lemma_commute_fill_modes(m: HandlerModel, v: Seq<<AnimationFillMode as View>::V>, vp: VendorPrefix, q: PropertyModel)
    requires
        longhand_slot(q) is Some,
        longhand_slot(q) != longhand_slot(PropertyModel::AnimationFillMode(v, vp)),
        !decl_conflicts(m, PropertyModel::AnimationFillMode(v, vp)),
        !decl_conflicts(m, q),
    ensures
        !decl_conflicts(spec_handle(m, PropertyModel::AnimationFillMode(v, vp)).0, q),
        spec_handle(spec_handle(m, PropertyModel::AnimationFillMode(v, vp)).0, q).0 == spec_handle(
            spec_handle(m, q).0,
            PropertyModel::AnimationFillMode(v, vp),
        ).0,
        spec_handle(m, PropertyModel::AnimationFillMode(v, vp)).1.len() == 0,
        spec_handle(spec_handle(m, PropertyModel::AnimationFillMode(v, vp)).0, q).1.len() == 0,
{
    match q {
        PropertyModel::AnimationName(w, wp) => {},
        PropertyModel::AnimationDuration(w, wp) => {},
        PropertyModel::AnimationTimingFunction(w, wp) => {},
        PropertyModel::AnimationIterationCount(w, wp) => {},
        PropertyModel::AnimationDirection(w, wp) => {},
        PropertyModel::AnimationPlayState(w, wp) => {},
        PropertyModel::AnimationDelay(w, wp) => {},
        PropertyModel::AnimationFillMode(w, wp) => {},
        _ => {},
    }
}

/// Two longhands of different slots, neither of which flushes, can be handed
/// over in either order: the state is the same and nothing is written, so a
/// declaration moved across an unrelated one moves no flush.
pub proof fn lemma_unrelated_longhands_commute(m: HandlerModel, p: PropertyModel, q: PropertyModel)
    requires
        longhand_slot(p) is Some,
        longhand_slot(q) is Some,
        longhand_slot(p) != longhand_slot(q),
        !decl_conflicts(m, p),
        !decl_conflicts(m, q),
    ensures
        !decl_conflicts(spec_handle(m, p).0, q),
        !decl_conflicts(spec_handle(m, q).0, p),
        spec_handle(spec_handle(m, p).0, q).0 == spec_handle(spec_handle(m, q).0, p).0,
        spec_handle(m, p).1.len() == 0,
        spec_handle(spec_handle(m, p).0, q).1.len() == 0,
        spec_handle(m, q).1.len() == 0,
        spec_handle(spec_handle(m, q).0, p).1.len() == 0,
{
    match p {
        PropertyModel::AnimationName(v, vp) => lemma_commute_names(m, v, vp, q),
        PropertyModel::AnimationDuration(v, vp) => lemma_commute_durations(m, v, vp, q),
        PropertyModel::AnimationTimingFunction(v, vp) => lemma_commute_timing_functions(m, v, vp, q),
        PropertyModel::AnimationIterationCount(v, vp) => lemma_commute_iteration_counts(m, v, vp, q),
        PropertyModel::AnimationDirection(v, vp) => lemma_commute_directions(m, v, vp, q),
        PropertyModel::AnimationPlayState(v, vp) => lemma_commute_play_states(m, v, vp, q),
        PropertyModel::AnimationDelay(v, vp) => lemma_commute_delays(m, v, vp, q),
        PropertyModel::AnimationFillMode(v, vp) => lemma_commute_fill_modes(m, v, vp, q),
        _ => {},
    }
    match q {
        PropertyModel::AnimationName(v, vp) => lemma_commute_names(m, v, vp, p),
        PropertyModel::AnimationDuration(v, vp) => lemma_commute_durations(m, v, vp, p),
        PropertyModel::AnimationTimingFunction(v, vp) => lemma_commute_timing_functions(m, v, vp, p),
        PropertyModel::AnimationIterationCount(v, vp) => lemma_commute_iteration_counts(m, v, vp, p),
        PropertyModel::AnimationDirection(v, vp) => lemma_commute_directions(m, v, vp, p),
        PropertyModel::AnimationPlayState(v, vp) => lemma_commute_play_states(m, v, vp, p),
        PropertyModel::AnimationDelay(v, vp) => lemma_commute_delays(m, v, vp, p),
        PropertyModel::AnimationFillMode(v, vp) => lemma_commute_fill_modes(m, v, vp, p),
        _ => {},
    }
}

/// A shorthand declaration that does not flush has the same effect as its
/// eight longhands declared with the same prefixes, in slot order: the same
/// state, and nothing written either way.
pub proof fn lemma_shorthand_as_longhands(m: HandlerModel, s: Seq<AnimationModel>, vp: VendorPrefix)
    requires
        !shorthand_conflicts(m, s, vp),
    ensures
        ({
            let m1 = spec_handle(m, PropertyModel::AnimationName(names_of(s), vp));
            let m2 = spec_handle(m1.0, PropertyModel::AnimationDuration(durations_of(s), vp));
            let m3 = spec_handle(m2.0, PropertyModel::AnimationTimingFunction(timing_functions_of(s), vp));
            let m4 = spec_handle(m3.0, PropertyModel::AnimationIterationCount(iteration_counts_of(s), vp));
            let m5 = spec_handle(m4.0, PropertyModel::AnimationDirection(directions_of(s), vp));
            let m6 = spec_handle(m5.0, PropertyModel::AnimationPlayState(play_states_of(s), vp));
            let m7 = spec_handle(m6.0, PropertyModel::AnimationDelay(delays_of(s), vp));
            let m8 = spec_handle(m7.0, PropertyModel::AnimationFillMode(fill_modes_of(s), vp));
            &&& m8.0 == spec_handle(m, PropertyModel::Animation(s, vp)).0
            &&& spec_handle(m, PropertyModel::Animation(s, vp)).1.len() == 0
            &&& m1.1.len() == 0 && m2.1.len() == 0 && m3.1.len() == 0 && m4.1.len() == 0
            &&& m5.1.len() == 0 && m6.1.len() == 0 && m7.1.len() == 0 && m8.1.len() == 0
        }),
{
}

/// The declarations `s` are longhands of pairwise distinct slots, none of
/// which would flush in state `m`.
pub open spec fn quiet_run(m: HandlerModel, s: Seq<PropertyModel>) -> bool {
    &&& forall|i: int| 0 <= i < s.len() ==> (#[trigger] longhand_slot(s[i])) is Some && !decl_conflicts(m, s[i])
    &&& forall|i: int, j: int| 0 <= i < j < s.len() ==> longhand_slot(#[trigger] s[i]) != longhand_slot(#[trigger] s[j])
}

proof fn lemma_quiet_run(m: HandlerModel, s: Seq<PropertyModel>, q: PropertyModel)
    requires
        quiet_run(m, s),
        longhand_slot(q) is Some,
        !decl_conflicts(m, q),
        forall|i: int| 0 <= i < s.len() ==> longhand_slot(#[trigger] s[i]) != longhand_slot(q),
    ensures
        run(m, s).1.len() == 0,
        !decl_conflicts(run(m, s).0, q),
    decreases s.len(),
{
    if s.len() > 0 {
        let d = s.drop_last();
        let last = s.last();
        assert(quiet_run(m, d)) by {
            assert forall|i: int, j: int| 0 <= i < j < d.len() implies longhand_slot(#[trigger] d[i]) != longhand_slot(
                #[trigger] d[j],
            ) by {
                assert(d[i] == s[i] && d[j] == s[j]);
            }
            assert forall|i: int| 0 <= i < d.len() implies (#[trigger] longhand_slot(d[i])) is Some && !decl_conflicts(m, d[i]) by {
                assert(d[i] == s[i]);
            }
        }
        assert(longhand_slot(last) is Some && !decl_conflicts(m, last)) by {
            assert(last == s[s.len() - 1]);
        }
        assert forall|i: int| 0 <= i < d.len() implies longhand_slot(#[trigger] d[i]) != longhand_slot(last) by {
            assert(d[i] == s[i]);
            assert(longhand_slot(s[i]) != longhand_slot(s[s.len() - 1]));
        }
        assert forall|i: int| 0 <= i < d.len() implies longhand_slot(#[trigger] d[i]) != longhand_slot(q) by {
            assert(d[i] == s[i]);
        }
        lemma_quiet_run(m, d, last);
        lemma_quiet_run(m, d, q);
        lemma_unrelated_longhands_commute(run(m, d).0, last, q);
        lemma_flush_exactly_on_conflict(run(m, d).0, last);
    }
}

/// A longhand moved from the front of a run of longhands of distinct slots to
/// its end, where none of them would flush, changes nothing: the state is the
/// same, and nothing is written either way, so no flush point moves.
pub proof fn lemma_move_across_quiet_run(m: HandlerModel, p: PropertyModel, s: Seq<PropertyModel>)
    requires
        quiet_run(m, seq![p] + s),
    ensures
        run(m, seq![p] + s).0 == run(m, s.push(p)).0,
        run(m, seq![p] + s).1.len() == 0,
        run(m, s.push(p)).1.len() == 0,
    decreases s.len(),
{
    let ps = seq![p] + s;
    assert(ps[0] == p);
    assert(longhand_slot(p) is Some && !decl_conflicts(m, p));
    assert forall|i: int| 0 <= i < s.len() implies longhand_slot(#[trigger] s[i]) != longhand_slot(p) by {
        assert(ps[i + 1] == s[i]);
        assert(longhand_slot(ps[0]) != longhand_slot(ps[i + 1]));
    }
    assert(quiet_run(m, s)) by {
        assert forall|i: int| 0 <= i < s.len() implies (#[trigger] longhand_slot(s[i])) is Some && !decl_conflicts(m, s[i]) by {
            assert(ps[i + 1] == s[i]);
        }
        assert forall|i: int, j: int| 0 <= i < j < s.len() implies longhand_slot(#[trigger] s[i]) != longhand_slot(
            #[trigger] s[j],
        ) by {
            assert(ps[i + 1] == s[i] && ps[j + 1] == s[j]);
        }
    }
    lemma_quiet_run(m, s, p);
    assert(s.push(p).drop_last() =~= s);
    assert(s.push(p).last() == p);
    lemma_flush_exactly_on_conflict(run(m, s).0, p);
    if s.len() == 0 {
        assert(ps =~= s.push(p));
    } else {
        let d = s.drop_last();
        let last = s.last();
        assert(ps.drop_last() =~= seq![p] + d);
        assert(ps.last() == last);
        assert(quiet_run(m, seq![p] + d)) by {
            let pd = seq![p] + d;
            assert forall|i: int| 0 <= i < pd.len() implies (#[trigger] longhand_slot(pd[i])) is Some && !decl_conflicts(m, pd[i]) by {
                assert(pd[i] == ps[i]);
            }
            assert forall|i: int, j: int| 0 <= i < j < pd.len() implies longhand_slot(#[trigger] pd[i]) != longhand_slot(
                #[trigger] pd[j],
            ) by {
                assert(pd[i] == ps[i] && pd[j] == ps[j]);
            }
        }
        lemma_move_across_quiet_run(m, p, d);
        assert(d.push(p).drop_last() =~= d);
        assert(d.push(p).last() == p);
        assert(last == ps[s.len() as int]);
        assert(longhand_slot(last) is Some && !decl_conflicts(m, last));
        assert forall|i: int| 0 <= i < d.len() implies longhand_slot(#[trigger] d[i]) != longhand_slot(last) by {
            assert(d[i] == ps[i + 1]);
            assert(longhand_slot(ps[i + 1]) != longhand_slot(ps[s.len() as int]));
        }
        assert forall|i: int| 0 <= i < d.len() implies longhand_slot(#[trigger] d[i]) != longhand_slot(p) by {
            assert(d[i] == s[i]);
        }
        assert(quiet_run(m, d)) by {
            assert forall|i: int| 0 <= i < d.len() implies (#[trigger] longhand_slot(d[i])) is Some && !decl_conflicts(m, d[i]) by {
                assert(d[i] == s[i]);
            }
            assert forall|i: int, j: int| 0 <= i < j < d.len() implies longhand_slot(#[trigger] d[i]) != longhand_slot(
                #[trigger] d[j],
            ) by {
                assert(d[i] == s[i] && d[j] == s[j]);
            }
        }
        lemma_quiet_run(m, d, last);
        lemma_quiet_run(m, d, p);
        lemma_unrelated_longhands_commute(run(m, d).0, p, last);
        lemma_flush_exactly_on_conflict(run(m, d).0, p);
        lemma_flush_exactly_on_conflict(run(m, d).0, last);
        lemma_flush_exactly_on_conflict(spec_handle(run(m, d).0, p).0, last);
    }
}

} // verus!
