//! Declarations: the tagged union of the animation longhands and shorthand,
//! plus declarations kept unparsed and custom properties.
use vstd::prelude::*;
use crate::animation::{Animation, AnimationModel, AnimationName, NameModel};
use crate::color::{TokenList, TokenModel};
use crate::values::{
    views, AnimationDirection, AnimationFillMode, AnimationIterationCount, AnimationPlayState,
    EasingFunction, SlotValue, Time, vec_duplicate,
};
use crate::vendor_prefix::{expand, spec_expand, VendorPrefix};

verus! {

/// The properties of the animation family.
#[derive(Clone, Copy, Debug, PartialEq, Eq, Structural)]
pub enum AnimationProperty {
    Name,
    Duration,
    TimingFunction,
    IterationCount,
    Direction,
    PlayState,
    Delay,
    FillMode,
    /// The `animation` shorthand.
    Shorthand,
}

/// The name of a property, with the vendor prefix it was written with.
#[derive(Debug)]
pub enum PropertyId {
    Animation(AnimationProperty, VendorPrefix),
    /// Any other property, by name.
    Other(String),
}

pub enum PropertyIdModel {
    Animation(AnimationProperty, VendorPrefix),
    Other(Seq<char>),
}

impl View for PropertyId {
    type V = PropertyIdModel;

    open spec fn view(&self) -> PropertyIdModel {
        match self {
            PropertyId::Animation(p, vp) => PropertyIdModel::Animation(*p, *vp),
            PropertyId::Other(s) => PropertyIdModel::Other(s@),
        }
    }
}

/// Whether `id` names a property of the animation family.
pub open spec fn spec_is_animation_property(id: PropertyIdModel) -> bool {
    id is Animation
}

/// Whether `property_id` names a property of the animation family.
pub fn is_animation_property(property_id: &PropertyId) -> (r: bool)
    ensures
        r == spec_is_animation_property(property_id@),
{
    match property_id {
        PropertyId::Animation(..) => true,
        PropertyId::Other(_) => false,
    }
}

/// A declaration whose value was kept as written.
#[derive(Debug)]
pub struct UnparsedProperty {
    pub property_id: PropertyId,
    pub value: TokenList,
}

pub struct UnparsedModel {
    pub property_id: PropertyIdModel,
    pub value: Seq<TokenModel>,
}

impl View for UnparsedProperty {
    type V = UnparsedModel;

    open spec fn view(&self) -> UnparsedModel {
        UnparsedModel { property_id: self.property_id@, value: self.value@ }
    }
}

/// `u` with the prefixes that the targets need in place of the unprefixed form.
pub open spec fn spec_get_prefixed(u: UnparsedModel, targets: Option<VendorPrefix>) -> UnparsedModel {
    match u.property_id {
        PropertyIdModel::Animation(p, vp) => UnparsedModel {
            property_id: PropertyIdModel::Animation(p, spec_expand(vp, targets)),
            value: u.value,
        },
        _ => u,
    }
}

impl UnparsedProperty {
    /// A copy of this declaration, written with the prefixes that the targets
    /// need where it is unprefixed.
    pub fn get_prefixed(&self, targets: Option<VendorPrefix>) -> (r: UnparsedProperty)
        ensures
            r@ == spec_get_prefixed(self@, targets),
    {
        let property_id = match &self.property_id {
            PropertyId::Animation(p, vp) => PropertyId::Animation(*p, expand(*vp, targets)),
            PropertyId::Other(s) => PropertyId::Other(s.clone()),
        };
        UnparsedProperty { property_id, value: self.value.duplicate() }
    }
}

impl UnparsedProperty {
    /// A copy of this declaration.
    pub fn duplicate(&self) -> (r: UnparsedProperty)
        ensures
            r@ == self@,
    {
        let property_id = match &self.property_id {
            PropertyId::Animation(p, vp) => PropertyId::Animation(*p, *vp),
            PropertyId::Other(s) => PropertyId::Other(s.clone()),
        };
        UnparsedProperty { property_id, value: self.value.duplicate() }
    }
}

/// A custom property (`--name: value`).
#[derive(Debug)]
pub struct CustomProperty {
    pub name: String,
    pub value: TokenList,
}

pub struct CustomModel {
    pub name: Seq<char>,
    pub value: Seq<TokenModel>,
}

impl View for CustomProperty {
    type V = CustomModel;

    open spec fn view(&self) -> CustomModel {
        CustomModel { name: self.name@, value: self.value@ }
    }
}

/// One declaration. Each longhand holds one value per comma-separated
/// animation; the shorthand holds one [`Animation`] per animation.
#[derive(Debug)]
pub enum Property {
    AnimationName(Vec<AnimationName>, VendorPrefix),
    AnimationDuration(Vec<Time>, VendorPrefix),
    AnimationTimingFunction(Vec<EasingFunction>, VendorPrefix),
    AnimationIterationCount(Vec<AnimationIterationCount>, VendorPrefix),
    AnimationDirection(Vec<AnimationDirection>, VendorPrefix),
    AnimationPlayState(Vec<AnimationPlayState>, VendorPrefix),
    AnimationDelay(Vec<Time>, VendorPrefix),
    AnimationFillMode(Vec<AnimationFillMode>, VendorPrefix),
    Animation(Vec<Animation>, VendorPrefix),
    Unparsed(UnparsedProperty),
    Custom(CustomProperty),
}

pub enum PropertyModel {
    AnimationName(Seq<NameModel>, VendorPrefix),
    AnimationDuration(Seq<Time>, VendorPrefix),
    AnimationTimingFunction(Seq<EasingFunction>, VendorPrefix),
    AnimationIterationCount(Seq<AnimationIterationCount>, VendorPrefix),
    AnimationDirection(Seq<AnimationDirection>, VendorPrefix),
    AnimationPlayState(Seq<AnimationPlayState>, VendorPrefix),
    AnimationDelay(Seq<Time>, VendorPrefix),
    AnimationFillMode(Seq<AnimationFillMode>, VendorPrefix),
    Animation(Seq<AnimationModel>, VendorPrefix),
    Unparsed(UnparsedModel),
    Custom(CustomModel),
}

impl View for Property {
    type V = PropertyModel;

    open spec fn view(&self) -> PropertyModel {
        match self {
            Property::AnimationName(v, vp) => PropertyModel::AnimationName(views(v@), *vp),
            Property::AnimationDuration(v, vp) => PropertyModel::AnimationDuration(views(v@), *vp),
            Property::AnimationTimingFunction(v, vp) => PropertyModel::AnimationTimingFunction(views(v@), *vp),
            Property::AnimationIterationCount(v, vp) => PropertyModel::AnimationIterationCount(views(v@), *vp),
            Property::AnimationDirection(v, vp) => PropertyModel::AnimationDirection(views(v@), *vp),
            Property::AnimationPlayState(v, vp) => PropertyModel::AnimationPlayState(views(v@), *vp),
            Property::AnimationDelay(v, vp) => PropertyModel::AnimationDelay(views(v@), *vp),
            Property::AnimationFillMode(v, vp) => PropertyModel::AnimationFillMode(views(v@), *vp),
            Property::Animation(v, vp) => PropertyModel::Animation(views(v@), *vp),
            Property::Unparsed(u) => PropertyModel::Unparsed(u@),
            Property::Custom(c) => PropertyModel::Custom(c@),
        }
    }
}

impl CustomProperty {
    /// A copy of this declaration.
    pub fn duplicate(&self) -> (r: CustomProperty)
        ensures
            r@ == self@,
    {
        CustomProperty { name: self.name.clone(), value: self.value.duplicate() }
    }
}

impl Property {
    /// A copy of this declaration.
    pub fn duplicate(&self) -> (r: Property)
        ensures
            r@ == self@,
    {
        match self {
            Property::AnimationName(v, vp) => Property::AnimationName(vec_duplicate(v), *vp),
            Property::AnimationDuration(v, vp) => Property::AnimationDuration(vec_duplicate(v), *vp),
            Property::AnimationTimingFunction(v, vp) => Property::AnimationTimingFunction(vec_duplicate(v), *vp),
            Property::AnimationIterationCount(v, vp) => Property::AnimationIterationCount(vec_duplicate(v), *vp),
            Property::AnimationDirection(v, vp) => Property::AnimationDirection(vec_duplicate(v), *vp),
            Property::AnimationPlayState(v, vp) => Property::AnimationPlayState(vec_duplicate(v), *vp),
            Property::AnimationDelay(v, vp) => Property::AnimationDelay(vec_duplicate(v), *vp),
            Property::AnimationFillMode(v, vp) => Property::AnimationFillMode(vec_duplicate(v), *vp),
            Property::Animation(v, vp) => Property::Animation(vec_duplicate(v), *vp),
            Property::Unparsed(u) => Property::Unparsed(u.duplicate()),
            Property::Custom(c) => Property::Custom(c.duplicate()),
        }
    }
}

} // verus!
