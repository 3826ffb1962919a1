//! The attribute value model: a value is either a fixed constant or a named
//! reference into an animation register, resolved by the backend.

use vstd::prelude::*;

verus! {

/// An attribute value that is either a constant or a named animation-register
/// reference. The register name is only validated when a log is compiled,
/// never at construction time.
#[derive(Debug, Clone, PartialEq)]
pub enum Animatable<T> {
    /// Inline constant data.
    Constant(T),
    /// A symbolic reference to the named animation register.
    Animated(String),
}

impl<T> Animatable<T> {
    /// Wrap a constant value.
    pub fn constant(value: T) -> (r: Self)
        ensures
            r == Animatable::Constant(value),
    {
        Animatable::Constant(value)
    }

    /// Reference the animation register called `name`.
    pub fn animated(name: String) -> (r: Self)
        ensures
            r == Animatable::<T>::Animated(name),
    {
        Animatable::Animated(name)
    }

    /// True when this value carries inline constant data.
    pub fn is_constant(&self) -> (r: bool)
        ensures
            r == (self is Constant),
    {
        match self {
            Animatable::Constant(_) => true,
            Animatable::Animated(_) => false,
        }
    }

    /// The constant payload, if any: an `Animated` value never exposes one.
    pub fn as_constant(&self) -> (r: Option<&T>)
        ensures
            match self {
                Animatable::Constant(v) => r == Some(v),
                Animatable::Animated(_) => r is None,
            },
    {
        match self {
            Animatable::Constant(v) => Some(v),
            Animatable::Animated(_) => None,
        }
    }

    /// The register name, if this value is an animation reference.
    pub fn register(&self) -> (r: Option<&String>)
        ensures
            match self {
                Animatable::Constant(_) => r is None,
                Animatable::Animated(name) => r == Some(name),
            },
    {
        match self {
            Animatable::Constant(_) => None,
            Animatable::Animated(name) => Some(name),
        }
    }

    /// A register name is well formed when it is non-empty.
    pub open spec fn wf(self) -> bool {
        match self {
            Animatable::Constant(_) => true,
            Animatable::Animated(name) => name@.len() > 0,
        }
    }
}

impl Animatable<String> {
    /// An owned copy holding the same value.
    pub fn duplicate(&self) -> (r: Self)
        ensures
            r == *self,
    {
        match self {
            Animatable::Constant(v) => Animatable::Constant(v.clone()),
            Animatable::Animated(n) => Animatable::Animated(n.clone()),
        }
    }
}

/// An owned copy of an optional attribute, holding the same value.
pub fn duplicate_opt(o: &Option<Animatable<String>>) -> (r: Option<Animatable<String>>)
    ensures
        r == *o,
{
    match o {
        Some(a) => Some(a.duplicate()),
        None => None,
    }
}

/// The mathematical value of an `Animatable<String>` attribute: either the
/// character sequence of the constant, or the name of the register.
pub enum AnimatableV {
    Constant(Seq<char>),
    Animated(Seq<char>),
}

impl View for Animatable<String> {
    type V = AnimatableV;

    open spec fn view(&self) -> AnimatableV {
        match self {
            Animatable::Constant(s) => AnimatableV::Constant(s@),
            Animatable::Animated(n) => AnimatableV::Animated(n@),
        }
    }
}

/// The model of an optional attribute: absent, or the model of its value.
pub open spec fn opt_view(o: Option<Animatable<String>>) -> Option<AnimatableV> {
    match o {
        Some(a) => Some(a@),
        None => None,
    }
}

/// Reading back an `Animatable` is lossless: a constant yields exactly the
/// wrapped value, and an animation reference yields its register name and
/// never a constant payload.
pub proof fn lemma_animatable_round_trip<T>(v: T, name: String)
    ensures
        Animatable::Constant(v) matches Animatable::Constant(w) && w == v,
        !(Animatable::<T>::Animated(name) is Constant),
        Animatable::<T>::Animated(name) matches Animatable::Animated(n) && n == name,
{
}

} // verus!
