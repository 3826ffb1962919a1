//! The attribute-bearing element types of the text catalogue. Each one is a
//! plain record of animatable attributes; the drawing combinators wrap them
//! around inner content as attribute scopes or content containers.

use vstd::prelude::*;

use crate::animatable::{duplicate_opt, opt_view, Animatable, AnimatableV};
use crate::drawing::{Appliable, Graphic, WithContent};
use crate::generator::Generator;
use crate::instruction::{close_instrs, open_instrs, ScopeValue, ScopeValueV};

verus! {

/// Font selection attributes, applied to inner content as an attribute scope.
#[derive(Debug, Clone, PartialEq)]
pub struct Font {
    /// The font family name.
    pub family: Option<Animatable<String>>,
    /// The font style, e.g. `italic`.
    pub style: Option<Animatable<String>>,
}

/// The model of a `Font`: each attribute as an optional `AnimatableV`.
pub struct FontV {
    pub family: Option<AnimatableV>,
    pub style: Option<AnimatableV>,
}

impl View for Font {
    type V = FontV;

    open spec fn view(&self) -> FontV {
        FontV { family: opt_view(self.family), style: opt_view(self.style) }
    }
}

impl Default for Font {
    /// A font scope with no attribute set.
    fn default() -> (r: Self)
        ensures
            r@ == (FontV { family: None, style: None }),
    {
        Font { family: None, style: None }
    }
}

impl Font {
    /// Set `family` to a constant value.
    pub fn family(self, value: String) -> (r: Self)
        ensures
            r@ == (FontV { family: Some(AnimatableV::Constant(value@)), ..self@ }),
    {
        Font { family: Some(Animatable::Constant(value)), ..self }
    }

    /// Feed `family` from the named animation register.
    pub fn family_animated(self, name: String) -> (r: Self)
        ensures
            r@ == (FontV { family: Some(AnimatableV::Animated(name@)), ..self@ }),
    {
        Font { family: Some(Animatable::Animated(name)), ..self }
    }

    /// Set `style` to a constant value.
    pub fn style(self, value: String) -> (r: Self)
        ensures
            r@ == (FontV { style: Some(AnimatableV::Constant(value@)), ..self@ }),
    {
        Font { style: Some(Animatable::Constant(value)), ..self }
    }

    /// Feed `style` from the named animation register.
    pub fn style_animated(self, name: String) -> (r: Self)
        ensures
            r@ == (FontV { style: Some(AnimatableV::Animated(name@)), ..self@ }),
    {
        Font { style: Some(Animatable::Animated(name)), ..self }
    }

    /// An owned copy holding the same attributes.
    pub fn duplicate(&self) -> (r: Self)
        ensures
            r == *self,
    {
        Font { family: duplicate_opt(&self.family), style: duplicate_opt(&self.style) }
    }
}

impl Appliable for Font {
    open spec fn scope_values(self) -> Seq<ScopeValueV> {
        seq![ScopeValueV::Font(self@)]
    }

    fn draw_applied<C: Graphic>(self, content: C, g: &mut Generator) {
        let ghost sv = self@;
        let ghost ci = content.instructions();
        let ghost pre = g@;
        g.push_from(ScopeValue::Font(self));
        content.draw(g);
        g.pop(1);
        proof {
            assert(g@ =~= pre + open_instrs(seq![ScopeValueV::Font(sv)]) + ci + close_instrs(1));
        }
    }
}

/// Text layout attributes, applied to inner content as an attribute scope.
#[derive(Debug, Clone, PartialEq)]
pub struct TextLayout {
    /// The anchor of the laid-out text, e.g. `middle`.
    pub anchor: Option<Animatable<String>>,
}

/// The model of a `TextLayout`.
pub struct TextLayoutV {
    pub anchor: Option<AnimatableV>,
}

impl View for TextLayout {
    type V = TextLayoutV;

    open spec fn view(&self) -> TextLayoutV {
        TextLayoutV { anchor: opt_view(self.anchor) }
    }
}

impl Default for TextLayout {
    /// A layout scope with no attribute set.
    fn default() -> (r: Self)
        ensures
            r@ == (TextLayoutV { anchor: None }),
    {
        TextLayout { anchor: None }
    }
}

impl TextLayout {
    /// Set `anchor` to a constant value.
    pub fn anchor(self, value: String) -> (r: Self)
        ensures
            r@ == (TextLayoutV { anchor: Some(AnimatableV::Constant(value@)) }),
    {
        TextLayout { anchor: Some(Animatable::Constant(value)) }
    }

    /// Feed `anchor` from the named animation register.
    pub fn anchor_animated(self, name: String) -> (r: Self)
        ensures
            r@ == (TextLayoutV { anchor: Some(AnimatableV::Animated(name@)) }),
    {
        TextLayout { anchor: Some(Animatable::Animated(name)) }
    }

    /// An owned copy holding the same attributes.
    pub fn duplicate(&self) -> (r: Self)
        ensures
            r == *self,
    {
        TextLayout { anchor: duplicate_opt(&self.anchor) }
    }
}

impl Appliable for TextLayout {
    open spec fn scope_values(self) -> Seq<ScopeValueV> {
        seq![ScopeValueV::TextLayout(self@)]
    }

    fn draw_applied<C: Graphic>(self, content: C, g: &mut Generator) {
        let ghost sv = self@;
        let ghost ci = content.instructions();
        let ghost pre = g@;
        g.push_from(ScopeValue::TextLayout(self));
        content.draw(g);
        g.pop(1);
        proof {
            assert(g@ =~= pre + open_instrs(seq![ScopeValueV::TextLayout(sv)]) + ci
                + close_instrs(1));
        }
    }
}

/// A text element: a container whose children are its character content.
#[derive(Debug, Clone, PartialEq)]
pub struct Text {
    /// The language of the contained text.
    pub lang: Option<Animatable<String>>,
}

/// The model of a `Text`.
pub struct TextV {
    pub lang: Option<AnimatableV>,
}

impl View for Text {
    type V = TextV;

    open spec fn view(&self) -> TextV {
        TextV { lang: opt_view(self.lang) }
    }
}

impl Default for Text {
    /// A text container with no attribute set.
    fn default() -> (r: Self)
        ensures
            r@ == (TextV { lang: None }),
    {
        Text { lang: None }
    }
}

impl Text {
    /// Set `lang` to a constant value.
    pub fn lang(self, value: String) -> (r: Self)
        ensures
            r@ == (TextV { lang: Some(AnimatableV::Constant(value@)) }),
    {
        Text { lang: Some(Animatable::Constant(value)) }
    }

    /// Feed `lang` from the named animation register.
    pub fn lang_animated(self, name: String) -> (r: Self)
        ensures
            r@ == (TextV { lang: Some(AnimatableV::Animated(name@)) }),
    {
        Text { lang: Some(Animatable::Animated(name)) }
    }

    /// An owned copy holding the same attributes.
    pub fn duplicate(&self) -> (r: Self)
        ensures
            r == *self,
    {
        Text { lang: duplicate_opt(&self.lang) }
    }
}

impl WithContent for Text {
    open spec fn container_value(self) -> ScopeValueV {
        ScopeValueV::Text(self@)
    }

    fn open_scope(self, g: &mut Generator) {
        g.push_from(ScopeValue::Text(self));
    }
}

/// A span inside a text element: a container for a run of its children.
#[derive(Debug, Clone, PartialEq)]
pub struct TextSpan {
    /// The language of the contained run.
    pub lang: Option<Animatable<String>>,
}

/// The model of a `TextSpan`.
pub struct TextSpanV {
    pub lang: Option<AnimatableV>,
}

impl View for TextSpan {
    type V = TextSpanV;

    open spec fn view(&self) -> TextSpanV {
        TextSpanV { lang: opt_view(self.lang) }
    }
}

impl Default for TextSpan {
    /// A span container with no attribute set.
    fn default() -> (r: Self)
        ensures
            r@ == (TextSpanV { lang: None }),
    {
        TextSpan { lang: None }
    }
}

impl TextSpan {
    /// Set `lang` to a constant value.
    pub fn lang(self, value: String) -> (r: Self)
        ensures
            r@ == (TextSpanV { lang: Some(AnimatableV::Constant(value@)) }),
    {
        TextSpan { lang: Some(Animatable::Constant(value)) }
    }

    /// Feed `lang` from the named animation register.
    pub fn lang_animated(self, name: String) -> (r: Self)
        ensures
            r@ == (TextSpanV { lang: Some(AnimatableV::Animated(name@)) }),
    {
        TextSpan { lang: Some(Animatable::Animated(name)) }
    }

    /// An owned copy holding the same attributes.
    pub fn duplicate(&self) -> (r: Self)
        ensures
            r == *self,
    {
        TextSpan { lang: duplicate_opt(&self.lang) }
    }
}

impl WithContent for TextSpan {
    open spec fn container_value(self) -> ScopeValueV {
        ScopeValueV::TextSpan(self@)
    }

    fn open_scope(self, g: &mut Generator) {
        g.push_from(ScopeValue::TextSpan(self));
    }
}

} // verus!
