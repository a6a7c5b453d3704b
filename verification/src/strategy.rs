//! Layout strategies and the capabilities that attest them.

use vstd::prelude::*;

verus! {

/// A layout strategy that an annotation declares by one fixed word.
#[derive(Clone, Copy, Debug, PartialEq, Eq, Structural)]
pub enum FixedLayout {
    /// Fields laid out as the platform's C compiler would, declared `(C)`.
    C,
    /// Fields laid out without padding, declared `(packed)`.
    Packed,
    /// The layout of the single field, declared `(transparent)`.
    Transparent,
}

/// A capability that can be asked for.
#[derive(Clone, Copy, Debug, PartialEq, Eq, Structural)]
pub enum Capability {
    /// The type has the given fixed layout.
    Fixed(FixedLayout),
    /// The type is a tagged union whose values begin with a tag of a
    /// primitive integer type.
    PrimitiveTagged,
}

/// The layout strategy that a declaration was found to carry.
#[derive(Clone, Debug, PartialEq, Eq)]
pub enum LayoutStrategy {
    /// One of the fixed layouts.
    Fixed(FixedLayout),
    /// A tagged union with a tag of the named primitive type. The name is
    /// the text found in the annotation; nothing checks that a type of that
    /// name exists.
    PrimitiveTagged(String),
}

/// The mathematical value of a [`LayoutStrategy`].
pub enum LayoutStrategyView {
    /// One of the fixed layouts.
    Fixed(FixedLayout),
    /// A tagged union with a tag of the named primitive type.
    PrimitiveTagged(Seq<char>),
}

impl View for LayoutStrategy {
    type V = LayoutStrategyView;

    open spec fn view(&self) -> LayoutStrategyView {
        match self {
            LayoutStrategy::Fixed(layout) => LayoutStrategyView::Fixed(*layout),
            LayoutStrategy::PrimitiveTagged(primitive) => LayoutStrategyView::PrimitiveTagged(
                primitive@,
            ),
        }
    }
}

impl FixedLayout {
    /// The word that declares the layout in an annotation.
    pub open spec fn spec_keyword(self) -> Seq<char> {
        match self {
            FixedLayout::C => "C"@,
            FixedLayout::Packed => "packed"@,
            FixedLayout::Transparent => "transparent"@,
        }
    }

    /// The name of the capability that attests the layout.
    pub open spec fn spec_name(self) -> Seq<char> {
        match self {
            FixedLayout::C => "C"@,
            FixedLayout::Packed => "Packed"@,
            FixedLayout::Transparent => "Transparent"@,
        }
    }

    /// The word that declares the layout in an annotation.
    pub fn keyword(self) -> (word: &'static str)
        ensures
            word@ == self.spec_keyword(),
    {
        match self {
            FixedLayout::C => "C",
            FixedLayout::Packed => "packed",
            FixedLayout::Transparent => "transparent",
        }
    }

    /// The name of the capability that attests the layout.
    pub fn name(self) -> (name: &'static str)
        ensures
            name@ == self.spec_name(),
    {
        match self {
            FixedLayout::C => "C",
            FixedLayout::Packed => "Packed",
            FixedLayout::Transparent => "Transparent",
        }
    }
}

impl LayoutStrategyView {
    /// The capability that a grant of this strategy attests.
    pub open spec fn capability(self) -> Capability {
        match self {
            LayoutStrategyView::Fixed(layout) => Capability::Fixed(layout),
            LayoutStrategyView::PrimitiveTagged(_) => Capability::PrimitiveTagged,
        }
    }
}

impl LayoutStrategy {
    /// The capability that a grant of this strategy attests.
    pub fn capability(&self) -> (capability: Capability)
        ensures
            capability == self@.capability(),
    {
        match self {
            LayoutStrategy::Fixed(layout) => Capability::Fixed(*layout),
            LayoutStrategy::PrimitiveTagged(_) => Capability::PrimitiveTagged,
        }
    }
}

} // verus!
