use vstd::prelude::*;

verus! {

/// The variant of a Material button.
#[derive(Clone, Copy, PartialEq, Eq, Debug, Structural)]
pub enum ButtonVariant {
    Filled,
    Elevated,
    FilledTonal,
    Outlined,
    Text,
    Plain,
}

impl Default for ButtonVariant {
    fn default() -> (variant: Self)
        ensures
            variant == ButtonVariant::Filled,
    {
        ButtonVariant::Filled
    }
}

/// Whether a button takes clicks: it is neither disabled nor loading, and
/// it has a click handler.
pub fn clickable(disabled: bool, loading: bool, has_on_click: bool) -> (clickable: bool)
    ensures
        clickable == (!(disabled || loading) && has_on_click),
{
    !(disabled || loading) && has_on_click
}

/// Whether a button reacts to hovering: it is neither disabled nor loading,
/// and it has a hover handler.
pub fn hoverable(disabled: bool, loading: bool, has_on_hover: bool) -> (hoverable: bool)
    ensures
        hoverable == (!(disabled || loading) && has_on_hover),
{
    !(disabled || loading) && has_on_hover
}

/// Builder methods that pick a button's variant.
pub trait ButtonVariants: Sized {
    /// This builder with its variant set to `variant`: what
    /// [`Self::with_variant`] gives.
    spec fn with_variant_spec(self, variant: ButtonVariant) -> Self;

    /// Sets the variant.
    fn with_variant(self, variant: ButtonVariant) -> (builder: Self)
        ensures
            builder == self.with_variant_spec(variant),
    ;

    fn filled(self) -> (builder: Self)
        ensures
            builder == self.with_variant_spec(ButtonVariant::Filled),
    {
        self.with_variant(ButtonVariant::Filled)
    }

    fn elevated(self) -> (builder: Self)
        ensures
            builder == self.with_variant_spec(ButtonVariant::Elevated),
    {
        self.with_variant(ButtonVariant::Elevated)
    }

    fn filled_tonal(self) -> (builder: Self)
        ensures
            builder == self.with_variant_spec(ButtonVariant::FilledTonal),
    {
        self.with_variant(ButtonVariant::FilledTonal)
    }

    fn outlined(self) -> (builder: Self)
        ensures
            builder == self.with_variant_spec(ButtonVariant::Outlined),
    {
        self.with_variant(ButtonVariant::Outlined)
    }

    fn text(self) -> (builder: Self)
        ensures
            builder == self.with_variant_spec(ButtonVariant::Text),
    {
        self.with_variant(ButtonVariant::Text)
    }

    fn plain(self) -> (builder: Self)
        ensures
            builder == self.with_variant_spec(ButtonVariant::Plain),
    {
        self.with_variant(ButtonVariant::Plain)
    }
}

} // verus!
