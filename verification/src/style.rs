use vstd::prelude::*;

verus! {

/// The state of the text box.
#[derive(Debug, Clone, Copy, PartialEq, Eq, Structural)]
pub enum Status {
    Active,
    Focused,
    Disabled,
}

/// A part of the text box that has a colour of its own.
#[derive(Debug, Clone, Copy, PartialEq, Eq, Structural)]
pub enum Role {
    /// What lies behind the text, in one state of the box.
    Background(Status),
    /// The text shown while the box is empty.
    Placeholder,
    /// The text itself.
    Value,
    /// The text while the box is disabled.
    Disabled,
    /// What lies behind selected text.
    Selection,
}

/// Where a colour comes from: black of some opacity, or a place in the
/// palette of the window's theme.
#[derive(Debug, Clone, Copy, PartialEq, Eq, Structural)]
pub enum Paint {
    /// Black, as opaque as `opacity` in a hundred.
    Black { opacity: u8 },
    /// The strong background colour of the palette.
    StrongBackground,
    /// The colour of text on the base background of the palette.
    BackgroundText,
    /// The weak secondary colour of the palette.
    WeakSecondary,
}

/// The radius of the corners of the text box.
pub const BORDER_RADIUS: u16 = 0;

/// The colour of each part of the text box.
pub open spec fn paint_of(role: Role) -> Paint {
    match role {
        Role::Background(Status::Disabled) => Paint::Black { opacity: 100 },
        Role::Background(_) => Paint::Black { opacity: 80 },
        Role::Placeholder => Paint::StrongBackground,
        Role::Value => Paint::BackgroundText,
        Role::Disabled => Paint::StrongBackground,
        Role::Selection => Paint::WeakSecondary,
    }
}

/// The colour of one part of the text box.
pub fn style_for(role: Role) -> (paint: Paint)
    ensures
        paint == paint_of(role),
{
    match role {
        Role::Background(Status::Disabled) => Paint::Black { opacity: 100 },
        Role::Background(_) => Paint::Black { opacity: 80 },
        Role::Placeholder => Paint::StrongBackground,
        Role::Value => Paint::BackgroundText,
        Role::Disabled => Paint::StrongBackground,
        Role::Selection => Paint::WeakSecondary,
    }
}

/// The text of a disabled box has the colour of the placeholder.
pub proof fn lemma_disabled_text_is_painted_as_placeholder()
    ensures
        paint_of(Role::Disabled) == paint_of(Role::Placeholder),
{
}

} // verus!
