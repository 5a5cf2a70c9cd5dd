//! The widget state kept for each control of the inspector.
use vstd::prelude::*;

verus! {

/// The state of a control's widget: a text input (for text or for numbers)
/// or a color picker. `T` is the text input's state, `C` the picker's.
pub enum ControlState<T, C> {
    Text(T),
    Number(T),
    Color(C),
}

impl<T, C> ControlState<T, C> {
    /// The text input state, for text and number controls.
    pub fn text(&self) -> (res: Option<&T>)
        ensures
            match *self {
                ControlState::Text(t) => res == Some(&t),
                ControlState::Number(t) => res == Some(&t),
                ControlState::Color(_) => res is None,
            },
    {
        match self {
            Self::Text(state) => Some(state),
            Self::Number(input) => Some(input),
            Self::Color(_) => None,
        }
    }

    /// The color picker state, for color controls.
    pub fn color(&self) -> (res: Option<&C>)
        ensures
            match *self {
                ControlState::Color(c) => res == Some(&c),
                _ => res is None,
            },
    {
        match self {
            Self::Color(picker) => Some(picker),
            Self::Text(_) | Self::Number(_) => None,
        }
    }
}

} // verus!
