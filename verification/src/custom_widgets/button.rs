use vstd::prelude::*;

use crate::entities::pawn::Rgb;

verus! {

/// How a button takes part in the selection on its screen.
#[derive(Debug, Clone, Copy, PartialEq, Eq, Structural)]
pub enum ButtonState {
    Normal,
    Selected,
    Active,
}

impl ButtonState {
    /// The state's name.
    pub fn to_string(&self) -> (s: String)
        ensures
            s@ == (match *self {
                ButtonState::Normal => "Normal"@,
                ButtonState::Selected => "Selected"@,
                ButtonState::Active => "Active"@,
            }),
    {
        match self {
            ButtonState::Normal => String::from_str("Normal"),
            ButtonState::Selected => String::from_str("Selected"),
            ButtonState::Active => String::from_str("Active"),
        }
    }
}

/// The colours of a button: its text, its background, and its border in each state.
#[derive(Debug, Clone, Copy, PartialEq)]
pub struct Theme {
    pub text: Rgb,
    pub background: Rgb,
    pub border_selected: Rgb,
    pub border_normal: Rgb,
    pub border_active: Rgb,
}

impl Theme {
    pub open spec fn spec_red() -> Theme {
        Theme {
            text: Rgb { r: 48, g: 16, b: 16 },
            background: Rgb { r: 0, g: 0, b: 0 },
            border_selected: Rgb { r: 220, g: 70, b: 70 },
            border_active: Rgb { r: 220, g: 20, b: 20 },
            border_normal: Rgb { r: 120, g: 20, b: 20 },
        }
    }

    #[verifier::when_used_as_spec(spec_red)]
    pub fn red() -> (theme: Theme)
        ensures
            theme == Theme::spec_red(),
    {
        Theme {
            text: Rgb { r: 48, g: 16, b: 16 },
            background: Rgb { r: 0, g: 0, b: 0 },
            border_selected: Rgb { r: 220, g: 70, b: 70 },
            border_active: Rgb { r: 220, g: 20, b: 20 },
            border_normal: Rgb { r: 120, g: 20, b: 20 },
        }
    }

    pub open spec fn spec_green() -> Theme {
        Theme {
            text: Rgb { r: 16, g: 48, b: 16 },
            background: Rgb { r: 0, g: 0, b: 0 },
            border_selected: Rgb { r: 70, g: 220, b: 70 },
            border_active: Rgb { r: 20, g: 220, b: 20 },
            border_normal: Rgb { r: 20, g: 120, b: 20 },
        }
    }

    #[verifier::when_used_as_spec(spec_green)]
    pub fn green() -> (theme: Theme)
        ensures
            theme == Theme::spec_green(),
    {
        Theme {
            text: Rgb { r: 16, g: 48, b: 16 },
            background: Rgb { r: 0, g: 0, b: 0 },
            border_selected: Rgb { r: 70, g: 220, b: 70 },
            border_active: Rgb { r: 20, g: 220, b: 20 },
            border_normal: Rgb { r: 20, g: 120, b: 20 },
        }
    }

    pub open spec fn spec_blue() -> Theme {
        Theme {
            text: Rgb { r: 16, g: 24, b: 48 },
            background: Rgb { r: 0, g: 0, b: 0 },
            border_selected: Rgb { r: 50, g: 165, b: 245 },
            border_active: Rgb { r: 20, g: 130, b: 230 },
            border_normal: Rgb { r: 20, g: 70, b: 160 },
        }
    }

    #[verifier::when_used_as_spec(spec_blue)]
    pub fn blue() -> (theme: Theme)
        ensures
            theme == Theme::spec_blue(),
    {
        Theme {
            text: Rgb { r: 16, g: 24, b: 48 },
            background: Rgb { r: 0, g: 0, b: 0 },
            border_selected: Rgb { r: 50, g: 165, b: 245 },
            border_active: Rgb { r: 20, g: 130, b: 230 },
            border_normal: Rgb { r: 20, g: 70, b: 160 },
        }
    }

    pub open spec fn spec_yellow() -> Theme {
        Theme {
            text: Rgb { r: 16, g: 48, b: 16 },
            background: Rgb { r: 0, g: 0, b: 0 },
            border_selected: Rgb { r: 240, g: 195, b: 40 },
            border_active: Rgb { r: 255, g: 185, b: 0 },
            border_normal: Rgb { r: 140, g: 110, b: 20 },
        }
    }

    #[verifier::when_used_as_spec(spec_yellow)]
    pub fn yellow() -> (theme: Theme)
        ensures
            theme == Theme::spec_yellow(),
    {
        Theme {
            text: Rgb { r: 16, g: 48, b: 16 },
            background: Rgb { r: 0, g: 0, b: 0 },
            border_selected: Rgb { r: 240, g: 195, b: 40 },
            border_active: Rgb { r: 255, g: 185, b: 0 },
            border_normal: Rgb { r: 140, g: 110, b: 20 },
        }
    }

    pub open spec fn spec_matrix_green() -> Theme {
        Theme {
            text: Rgb { r: 16, g: 48, b: 16 },
            background: Rgb { r: 0, g: 0, b: 0 },
            border_active: Rgb { r: 0, g: 143, b: 17 },
            border_selected: Rgb { r: 0, g: 255, b: 65 },
            border_normal: Rgb { r: 0, g: 59, b: 0 },
        }
    }

    #[verifier::when_used_as_spec(spec_matrix_green)]
    pub fn matrix_green() -> (theme: Theme)
        ensures
            theme == Theme::spec_matrix_green(),
    {
        Theme {
            text: Rgb { r: 16, g: 48, b: 16 },
            background: Rgb { r: 0, g: 0, b: 0 },
            border_active: Rgb { r: 0, g: 143, b: 17 },
            border_selected: Rgb { r: 0, g: 255, b: 65 },
            border_normal: Rgb { r: 0, g: 59, b: 0 },
        }
    }

    pub open spec fn spec_gray() -> Theme {
        Theme {
            text: Rgb { r: 16, g: 48, b: 16 },
            background: Rgb { r: 0, g: 0, b: 0 },
            border_active: Rgb { r: 36, g: 68, b: 36 },
            border_selected: Rgb { r: 56, g: 88, b: 56 },
            border_normal: Rgb { r: 16, g: 48, b: 16 },
        }
    }

    #[verifier::when_used_as_spec(spec_gray)]
    pub fn gray() -> (theme: Theme)
        ensures
            theme == Theme::spec_gray(),
    {
        Theme {
            text: Rgb { r: 16, g: 48, b: 16 },
            background: Rgb { r: 0, g: 0, b: 0 },
            border_active: Rgb { r: 36, g: 68, b: 36 },
            border_selected: Rgb { r: 56, g: 88, b: 56 },
            border_normal: Rgb { r: 16, g: 48, b: 16 },
        }
    }
}

/// A labelled choice that carries a value.
#[derive(Debug, Clone, PartialEq)]
pub struct Button<TValue> {
    pub label: String,
    pub value: TValue,
    pub theme: Theme,
    pub state: ButtonState,
}

impl<TValue: Default + Clone> Button<TValue> {
    /// A blue button in the normal state; `value` gives it what it stands for.
    pub fn new(label: &str) -> (button: Button<TValue>)
        ensures
            button.label@ == label@,
            button.theme == Theme::blue(),
            button.state == ButtonState::Normal,
    {
        Button {
            label: String::from_str(label),
            theme: Theme::blue(),
            value: TValue::default(),
            state: ButtonState::Normal,
        }
    }

    pub fn value(self, value: TValue) -> (button: Button<TValue>)
        ensures
            button == (Button { value, ..self }),
    {
        let mut button = self;
        button.value = value;
        button
    }

    pub fn theme(self, theme: Theme) -> (button: Button<TValue>)
        ensures
            button == (Button { theme, ..self }),
    {
        let mut button = self;
        button.theme = theme;
        button
    }

    pub fn state(self, state: ButtonState) -> (button: Button<TValue>)
        ensures
            button == (Button { state, ..self }),
    {
        let mut button = self;
        button.state = state;
        button
    }

    pub fn set_label(&mut self, label: String)
        ensures
            *final(self) == (Button { label, ..*old(self) }),
    {
        self.label = label
    }

    pub fn set_theme(&mut self, theme: Theme)
        ensures
            *final(self) == (Button { theme, ..*old(self) }),
    {
        self.theme = theme
    }

    pub fn set_state(&mut self, state: ButtonState)
        ensures
            *final(self) == (Button { state, ..*old(self) }),
    {
        self.state = state;
    }

    /// A copy of what the button stands for; the button stays as it is.
    pub fn get_value(&mut self) -> (value: TValue)
        ensures
            cloned(old(self).value, value),
            *final(self) == *old(self),
    {
        self.value.clone()
    }

    /// Background, border and text colour for the button's present state.
    pub fn colors(&self) -> (shades: (Rgb, Rgb, Rgb))
        ensures
            shades.0 == self.theme.background,
            shades.1 == (match self.state {
                ButtonState::Normal => self.theme.border_normal,
                ButtonState::Selected => self.theme.border_selected,
                ButtonState::Active => self.theme.border_active,
            }),
            shades.2 == self.theme.text,
    {
        let theme = self.theme;
        match self.state {
            ButtonState::Normal => (theme.background, theme.border_normal, theme.text),
            ButtonState::Selected => (theme.background, theme.border_selected, theme.text),
            ButtonState::Active => (theme.background, theme.border_active, theme.text),
        }
    }
}

} // verus!
