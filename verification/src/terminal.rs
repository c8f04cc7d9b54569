//! What the terminal front end decides before it draws: the colour theme in
//! effect and the state of the thinking indicator.

use vstd::prelude::*;
use vstd::string::StringExecFns;

verus! {

/// The colour theme of rendered output.
#[derive(Clone, Copy, Debug, PartialEq, Eq, Structural)]
pub enum Theme {
    Light,
    Dark,
    Ansi,
}

/// A character with an ASCII capital replaced by its small letter.
pub open spec fn ascii_lower(c: char) -> char {
    if 'A' <= c && c <= 'Z' {
        ((c as u8) + 32) as char
    } else {
        c
    }
}

/// Whether two strings agree once ASCII capitals are replaced by small
/// letters.
pub open spec fn same_ignoring_ascii_case(a: Seq<char>, b: Seq<char>) -> bool {
    a.map_values(|c: char| ascii_lower(c)) == b.map_values(|c: char| ascii_lower(c))
}

/// Calls `str::eq_ignore_ascii_case`. Trusted: the result says whether the
/// two strings are equal after each is ASCII lower-cased, as the standard
/// library documents.
#[verifier::external_body]
fn eq_ignore_ascii_case(a: &str, b: &str) -> (r: bool)
    ensures
        r == same_ignoring_ascii_case(a@, b@),
{
    a.eq_ignore_ascii_case(b)
}

impl Theme {
    /// The theme that a configuration value selects: `light` and `ansi` in
    /// any ASCII case select their themes, every other value the dark one.
    pub open spec fn of_config(val: Seq<char>) -> Theme {
        if same_ignoring_ascii_case(val, "light"@) {
            Theme::Light
        } else if same_ignoring_ascii_case(val, "ansi"@) {
            Theme::Ansi
        } else {
            Theme::Dark
        }
    }

    /// The configuration value under which a theme is stored.
    pub open spec fn config_name(self) -> Seq<char> {
        match self {
            Theme::Light => "light"@,
            Theme::Dark => "dark"@,
            Theme::Ansi => "ansi"@,
        }
    }

    /// The name of the syntax-highlighting theme that renders this theme.
    pub open spec fn highlighter_name(self) -> Seq<char> {
        match self {
            Theme::Light => "GitHub"@,
            Theme::Dark => "zenburn"@,
            Theme::Ansi => "base16"@,
        }
    }

    /// The name of the syntax-highlighting theme that renders this theme.
    pub fn as_str(&self) -> (r: &'static str)
        ensures
            r@ == self.highlighter_name(),
    {
        match self {
            Theme::Light => "GitHub",
            Theme::Dark => "zenburn",
            Theme::Ansi => "base16",
        }
    }

    /// Reads a theme from a configuration value.
    pub fn from_config_str(val: &str) -> (r: Theme)
        ensures
            r == Theme::of_config(val@),
    {
        if eq_ignore_ascii_case(val, "light") {
            Theme::Light
        } else if eq_ignore_ascii_case(val, "ansi") {
            Theme::Ansi
        } else {
            Theme::Dark
        }
    }

    /// The configuration value under which this theme is stored.
    pub fn as_config_string(&self) -> (r: String)
        ensures
            r@ == self.config_name(),
    {
        match self {
            Theme::Light => String::from_str("light"),
            Theme::Dark => String::from_str("dark"),
            Theme::Ansi => String::from_str("ansi"),
        }
    }
}

/// A stored theme is read back as itself.
pub proof fn law_theme_config_round_trip(theme: Theme)
    ensures
        Theme::of_config(theme.config_name()) == theme,
{
    reveal_strlit("light");
    reveal_strlit("dark");
    reveal_strlit("ansi");
    let light = "light"@.map_values(|c: char| ascii_lower(c));
    let dark = "dark"@.map_values(|c: char| ascii_lower(c));
    let ansi = "ansi"@.map_values(|c: char| ascii_lower(c));
    assert(light.len() == 5 && dark.len() == 4 && ansi.len() == 4);
    assert(dark[0] == 'd' && ansi[0] == 'a');
}

/// The theme that takes effect at start: the one that the environment names,
/// else the one that the configuration names, else the dark one.
pub open spec fn startup_theme(env_value: Option<Seq<char>>, config_value: Option<Seq<char>>) -> Theme {
    match env_value {
        Some(val) => Theme::of_config(val),
        None => match config_value {
            Some(val) => Theme::of_config(val),
            None => Theme::Dark,
        },
    }
}

/// The theme in effect.
#[derive(Clone, Copy, Debug)]
pub struct ThemeSetting {
    current: Theme,
}

impl ThemeSetting {
    /// The theme in effect.
    pub closed spec fn theme(self) -> Theme {
        self.current
    }

    /// The setting at start, from the value of the theme variable in the
    /// environment and the value of the theme parameter in the configuration.
    pub fn at_startup(env_value: Option<&str>, config_value: Option<&str>) -> (r: ThemeSetting)
        ensures
            r.theme() == startup_theme(env_value.deep_view(), config_value.deep_view()),
    {
        let current = match env_value {
            Some(val) => Theme::from_config_str(val),
            None => match config_value {
                Some(val) => Theme::from_config_str(val),
                None => Theme::Dark,
            },
        };
        ThemeSetting { current }
    }
}

/// Puts `theme` into effect and returns the configuration value under which
/// the caller stores it.
pub fn set_theme(setting: &mut ThemeSetting, theme: Theme) -> (stored: String)
    ensures
        final(setting).theme() == theme,
        stored@ == theme.config_name(),
{
    setting.current = theme;
    theme.as_config_string()
}

/// The theme in effect.
pub fn get_theme(setting: &ThemeSetting) -> (r: Theme)
    ensures
        r == setting.theme(),
{
    setting.current
}

/// The picture that the animation shows in its `frame`-th step: four
/// pictures in turn.
pub open spec fn frame_picture(frame: nat) -> Seq<char> {
    if frame % 4 == 0 {
        "\u{1F41B}"@
    } else if frame % 4 == 2 {
        "\u{1F40D}"@
    } else {
        "\u{1FAB1}"@
    }
}

/// The picture that the animation shows in its `frame`-th step.
pub fn animation_frame(frame: usize) -> (r: &'static str)
    ensures
        r@ == frame_picture(frame as nat),
{
    let step = frame % 4;
    if step == 0 {
        "\u{1F41B}"
    } else if step == 2 {
        "\u{1F40D}"
    } else {
        "\u{1FAB1}"
    }
}

/// The milliseconds between two steps of the animation.
pub const ANIMATION_INTERVAL_MS: u64 = 300;

/// What the caller does to the terminal after a change of the indicator.
#[derive(Clone, Copy, Debug, PartialEq, Eq, Structural)]
pub enum IndicatorAction {
    /// Nothing changes on screen.
    Nothing,
    /// Start the animation.
    StartAnimation,
    /// Stop the animation and clear its line.
    StopAnimation,
}

/// The thinking indicator: an animation that runs while the agent works, and
/// an optional spinner that carries a message.
#[derive(Debug)]
pub struct ThinkingIndicator {
    animating: bool,
    spinner_message: Option<String>,
}

/// Mathematical value of a [`ThinkingIndicator`].
pub struct IndicatorModel {
    /// Whether the animation runs.
    pub animating: bool,
    /// The message of the spinner, where there is one.
    pub spinner_message: Option<Seq<char>>,
}

impl View for ThinkingIndicator {
    type V = IndicatorModel;

    closed spec fn view(&self) -> IndicatorModel {
        IndicatorModel {
            animating: self.animating,
            spinner_message: self.spinner_message.deep_view(),
        }
    }
}

impl ThinkingIndicator {
    /// An indicator at rest, without a spinner.
    pub fn new() -> (r: ThinkingIndicator)
        ensures
            r@ == (IndicatorModel { animating: false, spinner_message: None }),
    {
        ThinkingIndicator { animating: false, spinner_message: None }
    }

    /// An indicator at rest whose spinner shows `message`.
    pub fn with_spinner(message: String) -> (r: ThinkingIndicator)
        ensures
            r@ == (IndicatorModel { animating: false, spinner_message: Some(message@) }),
    {
        ThinkingIndicator { animating: false, spinner_message: Some(message) }
    }

    /// Whether the animation runs.
    pub fn is_animating(&self) -> (r: bool)
        ensures
            r == self@.animating,
    {
        self.animating
    }

    /// The message of the spinner, where there is one.
    pub fn spinner_message(&self) -> (r: Option<&str>)
        ensures
            r.deep_view() == self@.spinner_message,
    {
        match &self.spinner_message {
            Some(m) => Some(m.as_str()),
            None => None,
        }
    }
}

/// Shows the indicator: the animation starts, whatever ran before.
pub fn show_thinking(indicator: &mut ThinkingIndicator) -> (action: IndicatorAction)
    ensures
        final(indicator)@ == (IndicatorModel { animating: true, ..old(indicator)@ }),
        action == IndicatorAction::StartAnimation,
{
    indicator.animating = true;
    IndicatorAction::StartAnimation
}

/// Hides the indicator: a running animation stops, and the spinner goes.
pub fn hide_thinking(indicator: &mut ThinkingIndicator) -> (action: IndicatorAction)
    ensures
        final(indicator)@ == (IndicatorModel { animating: false, spinner_message: None }),
        action == if old(indicator)@.animating {
            IndicatorAction::StopAnimation
        } else {
            IndicatorAction::Nothing
        },
{
    let action = if indicator.animating {
        IndicatorAction::StopAnimation
    } else {
        IndicatorAction::Nothing
    };
    indicator.animating = false;
    indicator.spinner_message = None;
    action
}

/// Gives the spinner a new message. Without a spinner nothing changes.
/// Returns whether a spinner took the message.
pub fn set_thinking_message(indicator: &mut ThinkingIndicator, s: &String) -> (taken: bool)
    ensures
        taken == old(indicator)@.spinner_message is Some,
        final(indicator)@ == if taken {
            IndicatorModel { spinner_message: Some(s@), ..old(indicator)@ }
        } else {
            old(indicator)@
        },
{
    if indicator.spinner_message.is_some() {
        indicator.spinner_message = Some(s.clone());
        true
    } else {
        false
    }
}

} // verus!
