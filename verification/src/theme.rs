//! Colour themes: a fixed ring of named palettes that the user cycles through.

use vstd::prelude::*;

verus! {

/// One colour of a palette.
#[derive(Clone, Copy, Debug, PartialEq, Eq, Structural)]
pub enum Color {
    Reset,
    Black,
    White,
    Cyan,
    Yellow,
    Blue,
    Gray,
    Rgb(u8, u8, u8),
}

/// The themes, in the order in which they are cycled.
#[derive(Clone, Copy, Debug, PartialEq, Eq, Structural)]
pub enum ColorScheme {
    Default,
    Dark,
    Light,
    Ocean,
    Forest,
    Sunset,
    Neon,
    Pastel,
    Monochrome,
    Autumn,
    Winter,
    Spring,
    Summer,
    Cyberpunk,
    Retro,
    Desert,
    Space,
    Candy,
    Earth,
    Midnight,
    Matrix,
    Nordic,
    Dracula,
    Solarized,
    Monokai,
    Gruvbox,
    Tokyo,
    Synthwave,
    Coffee,
    Nature,
}

/// How many themes there are.
pub const THEME_COUNT: usize = 30;

impl ColorScheme {
    /// The place of a theme in the ring, counted from zero.
    pub open spec fn position(self) -> nat {
        match self {
            ColorScheme::Default => 0,
            ColorScheme::Dark => 1,
            ColorScheme::Light => 2,
            ColorScheme::Ocean => 3,
            ColorScheme::Forest => 4,
            ColorScheme::Sunset => 5,
            ColorScheme::Neon => 6,
            ColorScheme::Pastel => 7,
            ColorScheme::Monochrome => 8,
            ColorScheme::Autumn => 9,
            ColorScheme::Winter => 10,
            ColorScheme::Spring => 11,
            ColorScheme::Summer => 12,
            ColorScheme::Cyberpunk => 13,
            ColorScheme::Retro => 14,
            ColorScheme::Desert => 15,
            ColorScheme::Space => 16,
            ColorScheme::Candy => 17,
            ColorScheme::Earth => 18,
            ColorScheme::Midnight => 19,
            ColorScheme::Matrix => 20,
            ColorScheme::Nordic => 21,
            ColorScheme::Dracula => 22,
            ColorScheme::Solarized => 23,
            ColorScheme::Monokai => 24,
            ColorScheme::Gruvbox => 25,
            ColorScheme::Tokyo => 26,
            ColorScheme::Synthwave => 27,
            ColorScheme::Coffee => 28,
            ColorScheme::Nature => 29,
        }
    }

    /// The theme that stands at place `i` of the ring; places wrap around.
    #[verifier::opaque]
    pub open spec fn at(i: nat) -> ColorScheme {
        let k = i % (THEME_COUNT as nat);
        if k == 0 {
            ColorScheme::Default
        } else if k == 1 {
            ColorScheme::Dark
        } else if k == 2 {
            ColorScheme::Light
        } else if k == 3 {
            ColorScheme::Ocean
        } else if k == 4 {
            ColorScheme::Forest
        } else if k == 5 {
            ColorScheme::Sunset
        } else if k == 6 {
            ColorScheme::Neon
        } else if k == 7 {
            ColorScheme::Pastel
        } else if k == 8 {
            ColorScheme::Monochrome
        } else if k == 9 {
            ColorScheme::Autumn
        } else if k == 10 {
            ColorScheme::Winter
        } else if k == 11 {
            ColorScheme::Spring
        } else if k == 12 {
            ColorScheme::Summer
        } else if k == 13 {
            ColorScheme::Cyberpunk
        } else if k == 14 {
            ColorScheme::Retro
        } else if k == 15 {
            ColorScheme::Desert
        } else if k == 16 {
            ColorScheme::Space
        } else if k == 17 {
            ColorScheme::Candy
        } else if k == 18 {
            ColorScheme::Earth
        } else if k == 19 {
            ColorScheme::Midnight
        } else if k == 20 {
            ColorScheme::Matrix
        } else if k == 21 {
            ColorScheme::Nordic
        } else if k == 22 {
            ColorScheme::Dracula
        } else if k == 23 {
            ColorScheme::Solarized
        } else if k == 24 {
            ColorScheme::Monokai
        } else if k == 25 {
            ColorScheme::Gruvbox
        } else if k == 26 {
            ColorScheme::Tokyo
        } else if k == 27 {
            ColorScheme::Synthwave
        } else if k == 28 {
            ColorScheme::Coffee
        } else {
            ColorScheme::Nature
        }
    }

    /// The theme reached from `self` by `n` steps round the ring.
    pub open spec fn advanced(self, n: nat) -> ColorScheme
        decreases n,
    {
        if n == 0 {
            self
        } else {
            self.advanced((n - 1) as nat).successor()
        }
    }

    /// The theme one step further round the ring.
    pub open spec fn successor(self) -> ColorScheme {
        ColorScheme::at(self.position() + 1)
    }

    /// The name shown to the user.
    pub open spec fn label(self) -> Seq<char> {
        match self {
            ColorScheme::Default => "Default"@,
            ColorScheme::Dark => "Dark"@,
            ColorScheme::Light => "Light"@,
            ColorScheme::Ocean => "Ocean"@,
            ColorScheme::Forest => "Forest"@,
            ColorScheme::Sunset => "Sunset"@,
            ColorScheme::Neon => "Neon"@,
            ColorScheme::Pastel => "Pastel"@,
            ColorScheme::Monochrome => "Monochrome"@,
            ColorScheme::Autumn => "Autumn"@,
            ColorScheme::Winter => "Winter"@,
            ColorScheme::Spring => "Spring"@,
            ColorScheme::Summer => "Summer"@,
            ColorScheme::Cyberpunk => "Cyberpunk"@,
            ColorScheme::Retro => "Retro"@,
            ColorScheme::Desert => "Desert"@,
            ColorScheme::Space => "Space"@,
            ColorScheme::Candy => "Candy"@,
            ColorScheme::Earth => "Earth"@,
            ColorScheme::Midnight => "Midnight"@,
            ColorScheme::Matrix => "Matrix"@,
            ColorScheme::Nordic => "Nordic"@,
            ColorScheme::Dracula => "Dracula"@,
            ColorScheme::Solarized => "Solarized"@,
            ColorScheme::Monokai => "Monokai"@,
            ColorScheme::Gruvbox => "Gruvbox"@,
            ColorScheme::Tokyo => "Tokyo Night"@,
            ColorScheme::Synthwave => "Synthwave"@,
            ColorScheme::Coffee => "Coffee"@,
            ColorScheme::Nature => "Nature"@,
        }
    }

    /// Background, foreground and highlight colour of the theme.
    pub open spec fn palette(self) -> (Color, Color, Color) {
        match self {
            ColorScheme::Default => (Color::Reset, Color::White, Color::Cyan),
            ColorScheme::Dark => (Color::Black, Color::White, Color::Yellow),
            ColorScheme::Light => (Color::White, Color::Black, Color::Blue),
            ColorScheme::Ocean => (Color::Rgb(0, 105, 148), Color::White, Color::Rgb(0, 255, 255)),
            ColorScheme::Forest => (Color::Rgb(34, 139, 34), Color::White, Color::Rgb(255, 215, 0)),
            ColorScheme::Sunset => (Color::Rgb(255, 99, 71), Color::White, Color::Rgb(255, 215, 0)),
            ColorScheme::Neon => (Color::Black, Color::Rgb(255, 0, 255), Color::Rgb(0, 255, 0)),
            ColorScheme::Pastel => (Color::Rgb(255, 240, 245), Color::Rgb(70, 130, 180), Color::Rgb(255, 182, 193)),
            ColorScheme::Monochrome => (Color::Black, Color::White, Color::Gray),
            ColorScheme::Autumn => (Color::Rgb(139, 69, 19), Color::White, Color::Rgb(255, 140, 0)),
            ColorScheme::Winter => (Color::Rgb(65, 105, 225), Color::White, Color::Rgb(176, 224, 230)),
            ColorScheme::Spring => (Color::Rgb(144, 238, 144), Color::Black, Color::Rgb(255, 105, 180)),
            ColorScheme::Summer => (Color::Rgb(255, 215, 0), Color::Black, Color::Rgb(0, 191, 255)),
            ColorScheme::Cyberpunk => (Color::Black, Color::Rgb(0, 255, 255), Color::Rgb(255, 0, 255)),
            ColorScheme::Retro => (Color::Rgb(64, 64, 64), Color::Rgb(0, 255, 0), Color::Rgb(255, 165, 0)),
            ColorScheme::Desert => (Color::Rgb(210, 180, 140), Color::Black, Color::Rgb(255, 69, 0)),
            ColorScheme::Space => (Color::Rgb(25, 25, 112), Color::White, Color::Rgb(255, 215, 0)),
            ColorScheme::Candy => (Color::Rgb(255, 192, 203), Color::Black, Color::Rgb(127, 255, 212)),
            ColorScheme::Earth => (Color::Rgb(139, 69, 19), Color::White, Color::Rgb(34, 139, 34)),
            ColorScheme::Midnight => (Color::Rgb(25, 25, 112), Color::White, Color::Rgb(138, 43, 226)),
            ColorScheme::Matrix => (Color::Black, Color::Rgb(0, 255, 0), Color::Rgb(0, 200, 0)),
            ColorScheme::Nordic => (Color::Rgb(46, 52, 64), Color::Rgb(216, 222, 233), Color::Rgb(94, 129, 172)),
            ColorScheme::Dracula => (Color::Rgb(40, 42, 54), Color::Rgb(248, 248, 242), Color::Rgb(255, 121, 198)),
            ColorScheme::Solarized => (Color::Rgb(0, 43, 54), Color::Rgb(131, 148, 150), Color::Rgb(181, 137, 0)),
            ColorScheme::Monokai => (Color::Rgb(39, 40, 34), Color::Rgb(248, 248, 242), Color::Rgb(249, 38, 114)),
            ColorScheme::Gruvbox => (Color::Rgb(40, 40, 40), Color::Rgb(235, 219, 178), Color::Rgb(251, 73, 52)),
            ColorScheme::Tokyo => (Color::Rgb(26, 27, 38), Color::Rgb(169, 177, 214), Color::Rgb(187, 154, 247)),
            ColorScheme::Synthwave => (Color::Rgb(39, 23, 64), Color::Rgb(255, 236, 255), Color::Rgb(255, 82, 197)),
            ColorScheme::Coffee => (Color::Rgb(59, 35, 20), Color::Rgb(237, 221, 185), Color::Rgb(191, 128, 64)),
            ColorScheme::Nature => (Color::Rgb(42, 61, 44), Color::Rgb(233, 237, 201), Color::Rgb(139, 189, 139)),
        }
    }

    /// The next theme in the ring; the last one is followed by the first.
    pub fn next(&self) -> (r: ColorScheme)
        ensures
            r == self.successor(),
            r.position() == (self.position() + 1) % (THEME_COUNT as nat),
    {
        proof {
            reveal(ColorScheme::at);
        }
        match self {
            ColorScheme::Default => ColorScheme::Dark,
            ColorScheme::Dark => ColorScheme::Light,
            ColorScheme::Light => ColorScheme::Ocean,
            ColorScheme::Ocean => ColorScheme::Forest,
            ColorScheme::Forest => ColorScheme::Sunset,
            ColorScheme::Sunset => ColorScheme::Neon,
            ColorScheme::Neon => ColorScheme::Pastel,
            ColorScheme::Pastel => ColorScheme::Monochrome,
            ColorScheme::Monochrome => ColorScheme::Autumn,
            ColorScheme::Autumn => ColorScheme::Winter,
            ColorScheme::Winter => ColorScheme::Spring,
            ColorScheme::Spring => ColorScheme::Summer,
            ColorScheme::Summer => ColorScheme::Cyberpunk,
            ColorScheme::Cyberpunk => ColorScheme::Retro,
            ColorScheme::Retro => ColorScheme::Desert,
            ColorScheme::Desert => ColorScheme::Space,
            ColorScheme::Space => ColorScheme::Candy,
            ColorScheme::Candy => ColorScheme::Earth,
            ColorScheme::Earth => ColorScheme::Midnight,
            ColorScheme::Midnight => ColorScheme::Matrix,
            ColorScheme::Matrix => ColorScheme::Nordic,
            ColorScheme::Nordic => ColorScheme::Dracula,
            ColorScheme::Dracula => ColorScheme::Solarized,
            ColorScheme::Solarized => ColorScheme::Monokai,
            ColorScheme::Monokai => ColorScheme::Gruvbox,
            ColorScheme::Gruvbox => ColorScheme::Tokyo,
            ColorScheme::Tokyo => ColorScheme::Synthwave,
            ColorScheme::Synthwave => ColorScheme::Coffee,
            ColorScheme::Coffee => ColorScheme::Nature,
            ColorScheme::Nature => ColorScheme::Default,
        }
    }

    /// Background, foreground and highlight colour of the theme.
    pub fn get_colors(&self) -> (r: (Color, Color, Color))
        ensures
            r == self.palette(),
    {
        match self {
            ColorScheme::Default => (Color::Reset, Color::White, Color::Cyan),
            ColorScheme::Dark => (Color::Black, Color::White, Color::Yellow),
            ColorScheme::Light => (Color::White, Color::Black, Color::Blue),
            ColorScheme::Ocean => (Color::Rgb(0, 105, 148), Color::White, Color::Rgb(0, 255, 255)),
            ColorScheme::Forest => (Color::Rgb(34, 139, 34), Color::White, Color::Rgb(255, 215, 0)),
            ColorScheme::Sunset => (Color::Rgb(255, 99, 71), Color::White, Color::Rgb(255, 215, 0)),
            ColorScheme::Neon => (Color::Black, Color::Rgb(255, 0, 255), Color::Rgb(0, 255, 0)),
            ColorScheme::Pastel => (Color::Rgb(255, 240, 245), Color::Rgb(70, 130, 180), Color::Rgb(255, 182, 193)),
            ColorScheme::Monochrome => (Color::Black, Color::White, Color::Gray),
            ColorScheme::Autumn => (Color::Rgb(139, 69, 19), Color::White, Color::Rgb(255, 140, 0)),
            ColorScheme::Winter => (Color::Rgb(65, 105, 225), Color::White, Color::Rgb(176, 224, 230)),
            ColorScheme::Spring => (Color::Rgb(144, 238, 144), Color::Black, Color::Rgb(255, 105, 180)),
            ColorScheme::Summer => (Color::Rgb(255, 215, 0), Color::Black, Color::Rgb(0, 191, 255)),
            ColorScheme::Cyberpunk => (Color::Black, Color::Rgb(0, 255, 255), Color::Rgb(255, 0, 255)),
            ColorScheme::Retro => (Color::Rgb(64, 64, 64), Color::Rgb(0, 255, 0), Color::Rgb(255, 165, 0)),
            ColorScheme::Desert => (Color::Rgb(210, 180, 140), Color::Black, Color::Rgb(255, 69, 0)),
            ColorScheme::Space => (Color::Rgb(25, 25, 112), Color::White, Color::Rgb(255, 215, 0)),
            ColorScheme::Candy => (Color::Rgb(255, 192, 203), Color::Black, Color::Rgb(127, 255, 212)),
            ColorScheme::Earth => (Color::Rgb(139, 69, 19), Color::White, Color::Rgb(34, 139, 34)),
            ColorScheme::Midnight => (Color::Rgb(25, 25, 112), Color::White, Color::Rgb(138, 43, 226)),
            ColorScheme::Matrix => (Color::Black, Color::Rgb(0, 255, 0), Color::Rgb(0, 200, 0)),
            ColorScheme::Nordic => (Color::Rgb(46, 52, 64), Color::Rgb(216, 222, 233), Color::Rgb(94, 129, 172)),
            ColorScheme::Dracula => (Color::Rgb(40, 42, 54), Color::Rgb(248, 248, 242), Color::Rgb(255, 121, 198)),
            ColorScheme::Solarized => (Color::Rgb(0, 43, 54), Color::Rgb(131, 148, 150), Color::Rgb(181, 137, 0)),
            ColorScheme::Monokai => (Color::Rgb(39, 40, 34), Color::Rgb(248, 248, 242), Color::Rgb(249, 38, 114)),
            ColorScheme::Gruvbox => (Color::Rgb(40, 40, 40), Color::Rgb(235, 219, 178), Color::Rgb(251, 73, 52)),
            ColorScheme::Tokyo => (Color::Rgb(26, 27, 38), Color::Rgb(169, 177, 214), Color::Rgb(187, 154, 247)),
            ColorScheme::Synthwave => (Color::Rgb(39, 23, 64), Color::Rgb(255, 236, 255), Color::Rgb(255, 82, 197)),
            ColorScheme::Coffee => (Color::Rgb(59, 35, 20), Color::Rgb(237, 221, 185), Color::Rgb(191, 128, 64)),
            ColorScheme::Nature => (Color::Rgb(42, 61, 44), Color::Rgb(233, 237, 201), Color::Rgb(139, 189, 139)),
        }
    }

    /// The name shown to the user.
    pub fn display_name(&self) -> (r: &'static str)
        ensures
            r@ == self.label(),
    {
        match self {
            ColorScheme::Default => "Default",
            ColorScheme::Dark => "Dark",
            ColorScheme::Light => "Light",
            ColorScheme::Ocean => "Ocean",
            ColorScheme::Forest => "Forest",
            ColorScheme::Sunset => "Sunset",
            ColorScheme::Neon => "Neon",
            ColorScheme::Pastel => "Pastel",
            ColorScheme::Monochrome => "Monochrome",
            ColorScheme::Autumn => "Autumn",
            ColorScheme::Winter => "Winter",
            ColorScheme::Spring => "Spring",
            ColorScheme::Summer => "Summer",
            ColorScheme::Cyberpunk => "Cyberpunk",
            ColorScheme::Retro => "Retro",
            ColorScheme::Desert => "Desert",
            ColorScheme::Space => "Space",
            ColorScheme::Candy => "Candy",
            ColorScheme::Earth => "Earth",
            ColorScheme::Midnight => "Midnight",
            ColorScheme::Matrix => "Matrix",
            ColorScheme::Nordic => "Nordic",
            ColorScheme::Dracula => "Dracula",
            ColorScheme::Solarized => "Solarized",
            ColorScheme::Monokai => "Monokai",
            ColorScheme::Gruvbox => "Gruvbox",
            ColorScheme::Tokyo => "Tokyo Night",
            ColorScheme::Synthwave => "Synthwave",
            ColorScheme::Coffee => "Coffee",
            ColorScheme::Nature => "Nature",
        }
    }
}

impl Default for ColorScheme {
    /// The theme used when none was stored.
    fn default() -> (r: ColorScheme)
        ensures
            r == ColorScheme::Default,
    {
        ColorScheme::Default
    }
}

/// A theme stands at its own place: `at` undoes `position`.
pub proof fn lemma_at_position(t: ColorScheme)
    ensures
        t.position() < THEME_COUNT,
        ColorScheme::at(t.position()) == t,
{
    reveal(ColorScheme::at);
}

/// Two themes at the same place are the same theme.
pub proof fn lemma_position_injective(a: ColorScheme, b: ColorScheme)
    requires
        a.position() == b.position(),
    ensures
        a == b,
{
    lemma_at_position(a);
    lemma_at_position(b);
}

/// The theme at place `i` has the position `i`, counted round the ring.
pub proof fn lemma_position_at(i: nat)
    ensures
        ColorScheme::at(i).position() == i % (THEME_COUNT as nat),
{
    reveal(ColorScheme::at);
}

/// `n` steps from a theme lead to the place `n` further on, counted round the ring.
pub proof fn lemma_advanced_position(t: ColorScheme, n: nat)
    ensures
        t.advanced(n).position() == (t.position() + n) % (THEME_COUNT as nat),
    decreases n,
{
    if n > 0 {
        lemma_advanced_position(t, (n - 1) as nat);
        let p = t.advanced((n - 1) as nat);
        lemma_position_at(p.position() + 1);
        let a: int = t.position() + n - 1;
        let c: int = THEME_COUNT as int;
        assert((a % c + 1) % c == (a + 1) % c) by (nonlinear_arith)
            requires
                c > 0,
        ;
    }
}

/// Cycling is a single ring: as many steps as there are themes lead back to
/// the start, fewer steps never do, and no theme is met twice on the way.
pub proof fn lemma_theme_cycle(t: ColorScheme)
    ensures
        t.advanced(THEME_COUNT as nat) == t,
        forall|n: nat| 0 < n < THEME_COUNT ==> #[trigger] t.advanced(n) != t,
        forall|m: nat, n: nat| m < n < THEME_COUNT ==> t.advanced(m) != t.advanced(n),
{
    let c: int = THEME_COUNT as int;
    let p: int = t.position() as int;
    lemma_at_position(t);
    lemma_advanced_position(t, THEME_COUNT as nat);
    assert((p + c) % c == p);
    lemma_position_injective(t.advanced(THEME_COUNT as nat), t);
    assert forall|n: nat| 0 < n < THEME_COUNT implies #[trigger] t.advanced(n) != t by {
        lemma_advanced_position(t, n);
        assert((p + n) % c != p);
    }
    assert forall|m: nat, n: nat| m < n < THEME_COUNT implies t.advanced(m) != t.advanced(n) by {
        lemma_advanced_position(t, m);
        lemma_advanced_position(t, n);
        assert((p + m) % c != (p + n) % c);
    }
}

/// Every theme is met within one round: from any theme `t`, some number of
/// steps below the count leads to `u`. The number is returned.
pub proof fn lemma_theme_reached(t: ColorScheme, u: ColorScheme) -> (n: nat)
    ensures
        n < THEME_COUNT,
        t.advanced(n) == u,
{
    let n: nat = if u.position() >= t.position() {
        (u.position() - t.position()) as nat
    } else {
        (u.position() + THEME_COUNT - t.position()) as nat
    };
    lemma_at_position(t);
    lemma_at_position(u);
    lemma_advanced_position(t, n);
    lemma_position_injective(t.advanced(n), u);
    n
}

} // verus!
