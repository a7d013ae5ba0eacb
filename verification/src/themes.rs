//! The theme registry: five read-only palettes keyed by name, the
//! activity-level buckets the week view colors commits with, and the
//! decorative glyph sets.

use vstd::prelude::*;
use crate::color::Color;
use crate::strutil::str_eq;

verus! {

/// A named palette.
#[derive(Debug, Clone, Copy, PartialEq, Eq, Structural)]
pub struct Theme {
    pub primary: Color,
    pub secondary: Color,
    pub accent: Color,
    pub success: Color,
    pub warning: Color,
    pub error: Color,
    pub info: Color,
    pub background: Color,
    pub surface: Color,
    pub text: Color,
    pub text_secondary: Color,
    pub border: Color,
    pub highlight: Color,
    pub selection: Color,
    pub activity_none: Color,
    pub activity_low: Color,
    pub activity_medium: Color,
    pub activity_high: Color,
    pub activity_max: Color,
}

/// How much activity a commit count amounts to.
#[derive(Debug, Clone, Copy, PartialEq, Eq, Structural)]
pub enum ActivityLevel {
    Inactive,
    Low,
    Medium,
    High,
    Max,
}

impl ActivityLevel {
    /// Bucket a commit count: none, one to two, three to five, six to
    /// ten, and everything above.
    pub fn from_commit_count(count: u32) -> (r: ActivityLevel)
        ensures
            count == 0 ==> r is Inactive,
            1 <= count <= 2 ==> r is Low,
            3 <= count <= 5 ==> r is Medium,
            6 <= count <= 10 ==> r is High,
            count > 10 ==> r is Max,
    {
        if count == 0 {
            ActivityLevel::Inactive
        } else if count <= 2 {
            ActivityLevel::Low
        } else if count <= 5 {
            ActivityLevel::Medium
        } else if count <= 10 {
            ActivityLevel::High
        } else {
            ActivityLevel::Max
        }
    }
}

impl Theme {
    /// The palette color for an activity level.
    pub fn activity_color(&self, level: ActivityLevel) -> (r: Color)
        ensures
            r == match level {
                ActivityLevel::Inactive => self.activity_none,
                ActivityLevel::Low => self.activity_low,
                ActivityLevel::Medium => self.activity_medium,
                ActivityLevel::High => self.activity_high,
                ActivityLevel::Max => self.activity_max,
            },
    {
        match level {
            ActivityLevel::Inactive => self.activity_none,
            ActivityLevel::Low => self.activity_low,
            ActivityLevel::Medium => self.activity_medium,
            ActivityLevel::High => self.activity_high,
            ActivityLevel::Max => self.activity_max,
        }
    }
}

/// The electric-blue-on-deep-space palette, the default.
pub open spec fn neon_night_spec() -> Theme {
    Theme {
        primary: Color::Rgb(0, 212, 255),
        secondary: Color::Rgb(255, 27, 141),
        accent: Color::Rgb(0, 255, 148),
        success: Color::Rgb(0, 255, 148),
        warning: Color::Rgb(255, 184, 0),
        error: Color::Rgb(255, 107, 107),
        info: Color::Rgb(0, 212, 255),
        background: Color::Rgb(10, 10, 10),
        surface: Color::Rgb(26, 26, 26),
        text: Color::Rgb(255, 255, 255),
        text_secondary: Color::Rgb(170, 170, 170),
        border: Color::Rgb(68, 68, 68),
        highlight: Color::Rgb(255, 27, 141),
        selection: Color::Rgb(0, 212, 255),
        activity_none: Color::Rgb(40, 40, 40),
        activity_low: Color::Rgb(0, 100, 255),
        activity_medium: Color::Rgb(0, 180, 255),
        activity_high: Color::Rgb(0, 255, 180),
        activity_max: Color::Rgb(0, 255, 80),
    }
}

pub open spec fn cyberpunk_spec() -> Theme {
    Theme {
        primary: Color::Rgb(255, 0, 255),
        secondary: Color::Rgb(0, 255, 255),
        accent: Color::Rgb(255, 255, 0),
        success: Color::Rgb(0, 255, 0),
        warning: Color::Rgb(255, 165, 0),
        error: Color::Rgb(255, 0, 0),
        info: Color::Rgb(0, 255, 255),
        background: Color::Rgb(0, 0, 0),
        surface: Color::Rgb(20, 0, 20),
        text: Color::Rgb(0, 255, 0),
        text_secondary: Color::Rgb(128, 255, 128),
        border: Color::Rgb(255, 0, 255),
        highlight: Color::Rgb(255, 255, 0),
        selection: Color::Rgb(255, 0, 255),
        activity_none: Color::Rgb(50, 0, 50),
        activity_low: Color::Rgb(255, 0, 100),
        activity_medium: Color::Rgb(255, 0, 200),
        activity_high: Color::Rgb(255, 100, 255),
        activity_max: Color::Rgb(255, 200, 255),
    }
}

pub open spec fn ocean_breeze_spec() -> Theme {
    Theme {
        primary: Color::Rgb(52, 152, 219),
        secondary: Color::Rgb(26, 188, 156),
        accent: Color::Rgb(46, 204, 113),
        success: Color::Rgb(46, 204, 113),
        warning: Color::Rgb(241, 196, 15),
        error: Color::Rgb(231, 76, 60),
        info: Color::Rgb(52, 152, 219),
        background: Color::Rgb(12, 20, 31),
        surface: Color::Rgb(23, 32, 42),
        text: Color::Rgb(236, 240, 241),
        text_secondary: Color::Rgb(149, 165, 166),
        border: Color::Rgb(52, 73, 94),
        highlight: Color::Rgb(26, 188, 156),
        selection: Color::Rgb(52, 152, 219),
        activity_none: Color::Rgb(30, 40, 50),
        activity_low: Color::Rgb(52, 152, 219),
        activity_medium: Color::Rgb(26, 188, 156),
        activity_high: Color::Rgb(46, 204, 113),
        activity_max: Color::Rgb(155, 227, 152),
    }
}

pub open spec fn forest_dark_spec() -> Theme {
    Theme {
        primary: Color::Rgb(76, 175, 80),
        secondary: Color::Rgb(139, 195, 74),
        accent: Color::Rgb(255, 235, 59),
        success: Color::Rgb(76, 175, 80),
        warning: Color::Rgb(255, 193, 7),
        error: Color::Rgb(244, 67, 54),
        info: Color::Rgb(33, 150, 243),
        background: Color::Rgb(18, 32, 18),
        surface: Color::Rgb(28, 42, 28),
        text: Color::Rgb(232, 245, 233),
        text_secondary: Color::Rgb(165, 214, 167),
        border: Color::Rgb(56, 87, 35),
        highlight: Color::Rgb(139, 195, 74),
        selection: Color::Rgb(76, 175, 80),
        activity_none: Color::Rgb(40, 50, 40),
        activity_low: Color::Rgb(76, 175, 80),
        activity_medium: Color::Rgb(139, 195, 74),
        activity_high: Color::Rgb(174, 213, 129),
        activity_max: Color::Rgb(220, 237, 200),
    }
}

pub open spec fn sunset_glow_spec() -> Theme {
    Theme {
        primary: Color::Rgb(255, 87, 34),
        secondary: Color::Rgb(255, 152, 0),
        accent: Color::Rgb(255, 193, 7),
        success: Color::Rgb(139, 195, 74),
        warning: Color::Rgb(255, 193, 7),
        error: Color::Rgb(244, 67, 54),
        info: Color::Rgb(103, 58, 183),
        background: Color::Rgb(33, 17, 8),
        surface: Color::Rgb(51, 25, 12),
        text: Color::Rgb(255, 245, 238),
        text_secondary: Color::Rgb(188, 170, 164),
        border: Color::Rgb(121, 85, 72),
        highlight: Color::Rgb(255, 152, 0),
        selection: Color::Rgb(255, 87, 34),
        activity_none: Color::Rgb(60, 40, 30),
        activity_low: Color::Rgb(255, 87, 34),
        activity_medium: Color::Rgb(255, 152, 0),
        activity_high: Color::Rgb(255, 193, 7),
        activity_max: Color::Rgb(255, 235, 59),
    }
}

/// The palettes on offer.
#[derive(Debug, Clone, Copy, PartialEq, Eq, Structural)]
pub struct Themes {
    pub neon_night: Theme,
    pub cyberpunk: Theme,
    pub ocean_breeze: Theme,
    pub forest_dark: Theme,
    pub sunset_glow: Theme,
}

impl Themes {
    pub fn new() -> (r: Themes)
        ensures
            r.neon_night == neon_night_spec(),
            r.cyberpunk == cyberpunk_spec(),
            r.ocean_breeze == ocean_breeze_spec(),
            r.forest_dark == forest_dark_spec(),
            r.sunset_glow == sunset_glow_spec(),
    {
        Themes {
            neon_night: Theme {
                primary: Color::Rgb(0, 212, 255),
                secondary: Color::Rgb(255, 27, 141),
                accent: Color::Rgb(0, 255, 148),
                success: Color::Rgb(0, 255, 148),
                warning: Color::Rgb(255, 184, 0),
                error: Color::Rgb(255, 107, 107),
                info: Color::Rgb(0, 212, 255),
                background: Color::Rgb(10, 10, 10),
                surface: Color::Rgb(26, 26, 26),
                text: Color::Rgb(255, 255, 255),
                text_secondary: Color::Rgb(170, 170, 170),
                border: Color::Rgb(68, 68, 68),
                highlight: Color::Rgb(255, 27, 141),
                selection: Color::Rgb(0, 212, 255),
                activity_none: Color::Rgb(40, 40, 40),
                activity_low: Color::Rgb(0, 100, 255),
                activity_medium: Color::Rgb(0, 180, 255),
                activity_high: Color::Rgb(0, 255, 180),
                activity_max: Color::Rgb(0, 255, 80),
            },
            cyberpunk: Theme {
                primary: Color::Rgb(255, 0, 255),
                secondary: Color::Rgb(0, 255, 255),
                accent: Color::Rgb(255, 255, 0),
                success: Color::Rgb(0, 255, 0),
                warning: Color::Rgb(255, 165, 0),
                error: Color::Rgb(255, 0, 0),
                info: Color::Rgb(0, 255, 255),
                background: Color::Rgb(0, 0, 0),
                surface: Color::Rgb(20, 0, 20),
                text: Color::Rgb(0, 255, 0),
                text_secondary: Color::Rgb(128, 255, 128),
                border: Color::Rgb(255, 0, 255),
                highlight: Color::Rgb(255, 255, 0),
                selection: Color::Rgb(255, 0, 255),
                activity_none: Color::Rgb(50, 0, 50),
                activity_low: Color::Rgb(255, 0, 100),
                activity_medium: Color::Rgb(255, 0, 200),
                activity_high: Color::Rgb(255, 100, 255),
                activity_max: Color::Rgb(255, 200, 255),
            },
            ocean_breeze: Theme {
                primary: Color::Rgb(52, 152, 219),
                secondary: Color::Rgb(26, 188, 156),
                accent: Color::Rgb(46, 204, 113),
                success: Color::Rgb(46, 204, 113),
                warning: Color::Rgb(241, 196, 15),
                error: Color::Rgb(231, 76, 60),
                info: Color::Rgb(52, 152, 219),
                background: Color::Rgb(12, 20, 31),
                surface: Color::Rgb(23, 32, 42),
                text: Color::Rgb(236, 240, 241),
                text_secondary: Color::Rgb(149, 165, 166),
                border: Color::Rgb(52, 73, 94),
                highlight: Color::Rgb(26, 188, 156),
                selection: Color::Rgb(52, 152, 219),
                activity_none: Color::Rgb(30, 40, 50),
                activity_low: Color::Rgb(52, 152, 219),
                activity_medium: Color::Rgb(26, 188, 156),
                activity_high: Color::Rgb(46, 204, 113),
                activity_max: Color::Rgb(155, 227, 152),
            },
            forest_dark: Theme {
                primary: Color::Rgb(76, 175, 80),
                secondary: Color::Rgb(139, 195, 74),
                accent: Color::Rgb(255, 235, 59),
                success: Color::Rgb(76, 175, 80),
                warning: Color::Rgb(255, 193, 7),
                error: Color::Rgb(244, 67, 54),
                info: Color::Rgb(33, 150, 243),
                background: Color::Rgb(18, 32, 18),
                surface: Color::Rgb(28, 42, 28),
                text: Color::Rgb(232, 245, 233),
                text_secondary: Color::Rgb(165, 214, 167),
                border: Color::Rgb(56, 87, 35),
                highlight: Color::Rgb(139, 195, 74),
                selection: Color::Rgb(76, 175, 80),
                activity_none: Color::Rgb(40, 50, 40),
                activity_low: Color::Rgb(76, 175, 80),
                activity_medium: Color::Rgb(139, 195, 74),
                activity_high: Color::Rgb(174, 213, 129),
                activity_max: Color::Rgb(220, 237, 200),
            },
            sunset_glow: Theme {
                primary: Color::Rgb(255, 87, 34),
                secondary: Color::Rgb(255, 152, 0),
                accent: Color::Rgb(255, 193, 7),
                success: Color::Rgb(139, 195, 74),
                warning: Color::Rgb(255, 193, 7),
                error: Color::Rgb(244, 67, 54),
                info: Color::Rgb(103, 58, 183),
                background: Color::Rgb(33, 17, 8),
                surface: Color::Rgb(51, 25, 12),
                text: Color::Rgb(255, 245, 238),
                text_secondary: Color::Rgb(188, 170, 164),
                border: Color::Rgb(121, 85, 72),
                highlight: Color::Rgb(255, 152, 0),
                selection: Color::Rgb(255, 87, 34),
                activity_none: Color::Rgb(60, 40, 30),
                activity_low: Color::Rgb(255, 87, 34),
                activity_medium: Color::Rgb(255, 152, 0),
                activity_high: Color::Rgb(255, 193, 7),
                activity_max: Color::Rgb(255, 235, 59),
            },
        }
    }

    /// Look a palette up by its configuration key; an unknown key finds
    /// nothing.
    pub fn get_theme_by_name(&self, name: &str) -> (r: Option<&Theme>)
        ensures
            name@ == "neon_night"@ ==> r == Some(&self.neon_night),
            name@ == "cyberpunk"@ ==> r == Some(&self.cyberpunk),
            name@ == "ocean_breeze"@ ==> r == Some(&self.ocean_breeze),
            name@ == "forest_dark"@ ==> r == Some(&self.forest_dark),
            name@ == "sunset_glow"@ ==> r == Some(&self.sunset_glow),
            name@ != "neon_night"@ && name@ != "cyberpunk"@ && name@ != "ocean_breeze"@ && name@
                != "forest_dark"@ && name@ != "sunset_glow"@ ==> r is None,
    {
        proof {
            reveal_strlit("neon_night");
            reveal_strlit("cyberpunk");
            reveal_strlit("ocean_breeze");
            reveal_strlit("forest_dark");
            reveal_strlit("sunset_glow");
            assert("neon_night"@.len() == 10);
            assert("cyberpunk"@.len() == 9);
            assert("ocean_breeze"@.len() == 12);
            assert("forest_dark"@.len() == 11);
            assert("sunset_glow"@.len() == 11);
            assert("forest_dark"@[0] == 'f');
            assert("sunset_glow"@[0] == 's');
        }
        if str_eq(name, "neon_night") {
            Some(&self.neon_night)
        } else if str_eq(name, "cyberpunk") {
            Some(&self.cyberpunk)
        } else if str_eq(name, "ocean_breeze") {
            Some(&self.ocean_breeze)
        } else if str_eq(name, "forest_dark") {
            Some(&self.forest_dark)
        } else if str_eq(name, "sunset_glow") {
            Some(&self.sunset_glow)
        } else {
            None
        }
    }

    /// The configuration keys of every palette.
    pub fn list_theme_names(&self) -> (r: Vec<&'static str>)
        ensures
            r@.len() == 5,
            r@[0]@ == "neon_night"@,
            r@[1]@ == "cyberpunk"@,
            r@[2]@ == "ocean_breeze"@,
            r@[3]@ == "forest_dark"@,
            r@[4]@ == "sunset_glow"@,
    {
        let mut v: Vec<&'static str> = Vec::new();
        v.push("neon_night");
        v.push("cyberpunk");
        v.push("ocean_breeze");
        v.push("forest_dark");
        v.push("sunset_glow");
        v
    }

    /// The palette used when none is configured.
    pub fn default_theme(&self) -> (r: &Theme)
        ensures
            r == &self.neon_night,
    {
        &self.neon_night
    }
}

/// Decorative glyph sets.
pub struct AsciiArt;

impl AsciiArt {
    /// The title banner, one row per line.
    pub fn logo() -> (r: Vec<&'static str>)
        ensures
            r@.len() == 8,
    {
        let mut v: Vec<&'static str> = Vec::new();
        v.push("  #######  ######  ##   ##");
        v.push("  ##      ##       ##   ##");
        v.push("  #######  ##      ##   ##");
        v.push("       ##  ##       ## ## ");
        v.push("  #######  ######    ###  ");
        v.push("                          ");
        v.push("");
        v.push("  Student Code Viewer");
        v
    }

    /// A mascot for the activity screens.
    pub fn github_octocat() -> (r: Vec<&'static str>)
        ensures
            r@.len() == 8,
    {
        let mut v: Vec<&'static str> = Vec::new();
        v.push("        .-\"\"\"\"\"-.");
        v.push("       /         \\");
        v.push("      |  O     O  |");
        v.push("      |     ^     |");
        v.push("       \\    ___   /");
        v.push("        '-.......-'");
        v.push("         |  ___  |");
        v.push("         |_|   |_|");
        v
    }

    /// The frames of the braille loading spinner.
    pub fn loading_spinner_frames() -> (r: Vec<&'static str>)
        ensures
            r@.len() == 10,
    {
        let mut v: Vec<&'static str> = Vec::new();
        v.push("\u{280b}");
        v.push("\u{2819}");
        v.push("\u{2839}");
        v.push("\u{2838}");
        v.push("\u{283c}");
        v.push("\u{2834}");
        v.push("\u{2826}");
        v.push("\u{2827}");
        v.push("\u{2807}");
        v.push("\u{280f}");
        v
    }

    /// Glyphs a celebration scatters.
    pub fn celebration_confetti() -> (r: Vec<&'static str>)
        ensures
            r@.len() == 7,
    {
        let mut v: Vec<&'static str> = Vec::new();
        v.push("*");
        v.push("+");
        v.push("o");
        v.push(".");
        v.push("x");
        v.push("'");
        v.push("\"");
        v
    }
}

} // verus!
