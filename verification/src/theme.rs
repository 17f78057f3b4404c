use vstd::prelude::*;

verus! {

/// A 24-bit colour.
#[derive(Debug, Clone, Copy, PartialEq, Eq, Structural)]
pub struct Rgb {
    pub r: u8,
    pub g: u8,
    pub b: u8,
}

/// Colour scheme of the viewer.
#[derive(Debug, Clone, Copy, PartialEq, Eq, Structural)]
pub enum Theme {
    DefaultDark,
    GithubLight,
}

impl Theme {
    /// The theme that follows `self` when the user cycles themes.
    #[verifier::allow_in_spec]
    pub fn cycle(self) -> Theme
        returns
            (match self {
                Theme::DefaultDark => Theme::GithubLight,
                Theme::GithubLight => Theme::DefaultDark,
            }),
    {
        match self {
            Theme::DefaultDark => Theme::GithubLight,
            Theme::GithubLight => Theme::DefaultDark,
        }
    }

    /// The theme's name.
    pub fn name(self) -> (r: &'static str)
        ensures
            r@ == (match self {
                Theme::DefaultDark => "default-dark"@,
                Theme::GithubLight => "github-light"@,
            }),
    {
        match self {
            Theme::DefaultDark => "default-dark",
            Theme::GithubLight => "github-light",
        }
    }

    /// Whether the theme has a dark background.
    #[verifier::allow_in_spec]
    pub fn is_dark(self) -> bool
        returns
            self == Theme::DefaultDark,
    {
        matches!(self, Theme::DefaultDark)
    }

    /// Background of the panes.
    #[verifier::allow_in_spec]
    pub fn bg(self) -> Rgb
        returns
            (match self {
                Theme::DefaultDark => Rgb { r: 24, g: 24, b: 37 },
                Theme::GithubLight => Rgb { r: 255, g: 255, b: 255 },
            }),
    {
        match self {
            Theme::DefaultDark => Rgb { r: 24, g: 24, b: 37 },
            Theme::GithubLight => Rgb { r: 255, g: 255, b: 255 },
        }
    }

    /// Default text colour.
    #[verifier::allow_in_spec]
    pub fn fg(self) -> Rgb
        returns
            (match self {
                Theme::DefaultDark => Rgb { r: 205, g: 214, b: 244 },
                Theme::GithubLight => Rgb { r: 36, g: 41, b: 47 },
            }),
    {
        match self {
            Theme::DefaultDark => Rgb { r: 205, g: 214, b: 244 },
            Theme::GithubLight => Rgb { r: 36, g: 41, b: 47 },
        }
    }

    /// Pane borders and line numbers.
    #[verifier::allow_in_spec]
    pub fn border(self) -> Rgb
        returns
            (match self {
                Theme::DefaultDark => Rgb { r: 88, g: 91, b: 112 },
                Theme::GithubLight => Rgb { r: 208, g: 215, b: 222 },
            }),
    {
        match self {
            Theme::DefaultDark => Rgb { r: 88, g: 91, b: 112 },
            Theme::GithubLight => Rgb { r: 208, g: 215, b: 222 },
        }
    }

    /// Background of the selected row and the status bar.
    #[verifier::allow_in_spec]
    pub fn selection_bg(self) -> Rgb
        returns
            (match self {
                Theme::DefaultDark => Rgb { r: 49, g: 50, b: 68 },
                Theme::GithubLight => Rgb { r: 234, g: 238, b: 242 },
            }),
    {
        match self {
            Theme::DefaultDark => Rgb { r: 49, g: 50, b: 68 },
            Theme::GithubLight => Rgb { r: 234, g: 238, b: 242 },
        }
    }

    /// Background of added lines.
    #[verifier::allow_in_spec]
    pub fn added_bg(self) -> Rgb
        returns
            (match self {
                Theme::DefaultDark => Rgb { r: 30, g: 70, b: 32 },
                Theme::GithubLight => Rgb { r: 204, g: 255, b: 204 },
            }),
    {
        match self {
            Theme::DefaultDark => Rgb { r: 30, g: 70, b: 32 },
            Theme::GithubLight => Rgb { r: 204, g: 255, b: 204 },
        }
    }

    /// Background of removed lines.
    #[verifier::allow_in_spec]
    pub fn removed_bg(self) -> Rgb
        returns
            (match self {
                Theme::DefaultDark => Rgb { r: 80, g: 20, b: 20 },
                Theme::GithubLight => Rgb { r: 255, g: 220, b: 220 },
            }),
    {
        match self {
            Theme::DefaultDark => Rgb { r: 80, g: 20, b: 20 },
            Theme::GithubLight => Rgb { r: 255, g: 220, b: 220 },
        }
    }

    /// Text of added lines.
    #[verifier::allow_in_spec]
    pub fn added_fg(self) -> Rgb
        returns
            (match self {
                Theme::DefaultDark => Rgb { r: 166, g: 227, b: 161 },
                Theme::GithubLight => Rgb { r: 22, g: 128, b: 37 },
            }),
    {
        match self {
            Theme::DefaultDark => Rgb { r: 166, g: 227, b: 161 },
            Theme::GithubLight => Rgb { r: 22, g: 128, b: 37 },
        }
    }

    /// Text of removed lines.
    #[verifier::allow_in_spec]
    pub fn removed_fg(self) -> Rgb
        returns
            (match self {
                Theme::DefaultDark => Rgb { r: 243, g: 139, b: 168 },
                Theme::GithubLight => Rgb { r: 176, g: 0, b: 32 },
            }),
    {
        match self {
            Theme::DefaultDark => Rgb { r: 243, g: 139, b: 168 },
            Theme::GithubLight => Rgb { r: 176, g: 0, b: 32 },
        }
    }

    /// Text of stale markers.
    #[verifier::allow_in_spec]
    pub fn stale_fg(self) -> Rgb
        returns
            (match self {
                Theme::DefaultDark => Rgb { r: 127, g: 132, b: 156 },
                Theme::GithubLight => Rgb { r: 140, g: 140, b: 140 },
            }),
    {
        match self {
            Theme::DefaultDark => Rgb { r: 127, g: 132, b: 156 },
            Theme::GithubLight => Rgb { r: 140, g: 140, b: 140 },
        }
    }

    /// Titles and comment markers.
    #[verifier::allow_in_spec]
    pub fn comment_fg(self) -> Rgb
        returns
            (match self {
                Theme::DefaultDark => Rgb { r: 250, g: 179, b: 135 },
                Theme::GithubLight => Rgb { r: 154, g: 103, b: 0 },
            }),
    {
        match self {
            Theme::DefaultDark => Rgb { r: 250, g: 179, b: 135 },
            Theme::GithubLight => Rgb { r: 154, g: 103, b: 0 },
        }
    }

    /// Background of the comment popups.
    #[verifier::allow_in_spec]
    pub fn comment_bg(self) -> Rgb
        returns
            (match self {
                Theme::DefaultDark => Rgb { r: 10, g: 12, b: 20 },
                Theme::GithubLight => Rgb { r: 26, g: 29, b: 36 },
            }),
    {
        match self {
            Theme::DefaultDark => Rgb { r: 10, g: 12, b: 20 },
            Theme::GithubLight => Rgb { r: 26, g: 29, b: 36 },
        }
    }

    /// Text in the comment popups.
    #[verifier::allow_in_spec]
    pub fn comment_text_fg(self) -> Rgb
        returns
            (match self {
                Theme::DefaultDark => Rgb { r: 230, g: 235, b: 255 },
                Theme::GithubLight => Rgb { r: 242, g: 246, b: 252 },
            }),
    {
        match self {
            Theme::DefaultDark => Rgb { r: 230, g: 235, b: 255 },
            Theme::GithubLight => Rgb { r: 242, g: 246, b: 252 },
        }
    }

    /// Border of the comment popups.
    #[verifier::allow_in_spec]
    pub fn comment_border(self) -> Rgb
        returns
            (match self {
                Theme::DefaultDark => Rgb { r: 245, g: 169, b: 127 },
                Theme::GithubLight => Rgb { r: 255, g: 196, b: 120 },
            }),
    {
        match self {
            Theme::DefaultDark => Rgb { r: 245, g: 169, b: 127 },
            Theme::GithubLight => Rgb { r: 255, g: 196, b: 120 },
        }
    }

    /// Background of a commented line.
    #[verifier::allow_in_spec]
    pub fn commented_line_bg(self) -> Rgb
        returns
            (match self {
                Theme::DefaultDark => Rgb { r: 58, g: 42, b: 30 },
                Theme::GithubLight => Rgb { r: 255, g: 226, b: 186 },
            }),
    {
        match self {
            Theme::DefaultDark => Rgb { r: 58, g: 42, b: 30 },
            Theme::GithubLight => Rgb { r: 255, g: 226, b: 186 },
        }
    }
}

} // verus!
