//! Visual theme: a named bundle of colors and widths used to parameterize
//! draws. Widths and glow radii are in micropixels, the grain intensity in
//! micro-units; see [`crate::marker::Color`] for channels.

use crate::error::CoreError;
use crate::marker::Color;
use vstd::prelude::*;

verus! {

/// Visual theme for map rendering.
#[derive(Debug, Clone)]
pub struct Theme {
    /// Theme name; must be non-empty.
    pub name: String,
    /// Background color.
    pub background: Color,
    /// Contour line color.
    pub contour_color: Color,
    /// Contour line width in micropixels; must be positive.
    pub contour_width: i64,
    /// Default marker color.
    pub marker_color: Color,
    /// Marker glow radius in micropixels; must not be negative.
    pub marker_glow: i64,
    /// Film grain intensity in micro-units.
    pub grain_intensity: i64,
}

/// Whether a theme's name, contour width and glow radius are all valid: the
/// name non-empty, the width and the glow radius both positive.
pub open spec fn theme_valid(t: Theme) -> bool {
    &&& t.name@.len() > 0
    &&& t.contour_width > 0
    &&& t.marker_glow > 0
}

impl Theme {
    /// The dark minimal theme preset: near-black background, dim contours,
    /// cyan markers.
    pub fn dark_minimal() -> (r: Self)
        ensures
            r.name@ == "dark-minimal"@,
            r.background == (Color { r: 11, g: 15, b: 16, a: 255 }),
            r.contour_color == (Color { r: 31, g: 38, b: 41, a: 153 }),
            r.contour_width == 1_000_000,
            r.marker_color == (Color { r: 77, g: 179, b: 204, a: 255 }),
            r.marker_glow == 8_000_000,
            r.grain_intensity == 15_000,
            theme_valid(r),
    {
        proof {
            reveal_strlit("dark-minimal");
        }
        Theme {
            name: "dark-minimal".to_owned(),
            background: Color::rgba(11, 15, 16, 255),
            contour_color: Color::rgba(31, 38, 41, 153),
            contour_width: 1_000_000,
            marker_color: Color::rgba(77, 179, 204, 255),
            marker_glow: 8_000_000,
            grain_intensity: 15_000,
        }
    }

    /// Validates the theme: non-empty name, positive contour width, positive
    /// glow radius, failing on the first violation found.
    pub fn validate(&self) -> (r: Result<(), CoreError>)
        ensures
            theme_valid(*self) <==> r is Ok,
            self.name@.len() == 0 ==> (r matches Err(e) && e matches
                CoreError::ThemeValidationFailed { reason } && reason@ == "empty theme name"@),
            self.name@.len() > 0 && self.contour_width <= 0 ==> (r matches Err(e) && e matches
                CoreError::ThemeValidationFailed { reason } && reason@
                == "invalid contour width"@),
            self.name@.len() > 0 && self.contour_width > 0 && self.marker_glow <= 0 ==> (r matches
                Err(e) && e matches CoreError::ThemeValidationFailed { reason } && reason@
                == "invalid marker glow"@),
    {
        if self.name.as_str().is_empty() {
            return Err(CoreError::ThemeValidationFailed { reason: "empty theme name".to_owned() });
        }
        if self.contour_width <= 0 {
            return Err(
                CoreError::ThemeValidationFailed { reason: "invalid contour width".to_owned() },
            );
        }
        if self.marker_glow <= 0 {
            return Err(
                CoreError::ThemeValidationFailed { reason: "invalid marker glow".to_owned() },
            );
        }
        Ok(())
    }
}

} // verus!
