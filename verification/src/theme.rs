//! Design tokens shared by every PlayBack view: colors, typography and
//! motion. Point sizes are binary32 values held by their encodings.

use vstd::prelude::*;
use crate::float::Float32;

verus! {

/// Encoding of `1.0f32`.
pub const ONE_F32_BITS: u32 = 0x3F80_0000;
/// Encoding of `1.15f32`.
pub const HOVER_SCALE_F32_BITS: u32 = 0x3F93_3333;
/// Encoding of `8.0f32`.
pub const EIGHT_F32_BITS: u32 = 0x4100_0000;
/// Encoding of `12.0f32`.
pub const TWELVE_F32_BITS: u32 = 0x4140_0000;
/// Encoding of `15.0f32`.
pub const FIFTEEN_F32_BITS: u32 = 0x4170_0000;
/// Encoding of `20.0f32`.
pub const TWENTY_F32_BITS: u32 = 0x41A0_0000;
/// Encoding of `44.0f32`.
pub const FORTY_FOUR_F32_BITS: u32 = 0x4230_0000;
/// Encoding of `280.0f32`.
pub const PLAYLIST_WIDTH_F32_BITS: u32 = 0x438C_0000;

/// A duration expressed in milliseconds.
#[derive(Debug, Clone, Copy, PartialEq, Eq, Structural)]
pub struct Duration {
    /// Duration in milliseconds.
    pub milliseconds: u64,
}

impl Duration {
    /// Creates a duration token.
    pub fn milliseconds(milliseconds: u64) -> (r: Duration)
        ensures
            r.milliseconds == milliseconds,
    {
        Duration { milliseconds }
    }
}

/// The interpolation curve used by a transition.
#[derive(Debug, Clone, Copy, PartialEq, Eq, Structural)]
pub enum AnimationCurve {
    /// A spring-like curve for controls and sheets.
    Spring,
    /// A short ease-out curve for layout changes.
    EaseOut,
    /// A linear curve for progress indicators.
    Linear,
}

/// The standard animation timings.
#[derive(Debug, Clone, Copy, PartialEq, Eq, Structural)]
pub struct AnimationTokens {
    /// Play/pause icon crossfade duration.
    pub icon_crossfade: Duration,
    /// Controls reveal duration.
    pub controls_reveal: Duration,
    /// Timeline hover expansion duration.
    pub timeline_hover: Duration,
    /// Window reflow duration.
    pub window_reflow: Duration,
    /// Curve used for interactive controls.
    pub control_curve: AnimationCurve,
    /// Curve used for layout changes.
    pub layout_curve: AnimationCurve,
}

/// The interaction timings specified by the player design.
pub open spec fn animation_hig() -> AnimationTokens {
    AnimationTokens {
        icon_crossfade: Duration { milliseconds: 200 },
        controls_reveal: Duration { milliseconds: 350 },
        timeline_hover: Duration { milliseconds: 120 },
        window_reflow: Duration { milliseconds: 150 },
        control_curve: AnimationCurve::Spring,
        layout_curve: AnimationCurve::EaseOut,
    }
}

impl AnimationTokens {
    /// Returns the interaction timings specified by the player design.
    pub fn macos_hig() -> (r: AnimationTokens)
        ensures
            r == animation_hig(),
    {
        AnimationTokens {
            icon_crossfade: Duration::milliseconds(200),
            controls_reveal: Duration::milliseconds(350),
            timeline_hover: Duration::milliseconds(120),
            window_reflow: Duration::milliseconds(150),
            control_curve: AnimationCurve::Spring,
            layout_curve: AnimationCurve::EaseOut,
        }
    }
}

/// An sRGB color with an alpha channel.
#[derive(Debug, Clone, Copy, PartialEq, Eq, Structural)]
pub struct Color {
    /// Red channel.
    pub red: u8,
    /// Green channel.
    pub green: u8,
    /// Blue channel.
    pub blue: u8,
    /// Alpha channel.
    pub alpha: u8,
}

impl Color {
    /// Creates an opaque color.
    pub fn rgb(red: u8, green: u8, blue: u8) -> (r: Color)
        ensures
            r == (Color { red, green, blue, alpha: 255 }),
    {
        Color { red, green, blue, alpha: 255 }
    }

    /// Creates a color with an explicit alpha channel.
    pub fn rgba(red: u8, green: u8, blue: u8, alpha: u8) -> (r: Color)
        ensures
            r == (Color { red, green, blue, alpha }),
    {
        Color { red, green, blue, alpha }
    }
}

/// The semantic colors used by the player chrome and controls.
#[derive(Debug, Clone, Copy, PartialEq, Eq, Structural)]
pub struct ColorTokens {
    /// System accent blue.
    pub accent: Color,
    /// Main window background.
    pub window: Color,
    /// Raised control background.
    pub surface: Color,
    /// Hovered control background.
    pub hover: Color,
    /// Primary text.
    pub text_primary: Color,
    /// Secondary text.
    pub text_secondary: Color,
    /// Buffered timeline range.
    pub buffered: Color,
    /// Played timeline range.
    pub played: Color,
    /// Timeline track.
    pub track: Color,
    /// Destructive or error state.
    pub danger: Color,
}

/// The Apple HIG-inspired dark palette.
pub open spec fn colors_hig() -> ColorTokens {
    ColorTokens {
        accent: Color { red: 10, green: 132, blue: 255, alpha: 255 },
        window: Color { red: 30, green: 30, blue: 30, alpha: 255 },
        surface: Color { red: 48, green: 48, blue: 48, alpha: 230 },
        hover: Color { red: 255, green: 255, blue: 255, alpha: 38 },
        text_primary: Color { red: 245, green: 245, blue: 245, alpha: 255 },
        text_secondary: Color { red: 174, green: 174, blue: 178, alpha: 255 },
        buffered: Color { red: 112, green: 112, blue: 116, alpha: 255 },
        played: Color { red: 255, green: 255, blue: 255, alpha: 255 },
        track: Color { red: 72, green: 72, blue: 76, alpha: 255 },
        danger: Color { red: 255, green: 69, blue: 58, alpha: 255 },
    }
}

impl ColorTokens {
    /// Returns the Apple HIG-inspired dark palette.
    pub fn macos_hig() -> (r: ColorTokens)
        ensures
            r == colors_hig(),
    {
        ColorTokens {
            accent: Color::rgb(10, 132, 255),
            window: Color::rgb(30, 30, 30),
            surface: Color::rgba(48, 48, 48, 230),
            hover: Color::rgba(255, 255, 255, 38),
            text_primary: Color::rgb(245, 245, 245),
            text_secondary: Color::rgb(174, 174, 178),
            buffered: Color::rgb(112, 112, 116),
            played: Color::rgb(255, 255, 255),
            track: Color::rgb(72, 72, 76),
            danger: Color::rgb(255, 69, 58),
        }
    }
}

/// The preferred font family for UI text.
#[derive(Debug, Clone, Copy, PartialEq, Eq, Structural)]
pub enum FontFamily {
    /// Apple's system display face.
    SystemDisplay,
    /// Apple's system text face.
    SystemText,
    /// A monospaced face for timestamps.
    SystemMonospace,
}

/// The platform font-family name.
pub open spec fn family_name(family: FontFamily) -> Seq<char> {
    match family {
        FontFamily::SystemDisplay => "SF Pro Display"@,
        FontFamily::SystemText => "SF Pro Text"@,
        FontFamily::SystemMonospace => "SF Mono"@,
    }
}

impl FontFamily {
    /// Returns the platform font-family name.
    pub fn name(self) -> (r: &'static str)
        ensures
            r@ == family_name(self),
    {
        match self {
            FontFamily::SystemDisplay => "SF Pro Display",
            FontFamily::SystemText => "SF Pro Text",
            FontFamily::SystemMonospace => "SF Mono",
        }
    }
}

/// A font size in points (a binary32 value).
#[derive(Debug, Clone, Copy, PartialEq, Eq, Structural)]
pub struct FontSize {
    /// Point size.
    pub points: Float32,
}

impl FontSize {
    /// Creates a font-size token.
    pub fn points(points: Float32) -> (r: FontSize)
        ensures
            r.points == points,
    {
        FontSize { points }
    }
}

/// The type scale used by the player.
#[derive(Debug, Clone, Copy, PartialEq, Eq, Structural)]
pub struct TypographyTokens {
    /// Base UI text size.
    pub body: FontSize,
    /// Secondary UI text size.
    pub caption: FontSize,
    /// Large title text size.
    pub title: FontSize,
    /// Monospace timestamp size.
    pub timestamp: FontSize,
    /// Preferred UI family.
    pub family: FontFamily,
    /// Preferred monospace family.
    pub monospace_family: FontFamily,
}

/// The macOS-native type scale: 15 pt body, 12 pt captions and timestamps,
/// 20 pt titles.
pub open spec fn typography_hig() -> TypographyTokens {
    TypographyTokens {
        body: FontSize { points: Float32 { bits: FIFTEEN_F32_BITS } },
        caption: FontSize { points: Float32 { bits: TWELVE_F32_BITS } },
        title: FontSize { points: Float32 { bits: TWENTY_F32_BITS } },
        timestamp: FontSize { points: Float32 { bits: TWELVE_F32_BITS } },
        family: FontFamily::SystemDisplay,
        monospace_family: FontFamily::SystemMonospace,
    }
}

impl TypographyTokens {
    /// Returns the macOS-native type scale.
    pub fn macos_hig() -> (r: TypographyTokens)
        ensures
            r == typography_hig(),
    {
        TypographyTokens {
            body: FontSize::points(Float32 { bits: FIFTEEN_F32_BITS }),
            caption: FontSize::points(Float32 { bits: TWELVE_F32_BITS }),
            title: FontSize::points(Float32 { bits: TWENTY_F32_BITS }),
            timestamp: FontSize::points(Float32 { bits: TWELVE_F32_BITS }),
            family: FontFamily::SystemDisplay,
            monospace_family: FontFamily::SystemMonospace,
        }
    }
}

/// The complete visual theme used by the player.
#[derive(Debug, Clone, Copy, PartialEq, Eq, Structural)]
pub struct Theme {
    /// Semantic color tokens.
    pub colors: ColorTokens,
    /// Typography tokens.
    pub typography: TypographyTokens,
    /// Animation tokens.
    pub animation: AnimationTokens,
    /// Minimum interactive target size in points.
    pub minimum_touch_target: Float32,
    /// Standard control corner radius in points.
    pub control_corner_radius: Float32,
    /// Playlist sidebar width in points.
    pub playlist_width: Float32,
}

/// The macOS HIG-inspired theme: 44 pt touch targets, 8 pt corners and a
/// 280 pt playlist.
pub open spec fn theme_hig() -> Theme {
    Theme {
        colors: colors_hig(),
        typography: typography_hig(),
        animation: animation_hig(),
        minimum_touch_target: Float32 { bits: FORTY_FOUR_F32_BITS },
        control_corner_radius: Float32 { bits: EIGHT_F32_BITS },
        playlist_width: Float32 { bits: PLAYLIST_WIDTH_F32_BITS },
    }
}

impl Theme {
    /// Returns the macOS HIG-inspired theme.
    pub fn macos_hig() -> (r: Theme)
        ensures
            r == theme_hig(),
    {
        Theme {
            colors: ColorTokens::macos_hig(),
            typography: TypographyTokens::macos_hig(),
            animation: AnimationTokens::macos_hig(),
            minimum_touch_target: Float32 { bits: FORTY_FOUR_F32_BITS },
            control_corner_radius: Float32 { bits: EIGHT_F32_BITS },
            playlist_width: Float32 { bits: PLAYLIST_WIDTH_F32_BITS },
        }
    }
}

impl Default for Theme {
    fn default() -> (r: Theme)
        ensures
            r == theme_hig(),
    {
        Theme::macos_hig()
    }
}

} // verus!
