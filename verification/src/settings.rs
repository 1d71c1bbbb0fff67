//! Settings resolution: turns a raw radius / line-width specification plus an
//! optional display size into the concrete numbers the renderer uses.

use vstd::prelude::*;

verus! {

/// Reference size used for auto sizing when no display size is known.
pub const FALLBACK_DISPLAY_SIZE: u32 = 1920;

/// Raw radius configuration: derive from the display, or use a fixed value.
#[derive(Debug, Clone)]
pub enum Radius {
    Auto,
    Value(u32),
}

/// Raw line-width configuration: derive from the display, or use a fixed value.
#[derive(Debug, Clone)]
pub enum LineWidth {
    Auto,
    Value(u32),
}

/// The side of the display that auto sizing is based on: the larger of width
/// and height, or the fallback reference size when the display is unknown.
pub open spec fn reference_size(display: Option<(u32, u32)>) -> u32 {
    match display {
        Some(wh) => if wh.0 >= wh.1 { wh.0 } else { wh.1 },
        None => FALLBACK_DISPLAY_SIZE,
    }
}

/// Auto radius for a display whose larger side is `s`: one twentieth of the
/// side, but never below 50 pixels.
pub open spec fn auto_radius_spec(s: u32) -> u32 {
    if s / 20 >= 50 { s / 20 } else { 50u32 }
}

/// Auto line width for a display whose larger side is `s`: one eight-hundredth
/// of the side, but never below 3 pixels.
pub open spec fn auto_line_width_spec(s: u32) -> u32 {
    if s / 800 >= 3 { s / 800 } else { 3u32 }
}

/// Radius that a radius specification resolves to for a given display size.
pub open spec fn resolved_radius(radius: Radius, display: Option<(u32, u32)>) -> u32 {
    match radius {
        Radius::Value(v) => v,
        Radius::Auto => auto_radius_spec(reference_size(display)),
    }
}

/// Line width that a line-width specification resolves to for a given display size.
pub open spec fn resolved_line_width(line_width: LineWidth, display: Option<(u32, u32)>) -> u32 {
    match line_width {
        LineWidth::Value(v) => v,
        LineWidth::Auto => auto_line_width_spec(reference_size(display)),
    }
}

/// Raw configuration as handed over by the command-line collaborator: colors
/// already packed as ARGB, the frame interval in milliseconds.
pub struct Settings {
    pub radius: Radius,
    pub line_width: LineWidth,
    pub color_argb: u32,
    pub edge_color_argb: u32,
    pub interval_millis: u64,
}

impl Settings {
    pub fn new(
        radius: Radius,
        line_width: LineWidth,
        color_argb: u32,
        edge_color_argb: u32,
        interval_millis: u64,
    ) -> (s: Settings)
        ensures
            s.radius == radius,
            s.line_width == line_width,
            s.color_argb == color_argb,
            s.edge_color_argb == edge_color_argb,
            s.interval_millis == interval_millis,
    {
        Settings { radius, line_width, color_argb, edge_color_argb, interval_millis }
    }

    /// The on-screen base radius for this configuration and display size.
    pub fn radius(&self, monitor_size: Option<(u32, u32)>) -> (r: u32)
        ensures
            r == resolved_radius(self.radius, monitor_size),
    {
        match self.radius {
            Radius::Value(v) => v,
            Radius::Auto => {
                let s = reference_size_of(monitor_size);
                auto_radius(s)
            }
        }
    }

    /// The on-screen line width for this configuration and display size.
    pub fn line_width(&self, monitor_size: Option<(u32, u32)>) -> (r: u32)
        ensures
            r == resolved_line_width(self.line_width, monitor_size),
    {
        match self.line_width {
            LineWidth::Value(v) => v,
            LineWidth::Auto => {
                let s = reference_size_of(monitor_size);
                auto_line_width(s)
            }
        }
    }

    pub fn color_argb(&self) -> (c: u32)
        ensures
            c == self.color_argb,
    {
        self.color_argb
    }

    pub fn edge_color_argb(&self) -> (c: u32)
        ensures
            c == self.edge_color_argb,
    {
        self.edge_color_argb
    }

    /// Frame interval in milliseconds.
    pub fn interval(&self) -> (i: u64)
        ensures
            i == self.interval_millis,
    {
        self.interval_millis
    }
}

/// Larger side of the display, or the fallback reference size.
pub fn reference_size_of(display: Option<(u32, u32)>) -> (s: u32)
    ensures
        s == reference_size(display),
{
    match display {
        Some((w, h)) => if w >= h { w } else { h },
        None => FALLBACK_DISPLAY_SIZE,
    }
}

/// Auto radius: `max(s / 20, 50)`.
pub fn auto_radius(s: u32) -> (r: u32)
    ensures
        r == auto_radius_spec(s),
{
    let v = s / 20;
    if v >= 50 { v } else { 50 }
}

/// Auto line width: `max(s / 800, 3)`.
pub fn auto_line_width(s: u32) -> (r: u32)
    ensures
        r == auto_line_width_spec(s),
{
    let v = s / 800;
    if v >= 3 { v } else { 3 }
}

/// Concrete, fully numeric settings: what one run of the animation uses,
/// computed exactly once from the raw configuration and immutable thereafter.
pub struct ResolvedSettings {
    pub base_radius: u32,
    pub line_width: u32,
    pub fill_color_argb: u32,
    pub edge_color_argb: u32,
    pub frame_interval_millis: u64,
}

impl ResolvedSettings {
    /// Invariant: the ring always has a positive radius and line width.
    pub open spec fn wf(self) -> bool {
        self.base_radius >= 1 && self.line_width >= 1
    }
}

/// Turns raw configuration plus an optional display size into concrete
/// numbers. Never fails: explicit values are taken as they are (configuration
/// guarantees them positive), auto values come from the display's larger side
/// with floors of 50 and 3 pixels. The colors arrive as 8-bit RGBA channels
/// and leave packed as single ARGB words.
pub fn resolve(
    radius: Radius,
    line_width: LineWidth,
    fill_rgba: (u8, u8, u8, u8),
    edge_rgba: (u8, u8, u8, u8),
    interval_millis: u64,
    display: Option<(u32, u32)>,
) -> (r: ResolvedSettings)
    requires
        radius matches Radius::Value(v) ==> v >= 1,
        line_width matches LineWidth::Value(v) ==> v >= 1,
    ensures
        r.base_radius == resolved_radius(radius, display),
        r.line_width == resolved_line_width(line_width, display),
        r.fill_color_argb == crate::color::pack_argb_spec(
            fill_rgba.0, fill_rgba.1, fill_rgba.2, fill_rgba.3),
        r.edge_color_argb == crate::color::pack_argb_spec(
            edge_rgba.0, edge_rgba.1, edge_rgba.2, edge_rgba.3),
        r.frame_interval_millis == interval_millis,
        r.wf(),
{
    let (fr, fg, fb, fa) = fill_rgba;
    let (er, eg, eb, ea) = edge_rgba;
    let settings = Settings::new(
        radius,
        line_width,
        crate::color::pack_argb(fr, fg, fb, fa),
        crate::color::pack_argb(er, eg, eb, ea),
        interval_millis,
    );
    ResolvedSettings {
        base_radius: settings.radius(display),
        line_width: settings.line_width(display),
        fill_color_argb: settings.color_argb(),
        edge_color_argb: settings.edge_color_argb(),
        frame_interval_millis: settings.interval(),
    }
}

/// Auto sizing is non-decreasing in the display's larger side: a display that
/// is no smaller never gets a smaller radius or line width.
pub proof fn lemma_auto_sizes_monotone(s1: u32, s2: u32)
    requires
        s1 <= s2,
    ensures
        auto_radius_spec(s1) <= auto_radius_spec(s2),
        auto_line_width_spec(s1) <= auto_line_width_spec(s2),
{
    vstd::arithmetic::div_mod::lemma_div_is_ordered(s1 as int, s2 as int, 20);
    vstd::arithmetic::div_mod::lemma_div_is_ordered(s1 as int, s2 as int, 800);
}

/// Resolved values are always positive: explicit values are required to be
/// positive by configuration, and the auto formulas never fall below their
/// floors of 50 and 3 pixels.
pub proof fn lemma_resolved_positive(radius: Radius, line_width: LineWidth, display: Option<(u32, u32)>)
    requires
        (radius matches Radius::Value(v) ==> v >= 1),
        (line_width matches LineWidth::Value(v) ==> v >= 1),
    ensures
        resolved_radius(radius, display) >= 1,
        resolved_line_width(line_width, display) >= 1,
{
}

} // verus!
