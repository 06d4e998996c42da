//! The report on the displays that the windowing system offers.

use vstd::prelude::*;
use vstd::string::*;
use crate::text::{decimal, decimal_string, signed_decimal, signed_decimal_string};

verus! {

/// One mode that a display can be switched to.
#[derive(Clone, Copy, Debug, PartialEq, Eq, Structural)]
pub struct VideoMode {
    /// Width in physical pixels.
    pub width: u32,
    /// Height in physical pixels.
    pub height: u32,
    /// Bits per pixel.
    pub bit_depth: u16,
    /// Refresh rate in thousandths of a hertz.
    pub refresh_rate_millihertz: u32,
}

/// What the windowing system tells about one display.
#[derive(Debug)]
pub struct MonitorInfo {
    /// This is the primary display.
    pub primary: bool,
    /// The display's name, if it has one.
    pub name: Option<String>,
    /// Width of the current mode in physical pixels.
    pub width: u32,
    /// Height of the current mode in physical pixels.
    pub height: u32,
    /// Refresh rate of the current mode in thousandths of a hertz, if known.
    pub refresh_rate_millihertz: Option<u32>,
    /// Horizontal position of the top-left corner on the desktop.
    pub x: i32,
    /// Vertical position of the top-left corner on the desktop.
    pub y: i32,
    /// The scale factor, already written out as text.
    pub scale_factor: String,
    /// The modes that the display offers.
    pub video_modes: Vec<VideoMode>,
}

/// A refresh rate in hertz: the whole hertz, a point, and the remaining
/// thousandths as they are, without padding.
pub open spec fn hertz(millihertz: u32) -> Seq<char> {
    decimal((millihertz / 1000) as nat) + "."@ + decimal((millihertz % 1000) as nat)
}

/// A size as width `x` height.
pub open spec fn size_text(width: u32, height: u32) -> Seq<char> {
    decimal(width as nat) + "x"@ + decimal(height as nat)
}

/// The line that introduces a display.
pub open spec fn heading_line(monitor: MonitorInfo) -> Seq<char> {
    (if monitor.primary {
        "Primary monitor"@
    } else {
        "Monitor"@
    }) + ": "@ + (match monitor.name {
        Some(name) => name@,
        None => "[no name]"@,
    })
}

/// The line on a display's current mode.
pub open spec fn current_mode_line(monitor: MonitorInfo) -> Seq<char> {
    "  Current mode: "@ + size_text(monitor.width, monitor.height) + (
    match monitor.refresh_rate_millihertz {
        Some(millihertz) => " @ "@ + hertz(millihertz) + " Hz"@,
        None => Seq::empty(),
    })
}

/// The line on a display's position.
pub open spec fn position_line(monitor: MonitorInfo) -> Seq<char> {
    "  Position: "@ + signed_decimal(monitor.x as int) + ","@ + signed_decimal(monitor.y as int)
}

/// The line on a display's scale factor.
pub open spec fn scale_factor_line(monitor: MonitorInfo) -> Seq<char> {
    "  Scale factor: "@ + monitor.scale_factor@
}

/// The line above a display's modes.
pub open spec fn modes_heading_line() -> Seq<char> {
    "  Available modes (width x height x bit-depth):"@
}

/// The line on one mode of a display.
pub open spec fn video_mode_line(mode: VideoMode) -> Seq<char> {
    "    "@ + size_text(mode.width, mode.height) + "x"@ + decimal(mode.bit_depth as nat) + " @ "@
        + hertz(mode.refresh_rate_millihertz) + " Hz"@
}

/// The lines on a display's modes, in the order given.
pub open spec fn video_mode_lines(modes: Seq<VideoMode>) -> Seq<Seq<char>> {
    modes.map_values(|mode: VideoMode| video_mode_line(mode))
}

/// The lines on one display: heading, current mode, position, scale factor,
/// and its modes.
pub open spec fn monitor_lines(monitor: MonitorInfo) -> Seq<Seq<char>> {
    seq![
        heading_line(monitor),
        current_mode_line(monitor),
        position_line(monitor),
        scale_factor_line(monitor),
        modes_heading_line(),
    ] + video_mode_lines(monitor.video_modes@)
}

/// The whole report: the title line, then the lines on each display, in the
/// order given.
pub open spec fn monitor_report(monitors: Seq<MonitorInfo>) -> Seq<Seq<char>> {
    seq!["Monitors information"@] + monitors.map_values(
        |monitor: MonitorInfo| monitor_lines(monitor),
    ).flatten()
}

/// What lines of text stand for.
pub open spec fn texts(lines: Seq<String>) -> Seq<Seq<char>> {
    lines.map_values(|line: String| line@)
}

fn hertz_string(millihertz: u32) -> (s: String)
    ensures
        s@ == hertz(millihertz),
{
    let mut s = decimal_string(millihertz / 1000);
    s.append(".");
    s.append(decimal_string(millihertz % 1000).as_str());
    s
}

fn size_string(width: u32, height: u32) -> (s: String)
    ensures
        s@ == size_text(width, height),
{
    let mut s = decimal_string(width);
    s.append("x");
    s.append(decimal_string(height).as_str());
    s
}

fn heading_string(monitor: &MonitorInfo) -> (s: String)
    ensures
        s@ == heading_line(*monitor),
{
    let mut s = if monitor.primary {
        "Primary monitor".to_owned()
    } else {
        "Monitor".to_owned()
    };
    s.append(": ");
    match &monitor.name {
        Some(name) => s.append(name.as_str()),
        None => s.append("[no name]"),
    }
    s
}

fn current_mode_string(monitor: &MonitorInfo) -> (s: String)
    ensures
        s@ == current_mode_line(*monitor),
{
    let mut s = "  Current mode: ".to_owned();
    s.append(size_string(monitor.width, monitor.height).as_str());
    match monitor.refresh_rate_millihertz {
        Some(millihertz) => {
            let ghost before = s@;
            s.append(" @ ");
            s.append(hertz_string(millihertz).as_str());
            s.append(" Hz");
            assert(s@ =~= before + (" @ "@ + hertz(millihertz) + " Hz"@));
        },
        None => {
            assert(s@ =~= s@ + Seq::<char>::empty());
        },
    }
    s
}

fn position_string(monitor: &MonitorInfo) -> (s: String)
    ensures
        s@ == position_line(*monitor),
{
    let mut s = "  Position: ".to_owned();
    s.append(signed_decimal_string(monitor.x).as_str());
    s.append(",");
    s.append(signed_decimal_string(monitor.y).as_str());
    s
}

fn scale_factor_string(monitor: &MonitorInfo) -> (s: String)
    ensures
        s@ == scale_factor_line(*monitor),
{
    let mut s = "  Scale factor: ".to_owned();
    s.append(monitor.scale_factor.as_str());
    s
}

fn video_mode_string(mode: &VideoMode) -> (s: String)
    ensures
        s@ == video_mode_line(*mode),
{
    let mut s = "    ".to_owned();
    s.append(size_string(mode.width, mode.height).as_str());
    s.append("x");
    s.append(decimal_string(mode.bit_depth as u32).as_str());
    s.append(" @ ");
    s.append(hertz_string(mode.refresh_rate_millihertz).as_str());
    s.append(" Hz");
    s
}

/// Writes the report on `monitors`: a title line, and for each display, in
/// the order given, its heading, current mode, position, scale factor and
/// modes, one line each.
pub fn dump_monitors(monitors: &Vec<MonitorInfo>) -> (lines: Vec<String>)
    ensures
        texts(lines@) == monitor_report(monitors@),
{
    let mut lines: Vec<String> = Vec::new();
    lines.push("Monitors information".to_owned());
    assert(texts(lines@) =~= monitor_report(monitors@.take(0)));
    let mut i: usize = 0;
    while i < monitors.len()
        invariant
            i <= monitors.len(),
            texts(lines@) == monitor_report(monitors@.take(i as int)),
        decreases monitors.len() - i,
    {
        let monitor = &monitors[i];
        let ghost before = texts(lines@);
        lines.push(heading_string(monitor));
        lines.push(current_mode_string(monitor));
        lines.push(position_string(monitor));
        lines.push(scale_factor_string(monitor));
        lines.push("  Available modes (width x height x bit-depth):".to_owned());
        let ghost head = before + seq![
            heading_line(*monitor),
            current_mode_line(*monitor),
            position_line(*monitor),
            scale_factor_line(*monitor),
            modes_heading_line(),
        ];
        assert(texts(lines@) =~= head + video_mode_lines(monitor.video_modes@.take(0)));
        let mut j: usize = 0;
        while j < monitor.video_modes.len()
            invariant
                j <= monitor.video_modes.len(),
                texts(lines@) == head + video_mode_lines(monitor.video_modes@.take(j as int)),
            decreases monitor.video_modes.len() - j,
        {
            let ghost shown = texts(lines@);
            lines.push(video_mode_string(&monitor.video_modes[j]));
            proof {
                let modes = monitor.video_modes@;
                assert(texts(lines@) =~= shown.push(video_mode_line(modes[j as int])));
                assert(video_mode_lines(modes.take(j as int + 1)) =~= video_mode_lines(
                    modes.take(j as int),
                ).push(video_mode_line(modes[j as int])));
            }
            j += 1;
        }
        proof {
            let shown = monitors@.take(i as int).map_values(
                |monitor: MonitorInfo| monitor_lines(monitor),
            );
            assert(monitor.video_modes@.take(j as int) =~= monitor.video_modes@);
            assert(texts(lines@) =~= before + monitor_lines(*monitor));
            assert(monitors@.take(i as int + 1).map_values(
                |monitor: MonitorInfo| monitor_lines(monitor),
            ) =~= shown.push(monitor_lines(*monitor)));
            shown.lemma_flatten_push(monitor_lines(*monitor));
        }
        i += 1;
    }
    assert(monitors@.take(i as int) =~= monitors@);
    lines
}

} // verus!
