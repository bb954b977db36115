//! Value types carried by the command layer.
//!
//! These are the argument bundles a parsed motion command hands to the
//! planning core: optional per-axis targets, feed rate and related scalars.
//! Every field is optional; an absent field means the command did not
//! mention it.

use vstd::prelude::*;
use crate::fixed::{Real, from_lit_mant};

verus! {

/// A bare scalar argument (e.g. a temperature), with the command's line
/// number when one was given.
#[derive(Clone, Default, Debug)]
pub struct S {
    pub ln: Option<u32>,
    pub s: Option<Real>,
}

/// Positional targets plus a generic fourth parameter.
#[derive(Clone, Default, Debug)]
pub struct XYZW {
    pub ln: Option<u32>,
    pub x: Option<Real>,
    pub y: Option<Real>,
    pub z: Option<Real>,
    pub w: Option<Real>,
}

/// Positional targets plus a feed rate.
#[derive(Clone, Default, Debug)]
pub struct XYZ {
    pub ln: Option<u32>,
    pub f: Option<Real>,
    pub x: Option<Real>,
    pub y: Option<Real>,
    pub z: Option<Real>,
}

/// A full linear-move request: positional targets, extruder delta, feed
/// rate and scalar argument.
#[derive(Clone, Default, Debug)]
pub struct XYZEFS {
    pub ln: Option<u32>,
    pub e: Option<Real>,
    pub f: Option<Real>,
    pub s: Option<Real>,
    pub x: Option<Real>,
    pub y: Option<Real>,
    pub z: Option<Real>,
}

impl XYZEFS {
    /// The same request with the X target replaced by the integer `pos`.
    pub fn with_x(&self, pos: i32) -> (r: XYZEFS)
        ensures
            r.ln == self.ln,
            r.e == self.e,
            r.f == self.f,
            r.s == self.s,
            r.x matches Some(v) && v.m() == from_lit_mant(pos as int, 0),
            r.y == self.y,
            r.z == self.z,
    {
        XYZEFS {
            ln: self.ln,
            e: self.e,
            f: self.f,
            s: self.s,
            x: Some(Real::from_lit(pos as i64, 0)),
            y: self.y,
            z: self.z,
        }
    }
}

/// The commands the dispatch layer recognizes.  Motion-planning commands
/// carry their argument bundles; the rest are tags the dispatcher acts on
/// directly.
#[derive(Clone, Default, Debug)]
pub enum GCode {
    /// No operation.
    #[default]
    NOP,
    /// List supported G-codes.
    G,
    /// Rapid move.
    G0(XYZ),
    /// Linear move.
    G1(XYZEFS),
    /// Dwell.
    G4,
    G10,
    G11,
    G17,
    G18,
    G19,
    G21,
    G22,
    G23,
    /// Move to origin (home).
    G28(XYZW),
    /// Detailed Z-probe.
    G29,
    /// Set Z probe head offset.
    G29_1,
    /// Set Z probe head offset calculated from tool head position.
    G29_2,
    /// Single Z-probe.
    G30,
    /// Dock sled.
    G31,
    /// Undock sled.
    G32,
    G38_2,
    G38_3,
    G38_4,
    G38_5,
    G80,
    G81,
    G82,
    G90,
    G91,
    /// Set position.
    G92,
    G92_1,
    G92_2,
    G93,
    G94,
    /// List supported M-codes.
    M,
    M0,
    M1,
    M2,
    M3,
    M4,
    M5,
    M6,
    M7,
    M8,
    M9,
    M10,
    M11,
    M13,
    M16,
    M17,
    M18,
    /// List SD card contents.
    M20(Option<String>),
    M21,
    M22,
    /// Select print job file.
    M23(Option<String>),
    M24,
    M25,
    M26,
    M27,
    M30,
    M31,
    M32,
    M33,
    M37,
    /// Set print progress.
    M73,
    /// Soft reset.
    M79,
    /// ATX power on.
    M80,
    /// ATX power off.
    M81,
    /// Extruder mode settings.
    M83,
    /// Disable steppers.
    M84,
    M92,
    /// Show memory usage.
    M100,
    /// Set hotend temperature.
    M104(S),
    /// Get extruder temperature.
    M105,
    /// Fan on.
    M106,
    /// Fan off.
    M107,
    /// Wait for hotend temperature.
    M109(S),
    M110,
    /// Debug level.
    M111,
    /// Full emergency stop.
    M112,
    /// Get current position.
    M114,
    /// Get firmware version and capabilities.
    M115,
    /// Wait.
    M116,
    /// Display message.
    M117,
    /// Echo message on host.
    M118,
    /// Get endstop status.
    M119,
    M120,
    M121,
    /// Set bed temperature.
    M140,
    /// Wait for bed temperature.
    M190,
    M200,
    M201,
    M202,
    /// Set maximum feed rate.
    M203,
    M204,
    M205,
    M206,
    M207,
    M208,
    M209,
    M210,
    M211,
    M212,
    M218,
    /// Set feed-rate percentage.
    M220,
    /// Set flow percentage.
    M221,
    M290,
    M302,
    M305,
    M350,
    M360,
    /// Wait for moves to finish.
    M400,
    M401,
    M402,
    M404,
    M407,
    M410,
    M422,
    M450,
    M451,
    M452,
    M453,
    M500,
    M501,
    /// Restore default settings.
    M502,
    M504,
    M505,
    M510,
    M511,
    M512,
    M513,
    /// Abort SD printing.
    M524,
    M555,
    M563,
    M851,
    /// Report position-encoder module status.
    M862_1,
    /// Axis continuity test for position-encoder modules.
    M862_2,
    /// Steps-per-mm calibration for position-encoder modules.
    M862_3,
    /// Set linear advance factor.
    M900,
    /// Set motor current.
    M907,
    M929,
}

} // verus!
