//! Scans: the descriptor that the device library fills, and the owned scan
//! that is built from it.
//!
//! Angles, ranges and intensities are IEEE-754 single-precision floats. They
//! are carried as their bit patterns and never computed with.

use vstd::prelude::*;

verus! {

/// One point record as the device library lays it out.
#[derive(Clone, Copy, Debug, PartialEq, Eq, Structural)]
pub struct RawPoint {
    /// Angle in degrees.
    pub angle: u32,
    /// Range in metres.
    pub range: u32,
    /// Intensity of the return.
    pub intensity: u32,
}

/// What the device library hands over for one rotation: a time stamp, a
/// count, and the records of its point buffer.
///
/// The buffer may be longer than the count says: only the first `npoints`
/// records belong to the scan.
#[derive(Clone, Debug, PartialEq, Eq)]
pub struct LaserFan {
    /// Device time of the scan.
    pub stamp: u64,
    /// Number of points in the scan.
    pub npoints: i64,
    /// The point buffer.
    pub points: Vec<RawPoint>,
}

/// One measured point of a scan.
#[derive(Clone, Copy, Debug, PartialEq, Eq)]
pub struct LaserPoint {
    angle: u32,
    range: u32,
    intensity: u32,
}

/// One rotation's points, with the device time at which it was taken.
#[derive(Clone, Debug, PartialEq, Eq)]
pub struct LaserScan {
    stamp: u64,
    points: Vec<LaserPoint>,
}

/// A scan as a value: its time stamp and its points in order.
pub ghost struct ScanModel {
    pub stamp: u64,
    pub points: Seq<RawPoint>,
}

impl View for LaserPoint {
    type V = RawPoint;

    closed spec fn view(&self) -> RawPoint {
        RawPoint { angle: self.angle, range: self.range, intensity: self.intensity }
    }
}

impl LaserPoint {
    /// A point from its three values.
    pub fn new(angle: u32, range: u32, intensity: u32) -> (point: Self)
        ensures
            point@ == (RawPoint { angle, range, intensity }),
    {
        Self { angle, range, intensity }
    }

    /// Angle in degrees.
    pub fn angle(&self) -> (angle: u32)
        ensures
            angle == self@.angle,
    {
        self.angle
    }

    /// Range in metres.
    pub fn range(&self) -> (range: u32)
        ensures
            range == self@.range,
    {
        self.range
    }

    /// Intensity of the return.
    pub fn intensity(&self) -> (intensity: u32)
        ensures
            intensity == self@.intensity,
    {
        self.intensity
    }
}

impl View for LaserScan {
    type V = ScanModel;

    closed spec fn view(&self) -> ScanModel {
        ScanModel { stamp: self.stamp, points: self.points@.map_values(|p: LaserPoint| p@) }
    }
}

impl LaserScan {
    /// A scan from its time stamp and its points.
    pub fn new(stamp: u64, points: Vec<LaserPoint>) -> (scan: Self)
        ensures
            scan@.stamp == stamp,
            scan@.points == points@.map_values(|p: LaserPoint| p@),
    {
        Self { stamp, points }
    }

    /// Device time of the scan.
    pub fn stamp(&self) -> (stamp: u64)
        ensures
            stamp == self@.stamp,
    {
        self.stamp
    }

    /// The points, in the order in which the device reported them.
    pub fn points(&self) -> (points: &Vec<LaserPoint>)
        ensures
            points@.map_values(|p: LaserPoint| p@) == self@.points,
    {
        &self.points
    }

    /// Builds the scan that a descriptor describes, copying each of its
    /// points out of the buffer.
    pub fn from_fan(fan: &LaserFan) -> (scan: Self)
        requires
            fan.is_consistent(),
        ensures
            scan@ == fan.described(),
    {
        let npoints: u64 = fan.npoints as u64;
        let mut points: Vec<LaserPoint> = Vec::new();
        let mut i: usize = 0;
        while i < fan.points.len() && (i as u64) < npoints
            invariant
                i <= npoints == fan.npoints <= fan.points@.len(),
                points@.len() == i,
                forall|j: int| 0 <= j < i ==> (#[trigger] points@[j])@ == fan.points@[j],
            decreases npoints - i,
        {
            let raw: &RawPoint = &fan.points[i];
            points.push(LaserPoint::new(raw.angle, raw.range, raw.intensity));
            i += 1;
        }
        let scan = LaserScan::new(fan.stamp, points);
        assert(scan@.points =~= fan.described().points);
        scan
    }
}

impl LaserFan {
    /// Whether the count can be trusted: it is not negative, and the buffer
    /// holds that many records.
    pub open spec fn is_consistent(&self) -> bool {
        0 <= self.npoints <= self.points@.len()
    }

    /// The scan that the descriptor describes: its time stamp, and the first
    /// `npoints` records of the buffer in their order.
    pub open spec fn described(&self) -> ScanModel {
        ScanModel { stamp: self.stamp, points: self.points@.take(self.npoints as int) }
    }

    /// Tells whether the count can be trusted.
    pub fn check(&self) -> (ok: bool)
        ensures
            ok == self.is_consistent(),
    {
        self.npoints >= 0 && self.npoints as u64 <= self.points.len() as u64
    }
}

} // verus!
