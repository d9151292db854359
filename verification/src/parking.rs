//! The parking spot: a box on the ground that counts the corners of the
//! trailer standing in it.

use crate::config::VehicleKind;
use crate::vector::Vec3;
use vstd::prelude::*;

verus! {

/// Number of corners that make a trailer parked.
pub const TRAILER_CORNERS: i32 = 4;

/// Whether something came into the parking spot or left it.
#[derive(Clone, Copy, Debug, PartialEq, Eq, Structural)]
pub enum Contact {
    Started,
    Stopped,
}

/// A report of the parking spot's sensor: what happened, and whose corner
/// it happened to, if it was a vehicle's corner at all.
#[derive(Clone, Copy, Debug, PartialEq, Eq)]
pub struct SensorEvent {
    pub contact: Contact,
    pub corner_of: Option<VehicleKind>,
}

/// Where the parking spot is, how large it is, and how many corners of the
/// trailer are in it.
#[derive(Clone, Copy, Debug, PartialEq, Eq, Structural)]
pub struct ParkingSpotInfo {
    pub position: Vec3,
    pub size: Vec3,
    pub trailer_tires_in: i32,
}

/// By how much a report changes the number of trailer corners in the spot.
pub open spec fn corner_change(event: SensorEvent) -> int {
    if event.corner_of == Some(VehicleKind::Trailer) {
        match event.contact {
            Contact::Started => 1,
            Contact::Stopped => -1,
        }
    } else {
        0
    }
}

/// By how much a run of reports changes the number of trailer corners in
/// the spot.
pub open spec fn corners_change(events: Seq<SensorEvent>) -> int
    decreases events.len(),
{
    if events.len() == 0 {
        0
    } else {
        corners_change(events.drop_last()) + corner_change(events.last())
    }
}

impl ParkingSpotInfo {
    /// The parking spot of the level, empty.
    pub open spec fn initial() -> ParkingSpotInfo {
        ParkingSpotInfo {
            position: Vec3 { x: 0, y: (-8_000) as i64, z: 0 },
            size: Vec3 { x: 10_000, y: 1_500, z: 4_000 },
            trailer_tires_in: 0,
        }
    }

    /// Whether the trailer stands in the spot with all its corners.
    pub open spec fn filled(self) -> bool {
        self.trailer_tires_in == TRAILER_CORNERS
    }

    pub fn new() -> (r: ParkingSpotInfo)
        ensures
            r == Self::initial(),
    {
        ParkingSpotInfo {
            position: Vec3 { x: 0, y: -8_000, z: 0 },
            size: Vec3 { x: 10_000, y: 1_500, z: 4_000 },
            trailer_tires_in: 0,
        }
    }

    /// Tells whether the trailer stands in the spot with all its corners.
    pub fn is_filled(&self) -> (r: bool)
        ensures
            r == self.filled(),
    {
        self.trailer_tires_in == TRAILER_CORNERS
    }

    /// Takes note of one report of the sensor.
    pub fn record(&mut self, event: SensorEvent)
        requires
            i32::MIN < old(self).trailer_tires_in < i32::MAX,
        ensures
            final(self).trailer_tires_in == old(self).trailer_tires_in + corner_change(event),
            final(self).position == old(self).position,
            final(self).size == old(self).size,
    {
        let trailer = match event.corner_of {
            Some(VehicleKind::Trailer) => true,
            _ => false,
        };
        if trailer {
            match event.contact {
                Contact::Started => {
                    self.trailer_tires_in = self.trailer_tires_in + 1;
                },
                Contact::Stopped => {
                    self.trailer_tires_in = self.trailer_tires_in - 1;
                },
            }
        }
    }
}

/// Takes note of every report of the sensor in one tick.
pub fn check_if_trailer_in_parking_spot(status: &mut ParkingSpotInfo, events: &Vec<SensorEvent>)
    requires
        i32::MIN < old(status).trailer_tires_in - events.len(),
        old(status).trailer_tires_in + events.len() < i32::MAX,
    ensures
        final(status).trailer_tires_in == old(status).trailer_tires_in + corners_change(events@),
        final(status).position == old(status).position,
        final(status).size == old(status).size,
{
    let mut i: usize = 0;
    while i < events.len()
        invariant
            i <= events.len(),
            i32::MIN < old(status).trailer_tires_in - events.len(),
            old(status).trailer_tires_in + events.len() < i32::MAX,
            status.trailer_tires_in == old(status).trailer_tires_in + corners_change(
                events@.subrange(0, i as int),
            ),
            -i <= corners_change(events@.subrange(0, i as int)) <= i,
            status.position == old(status).position,
            status.size == old(status).size,
        decreases events.len() - i,
    {
        proof {
            let before = events@.subrange(0, i as int);
            let after = events@.subrange(0, i + 1);
            assert(after.drop_last() =~= before);
            assert(after.last() == events@[i as int]);
        }
        status.record(events[i]);
        i += 1;
    }
    proof {
        assert(events@.subrange(0, events.len() as int) =~= events@);
    }
}

} // verus!
