//! A bounded trail of recorded past positions: the newest point is always
//! appended and the oldest points fall off once the buffer is full.

use vstd::prelude::*;

use crate::constants::MAX_TRAIL_LENGTH;
use crate::vec3::Vec3i;

verus! {

/// The recorded past positions of one body, oldest first.
#[derive(Clone, Debug)]
pub struct PastLocations {
    /// The recorded points.
    pub points: Vec<Vec3i>,
}

impl PastLocations {
    /// An empty trail.
    pub fn new() -> (r: PastLocations)
        ensures
            r.points@ == Seq::<Vec3i>::empty(),
    {
        PastLocations { points: Vec::with_capacity(MAX_TRAIL_LENGTH) }
    }

    /// Appends a point, dropping the oldest ones beyond the length bound:
    /// the trail is always the most recent points, in order.
    pub fn add_point(&mut self, point: Vec3i)
        requires
            old(self).points@.len() <= MAX_TRAIL_LENGTH,
        ensures
            ({
                let s = old(self).points@.push(point);
                final(self).points@ == if s.len() > MAX_TRAIL_LENGTH {
                    s.skip(s.len() - MAX_TRAIL_LENGTH as int)
                } else {
                    s
                }
            }),
            final(self).points@.len() <= MAX_TRAIL_LENGTH,
    {
        self.points.push(point);
        if self.points.len() > MAX_TRAIL_LENGTH {
            let ghost s = self.points@;
            self.points.remove(0);
            proof {
                assert(self.points@ =~= s.skip(s.len() - MAX_TRAIL_LENGTH as int));
            }
        }
    }
}

} // verus!
