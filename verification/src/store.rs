//! The row the store's `insertServer` writes, computed from a node's
//! information. The write itself is a transactional database call outside
//! this crate; every field of the row is pinned here.

use vstd::prelude::*;

use crate::models::RegistryReturn;
use crate::strings::{flag_of, has_second_segment, lower_of, second_segment, space_to_dash, timezone_city};

verus! {

/// One row of the `Server` table.
pub struct ServerRow {
    /// Primary key: the node's derived identifier.
    pub id: String,
    /// The node's timezone.
    pub location: String,
    /// The city part of the timezone.
    pub country: String,
    /// The node's IP.
    pub hostname: String,
    /// The country lowercased, spaces turned into dashes.
    pub flag: String,
}

/// The row published for a node: `(id, timezone, city-part-of-timezone,
/// ip, flag)`. The timezone must contain a `/` for its city part to
/// exist.
pub fn server_row(information: &RegistryReturn) -> (r: ServerRow)
    requires
        has_second_segment(information.res.timezone@),
    ensures
        r.id@ == information.id@,
        r.location@ == information.res.timezone@,
        r.country@ == second_segment(information.res.timezone@),
        r.hostname@ == information.ip@,
        r.flag@ == space_to_dash(lower_of(information.res.country@)),
{
    ServerRow {
        id: information.id.clone(),
        location: information.res.timezone.clone(),
        country: timezone_city(&information.res.timezone),
        hostname: information.ip.clone(),
        flag: flag_of(&information.res.country),
    }
}

} // verus!
