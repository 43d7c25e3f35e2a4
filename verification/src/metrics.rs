//! The device's vital-signs report.
//!
//! The readings themselves come from system tools that the surrounding
//! binary runs; the library assembles the report, labels the player's
//! liveness, and picks the first usable reading out of a fallback chain.

use crate::manifest::str_views;
use vstd::prelude::*;

verus! {

/// One reading of the device's vital signs, as sent to the server.
#[derive(Debug)]
pub struct Metrics {
    pub client_id: String,
    pub temp: String,
    pub processes: String,
    pub memory: String,
    pub diskusage: String,
    pub swapusage: String,
    pub uptime: String,
    pub mpvstatus: String,
    pub chip_architecture: String,
    pub os: String,
}

impl Metrics {
    /// Assembles a report from its readings.
    pub fn new(
        client_id: String,
        temp: String,
        processes: String,
        memory: String,
        diskusage: String,
        swapusage: String,
        uptime: String,
        mpvstatus: String,
        chip_architecture: String,
        os: String,
    ) -> (m: Metrics)
        ensures
            m.client_id@ == client_id@,
            m.temp@ == temp@,
            m.processes@ == processes@,
            m.memory@ == memory@,
            m.diskusage@ == diskusage@,
            m.swapusage@ == swapusage@,
            m.uptime@ == uptime@,
            m.mpvstatus@ == mpvstatus@,
            m.chip_architecture@ == chip_architecture@,
            m.os@ == os@,
    {
        Metrics {
            client_id,
            temp,
            processes,
            memory,
            diskusage,
            swapusage,
            uptime,
            mpvstatus,
            chip_architecture,
            os,
        }
    }
}

/// The player's liveness label: a process listing that found nothing
/// means the player is not running.
pub fn player_status_label(process_listing: &str) -> (r: String)
    ensures
        process_listing@.len() == 0 ==> r@ == "not running"@,
        process_listing@.len() > 0 ==> r@ == "running"@,
{
    if process_listing.is_empty() {
        String::from_str("not running")
    } else {
        String::from_str("running")
    }
}

/// The first usable reading of a fallback chain: the first non-empty
/// candidate, or the default where every candidate is empty.
pub open spec fn spec_first_nonempty(candidates: Seq<Seq<char>>, default: Seq<char>) -> Seq<char>
    decreases candidates.len(),
{
    if candidates.len() == 0 {
        default
    } else if candidates[0].len() > 0 {
        candidates[0]
    } else {
        spec_first_nonempty(candidates.skip(1), default)
    }
}

/// Picks the first non-empty reading, or the default where every reading
/// came back empty.
pub fn first_nonempty(candidates: &Vec<String>, default: String) -> (r: String)
    ensures
        r@ == spec_first_nonempty(str_views(candidates@), default@),
{
    let ghost all = str_views(candidates@);
    let mut i: usize = 0;
    proof {
        assert(all.skip(0) =~= all);
    }
    while i < candidates.len()
        invariant
            i <= candidates@.len(),
            all == str_views(candidates@),
            spec_first_nonempty(all.skip(i as int), default@) == spec_first_nonempty(
                all,
                default@,
            ),
        decreases candidates@.len() - i,
    {
        if !candidates[i].as_str().is_empty() {
            proof {
                assert(all.skip(i as int)[0] == candidates@[i as int]@);
            }
            return candidates[i].clone();
        }
        proof {
            assert(all.skip(i as int)[0] == candidates@[i as int]@);
            assert(all.skip(i as int).skip(1) =~= all.skip(i as int + 1));
        }
        i = i + 1;
    }
    proof {
        assert(all.skip(i as int).len() == 0);
    }
    default
}

} // verus!
