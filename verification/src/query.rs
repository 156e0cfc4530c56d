//! The query service: answers identifier and detail lookups against one
//! read-only `Port` snapshot.

use vstd::prelude::*;

use crate::model::MMSIList;
use crate::model::unique_keys;
use crate::model::Port;
use crate::model::Vessel;
use crate::model::VesselList;
use crate::model::VesselModel;

verus! {

/// The first record in the catalogue with the given identifier, as a model
/// value.  Under `Port::wf` there is at most one such record.
pub open spec fn lookup(vs: Seq<Vessel>, mmsi: i32) -> Option<VesselModel>
    decreases vs.len(),
{
    if vs.len() == 0 {
        None
    } else if vs[0].mmsi == mmsi {
        Some(vs[0]@)
    } else {
        lookup(vs.skip(1), mmsi)
    }
}

/// The records a detail request matches, in request order: each requested
/// identifier that the catalogue knows contributes its record, an unknown
/// identifier is silently skipped, and a repeated identifier is repeated.
pub open spec fn matched(vs: Seq<Vessel>, ids: Seq<i32>) -> Seq<VesselModel>
    decreases ids.len(),
{
    if ids.len() == 0 {
        Seq::empty()
    } else {
        let init = matched(vs, ids.drop_last());
        match lookup(vs, ids.last()) {
            Some(m) => init.push(m),
            None => init,
        }
    }
}

/// Law: a lookup succeeds exactly when some record in the catalogue carries
/// the requested identifier, and what it finds is such a record.
pub proof fn lemma_lookup_characterizes(vs: Seq<Vessel>, mmsi: i32)
    ensures
        lookup(vs, mmsi) is Some <==> exists|i: int| 0 <= i < vs.len() && vs[i].mmsi == mmsi,
        lookup(vs, mmsi) matches Some(m) ==> exists|i: int|
            0 <= i < vs.len() && vs[i].mmsi == mmsi && m == vs[i]@,
    decreases vs.len(),
{
    if vs.len() == 0 {
    } else if vs[0].mmsi == mmsi {
        assert(vs[0].mmsi == mmsi);
    } else {
        lemma_lookup_characterizes(vs.skip(1), mmsi);
        assert(forall|i: int| 0 <= i < vs.skip(1).len() ==> vs.skip(1)[i] == vs[i + 1]);
        if lookup(vs.skip(1), mmsi) is Some {
            let j = choose|i: int|
                0 <= i < vs.skip(1).len() && vs.skip(1)[i].mmsi == mmsi && lookup(
                    vs.skip(1),
                    mmsi,
                )->0 == vs.skip(1)[i]@;
            assert(vs[j + 1].mmsi == mmsi && lookup(vs, mmsi)->0 == vs[j + 1]@);
        }
        if exists|i: int| 0 <= i < vs.len() && vs[i].mmsi == mmsi {
            let i = choose|i: int| 0 <= i < vs.len() && vs[i].mmsi == mmsi;
            assert(vs.skip(1)[i - 1].mmsi == mmsi);
        }
    }
}

/// Law: under the catalogue invariant (`Port::wf`), a lookup of the
/// identifier carried at any index finds precisely the record at that
/// index: the first match is the only match.
pub proof fn lemma_lookup_unique(vs: Seq<Vessel>, i: int)
    requires
        unique_keys(vs),
        0 <= i < vs.len(),
    ensures
        lookup(vs, vs[i].mmsi) == Some(vs[i]@),
    decreases vs.len(),
{
    if i > 0 {
        assert(forall|a: int| 0 <= a < vs.skip(1).len() ==> vs.skip(1)[a] == vs[a + 1]);
        lemma_lookup_unique(vs.skip(1), i - 1);
    }
}

/// Law: a detail request matches at least one record exactly when at least
/// one requested identifier is known in the catalogue; so `vessels_status`
/// answers with a list exactly then.
pub proof fn lemma_matched_characterizes(vs: Seq<Vessel>, ids: Seq<i32>)
    ensures
        matched(vs, ids).len() > 0 <==> exists|k: int|
            0 <= k < ids.len() && lookup(vs, ids[k]) is Some,
    decreases ids.len(),
{
    if ids.len() > 0 {
        lemma_matched_characterizes(vs, ids.drop_last());
        assert(forall|k: int| 0 <= k < ids.drop_last().len() ==> ids.drop_last()[k] == ids[k]);
        if matched(vs, ids).len() > 0 {
            if lookup(vs, ids.last()) is Some {
                assert(ids[ids.len() - 1] == ids.last());
            } else {
                let k = choose|k: int|
                    0 <= k < ids.drop_last().len() && lookup(vs, ids.drop_last()[k]) is Some;
                assert(lookup(vs, ids[k]) is Some);
            }
        }
        if exists|k: int| 0 <= k < ids.len() && lookup(vs, ids[k]) is Some {
            let k = choose|k: int| 0 <= k < ids.len() && lookup(vs, ids[k]) is Some;
            if k < ids.len() - 1 {
                assert(lookup(vs, ids.drop_last()[k]) is Some);
            }
        }
    }
}

/// Linear scan for the first record with the given identifier.
fn find_vessel<'a>(vs: &'a Vec<Vessel>, mmsi: i32) -> (res: Option<&'a Vessel>)
    ensures
        res is Some <==> lookup(vs@, mmsi) is Some,
        res matches Some(v) ==> lookup(vs@, mmsi) == Some(v@),
{
    let n = vs.len();
    let mut j: usize = 0;
    proof {
        assert(vs@.skip(0) =~= vs@);
    }
    while j < n
        invariant
            j <= n,
            n == vs@.len(),
            lookup(vs@, mmsi) == lookup(vs@.skip(j as int), mmsi),
        decreases n - j,
    {
        if vs[j].mmsi == mmsi {
            proof {
                assert(vs@.skip(j as int)[0] == vs@[j as int]);
            }
            return Some(&vs[j]);
        }
        proof {
            assert(vs@.skip(j as int).skip(1) =~= vs@.skip(j as int + 1));
            assert(vs@.skip(j as int)[0] == vs@[j as int]);
        }
        j += 1;
    }
    proof {
        assert(vs@.skip(n as int) =~= Seq::<Vessel>::empty());
    }
    None
}

/// Retrieve the list of all vessel identifiers known in the port.
/// Always succeeds; an empty catalogue yields an empty list.
pub fn vessels(data: &Port) -> (res: MMSIList)
    ensures
        res.vessels@ == data.vessels@.map_values(|v: Vessel| v.mmsi),
{
    let mut mmsi: Vec<i32> = Vec::new();
    let n = data.vessels.len();
    let mut i: usize = 0;
    while i < n
        invariant
            i <= n,
            n == data.vessels@.len(),
            mmsi@ == data.vessels@.take(i as int).map_values(|v: Vessel| v.mmsi),
        decreases n - i,
    {
        mmsi.push(data.vessels[i].mmsi);
        proof {
            assert(mmsi@ =~= data.vessels@.take(i as int + 1).map_values(|v: Vessel| v.mmsi));
        }
        i += 1;
    }
    proof {
        assert(data.vessels@.take(n as int) =~= data.vessels@);
    }
    MMSIList { vessels: mmsi }
}

/// Retrieve details about a particular set of vessels: the matched records
/// in request order, or no result at all when not a single requested
/// identifier is known (in particular, for an empty request).
pub fn vessels_status(mmsis: &MMSIList, data: &Port) -> (res: Option<VesselList>)
    ensures
        res is Some <==> matched(data.vessels@, mmsis.vessels@).len() > 0,
        res matches Some(vl) ==> vl.vessels@.map_values(|v: Vessel| v@) == matched(
            data.vessels@,
            mmsis.vessels@,
        ),
{
    let mut status: Vec<Vessel> = Vec::new();
    let n = mmsis.vessels.len();
    let mut i: usize = 0;
    while i < n
        invariant
            i <= n,
            n == mmsis.vessels@.len(),
            status@.map_values(|v: Vessel| v@) == matched(
                data.vessels@,
                mmsis.vessels@.take(i as int),
            ),
        decreases n - i,
    {
        match find_vessel(&data.vessels, mmsis.vessels[i]) {
            Some(v) => {
                status.push(v.clone());
            },
            None => {},
        }
        proof {
            let ids = mmsis.vessels@;
            assert(ids.take(i as int + 1).drop_last() =~= ids.take(i as int));
            assert(ids.take(i as int + 1).last() == ids[i as int]);
            assert(status@.map_values(|v: Vessel| v@) =~= matched(
                data.vessels@,
                ids.take(i as int + 1),
            ));
        }
        i += 1;
    }
    proof {
        assert(mmsis.vessels@.take(n as int) =~= mmsis.vessels@);
    }
    if status.len() > 0 {
        Some(VesselList { vessels: status })
    } else {
        None
    }
}

/// The index page greeting of the query service.
pub fn index() -> (res: &'static str)
    ensures
        res@ == "Nothing to see here."@,
{
    "Nothing to see here."
}

} // verus!
