//! Value types shared by the query and simplification services.

use vstd::prelude::*;

verus! {

/// A GPS coordinate: latitude and longitude, in that order.  Each component
/// is carried as an opaque 64-bit word chosen by the serving layer (the core
/// never computes on the raw numbers itself; the spacing between points
/// reaches the simplification pass separately, as a precomputed table).
#[derive(Clone, Copy, PartialEq, Eq, Structural, Debug)]
pub struct Coordinate(pub u64, pub u64);

/// Represents a vessel within a port: a maritime identifier, two labels,
/// and parallel time-ordered observation series.  The series are
/// intended to share one length, each index describing the vessel's state
/// at one observation time, but no operation here depends on that.
/// Speed and heading readings are carried as opaque 64-bit words, like the
/// components of a `Coordinate`.
pub struct Vessel {
    pub mmsi: i32,
    pub name: String,
    pub ship_type: String,
    pub coordinates: Vec<Coordinate>,
    pub timestamps: Vec<String>,
    pub speeds: Vec<u64>,
    pub headings: Vec<u64>,
    pub statuses: Vec<String>,
    pub destinations: Vec<String>,
}

/// The mathematical value of a `Vessel` record.
pub ghost struct VesselModel {
    pub mmsi: int,
    pub name: Seq<char>,
    pub ship_type: Seq<char>,
    pub coordinates: Seq<Coordinate>,
    pub timestamps: Seq<Seq<char>>,
    pub speeds: Seq<u64>,
    pub headings: Seq<u64>,
    pub statuses: Seq<Seq<char>>,
    pub destinations: Seq<Seq<char>>,
}

impl View for Vessel {
    type V = VesselModel;

    open spec fn view(&self) -> VesselModel {
        VesselModel {
            mmsi: self.mmsi as int,
            name: self.name@,
            ship_type: self.ship_type@,
            coordinates: self.coordinates@,
            timestamps: self.timestamps@.map_values(|s: String| s@),
            speeds: self.speeds@,
            headings: self.headings@,
            statuses: self.statuses@.map_values(|s: String| s@),
            destinations: self.destinations@.map_values(|s: String| s@),
        }
    }
}

/// Copies a vector of plain (`Copy`) values element by element.
fn copy_vec<T: Copy>(v: &Vec<T>) -> (res: Vec<T>)
    ensures
        res@ == v@,
{
    let mut out: Vec<T> = Vec::new();
    let n = v.len();
    let mut i: usize = 0;
    while i < n
        invariant
            i <= n,
            n == v@.len(),
            out@ == v@.take(i as int),
        decreases n - i,
    {
        out.push(v[i]);
        proof {
            assert(out@ =~= v@.take(i as int + 1));
        }
        i += 1;
    }
    proof {
        assert(out@ =~= v@);
    }
    out
}

/// Copies a vector of strings element by element.
fn copy_strings(v: &Vec<String>) -> (res: Vec<String>)
    ensures
        res@ == v@,
{
    let mut out: Vec<String> = Vec::new();
    let n = v.len();
    let mut i: usize = 0;
    while i < n
        invariant
            i <= n,
            n == v@.len(),
            out@ == v@.take(i as int),
        decreases n - i,
    {
        out.push(v[i].clone());
        proof {
            assert(out@ =~= v@.take(i as int + 1));
        }
        i += 1;
    }
    proof {
        assert(out@ =~= v@);
    }
    out
}

impl Clone for Vessel {
    /// The copy carries the same record as the original.
    fn clone(&self) -> (res: Self)
        ensures
            res@ == self@,
    {
        Vessel {
            mmsi: self.mmsi,
            name: self.name.clone(),
            ship_type: self.ship_type.clone(),
            coordinates: copy_vec(&self.coordinates),
            timestamps: copy_strings(&self.timestamps),
            speeds: copy_vec(&self.speeds),
            headings: copy_vec(&self.headings),
            statuses: copy_strings(&self.statuses),
            destinations: copy_strings(&self.destinations),
        }
    }
}

/// Represents a port: the full catalogue of vessel records known in one
/// snapshot.  It is built once, before serving begins, and read-only
/// afterwards.
pub struct Port {
    pub vessels: Vec<Vessel>,
}

/// Key uniqueness for a catalogue sequence: no two records share a
/// maritime identifier.
pub open spec fn unique_keys(vs: Seq<Vessel>) -> bool {
    forall|i: int, j: int| 0 <= i < j < vs.len() ==> vs[i].mmsi != vs[j].mmsi
}

impl Port {
    /// The intended invariant of the catalogue: the maritime identifiers
    /// are unique keys.
    pub open spec fn wf(&self) -> bool {
        unique_keys(self.vessels@)
    }
}

/// A list of full vessel records, as a query response.
pub struct VesselList {
    pub vessels: Vec<Vessel>,
}

/// A list of vessel identifiers (MMSIs), as a query request or response.
pub struct MMSIList {
    pub vessels: Vec<i32>,
}

/// The input to the path simplification service: one vessel and the
/// minimum spacing radius, the latter carried as an opaque 64-bit word
/// (the core reads it only through the precomputed spacing table).
pub struct SimplifyIn {
    pub vessel: Vessel,
    pub radius: u64,
}

/// The output of the path simplification service: the reduced path.
pub struct SimplifyOut {
    pub path: Vec<Coordinate>,
}

} // verus!
