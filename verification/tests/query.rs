use dataport::index;
use dataport::vessels;
use dataport::vessels_status;
use dataport::MMSIList;
use dataport::Port;
use dataport::Vessel;

fn named_vessel(mmsi: i32, name: &str, ship_type: &str) -> Vessel {
    Vessel {
        mmsi,
        name: name.to_string(),
        ship_type: ship_type.to_string(),
        coordinates: vec![],
        timestamps: vec![],
        speeds: vec![],
        headings: vec![],
        statuses: vec![],
        destinations: vec![],
    }
}

// Tests for success.

#[test]
fn test_index_for_success() {
    index();
}

#[test]
fn test_vessels_for_success() {
    let data = Port { vessels: vec![] };
    vessels(&data);
}

#[test]
fn test_vessels_status_for_success() {
    let data = Port { vessels: vec![] };
    let mmsis = MMSIList { vessels: vec![] };
    vessels_status(&mmsis, &data);
}

// Tests for sanity.

#[test]
fn test_index_for_sanity() {
    let res = index();
    assert_eq!(res, "Nothing to see here.");
}

#[test]
fn test_vessels_for_sanity() {
    let vessel = named_vessel(123, "boaty mcboatface", "special");
    let data = Port { vessels: vec![vessel] };
    let res = vessels(&data);
    assert_eq!(res.vessels.len(), 1);
    assert_eq!(res.vessels[0], 123);
}

#[test]
fn test_vessels_status_for_sanity() {
    // empty list --> empty result.
    let data = Port { vessels: vec![] };
    let mmsi = MMSIList { vessels: vec![] };
    let res = vessels_status(&mmsi, &data);
    assert_eq!(res.is_none(), true);

    // non existing mmsi.
    let mmsi = MMSIList { vessels: vec![456] };
    let res = vessels_status(&mmsi, &data);
    assert_eq!(res.is_none(), true);

    // success.
    let vessel = named_vessel(456, "foo", "bar");
    let data = Port { vessels: vec![vessel] };
    let mmsi = MMSIList { vessels: vec![456] };
    let res = vessels_status(&mmsi, &data);
    assert_eq!(res.unwrap().vessels.len(), 1);
}

#[test]
fn test_vessels_on_empty_port_is_empty() {
    let data = Port { vessels: vec![] };
    let res = vessels(&data);
    assert_eq!(res.vessels.len(), 0);
}

#[test]
fn test_vessels_status_unknown_mmsi_on_filled_port() {
    let data = Port { vessels: vec![named_vessel(123, "boaty mcboatface", "special")] };
    let mmsi = MMSIList { vessels: vec![456] };
    let res = vessels_status(&mmsi, &data);
    assert_eq!(res.is_none(), true);
}

#[test]
fn test_vessels_status_returns_matching_record() {
    let data = Port {
        vessels: vec![
            named_vessel(123, "boaty mcboatface", "special"),
            named_vessel(456, "foo", "bar"),
        ],
    };
    let mmsi = MMSIList { vessels: vec![456] };
    let res = vessels_status(&mmsi, &data).unwrap();
    assert_eq!(res.vessels.len(), 1);
    assert_eq!(res.vessels[0].mmsi, 456);
    assert_eq!(res.vessels[0].name, "foo");
    assert_eq!(res.vessels[0].ship_type, "bar");
}
