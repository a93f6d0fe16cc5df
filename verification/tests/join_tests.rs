use us_census::geoid::Geoid;
use us_census::join::{run_join, AcsValue};
use us_census::variable::Variable;

fn value(name: &str, v: &str) -> AcsValue {
    AcsValue {
        name: Variable::new(name.to_string()),
        value: v.to_string(),
    }
}

fn g(s: &str) -> Geoid {
    Geoid::from_string(s).unwrap()
}

#[test]
fn join_completeness_three_geoids() {
    // attributes for {A, B}, geometries for {A, C}
    let a = g("08059");
    let b = g("08060");
    let c = g("08061");
    let acs = vec![
        (a.clone(), vec![value("NAME", "Jefferson")]),
        (b.clone(), vec![value("NAME", "Elsewhere")]),
    ];
    let chunks: Vec<Result<Vec<(Geoid, u64)>, String>> =
        vec![Ok(vec![(a.clone(), 7), (c.clone(), 9)])];
    let res = run_join(acs, chunks);
    assert_eq!(res.join_dataset.len(), 1);
    assert_eq!(res.join_dataset[0].geoid, a);
    assert_eq!(res.join_dataset[0].geometry, 7);
    assert_eq!(res.join_dataset[0].acs_value.value, "Jefferson");
    assert_eq!(res.tiger_errors.len(), 0);
    assert_eq!(
        res.join_errors,
        vec!["no geometry found for Geoid 08060".to_string()]
    );
}

#[test]
fn join_fan_out_three_fields() {
    let a = g("08059");
    let acs = vec![(
        a.clone(),
        vec![value("B01", "1"), value("B02", "2"), value("B03", "3")],
    )];
    let chunks: Vec<Result<Vec<(Geoid, u64)>, String>> = vec![Ok(vec![(a.clone(), 42)])];
    let res = run_join(acs, chunks);
    assert_eq!(res.join_dataset.len(), 3);
    for row in &res.join_dataset {
        assert_eq!(row.geoid, a);
        assert_eq!(row.geometry, 42);
    }
    assert_eq!(res.join_dataset[0].acs_value.value, "1");
    assert_eq!(res.join_dataset[1].acs_value.value, "2");
    assert_eq!(res.join_dataset[2].acs_value.value, "3");
    assert!(res.join_errors.is_empty());
}

#[test]
fn failed_chunks_are_collected_not_fatal() {
    let a = g("08059");
    let acs = vec![(a.clone(), vec![value("NAME", "x")])];
    let chunks: Vec<Result<Vec<(Geoid, u64)>, String>> = vec![
        Err("download of chunk one failed".to_string()),
        Ok(vec![(a.clone(), 5)]),
        Err("bad payload".to_string()),
    ];
    let res = run_join(acs, chunks);
    assert_eq!(
        res.tiger_errors,
        vec![
            "download of chunk one failed".to_string(),
            "bad payload".to_string()
        ]
    );
    assert_eq!(res.join_dataset.len(), 1);
    assert_eq!(res.join_dataset[0].geometry, 5);
    assert!(res.join_errors.is_empty());
}

#[test]
fn geometries_arrive_across_chunks() {
    let a = g("08059");
    let b = g("08060");
    let acs = vec![
        (a.clone(), vec![value("N", "1")]),
        (b.clone(), vec![value("N", "2")]),
    ];
    let chunks: Vec<Result<Vec<(Geoid, u64)>, String>> = vec![
        Ok(vec![(a.clone(), 1)]),
        Ok(vec![]),
        Ok(vec![(b.clone(), 2)]),
    ];
    let res = run_join(acs, chunks);
    assert_eq!(res.join_dataset.len(), 2);
    assert_eq!(res.join_dataset[0].geometry, 1);
    assert_eq!(res.join_dataset[1].geometry, 2);
}

#[test]
fn first_matching_geometry_wins() {
    let a = g("08059");
    let acs = vec![(a.clone(), vec![value("N", "1")])];
    let chunks: Vec<Result<Vec<(Geoid, u64)>, String>> =
        vec![Ok(vec![(a.clone(), 1), (a.clone(), 2)])];
    let res = run_join(acs, chunks);
    assert_eq!(res.join_dataset.len(), 1);
    assert_eq!(res.join_dataset[0].geometry, 1);
}

#[test]
fn join_on_empty_inputs() {
    let res = run_join(vec![], Vec::<Result<Vec<(Geoid, u64)>, String>>::new());
    assert!(res.join_dataset.is_empty());
    assert!(res.tiger_errors.is_empty());
    assert!(res.join_errors.is_empty());
}

#[test]
fn row_without_fields_emits_nothing() {
    let a = g("08059");
    let acs = vec![(a.clone(), vec![])];
    let chunks: Vec<Result<Vec<(Geoid, u64)>, String>> = vec![Ok(vec![(a.clone(), 3)])];
    let res = run_join(acs, chunks);
    assert!(res.join_dataset.is_empty());
    assert!(res.join_errors.is_empty());
}

#[test]
fn join_requires_exact_level_match() {
    // a county attribute row must not pick up a tract geometry with the
    // same prefix
    let county = g("08059");
    let tract = g("08059009838");
    let acs = vec![(county.clone(), vec![value("N", "1")])];
    let chunks: Vec<Result<Vec<(Geoid, u64)>, String>> = vec![Ok(vec![(tract, 9)])];
    let res = run_join(acs, chunks);
    assert!(res.join_dataset.is_empty());
    assert_eq!(
        res.join_errors,
        vec!["no geometry found for Geoid 08059".to_string()]
    );
}

#[test]
fn join_with_real_geometries() {
    let a = g("08059");
    let b = g("08060");
    let pt: geo::Geometry<f64> = geo::Geometry::Point(geo::Point::new(-105.0, 39.5));
    let acs = vec![
        (a.clone(), vec![value("B01001_001E", "582910")]),
        (b.clone(), vec![value("B01001_001E", "1")]),
    ];
    let chunks: Vec<Result<Vec<(Geoid, geo::Geometry<f64>)>, String>> =
        vec![Ok(vec![(a.clone(), pt.clone())])];
    let res = run_join(acs, chunks);
    assert_eq!(res.join_dataset.len(), 1);
    assert_eq!(res.join_dataset[0].geoid, a);
    assert_eq!(res.join_dataset[0].geometry, pt);
    assert_eq!(
        res.join_errors,
        vec!["no geometry found for Geoid 08060".to_string()]
    );
}

#[test]
fn variable_names() {
    let v = Variable::new("B01001_001E".to_string());
    assert_eq!(v.name(), "B01001_001E");
    assert_eq!(v.clone(), v);
}
