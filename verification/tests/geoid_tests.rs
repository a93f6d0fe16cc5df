use us_census::error::CensusError;
use us_census::fips;
use us_census::geoid::Geoid;
use us_census::geoid_type::GeoidType;

fn block_geoid(s: u64, c: u64, t: u64, b: &str) -> Geoid {
    Geoid::Block(
        fips::State(s),
        fips::County(c),
        fips::CensusTract(t),
        fips::Block(b.to_string()),
    )
}

#[test]
fn parse_block_group_example() {
    // the twelve-digit example: state 08, county 059, tract 009838, group 1
    let g = Geoid::from_string("080590098381").unwrap();
    assert_eq!(
        g,
        Geoid::BlockGroup(
            fips::State(8),
            fips::County(59),
            fips::CensusTract(9838),
            fips::BlockGroup(1)
        )
    );
    let county = g.truncate_geoid_to_type(&GeoidType::County).unwrap();
    assert_eq!(county, Geoid::County(fips::State(8), fips::County(59)));
    let place = g.truncate_geoid_to_type(&GeoidType::Place);
    assert_eq!(
        place,
        Err(CensusError::NotAnAncestor(
            GeoidType::BlockGroup,
            GeoidType::Place
        ))
    );
}

#[test]
fn parse_each_level_by_length() {
    assert_eq!(
        Geoid::from_string("08").unwrap(),
        Geoid::State(fips::State(8))
    );
    assert_eq!(
        Geoid::from_string("08059").unwrap(),
        Geoid::County(fips::State(8), fips::County(59))
    );
    assert_eq!(
        Geoid::from_string("0805912").unwrap(),
        Geoid::Place(fips::State(8), fips::Place(5912))
    );
    assert_eq!(
        Geoid::from_string("0805900127").unwrap(),
        Geoid::CountySubdivision(fips::State(8), fips::County(59), fips::CountySubdivision(127))
    );
    assert_eq!(
        Geoid::from_string("08059009838").unwrap(),
        Geoid::CensusTract(fips::State(8), fips::County(59), fips::CensusTract(9838))
    );
    assert_eq!(
        Geoid::from_string("080590098381001").unwrap(),
        block_geoid(8, 59, 9838, "1001")
    );
    assert_eq!(
        Geoid::from_string("0805900983810012").unwrap(),
        block_geoid(8, 59, 9838, "10012")
    );
}

#[test]
fn unsupported_lengths_fail() {
    for s in [
        "",
        "0",
        "080",
        "0805",
        "080590",
        "08059009",
        "080590098",
        "0805900983812",
        "08059009838100",
        "08059009838100127",
    ] {
        assert_eq!(
            Geoid::from_string(s),
            Err(CensusError::UnsupportedLength(s.len())),
            "length {} must be rejected",
            s.len()
        );
    }
}

#[test]
fn malformed_digits_fail() {
    assert_eq!(
        Geoid::from_string("0x"),
        Err(CensusError::MalformedComponent)
    );
    assert_eq!(
        Geoid::from_string("08a59"),
        Err(CensusError::MalformedComponent)
    );
    assert_eq!(
        Geoid::from_string("08059009838100a"),
        Err(CensusError::MalformedComponent)
    );
}

#[test]
fn round_trip_each_level() {
    for s in [
        "08",
        "08059",
        "0805912",
        "0805900127",
        "08059009838",
        "080590098381",
        "080590098381001",
        "0805900983810012",
        "010010201001000",
    ] {
        let g = Geoid::from_string(s).unwrap();
        let rendered = g.geoid_string();
        assert_eq!(rendered, s);
        assert_eq!(Geoid::from_string(&rendered).unwrap(), g);
    }
}

#[test]
fn block_leading_zeros_survive() {
    let g = Geoid::from_string("080590098380012").unwrap();
    assert_eq!(g, block_geoid(8, 59, 9838, "0012"));
    assert_eq!(g.geoid_string(), "080590098380012");
}

#[test]
fn truncate_identity() {
    let tract = Geoid::from_string("08059009838").unwrap();
    assert_eq!(
        tract.truncate_geoid_to_type(&GeoidType::CensusTract).unwrap(),
        tract
    );
    let state = Geoid::from_string("08").unwrap();
    assert_eq!(
        state.truncate_geoid_to_type(&GeoidType::State).unwrap(),
        state
    );
}

#[test]
fn truncate_ancestors_only() {
    let tract = Geoid::from_string("08059009838").unwrap();
    assert!(tract.truncate_geoid_to_type(&GeoidType::County).is_ok());
    assert!(tract.truncate_geoid_to_type(&GeoidType::State).is_ok());
    assert_eq!(
        tract.truncate_geoid_to_type(&GeoidType::Place),
        Err(CensusError::NotAnAncestor(
            GeoidType::CensusTract,
            GeoidType::Place
        ))
    );
    assert_eq!(
        tract.truncate_geoid_to_type(&GeoidType::Block),
        Err(CensusError::NotAnAncestor(
            GeoidType::CensusTract,
            GeoidType::Block
        ))
    );
    let place = Geoid::from_string("0805912").unwrap();
    assert_eq!(
        place.truncate_geoid_to_type(&GeoidType::County),
        Err(CensusError::NotAnAncestor(GeoidType::Place, GeoidType::County))
    );
}

#[test]
fn truncate_block_to_block_group_heuristic() {
    let block = Geoid::from_string("080590098381001").unwrap();
    let bg = block.truncate_geoid_to_type(&GeoidType::BlockGroup).unwrap();
    assert_eq!(
        bg,
        Geoid::BlockGroup(
            fips::State(8),
            fips::County(59),
            fips::CensusTract(9838),
            fips::BlockGroup(1)
        )
    );
}

#[test]
fn parent_chain_terminates() {
    let mut cursor = Some(Geoid::from_string("080590098381001").unwrap());
    let mut steps = 0;
    while let Some(g) = cursor {
        cursor = g.to_parent();
        steps += 1;
        assert!(steps <= 4, "parent chain must end within four steps");
    }
    assert_eq!(steps, 4);

    let block = Geoid::from_string("080590098381001").unwrap();
    let tract = block.to_parent().unwrap();
    assert_eq!(tract, Geoid::from_string("08059009838").unwrap());
    let county = tract.to_parent().unwrap();
    assert_eq!(county, Geoid::from_string("08059").unwrap());
    let state = county.to_parent().unwrap();
    assert_eq!(state, Geoid::from_string("08").unwrap());
    assert_eq!(state.to_parent(), None);
}

#[test]
fn ancestor_projections() {
    let block = Geoid::from_string("080590098381001").unwrap();
    assert_eq!(block.to_state(), Geoid::State(fips::State(8)));
    assert_eq!(
        block.to_county().unwrap(),
        Geoid::County(fips::State(8), fips::County(59))
    );
    assert_eq!(
        block.to_census_tract().unwrap(),
        Geoid::from_string("08059009838").unwrap()
    );
    let state = Geoid::from_string("08").unwrap();
    assert_eq!(
        state.to_county(),
        Err(CensusError::NotAnAncestor(GeoidType::State, GeoidType::County))
    );
    let place = Geoid::from_string("0805912").unwrap();
    assert_eq!(
        place.to_census_tract(),
        Err(CensusError::NotAnAncestor(
            GeoidType::Place,
            GeoidType::CensusTract
        ))
    );
}

#[test]
fn cross_variant_never_equal() {
    let county = Geoid::from_string("08059").unwrap();
    let tract = Geoid::from_string("08059009838").unwrap();
    assert_ne!(county, tract);
    assert_ne!(Geoid::State(fips::State(8)), county);
}

#[test]
fn geoid_type_and_variant_name() {
    let g = Geoid::from_string("080590098381").unwrap();
    assert_eq!(g.geoid_type(), GeoidType::BlockGroup);
    assert_eq!(g.variant_name(), "block group");
    assert_eq!(
        Geoid::from_string("08").unwrap().variant_name(),
        "state"
    );
    assert_eq!(g.to_display_string(), "block group=080590098381");
}

#[test]
fn geoid_from_string_checks_level_width() {
    let r = GeoidType::County.geoid_from_string(&"08".to_string());
    assert_eq!(r, Err(CensusError::UnsupportedLength(2)));
    let ok = GeoidType::State.geoid_from_string(&"08".to_string());
    assert_eq!(ok.unwrap(), Geoid::State(fips::State(8)));
}

#[test]
fn geoid_from_slice_of_strings_levels() {
    let bg = GeoidType::BlockGroup
        .geoid_from_slice_of_strings(&[
            "08".to_string(),
            "059".to_string(),
            "009838".to_string(),
            "1".to_string(),
        ])
        .unwrap();
    assert_eq!(bg, Geoid::from_string("080590098381").unwrap());

    let block = GeoidType::Block
        .geoid_from_slice_of_strings(&[
            "08".to_string(),
            "059".to_string(),
            "009838".to_string(),
            "0012".to_string(),
        ])
        .unwrap();
    assert_eq!(block, block_geoid(8, 59, 9838, "0012"));

    // wrong column count
    let bad = GeoidType::County.geoid_from_slice_of_strings(&["08".to_string()]);
    assert_eq!(bad, Err(CensusError::MalformedComponent));

    // non-digit column
    let bad = GeoidType::State.geoid_from_slice_of_strings(&["x8".to_string()]);
    assert_eq!(bad, Err(CensusError::MalformedComponent));
}

#[test]
fn as_usizes_parses_digit_strings() {
    let v = us_census::geoid_type::as_usizes(&[
        "08".to_string(),
        "059".to_string(),
        "009838".to_string(),
    ])
    .unwrap();
    assert_eq!(v, vec![8, 59, 9838]);
    let bad = us_census::geoid_type::as_usizes(&["".to_string()]);
    assert_eq!(bad, Err(CensusError::MalformedComponent));
    let bad = us_census::geoid_type::as_usizes(&["12a".to_string()]);
    assert_eq!(bad, Err(CensusError::MalformedComponent));
    // a value beyond the machine word is rejected, not wrapped
    let bad = us_census::geoid_type::as_usizes(&["99999999999999999999999".to_string()]);
    assert_eq!(bad, Err(CensusError::MalformedComponent));
}

#[test]
fn component_padding_widths() {
    let g = Geoid::County(fips::State(8), fips::County(59));
    assert_eq!(g.geoid_string(), "08059");
    let g = Geoid::Place(fips::State(8), fips::Place(12));
    assert_eq!(g.geoid_string(), "0800012");
    let g = Geoid::CensusTract(fips::State(48), fips::County(1), fips::CensusTract(950100));
    assert_eq!(g.geoid_string(), "48001950100");
}

#[test]
fn component_too_wide_renders_unpadded() {
    // a hand-built component beyond its slot is rendered in full rather
    // than truncated; such a value no longer round-trips by length
    let g = Geoid::State(fips::State(123));
    assert_eq!(g.geoid_string(), "123");
}
