use geos_prepared::functions::{check_geos_predicate, GEOS_EXCEPTION, GEOS_FALSE, GEOS_TRUE};
use geos_prepared::{Error, PredicateCall, PredicateType};

const ALL: [PredicateType; 10] = [
    PredicateType::PreparedContains,
    PredicateType::PreparedContainsProperly,
    PredicateType::PreparedCoveredBy,
    PredicateType::PreparedCovers,
    PredicateType::PreparedCrosses,
    PredicateType::PreparedDisjoint,
    PredicateType::PreparedIntersects,
    PredicateType::PreparedOverlaps,
    PredicateType::PreparedTouches,
    PredicateType::PreparedWithin,
];

fn call(predicate: PredicateType) -> PredicateCall {
    PredicateCall { predicate, context: 0x10, prepared: 0x20, other: 0x30 }
}

#[test]
fn the_three_codes_have_their_values() {
    assert_eq!(GEOS_FALSE, 0);
    assert_eq!(GEOS_TRUE, 1);
    assert_eq!(GEOS_EXCEPTION, 2);
}

#[test]
fn affirmative_code_reads_as_true() {
    for p in ALL {
        assert_eq!(check_geos_predicate(1, p), Ok(true));
        assert_eq!(call(p).complete(1), Ok(true));
    }
}

#[test]
fn negative_code_reads_as_false() {
    for p in ALL {
        assert_eq!(check_geos_predicate(0, p), Ok(false));
        assert_eq!(call(p).complete(0), Ok(false));
    }
}

#[test]
fn exception_code_reads_as_failure_of_that_relation() {
    for p in ALL {
        assert_eq!(check_geos_predicate(2, p), Err(Error::GeosFunctionError(p, 2)));
        assert_eq!(call(p).complete(2), Err(Error::GeosFunctionError(p, 2)));
    }
}

#[test]
fn unexpected_codes_read_as_failures() {
    for code in [-1, 3, 255, i32::MIN, i32::MAX] {
        for p in ALL {
            assert_eq!(check_geos_predicate(code, p), Err(Error::GeosFunctionError(p, code)));
            assert_eq!(call(p).complete(code), Err(Error::GeosFunctionError(p, code)));
        }
    }
}

#[test]
fn truth_comes_from_truth_codes_only() {
    for code in -4..=4 {
        for p in ALL {
            let r = check_geos_predicate(code, p);
            assert_eq!(r == Ok(true), code == 1);
            assert_eq!(r == Ok(false), code == 0);
            assert_eq!(r.is_err(), code != 0 && code != 1);
        }
    }
}

#[test]
fn failures_of_distinct_relations_differ() {
    for (i, p) in ALL.iter().enumerate() {
        for (j, q) in ALL.iter().enumerate() {
            let same = check_geos_predicate(2, *p) == check_geos_predicate(2, *q);
            assert_eq!(same, i == j);
        }
    }
    assert_ne!(
        check_geos_predicate(2, PredicateType::PreparedCovers),
        check_geos_predicate(3, PredicateType::PreparedCovers)
    );
}

#[test]
fn reading_an_answer_ignores_the_handles() {
    let a = PredicateCall {
        predicate: PredicateType::PreparedTouches,
        context: 1,
        prepared: 2,
        other: 3,
    };
    let b = PredicateCall {
        predicate: PredicateType::PreparedTouches,
        context: 7,
        prepared: 8,
        other: 9,
    };
    for code in 0..4 {
        assert_eq!(a.complete(code), b.complete(code));
    }
}
