use bls2brs::convert::NameCount;
use bls2brs::report::{credit, errmsg, sorted_by_count};

fn entry(name: &str, count: usize) -> NameCount {
    NameCount { name: name.to_string(), count }
}

fn pairs(tally: &Vec<NameCount>) -> Vec<(String, usize)> {
    tally.iter().map(|e| (e.name.clone(), e.count)).collect()
}

#[test]
fn error_gets_its_prefix() {
    let failed: Result<u8, &str> = Err("no such file");
    assert_eq!(errmsg(failed, "Failed to open bls file"), Err("Failed to open bls file: no such file".to_string()));
    let parsed: Result<u32, std::num::ParseIntError> = "x".parse::<u32>();
    assert_eq!(
        errmsg(parsed, "Bad number"),
        Err("Bad number: invalid digit found in string".to_string())
    );
}

#[test]
fn success_passes_through() {
    let fine: Result<u8, String> = Ok(7);
    assert_eq!(errmsg(fine, "Failed"), Ok(7));
}

#[test]
fn description_names_the_source_file() {
    assert_eq!(credit("House.bls", ""), "Converted from House.bls with bls2brs.");
    assert_eq!(
        credit("House.bls", "A house\nwith a garden"),
        "Converted from House.bls with bls2brs.\nA house\nwith a garden"
    );
}

#[test]
fn most_frequent_names_come_first() {
    let tally = vec![entry("Door", 2), entry("Window", 7), entry("Spawn Point", 1), entry("Vehicle Spawn", 4)];
    let sorted = sorted_by_count(&tally);
    assert_eq!(
        pairs(&sorted),
        vec![
            ("Window".to_string(), 7),
            ("Vehicle Spawn".to_string(), 4),
            ("Door".to_string(), 2),
            ("Spawn Point".to_string(), 1),
        ]
    );
}

#[test]
fn equal_counts_keep_their_order() {
    let tally = vec![entry("a", 1), entry("b", 3), entry("c", 1), entry("d", 3), entry("e", 1)];
    let sorted = sorted_by_count(&tally);
    assert_eq!(
        pairs(&sorted),
        vec![
            ("b".to_string(), 3),
            ("d".to_string(), 3),
            ("a".to_string(), 1),
            ("c".to_string(), 1),
            ("e".to_string(), 1),
        ]
    );
    assert!(sorted_by_count(&vec![]).is_empty());
}
