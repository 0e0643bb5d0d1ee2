//! The grouping index files values under their keys.

use vf_planning::grouping::GroupIndex;

fn pair(key: &str, value: u32) -> (String, u32) {
    (key.to_string(), value)
}

#[test]
fn groups_keep_the_order_in_which_values_came() {
    let index = GroupIndex::build(vec![
        pair("b", 1),
        pair("a", 2),
        pair("b", 3),
        pair("c", 4),
        pair("a", 5),
        pair("b", 6),
    ]);
    assert_eq!(index.get("a"), &[2, 5]);
    assert_eq!(index.get("b"), &[1, 3, 6]);
    assert_eq!(index.get("c"), &[4]);
}

#[test]
fn a_key_that_never_occurred_has_no_values() {
    let index = GroupIndex::build(vec![pair("a", 1)]);
    assert_eq!(index.get("z"), &[] as &[u32]);
    assert_eq!(index.get(""), &[] as &[u32]);
    assert_eq!(index.get("A"), &[] as &[u32]);
    assert_eq!(index.first("z"), None);
    let empty: GroupIndex<u32> = GroupIndex::build(vec![]);
    assert_eq!(empty.get("a"), &[] as &[u32]);
    assert_eq!(empty.first("a"), None);
}

#[test]
fn first_takes_the_first_occurrence_and_ignores_the_rest() {
    let index = GroupIndex::build(vec![pair("c1", 10), pair("c2", 20), pair("c1", 11)]);
    assert_eq!(index.first("c1"), Some(&10));
    assert_eq!(index.first("c2"), Some(&20));
}

#[test]
fn no_value_is_filed_under_two_keys() {
    let pairs: Vec<(String, u32)> = (0..200).map(|n| (format!("k{}", n % 7), n)).collect();
    let index = GroupIndex::build(pairs.clone());
    let mut seen = 0;
    for k in 0..7 {
        let key = format!("k{}", k);
        let expected: Vec<u32> = pairs
            .iter()
            .filter(|p| p.0 == key)
            .map(|p| p.1)
            .collect();
        assert_eq!(index.get(&key), expected.as_slice());
        seen += index.get(&key).len();
    }
    assert_eq!(seen, 200);
}

#[test]
fn the_empty_key_is_a_key_like_any_other() {
    let index = GroupIndex::build(vec![pair("", 1), pair(" ", 2), pair("", 3)]);
    assert_eq!(index.get(""), &[1, 3]);
    assert_eq!(index.get(" "), &[2]);
}
