use segment::resolver::{find_label, resolve, resolve_index, ResolutionError};
use segment::Segment;

fn manifest(labels: &[&str]) -> Vec<Segment> {
    labels
        .iter()
        .enumerate()
        .map(|(i, l)| Segment::new(l.to_string(), vec![i as u8]))
        .collect()
}

fn label(l: &str) -> Option<String> {
    Some(l.to_string())
}

#[test]
fn label_picks_the_first_of_duplicates() {
    let m = manifest(&["cat", "dog", "cat"]);
    let chosen = resolve(&m, None, &label("cat")).unwrap();
    assert_eq!(chosen.label, "cat");
    assert_eq!(chosen.mask, vec![0u8]);
    assert!(std::ptr::eq(chosen, &m[0]));
    assert_eq!(resolve_index(&m, None, &label("cat")), Ok(0));
    assert_eq!(resolve_index(&m, None, &label("dog")), Ok(1));
}

#[test]
fn index_wins_over_label() {
    let m = manifest(&["cat", "dog", "cat"]);
    for i in 0..m.len() {
        assert_eq!(resolve_index(&m, Some(i), &None), Ok(i));
        assert_eq!(resolve_index(&m, Some(i), &label("dog")), Ok(i));
        assert_eq!(resolve_index(&m, Some(i), &label("absent")), Ok(i));
        assert!(std::ptr::eq(resolve(&m, Some(i), &label("cat")).unwrap(), &m[i]));
    }
    assert_eq!(resolve(&m, Some(2), &label("dog")).unwrap().mask, vec![2u8]);
}

#[test]
fn no_criterion_is_an_error() {
    assert_eq!(
        resolve_index(&manifest(&["a"]), None, &None),
        Err(ResolutionError::NoSelectionCriterion)
    );
    assert_eq!(
        resolve_index(&Vec::new(), None, &None),
        Err(ResolutionError::NoSelectionCriterion)
    );
    assert_eq!(
        resolve(&manifest(&["a", "b"]), None, &None).unwrap_err(),
        ResolutionError::NoSelectionCriterion
    );
}

#[test]
fn index_at_length_is_out_of_range() {
    let m = manifest(&["a", "b", "c"]);
    assert_eq!(resolve_index(&m, Some(3), &None), Err(ResolutionError::IndexOutOfRange));
    assert_eq!(resolve_index(&m, Some(3), &label("a")), Err(ResolutionError::IndexOutOfRange));
    assert_eq!(resolve_index(&m, Some(usize::MAX), &None), Err(ResolutionError::IndexOutOfRange));
    assert_eq!(resolve(&m, Some(3), &None).unwrap_err(), ResolutionError::IndexOutOfRange);
    assert_eq!(resolve_index(&Vec::new(), Some(0), &None), Err(ResolutionError::IndexOutOfRange));
}

#[test]
fn absent_label_is_not_found() {
    let m = manifest(&["cat", "dog"]);
    assert_eq!(resolve_index(&m, None, &label("bird")), Err(ResolutionError::LabelNotFound));
    assert_eq!(resolve(&m, None, &label("bird")).unwrap_err(), ResolutionError::LabelNotFound);
    assert_eq!(resolve_index(&Vec::new(), None, &label("cat")), Err(ResolutionError::LabelNotFound));
}

#[test]
fn labels_match_exactly() {
    let m = manifest(&["Cat", " cat", "cat ", "cat"]);
    assert_eq!(resolve_index(&m, None, &label("cat")), Ok(3));
    assert_eq!(resolve_index(&m, None, &label("Cat")), Ok(0));
    assert_eq!(resolve_index(&m, None, &label("CAT")), Err(ResolutionError::LabelNotFound));
    assert_eq!(resolve_index(&m, None, &label("")), Err(ResolutionError::LabelNotFound));
    assert_eq!(find_label(&m, &" cat".to_string()), Some(1));
    assert_eq!(find_label(&m, &"ca".to_string()), None);
}

#[test]
fn resolving_leaves_the_manifest_alone() {
    let m = manifest(&["x", "y"]);
    let _ = resolve(&m, None, &label("y"));
    let _ = resolve(&m, Some(7), &None);
    assert_eq!(m.len(), 2);
    assert_eq!(m[0].label, "x");
    assert_eq!(m[1].label, "y");
    assert_eq!(m[1].mask, vec![1u8]);
}
