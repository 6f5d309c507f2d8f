use tnap::registry::PathRegistry;

fn paths(names: &[&str]) -> Vec<String> {
    names.iter().map(|n| n.to_string()).collect()
}

#[test]
fn empty_registry_has_no_entry() {
    let reg = PathRegistry::new();
    assert_eq!(reg.len(), 0);
    assert!(reg.is_empty());
    assert_eq!(reg.get(0), None);
    assert_eq!(reg.get(7), None);
}

#[test]
fn get_reduces_index_modulo_length() {
    let reg = PathRegistry::from_paths(paths(&["a.png", "b.png", "c.png"]));
    assert_eq!(reg.get(0).unwrap(), "a.png");
    assert_eq!(reg.get(2).unwrap(), "c.png");
    assert_eq!(reg.get(3).unwrap(), "a.png");
    assert_eq!(reg.get(5).unwrap(), "c.png");
    assert_eq!(reg.get(usize::MAX).unwrap(), "a.png");
}

#[test]
fn advancing_visits_each_index_once_per_cycle() {
    let reg = PathRegistry::from_paths(paths(&["0", "1", "2", "3", "4"]));
    let n = reg.len();
    for start in 0..12usize {
        let mut seen = vec![false; n];
        let mut index = start;
        for _ in 0..n {
            index = (index + 1) % reg.len();
            assert!(index < n);
            assert!(!seen[index]);
            seen[index] = true;
        }
        assert!(seen.iter().all(|s| *s));
    }
}

#[test]
fn stale_index_stays_valid_after_append() {
    let mut reg = PathRegistry::from_paths(paths(&["a.png", "b.png"]));
    let held = 1usize;
    reg.append("c.png".to_string());
    assert_eq!(reg.len(), 3);
    assert_eq!(reg.get(held).unwrap(), "b.png");
    assert_eq!(reg.get(held + 2).unwrap(), "a.png");
}

#[test]
fn remove_first_on_empty_is_refused() {
    let mut reg = PathRegistry::new();
    assert!(!reg.remove_first());
    assert_eq!(reg.len(), 0);
}

#[test]
fn remove_first_drops_front() {
    let mut reg = PathRegistry::from_paths(paths(&["a", "b"]));
    assert!(reg.remove_first());
    assert_eq!(reg.len(), 1);
    assert_eq!(reg.get(0).unwrap(), "b");
}

#[test]
fn extend_keeps_order() {
    let mut reg = PathRegistry::from_paths(paths(&["a"]));
    reg.extend(paths(&["b", "c"]));
    assert_eq!(reg.len(), 3);
    assert_eq!(reg.get(1).unwrap(), "b");
    assert_eq!(reg.get(2).unwrap(), "c");
}
