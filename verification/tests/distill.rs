use slashmem::distill::{distill_output, find_flags, transitions, RuleFlags};

fn flags(id: &str, is_proven: bool, is_anti_pattern: bool) -> RuleFlags {
    RuleFlags { id: id.to_string(), is_proven, is_anti_pattern }
}

#[test]
fn transitions_count_changed_flags() {
    let before = vec![flags("a", false, false), flags("b", true, false), flags("c", false, false)];
    let after = vec![flags("a", true, false), flags("b", true, false), flags("c", false, true), flags("new", true, true)];
    assert_eq!(transitions(&before, &after), 2);
    assert_eq!(transitions(&before, &before), 0);
    assert_eq!(transitions(&Vec::new(), &after), 0);
}

#[test]
fn find_flags_takes_first_match() {
    let rules = vec![flags("x", true, false), flags("x", false, true)];
    assert_eq!(find_flags(&rules, &"x".to_string()), Some((true, false)));
    assert_eq!(find_flags(&rules, &"y".to_string()), None);
}

#[test]
fn distill_output_reports_counts() {
    let before = vec![flags("a", false, false)];
    let after = vec![flags("a", false, true)];
    let out = distill_output(5, 2, &before, &after);
    assert_eq!((out.decayed, out.pruned, out.transitioned), (5, 2, 1));
}
