use tailwind_css::arbitrary::TailwindArbitrary;
use tailwind_css::cascade::cascade;
use tailwind_css::utility::{dispatch, share_identifier, ResolvedUtility};

fn classes(utilities: &[ResolvedUtility]) -> Vec<String> {
    utilities.iter().map(|utility| utility.render()).collect()
}

fn resolve_all(names: &[&str]) -> Vec<ResolvedUtility> {
    let absent = TailwindArbitrary::new("");
    names
        .iter()
        .map(|name| {
            let tokens: Vec<&str> = name.split('-').collect();
            dispatch(&tokens, &absent).unwrap()
        })
        .collect()
}

#[test]
fn collision_is_symmetric_and_last_wins() {
    let a = resolve_all(&["scroll-p-4"]).remove(0);
    let b = resolve_all(&["scroll-pl-8"]).remove(0);
    assert!(a.get_collisions().contains(&"scroll-padding-left".to_string()));
    assert!(b.get_collisions().contains(&"scroll-padding-left".to_string()));
    assert!(a.collides_with(&b));
    assert!(b.collides_with(&a));
    assert_eq!(classes(&cascade(&[a.clone(), b.clone()])), vec!["scroll-pl-8"]);
    assert_eq!(classes(&cascade(&[b, a])), vec!["scroll-p-4"]);
}

#[test]
fn same_family_same_id() {
    let utilities = resolve_all(&["left-4", "left-8"]);
    assert!(utilities[0].collides_with(&utilities[1]));
    assert_eq!(classes(&cascade(&utilities)), vec!["left-8"]);
    let utilities = resolve_all(&["left-8", "left-4"]);
    assert_eq!(classes(&cascade(&utilities)), vec!["left-4"]);
    let utilities = resolve_all(&["object-top", "object-left-bottom"]);
    assert_eq!(classes(&cascade(&utilities)), vec!["object-left-bottom"]);
}

#[test]
fn different_families_do_not_collide() {
    let utilities = resolve_all(&["left-4", "object-top", "scroll-p-4"]);
    for (i, a) in utilities.iter().enumerate() {
        for (j, b) in utilities.iter().enumerate() {
            assert_eq!(a.collides_with(b), i == j);
        }
    }
    assert_eq!(classes(&cascade(&utilities)), vec!["left-4", "object-top", "scroll-p-4"]);
}

#[test]
fn axes_collide_where_they_overlap() {
    let names =
        ["scroll-p-1", "scroll-px-1", "scroll-py-1", "scroll-pt-1", "scroll-pr-1", "scroll-pb-1", "scroll-pl-1"];
    let overlap = [
        [true, true, true, true, true, true, true],
        [true, true, false, false, true, false, true],
        [true, false, true, true, false, true, false],
        [true, false, true, true, false, false, false],
        [true, true, false, false, true, false, false],
        [true, false, true, false, false, true, false],
        [true, true, false, false, false, false, true],
    ];
    let utilities = resolve_all(&names);
    for i in 0..7 {
        for j in 0..7 {
            assert_eq!(utilities[i].collides_with(&utilities[j]), overlap[i][j]);
        }
    }
}

#[test]
fn cascade_keeps_declaration_order() {
    let utilities = resolve_all(&["scroll-pl-1", "left-2", "scroll-pt-3", "object-top", "scroll-pr-4"]);
    assert_eq!(
        classes(&cascade(&utilities)),
        vec!["scroll-pl-1", "left-2", "scroll-pt-3", "object-top", "scroll-pr-4"]
    );
}

#[test]
fn cascade_replaces_every_earlier_collision() {
    let utilities = resolve_all(&["scroll-pl-1", "scroll-pt-2", "left-3", "scroll-p-4"]);
    assert_eq!(classes(&cascade(&utilities)), vec!["left-3", "scroll-p-4"]);
    let utilities = resolve_all(&["scroll-p-4", "scroll-pl-1"]);
    assert_eq!(classes(&cascade(&utilities)), vec!["scroll-pl-1"]);
    let utilities = resolve_all(&["scroll-pl-1", "scroll-px-2", "scroll-pt-3"]);
    assert_eq!(classes(&cascade(&utilities)), vec!["scroll-px-2", "scroll-pt-3"]);
    let utilities = resolve_all(&["scroll-pl-1", "scroll-p-2", "scroll-pt-3"]);
    assert_eq!(classes(&cascade(&utilities)), vec!["scroll-pt-3"]);
    let utilities = resolve_all(&["left-1", "left-2", "left-3", "left-1"]);
    assert_eq!(classes(&cascade(&utilities)), vec!["left-1"]);
}

#[test]
fn cascade_of_nothing_and_of_one() {
    assert!(cascade(&[]).is_empty());
    let utilities = resolve_all(&["left-4"]);
    assert_eq!(classes(&cascade(&utilities)), vec!["left-4"]);
}

#[test]
fn share_identifier_on_lists() {
    let a = vec!["x".to_string(), "y".to_string()];
    let b = vec!["z".to_string(), "y".to_string()];
    let c = vec!["z".to_string()];
    let none: Vec<String> = Vec::new();
    assert!(share_identifier(&a, &b));
    assert!(share_identifier(&b, &a));
    assert!(!share_identifier(&a, &c));
    assert!(share_identifier(&b, &c));
    assert!(!share_identifier(&a, &none));
    assert!(!share_identifier(&none, &none));
}

#[test]
fn utility_clone_renders_the_same() {
    for utility in resolve_all(&["left-4", "object-top", "scroll-p-4"]) {
        assert_eq!(utility.clone().render(), utility.render());
        assert_eq!(utility.clone().get_collisions(), utility.get_collisions());
    }
}
