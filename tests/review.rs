use pacdef_review::groups::{ask_group, get_amount_of_digits_for_number, parse_group_index};
use pacdef_review::keys::{ask_user_action_for_package, print_query};
use pacdef_review::model::{Group, Package, ReviewAction, ReviewIntention};
use pacdef_review::order::{name_le_exec, sort_groups};
use pacdef_review::reviews::ReviewsPerBackend;
use pacdef_review::session::{finish_review, nothing_to_review, strategies_to_execute, ReviewOutcome};
use pacdef_review::step::{assign_group_to_package, get_action_for_package, PackageStep};
use pacdef_review::strategy::{extract_actions, Strategy};

fn pkg(name: &str) -> Package {
    Package { name: name.to_string(), repo: None }
}

fn group(name: &str) -> Group {
    Group { name: name.to_string(), packages: vec![] }
}

#[test]
fn digits_for_number() {
    assert_eq!(get_amount_of_digits_for_number(0), 1);
    assert_eq!(get_amount_of_digits_for_number(3), 1);
    assert_eq!(get_amount_of_digits_for_number(9), 1);
    assert_eq!(get_amount_of_digits_for_number(10), 2);
    assert_eq!(get_amount_of_digits_for_number(12), 2);
    assert_eq!(get_amount_of_digits_for_number(100), 3);
    assert_eq!(get_amount_of_digits_for_number(usize::MAX), usize::MAX.to_string().len());
}

#[test]
fn keys_map_to_intentions() {
    assert_eq!(ask_user_action_for_package('a', true), ReviewIntention::AsDependency);
    assert_eq!(ask_user_action_for_package('A', true), ReviewIntention::AsDependency);
    assert_eq!(ask_user_action_for_package('a', false), ReviewIntention::Invalid);
    assert_eq!(ask_user_action_for_package('d', false), ReviewIntention::Delete);
    assert_eq!(ask_user_action_for_package('G', false), ReviewIntention::AssignGroup);
    assert_eq!(ask_user_action_for_package('i', true), ReviewIntention::Info);
    assert_eq!(ask_user_action_for_package('q', true), ReviewIntention::Quit);
    assert_eq!(ask_user_action_for_package('s', false), ReviewIntention::Skip);
    assert_eq!(ask_user_action_for_package('x', true), ReviewIntention::Invalid);
}

#[test]
fn query_depends_on_capability() {
    assert_eq!(
        print_query(true),
        "assign to (g)roup, (d)elete, (s)kip, (i)nfo, (a)s dependency, (q)uit? "
    );
    assert_eq!(print_query(false), "assign to (g)roup, (d)elete, (s)kip, (i)nfo, (q)uit? ");
}

#[test]
fn group_index_parsing() {
    assert_eq!(parse_group_index("1", 3), Some(1));
    assert_eq!(parse_group_index("0", 3), Some(0));
    assert_eq!(parse_group_index("+2", 3), Some(2));
    assert_eq!(parse_group_index("3", 3), None);
    assert_eq!(parse_group_index("abc", 3), None);
    assert_eq!(parse_group_index("1a", 3), None);
    assert_eq!(parse_group_index("", 3), None);
    assert_eq!(parse_group_index("+", 3), None);
    assert_eq!(parse_group_index("-1", 3), None);
    assert_eq!(parse_group_index("0", 0), None);
    assert_eq!(parse_group_index("11", 12), Some(11));
    assert_eq!(parse_group_index("99999999999999999999999999", usize::MAX), None);
}

#[test]
fn group_reply_is_trimmed() {
    assert_eq!(ask_group(" 1\n", 3), Some(1));
    assert_eq!(ask_group("2\r\n", 3), Some(2));
    assert_eq!(ask_group("  \n", 3), None);
    assert_eq!(ask_group("5\n", 3), None);
}

#[test]
fn package_step_records_decisions() {
    let mut actions = vec![];
    assert_eq!(get_action_for_package(pkg("a"), 'd', false, &mut actions), PackageStep::Next);
    assert_eq!(get_action_for_package(pkg("b"), 'a', true, &mut actions), PackageStep::Next);
    assert_eq!(get_action_for_package(pkg("c"), 's', true, &mut actions), PackageStep::Next);
    assert_eq!(actions, vec![ReviewAction::Delete(pkg("a")), ReviewAction::AsDependency(pkg("b"))]);
    assert_eq!(
        get_action_for_package(pkg("d"), 'g', true, &mut actions),
        PackageStep::ChooseGroup(pkg("d"))
    );
    assert_eq!(get_action_for_package(pkg("d"), 'i', true, &mut actions), PackageStep::Info(pkg("d")));
    assert_eq!(get_action_for_package(pkg("d"), 'z', true, &mut actions), PackageStep::Ask(pkg("d")));
    assert_eq!(get_action_for_package(pkg("d"), 'q', true, &mut actions), PackageStep::Quit);
    assert_eq!(actions.len(), 2);
}

#[test]
fn as_dependency_without_support_reasks() {
    let mut actions = vec![];
    assert_eq!(get_action_for_package(pkg("p"), 'a', false, &mut actions), PackageStep::Ask(pkg("p")));
    assert_eq!(get_action_for_package(pkg("p"), 'A', false, &mut actions), PackageStep::Ask(pkg("p")));
    assert!(actions.is_empty());
}

#[test]
fn invalid_group_choice_reasks() {
    let mut actions = vec![];
    let choice = ask_group("abc\n", 2);
    assert_eq!(assign_group_to_package(pkg("p"), choice, 2, &mut actions), PackageStep::Ask(pkg("p")));
    let choice = ask_group("2\n", 2);
    assert_eq!(assign_group_to_package(pkg("p"), choice, 2, &mut actions), PackageStep::Ask(pkg("p")));
    assert!(actions.is_empty());
    let choice = ask_group("1\n", 2);
    assert_eq!(assign_group_to_package(pkg("p"), choice, 2, &mut actions), PackageStep::Next);
    assert_eq!(actions, vec![ReviewAction::AssignGroup(pkg("p"), 1)]);
}

#[test]
fn extract_actions_partitions_in_order() {
    let actions = vec![
        ReviewAction::Delete(pkg("p1")),
        ReviewAction::AssignGroup(pkg("p2"), 0),
        ReviewAction::AsDependency(pkg("p3")),
        ReviewAction::Delete(pkg("p4")),
    ];
    let mut to_delete = vec![pkg("old")];
    let mut assign_group = vec![];
    let mut as_dependency = vec![];
    extract_actions(actions, &mut to_delete, &mut assign_group, &mut as_dependency);
    assert_eq!(to_delete, vec![pkg("old"), pkg("p1"), pkg("p4")]);
    assert_eq!(assign_group, vec![(pkg("p2"), 0)]);
    assert_eq!(as_dependency, vec![pkg("p3")]);
}

#[test]
fn into_strategies_partitions_and_prunes() {
    let mut reviews = ReviewsPerBackend::new();
    reviews.push((
        "B",
        vec![
            ReviewAction::Delete(pkg("p1")),
            ReviewAction::AssignGroup(pkg("p2"), 0),
            ReviewAction::AsDependency(pkg("p3")),
        ],
    ));
    reviews.push(("E", vec![]));
    assert!(!reviews.nothing_to_do());
    let strategies = reviews.into_strategies();
    assert_eq!(strategies.len(), 1);
    let s = &strategies[0];
    assert_eq!(s.backend, "B");
    assert_eq!(s.to_delete, vec![pkg("p1")]);
    assert_eq!(s.assign_group, vec![(pkg("p2"), 0)]);
    assert_eq!(s.as_dependency, vec![pkg("p3")]);
    assert!(!s.nothing_to_do());
}

#[test]
fn empty_strategy_has_nothing_to_do() {
    let s: Strategy<&str> = Strategy::new("B", vec![], vec![], vec![]);
    assert!(s.nothing_to_do());
    let s: Strategy<&str> = Strategy::new("B", vec![], vec![pkg("x")], vec![]);
    assert!(!s.nothing_to_do());
}

#[test]
fn nothing_to_review_when_all_lists_empty() {
    let todo: Vec<(&str, Vec<Package>)> = vec![("X", vec![]), ("Y", vec![])];
    assert!(nothing_to_review(&todo));
    let none: Vec<(&str, Vec<Package>)> = vec![];
    assert!(nothing_to_review(&none));
    let todo: Vec<(&str, Vec<Package>)> = vec![("X", vec![]), ("Y", vec![pkg("p")])];
    assert!(!nothing_to_review(&todo));
}

#[test]
fn all_skipped_is_nothing_to_do() {
    let mut reviews = ReviewsPerBackend::new();
    let mut actions = vec![];
    assert_eq!(get_action_for_package(pkg("p"), 's', true, &mut actions), PackageStep::Next);
    reviews.push(("X", actions));
    reviews.push(("Y", vec![]));
    assert!(reviews.nothing_to_do());
    assert!(matches!(finish_review(reviews, false), ReviewOutcome::NothingToDo));
}

#[test]
fn quit_executes_nothing() {
    let mut reviews = ReviewsPerBackend::new();
    reviews.push(("X", vec![ReviewAction::Delete(pkg("p"))]));
    let mut actions = vec![];
    assert_eq!(get_action_for_package(pkg("q"), 'q', true, &mut actions), PackageStep::Quit);
    let outcome = finish_review(reviews, true);
    assert!(matches!(outcome, ReviewOutcome::Aborted));
    assert!(strategies_to_execute(outcome, true).is_empty());
}

#[test]
fn end_to_end_two_backends() {
    let mut x_actions = vec![];
    get_action_for_package(pkg("px"), 'd', true, &mut x_actions);
    let mut y_actions = vec![];
    get_action_for_package(pkg("py"), 's', true, &mut y_actions);

    let build = |x: Vec<ReviewAction>, y: Vec<ReviewAction>| {
        let mut reviews = ReviewsPerBackend::new();
        reviews.push(("X", x));
        reviews.push(("Y", y));
        finish_review(reviews, false)
    };

    let outcome = build(x_actions.clone(), y_actions.clone());
    match &outcome {
        ReviewOutcome::Confirm(s) => {
            assert_eq!(s.len(), 1);
            assert_eq!(s[0].backend, "X");
            assert_eq!(s[0].to_delete, vec![pkg("px")]);
        }
        _ => panic!("expected strategies to confirm"),
    }
    assert!(strategies_to_execute(outcome, false).is_empty());

    let executed = strategies_to_execute(build(x_actions, y_actions), true);
    assert_eq!(executed.len(), 1);
    assert_eq!(executed[0].backend, "X");
    assert_eq!(executed[0].to_delete, vec![pkg("px")]);
}

#[test]
fn groups_sorted_by_name() {
    let sorted = sort_groups(vec![group("web"), group("base"), group("dev"), group("Base")]);
    let names: Vec<&str> = sorted.iter().map(|g| g.name.as_str()).collect();
    assert_eq!(names, vec!["Base", "base", "dev", "web"]);
    assert!(sort_groups(vec![]).is_empty());
}

#[test]
fn name_order() {
    assert!(name_le_exec("abc", "abd"));
    assert!(name_le_exec("ab", "abc"));
    assert!(!name_le_exec("abc", "ab"));
    assert!(name_le_exec("same", "same"));
    assert!(name_le_exec("", "x"));
    assert!(!name_le_exec("b", "a"));
}
