use focused_window_source::active_window_manager::FocusedWindow;
use focused_window_source::reorder::{apply_swap, OrderSwap, SceneItem};
use focused_window_source::source::{activate, FocusedWindowSource, MatchMethod};

fn layer(id: u64, order: i32, descriptor: &str) -> Option<SceneItem> {
    Some(SceneItem { id, order, descriptor: descriptor.to_string() })
}

fn enabled(method: MatchMethod) -> FocusedWindowSource {
    let mut instance = FocusedWindowSource::new();
    instance.match_method = method;
    activate(&mut instance);
    instance
}

fn focus(title: &str, process_name: &str) -> Option<FocusedWindow> {
    Some(FocusedWindow::new(title.to_string(), process_name.to_string()))
}

fn orders(scene: &Option<Vec<Option<SceneItem>>>) -> Vec<Option<i32>> {
    match scene {
        Some(items) => items.iter().map(|slot| slot.as_ref().map(|item| item.order)).collect(),
        None => Vec::new(),
    }
}

#[test]
fn focused_layer_takes_the_top_order() {
    let instance = enabled(MatchMethod::Title);
    let mut scene = Some(vec![layer(1, 5, "Chrome"), layer(2, 10, "Editor"), layer(3, 7, "Term")]);
    let done = instance.reorder(&focus("Chrome - Profile 1", "chrome.exe"), &mut scene);
    assert_eq!(
        done,
        Some(OrderSwap { promoted: 0, demoted: 1, promoted_order: 10, demoted_order: 5 })
    );
    assert_eq!(orders(&scene), vec![Some(10), Some(5), Some(7)]);
}

#[test]
fn plan_leaves_the_scene_alone() {
    let instance = enabled(MatchMethod::Title);
    let scene = Some(vec![layer(1, 5, "Chrome"), layer(2, 10, "Editor"), layer(3, 7, "Term")]);
    let plan = instance.plan_reorder(&focus("Chrome", "chrome.exe"), &scene);
    assert_eq!(
        plan,
        Some(OrderSwap { promoted: 0, demoted: 1, promoted_order: 10, demoted_order: 5 })
    );
    assert_eq!(orders(&scene), vec![Some(5), Some(10), Some(7)]);
}

#[test]
fn second_run_changes_nothing() {
    let instance = enabled(MatchMethod::Title);
    let focused = focus("Chrome", "chrome.exe");
    let mut scene = Some(vec![layer(1, 5, "Chrome"), layer(2, 10, "Editor"), layer(3, 7, "Term")]);
    instance.reorder(&focused, &mut scene);
    let after_first = orders(&scene);
    let again = instance.reorder(&focused, &mut scene);
    assert_eq!(again, None);
    assert_eq!(orders(&scene), after_first);
}

#[test]
fn matching_layer_on_top_stays() {
    let instance = enabled(MatchMethod::Title);
    let mut scene = Some(vec![layer(1, 5, "Editor"), layer(2, 10, "Chrome"), layer(3, 7, "Term")]);
    let done = instance.reorder(&focus("Chrome", "chrome.exe"), &mut scene);
    assert_eq!(done, None);
    assert_eq!(orders(&scene), vec![Some(5), Some(10), Some(7)]);
}

#[test]
fn no_focused_window_no_change() {
    let instance = enabled(MatchMethod::Title);
    let mut scene = Some(vec![layer(1, 5, "Chrome"), layer(2, 10, "Editor")]);
    assert_eq!(instance.reorder(&None, &mut scene), None);
    assert_eq!(orders(&scene), vec![Some(5), Some(10)]);
}

#[test]
fn disabled_instance_no_change() {
    let mut instance = FocusedWindowSource::new();
    instance.match_method = MatchMethod::Title;
    let mut scene = Some(vec![layer(1, 5, "Chrome"), layer(2, 10, "Editor")]);
    assert_eq!(instance.reorder(&focus("Chrome", "chrome.exe"), &mut scene), None);
    assert_eq!(orders(&scene), vec![Some(5), Some(10)]);
}

#[test]
fn unresolved_group_no_change() {
    let instance = enabled(MatchMethod::Title);
    let mut scene: Option<Vec<Option<SceneItem>>> = None;
    assert_eq!(instance.reorder(&focus("Chrome", "chrome.exe"), &mut scene), None);
    assert!(scene.is_none());
}

#[test]
fn unresolved_layers_are_skipped() {
    let instance = enabled(MatchMethod::Title);
    let mut scene = Some(vec![None, layer(1, 5, "Chrome"), None, layer(2, 10, "Editor"), None]);
    let done = instance.reorder(&focus("Chrome", "chrome.exe"), &mut scene);
    assert_eq!(
        done,
        Some(OrderSwap { promoted: 1, demoted: 3, promoted_order: 10, demoted_order: 5 })
    );
    assert_eq!(orders(&scene), vec![None, Some(10), None, Some(5), None]);
}

#[test]
fn nothing_resolved_no_change() {
    let instance = enabled(MatchMethod::Title);
    let mut scene: Option<Vec<Option<SceneItem>>> = Some(vec![None, None]);
    assert_eq!(instance.reorder(&focus("Chrome", "chrome.exe"), &mut scene), None);
    let mut empty: Option<Vec<Option<SceneItem>>> = Some(Vec::new());
    assert_eq!(instance.reorder(&focus("Chrome", "chrome.exe"), &mut empty), None);
}

#[test]
fn no_matching_layer_no_change() {
    let instance = enabled(MatchMethod::Title);
    let mut scene = Some(vec![layer(1, 5, "Editor"), layer(2, 10, "Term")]);
    assert_eq!(instance.reorder(&focus("Chrome", "chrome.exe"), &mut scene), None);
    assert_eq!(orders(&scene), vec![Some(5), Some(10)]);
}

#[test]
fn first_matching_layer_is_promoted() {
    let instance = enabled(MatchMethod::Title);
    let mut scene = Some(vec![
        layer(1, 1, "Chrome"),
        layer(2, 2, "Chrome - Profile 1"),
        layer(3, 9, "Editor"),
    ]);
    let done = instance.reorder(&focus("Chrome - Profile 1", "chrome.exe"), &mut scene);
    assert_eq!(
        done,
        Some(OrderSwap { promoted: 0, demoted: 2, promoted_order: 9, demoted_order: 1 })
    );
    assert_eq!(orders(&scene), vec![Some(9), Some(2), Some(1)]);
}

#[test]
fn later_layer_wins_a_tie_for_the_top() {
    let instance = enabled(MatchMethod::Title);
    let scene = Some(vec![layer(1, 3, "Chrome"), layer(2, 8, "Editor"), layer(3, 8, "Term")]);
    let plan = instance.plan_reorder(&focus("Chrome", "chrome.exe"), &scene);
    assert_eq!(
        plan,
        Some(OrderSwap { promoted: 0, demoted: 2, promoted_order: 8, demoted_order: 3 })
    );
}

#[test]
fn tie_with_the_matching_layer_swaps_equal_orders() {
    let instance = enabled(MatchMethod::Title);
    let mut scene = Some(vec![layer(1, 8, "Chrome"), layer(2, 8, "Editor")]);
    let done = instance.reorder(&focus("Chrome", "chrome.exe"), &mut scene);
    assert_eq!(
        done,
        Some(OrderSwap { promoted: 0, demoted: 1, promoted_order: 8, demoted_order: 8 })
    );
    assert_eq!(orders(&scene), vec![Some(8), Some(8)]);
}

#[test]
fn lowest_possible_order_can_be_on_top() {
    let instance = enabled(MatchMethod::Title);
    let scene = Some(vec![layer(1, i32::MIN, "Editor"), layer(2, i32::MIN, "Chrome")]);
    assert_eq!(instance.plan_reorder(&focus("Chrome", "chrome.exe"), &scene), None);
    let other = Some(vec![layer(1, i32::MIN, "Chrome"), layer(2, i32::MIN, "Editor")]);
    assert_eq!(
        instance.plan_reorder(&focus("Chrome", "chrome.exe"), &other),
        Some(OrderSwap {
            promoted: 0,
            demoted: 1,
            promoted_order: i32::MIN,
            demoted_order: i32::MIN
        })
    );
}

#[test]
fn same_layer_under_two_names_is_not_swapped_with_itself() {
    let instance = enabled(MatchMethod::Title);
    let mut scene = Some(vec![layer(7, 10, "Chrome"), layer(3, 4, "Editor"), layer(7, 10, "Chrome")]);
    assert_eq!(instance.reorder(&focus("Chrome", "chrome.exe"), &mut scene), None);
    assert_eq!(orders(&scene), vec![Some(10), Some(4), Some(10)]);
}

#[test]
fn every_slot_of_a_swapped_layer_follows() {
    let instance = enabled(MatchMethod::Title);
    let mut scene = Some(vec![
        layer(7, 2, "Chrome"),
        layer(3, 9, "Editor"),
        layer(7, 2, "Chrome"),
        layer(5, 4, "Term"),
    ]);
    let done = instance.reorder(&focus("Chrome", "chrome.exe"), &mut scene);
    assert_eq!(
        done,
        Some(OrderSwap { promoted: 0, demoted: 1, promoted_order: 9, demoted_order: 2 })
    );
    assert_eq!(orders(&scene), vec![Some(9), Some(2), Some(9), Some(4)]);
}

#[test]
fn apply_swap_sets_both_orders() {
    let mut items = vec![layer(1, 5, "a"), None, layer(2, 10, "b"), layer(3, 7, "c")];
    apply_swap(
        &mut items,
        OrderSwap { promoted: 0, demoted: 2, promoted_order: 10, demoted_order: 5 },
    );
    let got: Vec<Option<i32>> = items.iter().map(|s| s.as_ref().map(|i| i.order)).collect();
    assert_eq!(got, vec![Some(10), None, Some(5), Some(7)]);
    let ids: Vec<Option<u64>> = items.iter().map(|s| s.as_ref().map(|i| i.id)).collect();
    assert_eq!(ids, vec![Some(1), None, Some(2), Some(3)]);
    assert_eq!(items[3].as_ref().map(|i| i.descriptor.as_str()), Some("c"));
}

#[test]
fn application_method_picks_by_executable() {
    let instance = enabled(MatchMethod::Application);
    let mut scene = Some(vec![layer(1, 1, "Chrome"), layer(2, 2, "chrome.exe"), layer(3, 3, "x")]);
    let done = instance.reorder(&focus("Chrome", "chrome.exe"), &mut scene);
    assert_eq!(
        done,
        Some(OrderSwap { promoted: 1, demoted: 2, promoted_order: 3, demoted_order: 2 })
    );
    assert_eq!(orders(&scene), vec![Some(1), Some(3), Some(2)]);
}

#[test]
fn strict_method_ignores_a_title_match_alone() {
    let instance = enabled(MatchMethod::Strict);
    let mut scene = Some(vec![layer(1, 1, "Chrome"), layer(2, 2, "Editor")]);
    assert_eq!(instance.reorder(&focus("Chrome", "firefox"), &mut scene), None);
    assert_eq!(orders(&scene), vec![Some(1), Some(2)]);
    let done = instance.reorder(&focus("chrome", "chrome.exe"), &mut scene);
    assert_eq!(done, None);
    let mut lower = Some(vec![layer(1, 1, "chrome"), layer(2, 2, "Editor")]);
    let done = instance.reorder(&focus("chrome", "chrome.exe"), &mut lower);
    assert_eq!(
        done,
        Some(OrderSwap { promoted: 0, demoted: 1, promoted_order: 2, demoted_order: 1 })
    );
}

#[test]
fn layer_copy_is_equal_in_every_field() {
    let item = SceneItem { id: 9, order: -3, descriptor: "Chrome".to_string() };
    let copy = item.clone();
    assert_eq!(copy.id, 9);
    assert_eq!(copy.order, -3);
    assert_eq!(copy.descriptor, "Chrome");
}
