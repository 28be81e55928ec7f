use bevy_immediate::access::{merged_mutability, AccessKey, AccessRequests};
use bevy_immediate::change::ChangeDetector;
use bevy_immediate::ui::anchored::{Anchor, Direction};
use bevy_immediate::ui::tooltip::{TooltipGlobalSettings, TooltipGlobalState};
use bevy_immediate::ui::widgets::{
    activated, checked, checked_if_eq_overrides, click_activates, interactions_disabled,
    interactions_enabled, key_activates, radio_click_checks, radio_key_checks, resize_factors,
    selected_action, sync_component, value_sync, ActivatedQuery, CheckedSync, Selectable,
    SyncAction, ValueSync,
};

#[test]
fn anchor_signs() {
    assert_eq!(Anchor::Start.sign(), -1);
    assert_eq!(Anchor::Middle.sign(), 0);
    assert_eq!(Anchor::End.sign(), 1);
    let d = Direction { x: Anchor::Start, y: Anchor::End };
    assert_eq!(d.signs(), Direction { x: -1, y: 1 });
}

#[test]
fn direction_map_applies_to_both_axes() {
    let d = Direction { x: 2i32, y: 5i32 };
    let m = d.map(|v: &i32| (*v as i64) * 10);
    assert_eq!(m, Direction { x: 20i64, y: 50i64 });
}

#[test]
fn tooltip_waits_then_shows() {
    let s = TooltipGlobalSettings::standard();
    assert_eq!(s.tooltip_delay, 500_000_000);
    let mut t = TooltipGlobalState::new();
    assert!(!t.show_tooltip());
    t.pointer_over(1_000);
    assert_eq!(t, TooltipGlobalState::Waiting { since: 1_000 });
    t.update(1_000 + 500_000_000, &s);
    assert!(!t.show_tooltip());
    t.update(1_000 + 500_000_001, &s);
    assert!(t.show_tooltip());
    assert!(t.shows_for(true));
    assert!(!t.shows_for(false));
}

#[test]
fn tooltip_moves_between_sources_without_delay() {
    let s = TooltipGlobalSettings::standard();
    let mut t = TooltipGlobalState::Tooltip;
    t.pointer_out(10);
    assert_eq!(t, TooltipGlobalState::Reset { since: 10 });
    t.update(20, &s);
    assert_eq!(t, TooltipGlobalState::Reset { since: 10 });
    t.pointer_over(30);
    assert_eq!(t, TooltipGlobalState::Tooltip);
}

#[test]
fn tooltip_reset_expires_and_early_leave_cancels() {
    let s = TooltipGlobalSettings { tooltip_delay: 5, reset_delay: 7 };
    let mut t = TooltipGlobalState::Reset { since: 10 };
    t.update(17, &s);
    assert_eq!(t, TooltipGlobalState::Reset { since: 10 });
    t.update(18, &s);
    assert_eq!(t, TooltipGlobalState::Nothing);
    t.pointer_out(20);
    assert_eq!(t, TooltipGlobalState::Nothing);
    t.pointer_over(20);
    t.pointer_over(25);
    assert_eq!(t, TooltipGlobalState::Waiting { since: 20 });
    t.pointer_out(26);
    assert_eq!(t, TooltipGlobalState::Nothing);
    // time before the start of waiting never counts as waited
    let mut w = TooltipGlobalState::Waiting { since: 100 };
    w.update(50, &s);
    assert_eq!(w, TooltipGlobalState::Waiting { since: 100 });
    let mut shown = TooltipGlobalState::Tooltip;
    shown.update(1_000_000, &s);
    assert_eq!(shown, TooltipGlobalState::Tooltip);
}

#[test]
fn component_sync_actions() {
    assert_eq!(sync_component(None), SyncAction::Insert);
    assert_eq!(sync_component(Some(true)), SyncAction::Unchanged);
    assert_eq!(sync_component(Some(false)), SyncAction::Update);
    assert_eq!(selected_action(None, true), SyncAction::Insert);
    assert_eq!(selected_action(Some(Selectable { selected: true }), true), SyncAction::Unchanged);
    assert_eq!(selected_action(Some(Selectable { selected: false }), true), SyncAction::Update);
}

#[test]
fn interaction_disabled_updates() {
    assert_eq!(interactions_disabled(None, true), Some(true));
    assert_eq!(interactions_disabled(None, false), Some(false));
    assert_eq!(interactions_disabled(Some(true), true), None);
    assert_eq!(interactions_disabled(Some(false), true), Some(true));
    assert_eq!(interactions_disabled(Some(true), false), Some(false));
    assert_eq!(interactions_enabled(Some(true), false), None);
    assert_eq!(interactions_enabled(Some(true), true), Some(false));
    for present in [None, Some(true), Some(false)] {
        for e in [true, false] {
            assert_eq!(interactions_enabled(present, e), interactions_disabled(present, !e));
        }
    }
}

#[test]
fn checked_initializes_untracked_entities() {
    let mut v = true;
    assert_eq!(checked(None, &mut v), CheckedSync::Initialize(true));
    assert!(v);
}

#[test]
fn checked_takes_reported_change() {
    let mut v = false;
    assert_eq!(checked(Some((Some(true), false)), &mut v), CheckedSync::Apply(true));
    assert!(v);
}

#[test]
fn checked_ignores_echo_and_pushes_value() {
    let mut v = true;
    assert_eq!(checked(Some((Some(false), false)), &mut v), CheckedSync::Apply(true));
    assert!(v);
    let mut w = false;
    assert_eq!(checked(Some((None, false)), &mut w), CheckedSync::Unchanged);
    assert!(!w);
    let mut x = false;
    assert_eq!(checked(Some((None, true)), &mut x), CheckedSync::Apply(false));
}

#[test]
fn checked_if_eq_only_overrides_on_becoming_checked() {
    assert!(checked_if_eq_overrides(false, true));
    assert!(!checked_if_eq_overrides(true, false));
    assert!(!checked_if_eq_overrides(true, true));
    assert!(!checked_if_eq_overrides(false, false));
}

#[test]
fn value_widget_sync() {
    assert_eq!(value_sync(false, Some(true), true), ValueSync::Initialize);
    assert_eq!(value_sync(true, Some(true), false), ValueSync::TakeReported);
    assert_eq!(value_sync(true, Some(false), true), ValueSync::Push);
    assert_eq!(value_sync(true, None, true), ValueSync::Push);
    assert_eq!(value_sync(true, None, false), ValueSync::Unchanged);
}

#[test]
fn activation_decisions() {
    assert!(key_activates(false, true, false, true));
    assert!(!key_activates(true, true, false, true));
    assert!(!key_activates(false, false, false, true));
    assert!(!key_activates(false, true, true, true));
    assert!(!key_activates(false, true, false, false));
    assert!(click_activates(true, false));
    assert!(!click_activates(false, false));
    assert!(!click_activates(true, true));
    assert_eq!(activated(true, true), ActivatedQuery::Known(true));
    assert_eq!(activated(true, false), ActivatedQuery::Known(false));
    assert_eq!(activated(false, true), ActivatedQuery::StartTracking);
}

#[test]
fn radio_button_decisions() {
    assert!(radio_key_checks(false, true, false, true));
    assert!(!radio_key_checks(true, true, false, true));
    assert!(!radio_key_checks(false, true, true, true));
    assert!(radio_click_checks(false));
    assert!(!radio_click_checks(true));
}

#[test]
fn resize_handle_factors() {
    assert_eq!(resize_factors(-1), (1, -1));
    assert_eq!(resize_factors(1), (0, 1));
    assert_eq!(resize_factors(0), (0, 0));
    assert_eq!(resize_factors(-128), (128, -128));
}

#[test]
fn change_detector_sees_changes_of_this_run() {
    let d = ChangeDetector { last_run: 5 };
    assert!(d.has_changed(true, 1));
    assert!(d.has_changed(false, 5));
    assert!(!d.has_changed(false, 6));
}

#[test]
fn access_mutability_accumulates() {
    assert!(!merged_mutability(None, false));
    assert!(merged_mutability(None, true));
    assert!(merged_mutability(Some(true), false));
    assert!(merged_mutability(Some(false), true));
    assert!(!merged_mutability(Some(false), false));
}

struct SomeResource;
struct OtherResource;

#[test]
fn access_requests_record_each_key_once() {
    let mut r = AccessRequests::new();
    let res = AccessKey::Resource(std::any::TypeId::of::<SomeResource>());
    let other = AccessKey::Resource(std::any::TypeId::of::<OtherResource>());
    assert_eq!(r.mutability(AccessKey::Component(3)), None);
    r.request(AccessKey::Component(3), false);
    assert_eq!(r.mutability(AccessKey::Component(3)), Some(false));
    r.request(AccessKey::Component(3), true);
    r.request(AccessKey::Component(3), false);
    assert_eq!(r.mutability(AccessKey::Component(3)), Some(true));
    r.request(AccessKey::Component(4), false);
    assert_eq!(r.mutability(AccessKey::Component(4)), Some(false));
    // components and resources are kept apart
    assert_eq!(r.mutability(res), None);
    r.request(res, false);
    r.request(res, false);
    assert_eq!(r.mutability(res), Some(false));
    assert_eq!(r.mutability(other), None);
    r.request(other, true);
    assert_eq!(r.mutability(other), Some(true));
    assert_eq!(r.mutability(AccessKey::Component(3)), Some(true));
}

#[test]
fn direction_map_identity_and_composition() {
    let d = Direction { x: 2i32, y: -5i32 };
    assert_eq!(d.map(|v: &i32| *v), d);
    let f = |v: &i32| (*v as i64) + 1;
    let g = |v: &i64| *v * 3;
    assert_eq!(d.map(f).map(g), d.map(|v: &i32| g(&f(v))));
    assert_eq!(d.map(f).map(g), Direction { x: 9i64, y: -12i64 });
}
