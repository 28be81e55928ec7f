//! Decisions of the immediate mode widget extensions: which components to insert, update or
//! remove so that entities match the values that UI code passes.
use vstd::prelude::*;

verus! {

/// What to do with a component that should hold a given value.
#[derive(Clone, Copy, Debug, PartialEq, Eq, Structural)]
pub enum SyncAction {
    /// The component holds the value already.
    Unchanged,
    /// The component is present and is overwritten with the value.
    Update,
    /// The component is absent and is inserted with the value.
    Insert,
}

/// Decide how to make a component hold a value. `current_equal` is `None` when the component
/// is absent, and otherwise whether it already holds the value. Unchanged values are not
/// written, so that change detection does not fire.
pub fn sync_component(current_equal: Option<bool>) -> (r: SyncAction)
    ensures
        r == (match current_equal {
            None => SyncAction::Insert,
            Some(true) => SyncAction::Unchanged,
            Some(false) => SyncAction::Update,
        }),
{
    match current_equal {
        None => SyncAction::Insert,
        Some(true) => SyncAction::Unchanged,
        Some(false) => SyncAction::Update,
    }
}

/// Marks component as being selectable
#[derive(Clone, Copy, Debug, PartialEq, Eq, Structural)]
pub struct Selectable {
    /// Is selectable component selected
    pub selected: bool,
}

/// Decide how to make the `Selectable` component of an entity hold `selected`.
pub fn selected_action(current: Option<Selectable>, selected: bool) -> (r: SyncAction)
    ensures
        r == (match current {
            None => SyncAction::Insert,
            Some(c) => if c.selected == selected {
                SyncAction::Unchanged
            } else {
                SyncAction::Update
            },
        }),
{
    match current {
        None => sync_component(None),
        Some(c) => sync_component(Some(c.selected == selected)),
    }
}

/// Change to the `InteractionDisabled` marker: `Some(true)` inserts it, `Some(false)` removes
/// it, `None` leaves it. `present` is whether the entity has it, when the entity can be read.
pub open spec fn spec_disabled_update(present: Option<bool>, disabled: bool) -> Option<bool> {
    if present == Some(disabled) {
        None
    } else {
        Some(disabled)
    }
}

/// Set entity interactions disabled: decide the change to the `InteractionDisabled` marker.
pub fn interactions_disabled(present: Option<bool>, disabled: bool) -> (r: Option<bool>)
    ensures
        r == spec_disabled_update(present, disabled),
{
    match present {
        Some(p) => if p == disabled {
            None
        } else {
            Some(disabled)
        },
        None => Some(disabled),
    }
}

/// Set entity interactions enabled: the same as disabling with the negated value.
pub fn interactions_enabled(present: Option<bool>, enabled: bool) -> (r: Option<bool>)
    ensures
        r == spec_disabled_update(present, !enabled),
{
    interactions_disabled(present, !enabled)
}

/// Outcome of synchronising a checkable entity with a `bool` value.
#[derive(Clone, Copy, Debug, PartialEq, Eq, Structural)]
pub enum CheckedSync {
    /// The entity does not track value changes yet: start tracking and set `Checked` to the
    /// value.
    Initialize(bool),
    /// Insert `Checked` (`true`) or remove it (`false`).
    Apply(bool),
    /// `Checked` already matches.
    Unchanged,
}

/// The value after synchronising a checkable entity.
///
/// `observed` is `None` when the entity does not track value changes yet, and otherwise the
/// change that the widget reported since the last frame, taken, and whether `Checked` is
/// present. A reported change that differs from the present state wins; otherwise the value
/// wins.
pub open spec fn spec_checked_value(observed: Option<(Option<bool>, bool)>, value: bool) -> bool {
    match observed {
        Some((Some(new_value), last)) => if new_value != last {
            new_value
        } else {
            value
        },
        _ => value,
    }
}

/// The action of synchronising a checkable entity; see [`spec_checked_value`].
pub open spec fn spec_checked_sync(observed: Option<(Option<bool>, bool)>, value: bool) -> CheckedSync {
    match observed {
        None => CheckedSync::Initialize(value),
        Some((new_value, last)) => {
            let v = spec_checked_value(observed, value);
            if v != last {
                CheckedSync::Apply(v)
            } else {
                CheckedSync::Unchanged
            }
        },
    }
}

/// Whether `Checked` is present once the action is carried out, given whether it was.
pub open spec fn checked_after(was: bool, action: CheckedSync) -> bool {
    match action {
        CheckedSync::Initialize(v) => v,
        CheckedSync::Apply(v) => v,
        CheckedSync::Unchanged => was,
    }
}

/// Synchronise checked value: updates `value` with a change reported by the widget and decides
/// the change to the `Checked` marker.
pub fn checked(observed: Option<(Option<bool>, bool)>, value: &mut bool) -> (r: CheckedSync)
    ensures
        *final(value) == spec_checked_value(observed, *old(value)),
        r == spec_checked_sync(observed, *old(value)),
{
    match observed {
        None => CheckedSync::Initialize(*value),
        Some((new_value, last_value)) => {
            if let Some(new_value) = new_value {
                if new_value != last_value {
                    *value = new_value;
                    return CheckedSync::Apply(new_value);
                }
            }
            if *value != last_value {
                CheckedSync::Apply(*value)
            } else {
                CheckedSync::Unchanged
            }
        },
    }
}

/// After synchronising, the `Checked` marker matches the value.
pub proof fn law_checked_matches_value(observed: Option<(Option<bool>, bool)>, value: bool)
    ensures
        checked_after(
            match observed {
                Some((_, last)) => last,
                None => false,
            },
            spec_checked_sync(observed, value),
        ) == spec_checked_value(observed, value),
{
}

/// A reported change equal to the present state is ignored, which avoids update loops.
pub proof fn law_checked_ignores_echo(last: bool, value: bool)
    ensures
        spec_checked_value(Some((Some(last), last)), value) == value,
{
}

/// For `checked_if_eq`: should `current` be overwritten with `this`. `before` is whether
/// `current` equaled `this`, `after` whether the entity is checked after synchronising. Only
/// an entity that becomes checked overrides the value; becoming unchecked changes nothing.
pub fn checked_if_eq_overrides(before: bool, after: bool) -> (r: bool)
    ensures
        r == (after && !before),
{
    after != before && after
}

/// Outcome of synchronising a value widget, such as a slider, with a value.
#[derive(Clone, Copy, Debug, PartialEq, Eq, Structural)]
pub enum ValueSync {
    /// The widget does not track value changes yet: start tracking and give it the value.
    Initialize,
    /// Take the change that the widget reported into the value, and give it back to the widget.
    TakeReported,
    /// Give the value to the widget.
    Push,
    /// The widget holds the value already.
    Unchanged,
}

/// Decide how to synchronise a value widget. `initialized` is whether the widget tracks value
/// changes and holds a value; `reported_differs` is `None` when the widget reported no change
/// since the last frame, and otherwise whether the reported value differs from the value it
/// holds; `value_differs` is whether the caller's value differs from the value it holds. A
/// reported change that differs from what the widget holds wins over the caller's value.
pub fn value_sync(initialized: bool, reported_differs: Option<bool>, value_differs: bool) -> (r:
    ValueSync)
    ensures
        r == (if !initialized {
            ValueSync::Initialize
        } else if reported_differs == Some(true) {
            ValueSync::TakeReported
        } else if value_differs {
            ValueSync::Push
        } else {
            ValueSync::Unchanged
        }),
{
    if !initialized {
        return ValueSync::Initialize;
    }
    if let Some(true) = reported_differs {
        return ValueSync::TakeReported;
    }
    if value_differs {
        ValueSync::Push
    } else {
        ValueSync::Unchanged
    }
}

/// Does a key press activate a focused button: it is not disabled, the press is new and not a
/// repeat, and the key is Enter or Space.
pub fn key_activates(disabled: bool, pressed: bool, repeat: bool, enter_or_space: bool) -> (r: bool)
    ensures
        r == (!disabled && pressed && !repeat && enter_or_space),
{
    !disabled && !repeat && pressed && enter_or_space
}

/// Does a pointer click activate a button: it is pressed and not disabled.
pub fn click_activates(pressed: bool, disabled: bool) -> (r: bool)
    ensures
        r == (pressed && !disabled),
{
    pressed && !disabled
}

/// Result of asking whether an entity was activated this frame.
#[derive(Clone, Copy, Debug, PartialEq, Eq, Structural)]
pub enum ActivatedQuery {
    /// The entity tracks activation; it was activated or not.
    Known(bool),
    /// The entity does not track activation yet: insert the tracker, report not activated.
    StartTracking,
}

/// Was the entity activated: `tracking` is whether it has the tracker component, `in_activated`
/// whether it is among the entities activated this frame.
pub fn activated(tracking: bool, in_activated: bool) -> (r: ActivatedQuery)
    ensures
        r == (if tracking {
            ActivatedQuery::Known(in_activated)
        } else {
            ActivatedQuery::StartTracking
        }),
{
    if tracking {
        ActivatedQuery::Known(in_activated)
    } else {
        ActivatedQuery::StartTracking
    }
}

/// Does a key press on a focused radio button check it: it is not checked yet, and the press
/// is a new press of Enter or Space.
pub fn radio_key_checks(checked: bool, pressed: bool, repeat: bool, enter_or_space: bool) -> (r: bool)
    ensures
        r == (!checked && pressed && !repeat && enter_or_space),
{
    if checked {
        return false;
    }
    pressed && !repeat && enter_or_space
}

/// Does a click on a radio button check it: only when it is not checked yet.
pub fn radio_click_checks(checked: bool) -> (r: bool)
    ensures
        r == !checked,
{
    !checked
}

/// How one axis of a resize handle moves the window: the factor of the drag delta added to
/// the left/top position, and the factor added to the size. Handles on the start side move the
/// start edge and shrink by the same amount; handles on the end side grow; the middle does
/// nothing. Factors are scaled by the handle's direction magnitude.
pub open spec fn spec_resize_factors(direction: i8) -> (int, int) {
    if direction < 0 {
        (-direction, direction as int)
    } else if direction > 0 {
        (0, direction as int)
    } else {
        (0, 0)
    }
}

/// Factors of the drag delta for one axis of a window resize handle.
pub fn resize_factors(direction: i8) -> (r: (i16, i16))
    ensures
        (r.0 as int, r.1 as int) == spec_resize_factors(direction),
{
    let d = direction as i16;
    if d < 0 {
        (-d, d)
    } else if d > 0 {
        (0, d)
    } else {
        (0, 0)
    }
}

/// A resize handle never moves the start edge without shrinking by as much: position and size
/// change together so that the opposite edge stays put.
pub proof fn law_resize_keeps_opposite_edge(direction: i8)
    requires
        direction < 0,
    ensures
        spec_resize_factors(direction).0 + spec_resize_factors(direction).1 == 0,
{
}

/// The change to the `InteractionDisabled` marker only ever moves it toward the requested
/// state: nothing is done when the marker already matches, and otherwise it is set to the
/// requested state, never to the opposite one.
pub proof fn law_disabled_moves_toward_request(present: Option<bool>, disabled: bool)
    ensures
        spec_disabled_update(present, disabled) is None || spec_disabled_update(present, disabled)
            == Some(disabled),
        spec_disabled_update(present, disabled) is None <==> present == Some(disabled),
        spec_disabled_update(Some(disabled), disabled) is None,
        spec_disabled_update(Some(!disabled), disabled) == Some(disabled),
{
}

/// A change the widget reports that differs from whether `Checked` is present always wins, in
/// both directions: the value becomes the reported state and `Checked` is set to it.
pub proof fn law_checked_reported_change_wins(last: bool, value: bool)
    ensures
        spec_checked_value(Some((Some(!last), last)), value) == !last,
        spec_checked_sync(Some((Some(!last), last)), value) == CheckedSync::Apply(!last),
{
}

/// Without a reported change (or with one that repeats the present state) the value is kept,
/// and `Checked` is changed exactly when it differs from the value; an entity that does not
/// track changes yet starts from the value.
pub proof fn law_checked_without_report_follows_value(
    report: Option<bool>,
    last: bool,
    value: bool,
)
    requires
        report is None || report == Some(last),
    ensures
        spec_checked_value(Some((report, last)), value) == value,
        spec_checked_sync(Some((report, last)), value) == (if value == last {
            CheckedSync::Unchanged
        } else {
            CheckedSync::Apply(value)
        }),
        spec_checked_value(None, value) == value,
        spec_checked_sync(None, value) == CheckedSync::Initialize(value),
{
}

} // verus!
