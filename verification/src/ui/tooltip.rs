//! Global tooltip state: when tooltips show, and how they stay shown while the pointer moves
//! between tooltip sources.
//!
//! Times are elapsed times since startup, in nanoseconds.
use vstd::prelude::*;

verus! {

/// Delays of the tooltip state machine, in nanoseconds.
#[derive(Clone, Copy, Debug, PartialEq, Eq, Structural)]
pub struct TooltipGlobalSettings {
    /// How long the pointer must stay over a source before its tooltip shows.
    pub tooltip_delay: u64,
    /// How long after leaving a source another source still shows its tooltip at once.
    pub reset_delay: u64,
}

impl TooltipGlobalSettings {
    /// Both delays half a second.
    pub fn standard() -> (r: Self)
        ensures
            r.tooltip_delay == 500_000_000,
            r.reset_delay == 500_000_000,
    {
        TooltipGlobalSettings { tooltip_delay: 500_000_000, reset_delay: 500_000_000 }
    }
}

/// Global tooltip state.
#[derive(Clone, Copy, Debug, PartialEq, Eq, Structural)]
pub enum TooltipGlobalState {
    /// No tooltip is shown or pending.
    Nothing,
    /// The pointer entered a source at `since`; its tooltip shows once the delay has passed.
    Waiting { since: u64 },
    /// A tooltip is shown.
    Tooltip,
    /// The pointer left a source whose tooltip was shown, at `since`.
    Reset { since: u64 },
}

/// Has more than `delay` passed from `since` to `now`.
pub open spec fn elapsed_more_than(now: u64, since: u64, delay: u64) -> bool {
    now - since > delay
}

/// State after the pointer enters a tooltip source at `now`.
pub open spec fn spec_pointer_over(s: TooltipGlobalState, now: u64) -> TooltipGlobalState {
    match s {
        TooltipGlobalState::Nothing => TooltipGlobalState::Waiting { since: now },
        TooltipGlobalState::Waiting { .. } => s,
        TooltipGlobalState::Tooltip => TooltipGlobalState::Tooltip,
        TooltipGlobalState::Reset { .. } => TooltipGlobalState::Tooltip,
    }
}

/// State after the pointer leaves a tooltip source at `now`.
pub open spec fn spec_pointer_out(s: TooltipGlobalState, now: u64) -> TooltipGlobalState {
    match s {
        TooltipGlobalState::Nothing => TooltipGlobalState::Nothing,
        TooltipGlobalState::Waiting { .. } => TooltipGlobalState::Nothing,
        TooltipGlobalState::Tooltip => TooltipGlobalState::Reset { since: now },
        TooltipGlobalState::Reset { .. } => s,
    }
}

/// State after the per-frame update at `now`.
pub open spec fn spec_update(
    s: TooltipGlobalState,
    now: u64,
    settings: TooltipGlobalSettings,
) -> TooltipGlobalState {
    match s {
        TooltipGlobalState::Waiting { since } => if elapsed_more_than(
            now,
            since,
            settings.tooltip_delay,
        ) {
            TooltipGlobalState::Tooltip
        } else {
            s
        },
        TooltipGlobalState::Reset { since } => if elapsed_more_than(
            now,
            since,
            settings.reset_delay,
        ) {
            TooltipGlobalState::Nothing
        } else {
            s
        },
        _ => s,
    }
}

fn more_than(now: u64, since: u64, delay: u64) -> (r: bool)
    ensures
        r == elapsed_more_than(now, since, delay),
{
    now >= since && now - since > delay
}

impl TooltipGlobalState {
    /// Initial state: nothing shown.
    pub fn new() -> (r: Self)
        ensures
            r == TooltipGlobalState::Nothing,
    {
        TooltipGlobalState::Nothing
    }

    /// Should tooltip be shown.
    pub fn show_tooltip(&self) -> (r: bool)
        ensures
            r == (*self is Tooltip),
    {
        match self {
            TooltipGlobalState::Tooltip => true,
            _ => false,
        }
    }

    /// Should the tooltip of a source show now: the source is hovered and a tooltip is shown.
    pub fn shows_for(&self, hovered: bool) -> (r: bool)
        ensures
            r == (hovered && *self is Tooltip),
    {
        hovered && self.show_tooltip()
    }

    /// The pointer entered a tooltip source at `now`.
    pub fn pointer_over(&mut self, now: u64)
        ensures
            *final(self) == spec_pointer_over(*old(self), now),
    {
        match *self {
            TooltipGlobalState::Nothing => {
                *self = TooltipGlobalState::Waiting { since: now };
            },
            TooltipGlobalState::Waiting { .. } => {},
            TooltipGlobalState::Tooltip => {
                *self = TooltipGlobalState::Tooltip;
            },
            TooltipGlobalState::Reset { .. } => {
                *self = TooltipGlobalState::Tooltip;
            },
        }
    }

    /// The pointer left a tooltip source at `now`.
    pub fn pointer_out(&mut self, now: u64)
        ensures
            *final(self) == spec_pointer_out(*old(self), now),
    {
        *self = match *self {
            TooltipGlobalState::Nothing | TooltipGlobalState::Waiting { .. } => {
                TooltipGlobalState::Nothing
            },
            TooltipGlobalState::Tooltip => TooltipGlobalState::Reset { since: now },
            TooltipGlobalState::Reset { since } => TooltipGlobalState::Reset { since },
        };
    }

    /// Per-frame update at `now`: a pending tooltip shows once its delay passed, and a reset
    /// ends once the reset delay passed.
    pub fn update(&mut self, now: u64, settings: &TooltipGlobalSettings)
        ensures
            *final(self) == spec_update(*old(self), now, *settings),
    {
        match *self {
            TooltipGlobalState::Nothing => {},
            TooltipGlobalState::Waiting { since } => {
                if more_than(now, since, settings.tooltip_delay) {
                    *self = TooltipGlobalState::Tooltip;
                }
            },
            TooltipGlobalState::Tooltip => {},
            TooltipGlobalState::Reset { since } => {
                if more_than(now, since, settings.reset_delay) {
                    *self = TooltipGlobalState::Nothing;
                }
            },
        }
    }
}

/// A tooltip is shown only after the pointer waited over a source for longer than the delay:
/// starting from nothing, entering a source and updating shows the tooltip exactly when more
/// than the tooltip delay has passed.
pub proof fn law_tooltip_shows_after_delay(
    entered: u64,
    now: u64,
    settings: TooltipGlobalSettings,
)
    ensures
        spec_update(spec_pointer_over(TooltipGlobalState::Nothing, entered), now, settings)
            is Tooltip <==> now - entered > settings.tooltip_delay,
{
}

/// Moving the pointer from one source to another while a tooltip is shown keeps a tooltip
/// shown, without waiting again.
pub proof fn law_tooltip_moves_between_sources(left: u64, entered: u64)
    ensures
        spec_pointer_over(spec_pointer_out(TooltipGlobalState::Tooltip, left), entered)
            == TooltipGlobalState::Tooltip,
{
}

/// Leaving a source before its tooltip showed cancels it.
pub proof fn law_tooltip_cancelled_when_left_early(since: u64, now: u64)
    ensures
        spec_pointer_out(TooltipGlobalState::Waiting { since }, now) == TooltipGlobalState::Nothing,
{
}

/// After leaving a shown tooltip, the state returns to nothing once more than the reset delay
/// has passed, and not before.
pub proof fn law_tooltip_reset_expires(left: u64, now: u64, settings: TooltipGlobalSettings)
    ensures
        spec_update(spec_pointer_out(TooltipGlobalState::Tooltip, left), now, settings)
            == (if now - left > settings.reset_delay {
            TooltipGlobalState::Nothing
        } else {
            TooltipGlobalState::Reset { since: left }
        }),
{
}

/// The per-frame update never shows a tooltip on its own: it shows one only when one is shown
/// already or the pointer has waited over a source for longer than the delay. It never starts
/// waiting either, and it ends a reset only once the reset delay has passed.
pub proof fn law_update_only_advances_waits(
    s: TooltipGlobalState,
    now: u64,
    settings: TooltipGlobalSettings,
)
    ensures
        spec_update(TooltipGlobalState::Nothing, now, settings) == TooltipGlobalState::Nothing,
        spec_update(TooltipGlobalState::Tooltip, now, settings) == TooltipGlobalState::Tooltip,
        spec_update(s, now, settings) is Tooltip ==> (s is Tooltip || (s matches TooltipGlobalState::Waiting { since } && now - since > settings.tooltip_delay)),
        spec_update(s, now, settings) is Waiting ==> spec_update(s, now, settings) == s,
        spec_update(s, now, settings) is Reset ==> spec_update(s, now, settings) == s,
        spec_update(s, now, settings) is Nothing ==> (s is Nothing || (s matches TooltipGlobalState::Reset { since } && now - since > settings.reset_delay)),
        (s matches TooltipGlobalState::Waiting { since } && now - since > settings.tooltip_delay)
            ==> spec_update(s, now, settings) is Tooltip,
        (s matches TooltipGlobalState::Reset { since } && now - since > settings.reset_delay)
            ==> spec_update(s, now, settings) is Nothing,
{
}

/// Entering a source shows a tooltip at once only while one is shown or was shown a moment ago;
/// from nothing it starts waiting at the time of entering. Entering never hides a tooltip.
pub proof fn law_pointer_over_waits_from_nothing(s: TooltipGlobalState, now: u64)
    ensures
        spec_pointer_over(TooltipGlobalState::Nothing, now) == (TooltipGlobalState::Waiting {
            since: now,
        }),
        spec_pointer_over(s, now) is Tooltip <==> (s is Tooltip || s is Reset),
        !(spec_pointer_over(s, now) is Nothing),
{
}

/// Leaving a source never shows a tooltip: a shown one starts its reset at the time of leaving,
/// and a pending one is cancelled.
pub proof fn law_pointer_out_hides(s: TooltipGlobalState, now: u64)
    ensures
        !(spec_pointer_out(s, now) is Tooltip),
        !(spec_pointer_out(s, now) is Waiting),
        spec_pointer_out(TooltipGlobalState::Tooltip, now) == (TooltipGlobalState::Reset {
            since: now,
        }),
{
}

} // verus!
