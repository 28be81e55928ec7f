//! Markers of the UI capabilities and of the capability sets built from them. A capability set
//! type parameter selects which extensions immediate mode entities offer.
use vstd::prelude::*;

verus! {

/// Base capability for UI that sets up correct order of immediate system execution.
pub struct CapabilityUiBase;

/// Capability to modify UI node look: background color, border color and node layout.
pub struct CapabilityUiLook;

/// Capability to manage the interaction disabled state of entities.
pub struct CapabilityUiDisabled;

/// Capability for long lasting interaction tracking: hovered and pressed.
pub struct CapabilityUiInteraction;

/// Capability to manage text rendering inside UI.
pub struct CapabilityUiText;

/// Capability to mark entities as selectable.
pub struct CapabilityUiSelectable;

/// Capability to synchronise a checked value with the `Checked` marker.
pub struct CapabilityUiChecked;

/// Capability for `.clicked()`: pointer clicks during the last frame.
pub struct CapabilityUiClicked;

/// Capability for `.activated()`: buttons activated by click or by keyboard.
pub struct CapabilityUiActivated;

/// Capability to create floating, anchored elements: tooltips, dropdowns.
pub struct CapabilityUiAnchored;

/// Capability to set slider values.
pub struct CapabilityUiSliderValue;

/// Capability to set the base color of feathers sliders.
pub struct CapabilityUiSliderBaseColor;

/// Capability to set the variant of feathers buttons.
pub struct CapabilityUiFeathersButtonVariant;

/// Capability set for UI.
pub struct CapsUi;

/// Capability set for UI with widget support: [`CapsUi`] and slider values.
pub struct CapsUiWidget;

/// Capability set for UI with feathers and widget support: [`CapsUiWidget`], slider base
/// colors and button variants.
pub struct CapsUiFeathers;

} // verus!
