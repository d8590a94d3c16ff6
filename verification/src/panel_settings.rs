//! The panel's settings: a dock position, a default width, and a button
//! flag, merged from layered configuration sources (the defaults first,
//! then each user layer in order, later layers winning field by field).

use vstd::prelude::*;

verus! {

/// Where a panel may dock inside the workspace window.
#[derive(Clone, Copy, PartialEq, Eq, Structural, Debug)]
pub enum DockPosition {
    Left,
    Bottom,
    Right,
}

/// A panel may only dock at the sides.
pub open spec fn dock_position_is_valid(position: DockPosition) -> bool {
    position is Left || position is Right
}

/// One configuration layer: each field is set or left to lower layers.
#[derive(Clone, Copy, PartialEq, Eq, Structural, Debug)]
pub struct PanelSettingsContent {
    /// Whether to show the panel button in the status bar.
    pub button: Option<bool>,
    /// Where to dock the panel.
    pub dock: Option<DockPosition>,
    /// Default width of the panel in pixels.
    pub default_width: Option<u32>,
}

/// The settings the panel runs with, once every field is resolved.
#[derive(Clone, Copy, PartialEq, Eq, Structural, Debug)]
pub struct DockerPanelSettings {
    pub button: bool,
    pub dock: DockPosition,
    pub default_width: u32,
}

/// How settings fail to load.
#[derive(Clone, Copy, PartialEq, Eq, Structural, Debug)]
pub enum SettingsError {
    /// Some field is set in no layer, so the settings cannot be resolved.
    MissingField,
}

/// One merge step: a field set in the upper layer wins, one left unset
/// falls through to the lower layers.
pub open spec fn spec_merge(base: PanelSettingsContent, over: PanelSettingsContent) -> PanelSettingsContent {
    PanelSettingsContent {
        button: if over.button is Some {
            over.button
        } else {
            base.button
        },
        dock: if over.dock is Some {
            over.dock
        } else {
            base.dock
        },
        default_width: if over.default_width is Some {
            over.default_width
        } else {
            base.default_width
        },
    }
}

/// The default layer merged with every user layer in order.
pub open spec fn spec_merged(default: PanelSettingsContent, layers: Seq<PanelSettingsContent>) -> PanelSettingsContent
    decreases layers.len(),
{
    if layers.len() == 0 {
        default
    } else {
        spec_merge(spec_merged(default, layers.drop_last()), layers.last())
    }
}

impl Default for PanelSettingsContent {
    /// A layer that sets nothing.
    fn default() -> (content: PanelSettingsContent)
        ensures
            content.button is None,
            content.dock is None,
            content.default_width is None,
    {
        PanelSettingsContent { button: None, dock: None, default_width: None }
    }
}

impl PanelSettingsContent {
    /// Lays `over` on top of `self`: set fields of `over` win.
    pub fn merge_over(self, over: &PanelSettingsContent) -> (merged: PanelSettingsContent)
        ensures
            merged == spec_merge(self, *over),
    {
        PanelSettingsContent {
            button: if over.button.is_some() {
                over.button
            } else {
                self.button
            },
            dock: if over.dock.is_some() {
                over.dock
            } else {
                self.dock
            },
            default_width: if over.default_width.is_some() {
                over.default_width
            } else {
                self.default_width
            },
        }
    }
}

impl DockerPanelSettings {
    /// Resolves the settings from the default layer and the user layers in
    /// order. Succeeds exactly when every field is set somewhere; a field
    /// set nowhere leaves the settings unresolved.
    pub fn load(default: PanelSettingsContent, user_layers: &Vec<PanelSettingsContent>) -> (result: Result<
        DockerPanelSettings,
        SettingsError,
    >)
        ensures
            ({
                let merged = spec_merged(default, user_layers@);
                &&& (result is Ok <==> merged.button is Some && merged.dock is Some
                    && merged.default_width is Some)
                &&& (result matches Ok(settings) ==> merged.button == Some(settings.button)
                    && merged.dock == Some(settings.dock) && merged.default_width == Some(
                    settings.default_width,
                ))
                &&& (result matches Err(e) ==> e == SettingsError::MissingField)
            }),
    {
        let mut merged = default;
        let mut i: usize = 0;
        while i < user_layers.len()
            invariant
                i <= user_layers.len(),
                merged == spec_merged(default, user_layers@.take(i as int)),
            decreases user_layers.len() - i,
        {
            proof {
                assert(user_layers@.take(i + 1).drop_last() =~= user_layers@.take(i as int));
                assert(user_layers@.take(i + 1).last() == user_layers@[i as int]);
            }
            merged = merged.merge_over(&user_layers[i]);
            i += 1;
        }
        proof {
            assert(user_layers@.take(user_layers@.len() as int) =~= user_layers@);
        }
        match (merged.button, merged.dock, merged.default_width) {
            (Some(button), Some(dock), Some(default_width)) => Ok(
                DockerPanelSettings { button, dock, default_width },
            ),
            _ => Err(SettingsError::MissingField),
        }
    }
}

} // verus!
