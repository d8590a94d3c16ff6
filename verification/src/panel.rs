//! The dockable Docker panel: a placeholder view that owns a width, an
//! active flag, and the record of an in-flight width serialization.
//!
//! The host's docking framework drives the panel through its lifecycle
//! hooks; the host also owns the key-value store, so reading and writing
//! the persisted record is left to it: `load` takes the text the store
//! held, and `take_pending_serialization` hands out the record the store
//! should receive next.

use vstd::prelude::*;

use crate::panel_settings::{
    dock_position_is_valid, DockPosition, DockerPanelSettings, PanelSettingsContent,
};
use crate::persist::{encode_panel_record, parse_panel_record, parsed_record, spec_width_record};

verus! {

/// Events the panel can emit to its host.
#[derive(Clone, Copy, PartialEq, Eq, Structural, Debug)]
pub enum Event {
    DockPositionChanged,
    Focus,
    Dismissed,
}

/// The static content the panel renders: a header label and a body message.
pub struct PanelContent {
    pub header: String,
    pub body: String,
}

pub struct DockerPanel {
    /// The panel width in whole pixels, unset until the user resizes the
    /// panel or a persisted width is loaded.
    pub width: Option<u32>,
    /// Whether the panel is the active one in its dock.
    pub active: bool,
    /// The record an in-flight serialization task would write to the
    /// key-value store; replaced wholesale on every resize, so only the
    /// last write survives.
    pub pending_serialization: Option<String>,
}

/// The panel as the contracts see it: the width and active flag as they
/// are, and the pending write abstracted to the width its record would
/// restore (`None` when no well-formed write is queued).
pub struct PanelView {
    pub width: Option<u32>,
    pub active: bool,
    pub pending: Option<Option<i64>>,
}

impl View for DockerPanel {
    type V = PanelView;

    open spec fn view(&self) -> PanelView {
        PanelView {
            width: self.width,
            active: self.active,
            pending: match self.pending_serialization {
                None => None,
                Some(s) => parsed_record(s@),
            },
        }
    }
}

/// What a resize does to the panel: the new width is held, the active flag
/// is untouched, and the queued write is replaced by one carrying exactly
/// the new width.
pub open spec fn set_size_model(v: PanelView, size: Option<u32>) -> PanelView {
    PanelView { width: size, active: v.active, pending: Some(spec_width_record(size)) }
}

/// The width a panel loaded from a stored record reports: a stored width
/// in the `u32` range is applied; a missing, malformed or out-of-range
/// record falls back to the unset default.
pub open spec fn loaded_width(record: Option<String>) -> Option<u32> {
    match record {
        None => None,
        Some(s) => match parsed_record(s@) {
            Some(Some(w)) => if 0 <= w <= u32::MAX {
                Some(w as u32)
            } else {
                None
            },
            _ => None,
        },
    }
}

impl DockerPanel {
    /// A fresh panel: width unset, inactive, nothing queued for writing.
    pub fn new() -> (panel: DockerPanel)
        ensures
            panel.width is None,
            panel.active == false,
            panel.pending_serialization is None,
    {
        DockerPanel { width: None, active: false, pending_serialization: None }
    }

    /// Builds the panel from whatever the key-value store held under the
    /// panel's key. A missing or malformed record is swallowed: the panel
    /// comes up with its defaults either way.
    pub fn load(record: Option<String>) -> (panel: DockerPanel)
        ensures
            panel.width == loaded_width(record),
            panel.active == false,
            panel.pending_serialization is None,
    {
        let mut panel = DockerPanel::new();
        if let Some(s) = &record {
            if let Some(stored) = parse_panel_record(s.as_str()) {
                if let Some(w) = stored {
                    if 0 <= w && w <= u32::MAX as i64 {
                        panel.width = Some(w as u32);
                    }
                }
            }
        }
        panel
    }

    /// Queues a write of the current width to the key-value store,
    /// replacing whatever write was queued before.
    fn serialize(&mut self)
        ensures
            final(self).width == old(self).width,
            final(self).active == old(self).active,
            (final(self).pending_serialization matches Some(r)
                && parsed_record(r@) == Some(spec_width_record(old(self).width))),
    {
        let record = encode_panel_record(self.width);
        self.pending_serialization = Some(record);
    }

    /// The side the panel docks at, as the settings have it.
    pub fn position(&self, settings: &DockerPanelSettings) -> (position: DockPosition)
        ensures
            position == settings.dock,
    {
        settings.dock
    }

    /// A panel may only dock at the sides: left and right are valid,
    /// anything else is not.
    pub fn position_is_valid(&self, position: DockPosition) -> (valid: bool)
        ensures
            valid == dock_position_is_valid(position),
    {
        matches!(position, DockPosition::Left | DockPosition::Right)
    }

    /// Moves the panel's dock position in the settings layer the host
    /// writes back to its settings file. A position that is not a side is
    /// ignored: the layer is left untouched.
    pub fn set_position(&self, position: DockPosition, content: &mut PanelSettingsContent)
        ensures
            final(content).button == old(content).button,
            final(content).default_width == old(content).default_width,
            dock_position_is_valid(position) ==> final(content).dock == Some(position),
            !dock_position_is_valid(position) ==> final(content).dock == old(content).dock,
    {
        if self.position_is_valid(position) {
            content.dock = Some(position);
        }
    }

    /// The width the panel reports to the dock: its own width when set,
    /// else the configured default.
    pub fn size(&self, settings: &DockerPanelSettings) -> (size: u32)
        ensures
            size == (match self.width {
                Some(w) => w,
                None => settings.default_width,
            }),
    {
        match self.width {
            Some(w) => w,
            None => settings.default_width,
        }
    }

    /// Resizes the panel and queues the new width for persistence. The
    /// queued record always carries the newest width: a later resize
    /// replaces an earlier one's record wholesale.
    pub fn set_size(&mut self, size: Option<u32>)
        ensures
            final(self).width == size,
            final(self).active == old(self).active,
            final(self)@ == set_size_model(old(self)@, size),
    {
        self.width = size;
        self.serialize();
    }

    /// Hands the queued record (if any) to the host for writing under the
    /// panel's key, leaving nothing queued.
    pub fn take_pending_serialization(&mut self) -> (record: Option<String>)
        ensures
            record == old(self).pending_serialization,
            final(self).width == old(self).width,
            final(self).active == old(self).active,
            final(self).pending_serialization is None,
    {
        let mut record: Option<String> = None;
        core::mem::swap(&mut record, &mut self.pending_serialization);
        record
    }

    /// Flips the active flag; the view needs a redraw only when the panel
    /// becomes active.
    pub fn set_active(&mut self, active: bool) -> (notify: bool)
        ensures
            final(self).active == active,
            final(self).width == old(self).width,
            final(self).pending_serialization == old(self).pending_serialization,
            notify == active,
    {
        self.active = active;
        self.active
    }

    /// The name the docking framework files the panel under.
    pub fn persistent_name() -> (name: &'static str)
        ensures
            name@ == "DockerPanel"@,
    {
        "DockerPanel"
    }

    /// The key the panel's record is stored under in the key-value store.
    pub fn dev_container_panel_key() -> (key: &'static str)
        ensures
            key@ == "DockerPanel"@,
    {
        "DockerPanel"
    }

    /// The panel's static content: a header label and a placeholder body
    /// (container status integration is a non-goal here).
    pub fn render(&self) -> (content: PanelContent)
        ensures
            content.header@ == "Docker"@,
            content.body@ == "Cannot find running Docker instance."@,
    {
        PanelContent {
            header: "Docker".to_string(),
            body: "Cannot find running Docker instance.".to_string(),
        }
    }

    /// The tooltip shown on the panel's dock button.
    pub fn icon_tooltip(&self) -> (tooltip: Option<&'static str>)
        ensures
            (tooltip matches Some(t) && t@ == "Dev Containers Panel"@),
    {
        Some("Dev Containers Panel")
    }

    /// The label beside the panel's dock button; none is shown (a count of
    /// running containers is a non-goal here).
    pub fn icon_label(&self) -> (label: Option<String>)
        ensures
            label is None,
    {
        None
    }
}

/// Last write wins: resizing twice in a row leaves exactly the state that
/// the second resize alone would leave — in particular, only the second
/// width is queued for durable persistence.
pub proof fn lemma_set_size_last_write_wins(v: PanelView, first: Option<u32>, second: Option<u32>)
    ensures
        set_size_model(set_size_model(v, first), second) == set_size_model(v, second),
{
}

} // verus!
