//! The selectable-list panel: an ordered list of display labels with an
//! optional highlighted index, moved cyclically by the `j` and `k` keys and
//! drawn as a bordered list widget into a region of the host's screen buffer.

use vstd::prelude::*;
use crate::input::{
    is_down_event, is_up_event, is_plain_char, EventOutcome, InputEvent,
};
use crate::navigation::{advance, advance_spec, retreat, retreat_spec, sel_valid, sel_view};
use crate::screen::{area_fits, CaretKind, CaretPosition, ScreenArea, ThemeStyle};
use crate::surface::{
    area_within, buffer_cells, buffer_span, draw_into, region_coords, rendered_cells,
};

verus! {

/// A list panel over labelled entries with one optionally highlighted entry.
pub struct FileBrowser {
    /// Display labels, in display order.
    pub files: Vec<String>,
    /// The highlighted index, or `None` while nothing is highlighted.
    pub selected: Option<usize>,
}

/// The selection healed before drawing: a present selection stands, and an
/// absent one over a non-empty list becomes the first index.
pub open spec fn healed_sel(sel: Option<int>, n: int) -> Option<int> {
    if n >= 1 && sel is None {
        Option::Some(0int)
    } else {
        sel
    }
}

impl FileBrowser {
    /// The component's invariant: a present selection indexes an entry.
    /// With no entries it forces the selection absent.
    pub open spec fn wf(&self) -> bool {
        sel_valid(sel_view(self.selected), self.files@.len() as int)
    }

    /// Builds the panel over its placeholder entries, with nothing selected.
    pub fn new() -> (browser: Self)
        ensures
            browser.wf(),
            browser.selected is None,
            browser.files@.len() == 3,
            browser.files@[0]@ == "Item 1"@,
            browser.files@[1]@ == "Item 2"@,
            browser.files@[2]@ == "Item 3"@,
    {
        let mut files: Vec<String> = Vec::new();
        files.push(String::from_str("Item 1"));
        files.push(String::from_str("Item 2"));
        files.push(String::from_str("Item 3"));
        FileBrowser { files, selected: None }
    }

    /// Builds the panel over the given entries, with nothing selected.
    pub fn with_entries(files: Vec<String>) -> (browser: Self)
        ensures
            browser.wf(),
            browser.selected is None,
            browser.files == files,
    {
        FileBrowser { files, selected: None }
    }

    /// The highlighted index, or `None` while nothing is highlighted.
    pub fn selection(&self) -> (sel: Option<usize>)
        ensures
            sel == self.selected,
    {
        self.selected
    }

    /// How many entries the panel lists.
    pub fn entry_count(&self) -> (n: usize)
        ensures
            n == self.files@.len(),
    {
        self.files.len()
    }

    /// Routes one input event. The `j` and `k` keys move the selection down
    /// and up cyclically and are consumed; every other event is ignored and
    /// changes nothing. Both keys are consumed but change nothing while the
    /// list is empty.
    pub fn handle_event(&mut self, event: &InputEvent) -> (outcome: EventOutcome)
        requires
            old(self).wf(),
        ensures
            final(self).wf(),
            final(self).files == old(self).files,
            outcome == (if is_down_event(*event) || is_up_event(*event) {
                EventOutcome::Consumed
            } else {
                EventOutcome::Ignored
            }),
            is_down_event(*event) && old(self).files@.len() >= 1 ==> sel_view(
                final(self).selected,
            ) == Option::Some(
                advance_spec(sel_view(old(self).selected), old(self).files@.len() as int),
            ),
            is_up_event(*event) && old(self).files@.len() >= 1 ==> sel_view(
                final(self).selected,
            ) == Option::Some(
                retreat_spec(sel_view(old(self).selected), old(self).files@.len() as int),
            ),
            (!is_down_event(*event) && !is_up_event(*event)) || old(self).files@.len() == 0
                ==> final(self).selected == old(self).selected,
    {
        match event {
            InputEvent::Key(key) => {
                if is_plain_char(key, 'j') {
                    if self.files.len() >= 1 {
                        let next = advance(self.selected, self.files.len());
                        self.selected = Some(next);
                    }
                    EventOutcome::Consumed
                } else if is_plain_char(key, 'k') {
                    if self.files.len() >= 1 {
                        let prev = retreat(self.selected, self.files.len());
                        self.selected = Some(prev);
                    }
                    EventOutcome::Consumed
                } else {
                    EventOutcome::Ignored
                }
            },
            _ => EventOutcome::Ignored,
        }
    }

    /// The host redraws this component on every cycle.
    pub fn should_update(&self) -> (upd: bool)
        ensures
            upd,
    {
        true
    }

    /// Draws the panel into the given region of the host's screen buffer:
    /// first heals an absent selection over a non-empty list to the first
    /// index, then clears the region to the given background style — the one
    /// the host's theme maps to the semantic key "ui.background" — and draws
    /// the bordered list with the healed selection highlighted. Cells outside
    /// the region keep their content.
    pub fn render(
        &mut self,
        area: &ScreenArea,
        background: &ThemeStyle,
        surface: &mut tui::buffer::Buffer,
    )
        requires
            old(self).wf(),
            area_fits(*area),
            area_within(*area, buffer_span(*old(surface))),
        ensures
            final(self).wf(),
            final(self).files == old(self).files,
            sel_view(final(self).selected) == healed_sel(
                sel_view(old(self).selected),
                old(self).files@.len() as int,
            ),
            buffer_span(*final(surface)) == buffer_span(*old(surface)),
            buffer_cells(*final(surface)) == rendered_cells(
                buffer_cells(*old(surface)),
                old(self).files@,
                healed_sel(sel_view(old(self).selected), old(self).files@.len() as int),
                *area,
                *background,
            ),
            buffer_cells(*final(surface)).dom() == buffer_cells(*old(surface)).dom().union(
                region_coords(area.x as int, area.y as int, area.width as int, area.height as int),
            ),
            forall|p: (int, int)|
                buffer_cells(*old(surface)).dom().contains(p) && !region_coords(
                    area.x as int,
                    area.y as int,
                    area.width as int,
                    area.height as int,
                ).contains(p) ==> buffer_cells(*final(surface))[p] == buffer_cells(
                    *old(surface),
                )[p],
    {
        if self.files.len() > 0 && self.selected.is_none() {
            self.selected = Some(0);
        }
        draw_into(surface, area, background, &self.files, self.selected);
    }

    /// Reports the fixed default caret the host should draw: a block caret
    /// at row 1, column 0 of the component's local coordinates, whatever the
    /// selection or region.
    pub fn cursor(&self, _area: &ScreenArea) -> (caret: (Option<CaretPosition>, CaretKind))
        ensures
            caret.0 == Option::Some(CaretPosition { row: 1, col: 0 }),
            caret.1 == CaretKind::Block,
    {
        (Some(CaretPosition { row: 1, col: 0 }), CaretKind::Block)
    }

    /// The panel states no intrinsic size preference: it takes whatever
    /// region the host allocates.
    pub fn required_size(&mut self, _viewport: (u16, u16)) -> (size: Option<(u16, u16)>)
        ensures
            size is None,
            *final(self) == *old(self),
    {
        None
    }

    /// The component's type name, for the host's introspection.
    pub fn kind_name(&self) -> (name: &'static str)
        ensures
            name@ == "FileBrowser"@,
    {
        "FileBrowser"
    }

    /// The component carries no stable external identifier.
    pub fn id(&self) -> (ident: Option<&'static str>)
        ensures
            ident is None,
    {
        None
    }
}

/// Law: healing the selection is idempotent, and rendering is too. Drawing
/// the same entries, selection, region and background twice leaves exactly
/// the surface that drawing them once leaves: each render pass overwrites
/// the same region with the same cells.
pub proof fn lemma_render_idempotent(
    cells: Map<(int, int), int>,
    entries: Seq<String>,
    selected: Option<int>,
    n: int,
    a: ScreenArea,
    background: ThemeStyle,
)
    ensures
        healed_sel(healed_sel(selected, n), n) == healed_sel(selected, n),
        rendered_cells(
            rendered_cells(cells, entries, selected, a, background),
            entries,
            selected,
            a,
            background,
        ) == rendered_cells(cells, entries, selected, a, background),
{
    let once = rendered_cells(cells, entries, selected, a, background);
    let twice = rendered_cells(once, entries, selected, a, background);
    assert(twice =~= once);
}

} // verus!
