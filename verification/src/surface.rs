//! The drawing surface: a `tui` screen buffer held behind trusted
//! declarations. The buffer is opaque here; its contents are modelled as a
//! map from cell coordinates to an abstract cell code (the cell's symbol and
//! style, which this crate never inspects), and every drawing call states
//! which region of that map it overwrites and that it touches nothing
//! outside it.

use vstd::prelude::*;
use crate::screen::{area_fits, ScreenArea, ThemeStyle};
use tui::buffer::Buffer;
use tui::layout::Rect;
use tui::style::{Color, Modifier, Style};
use tui::widgets::{Block, Borders, List, ListItem, ListState, StatefulWidget};

verus! {

/// `tui::buffer::Buffer` declared for use in signatures; its inside stays
/// invisible to the verifier.
#[verifier::external_type_specification]
#[verifier::external_body]
pub struct ExBuffer(tui::buffer::Buffer);

/// The rectangle a buffer was created over, as `(x, y, width, height)`:
/// drawing outside it is refused by `tui`.
pub uninterp spec fn buffer_span(b: tui::buffer::Buffer) -> (int, int, int, int);

/// What a buffer holds: for each cell coordinate, an abstract code standing
/// for the cell's symbol and style.
pub uninterp spec fn buffer_cells(b: tui::buffer::Buffer) -> Map<(int, int), int>;

/// The coordinates of the cells of the region `(x, y, w, h)`.
pub open spec fn region_coords(x: int, y: int, w: int, h: int) -> Set<(int, int)> {
    Set::new(|p: (int, int)| x <= p.0 < x + w && y <= p.1 < y + h)
}

/// The cells that clearing the region `(x, y, w, h)` to the style
/// `(fg, bg)` writes: one blank cell in that style per coordinate of the
/// region, and nothing else.
pub uninterp spec fn cleared_cells(
    x: int,
    y: int,
    w: int,
    h: int,
    fg: Option<u8>,
    bg: Option<u8>,
) -> Map<(int, int), int>;

/// The cells that drawing the list widget leaves in the region `(x, y, w, h)`
/// when every cell beneath holds the `(fg, bg)`-cleared blank: the border
/// with the given title on the region's edge, inside it one row per visible
/// entry, the selected row highlighted behind the given marker glyph, and the
/// widget's styles merged over that cleared background. The background styles
/// are arguments because the widget writes styles by merging into the cells
/// beneath.
pub uninterp spec fn list_cells(
    entries: Seq<String>,
    selected: Option<int>,
    x: int,
    y: int,
    w: int,
    h: int,
    fg: Option<u8>,
    bg: Option<u8>,
    title: Seq<char>,
    marker: Seq<char>,
) -> Map<(int, int), int>;

/// The region `a` lies inside the rectangle `span`.
pub open spec fn area_within(a: ScreenArea, span: (int, int, int, int)) -> bool {
    &&& span.0 <= a.x
    &&& span.1 <= a.y
    &&& a.x + a.width <= span.0 + span.2
    &&& a.y + a.height <= span.1 + span.3
}

/// Relies on `tui::buffer::Buffer::get_mut` with `Cell::reset` and
/// `Cell::set_style`: resets every cell of the region to the blank symbol in
/// the given style, and touches no cell outside it. Colours are taken from
/// the terminal's 256-slot palette; an absent colour resets to the terminal
/// default.
#[verifier::external_body]
fn clear_region(surface: &mut tui::buffer::Buffer, area: &ScreenArea, background: &ThemeStyle)
    requires
        area_fits(*area),
        area_within(*area, buffer_span(*old(surface))),
    ensures
        buffer_span(*final(surface)) == buffer_span(*old(surface)),
        buffer_cells(*final(surface)) == buffer_cells(*old(surface)).union_prefer_right(
            cleared_cells(
                area.x as int,
                area.y as int,
                area.width as int,
                area.height as int,
                background.fg,
                background.bg,
            ),
        ),
        buffer_cells(*final(surface)).dom() == buffer_cells(*old(surface)).dom().union(
            region_coords(area.x as int, area.y as int, area.width as int, area.height as int),
        ),
        forall|p: (int, int)|
            buffer_cells(*old(surface)).dom().contains(p) && !region_coords(
                area.x as int,
                area.y as int,
                area.width as int,
                area.height as int,
            ).contains(p) ==> buffer_cells(*final(surface))[p] == buffer_cells(*old(surface))[p],
{
    let mut style = Style::default();
    style = if let Some(c) = background.fg { style.fg(Color::Indexed(c)) } else { style.fg(Color::Reset) };
    style = if let Some(c) = background.bg { style.bg(Color::Indexed(c)) } else { style.bg(Color::Reset) };
    for y in area.y..area.y + area.height {
        for x in area.x..area.x + area.width {
            let cell = surface.get_mut(x, y);
            cell.reset();
            cell.set_style(style);
        }
    }
}

/// Relies on `tui`'s `List` widget rendered through `StatefulWidget::render`,
/// configured as a bordered block with the given title, rows in the
/// terminal's white foreground, and the selected row in reverse video behind
/// the given marker glyph. The widget writes styles by merging into the cells
/// beneath, so the call demands that the region was just cleared to the given
/// background: the cells it leaves are then a function of the entries, the
/// selection, the region, that background, the title and the marker alone.
/// With a fresh `ListState` it writes every cell of the region, and none
/// outside it.
#[verifier::external_body]
fn draw_list(
    surface: &mut tui::buffer::Buffer,
    area: &ScreenArea,
    entries: &Vec<String>,
    selected: Option<usize>,
    background: &ThemeStyle,
    title: &str,
    marker: &str,
)
    requires
        area_fits(*area),
        area_within(*area, buffer_span(*old(surface))),
        cleared_cells(
            area.x as int,
            area.y as int,
            area.width as int,
            area.height as int,
            background.fg,
            background.bg,
        ).submap_of(buffer_cells(*old(surface))),
    ensures
        buffer_span(*final(surface)) == buffer_span(*old(surface)),
        buffer_cells(*final(surface)) == buffer_cells(*old(surface)).union_prefer_right(
            list_cells(
                entries@,
                crate::navigation::sel_view(selected),
                area.x as int,
                area.y as int,
                area.width as int,
                area.height as int,
                background.fg,
                background.bg,
                title@,
                marker@,
            ),
        ),
        buffer_cells(*final(surface)).dom() == buffer_cells(*old(surface)).dom().union(
            region_coords(area.x as int, area.y as int, area.width as int, area.height as int),
        ),
        forall|p: (int, int)|
            buffer_cells(*old(surface)).dom().contains(p) && !region_coords(
                area.x as int,
                area.y as int,
                area.width as int,
                area.height as int,
            ).contains(p) ==> buffer_cells(*final(surface))[p] == buffer_cells(*old(surface))[p],
{
    let items: Vec<ListItem> = entries.iter().map(|e| ListItem::new(e.as_str())).collect();
    let list = List::new(items)
        .block(Block::default().title(title).borders(Borders::ALL))
        .style(Style::default().fg(Color::White))
        .highlight_style(Style::default().add_modifier(Modifier::REVERSED))
        .highlight_symbol(marker);
    let mut state = ListState::default();
    state.select(selected);
    let rect = Rect { x: area.x, y: area.y, width: area.width, height: area.height };
    StatefulWidget::render(list, rect, surface, &mut state);
}

/// The drawing surface's content after one full render pass over `cells`:
/// the region cleared to the background style, then the list widget — titled
/// "Files", its selected row marked with ">" — drawn over it.
pub open spec fn rendered_cells(
    cells: Map<(int, int), int>,
    entries: Seq<String>,
    selected: Option<int>,
    a: ScreenArea,
    background: ThemeStyle,
) -> Map<(int, int), int> {
    cells.union_prefer_right(
        cleared_cells(a.x as int, a.y as int, a.width as int, a.height as int, background.fg, background.bg),
    ).union_prefer_right(
        list_cells(
            entries,
            selected,
            a.x as int,
            a.y as int,
            a.width as int,
            a.height as int,
            background.fg,
            background.bg,
            "Files"@,
            ">"@,
        ),
    )
}

/// Clears the region to the background style, then draws the list widget —
/// titled "Files", its selected row marked with ">" — into it. Cells outside
/// the region keep their content.
pub(crate) fn draw_into(
    surface: &mut tui::buffer::Buffer,
    area: &ScreenArea,
    background: &ThemeStyle,
    entries: &Vec<String>,
    selected: Option<usize>,
)
    requires
        area_fits(*area),
        area_within(*area, buffer_span(*old(surface))),
    ensures
        buffer_span(*final(surface)) == buffer_span(*old(surface)),
        buffer_cells(*final(surface)) == rendered_cells(
            buffer_cells(*old(surface)),
            entries@,
            crate::navigation::sel_view(selected),
            *area,
            *background,
        ),
        buffer_cells(*final(surface)).dom() == buffer_cells(*old(surface)).dom().union(
            region_coords(area.x as int, area.y as int, area.width as int, area.height as int),
        ),
        forall|p: (int, int)|
            buffer_cells(*old(surface)).dom().contains(p) && !region_coords(
                area.x as int,
                area.y as int,
                area.width as int,
                area.height as int,
            ).contains(p) ==> buffer_cells(*final(surface))[p] == buffer_cells(*old(surface))[p],
{
    let ghost before = buffer_cells(*surface);
    let ghost region = region_coords(
        area.x as int,
        area.y as int,
        area.width as int,
        area.height as int,
    );
    clear_region(surface, area, background);
    proof {
        let cleared = cleared_cells(
            area.x as int,
            area.y as int,
            area.width as int,
            area.height as int,
            background.fg,
            background.bg,
        );
        assert forall|p: (int, int)| #[trigger] cleared.dom().contains(p) implies buffer_cells(
            *surface,
        ).dom().contains(p) && buffer_cells(*surface)[p] == cleared[p] by {
            assert(buffer_cells(*surface) == before.union_prefer_right(cleared));
        }
        assert(cleared.submap_of(buffer_cells(*surface)));
    }
    draw_list(surface, area, entries, selected, background, "Files", ">");
    proof {
        assert(buffer_cells(*surface).dom() =~= before.dom().union(region));
    }
}

} // verus!
