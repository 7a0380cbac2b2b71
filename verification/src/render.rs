//! The geometric half of the renderer: splitting the available screen area
//! into the list, preview and status regions. Pure arithmetic on the
//! terminal size; drawing the widgets into these regions is left to the
//! surrounding loop.

use vstd::prelude::*;

verus! {

/// A rectangular screen region: its top-left corner, width and height,
/// in terminal cells.
#[derive(PartialEq, Eq, Structural, Clone, Copy, Debug)]
pub struct Region {
    pub x: u16,
    pub y: u16,
    pub width: u16,
    pub height: u16,
}

/// The three regions of one frame: the bordered note list on the left,
/// the bordered preview beside it, and the one-line status region at the
/// bottom.
#[derive(PartialEq, Eq, Structural, Clone, Copy, Debug)]
pub struct ScreenRegions {
    pub list: Region,
    pub preview: Region,
    pub status: Region,
}

/// The region lies within a screen of the given size.
pub open spec fn region_fits(r: Region, width: u16, height: u16) -> bool {
    &&& r.x + r.width <= width
    &&& r.y + r.height <= height
}

/// The screen after a one-cell margin on every side; empty when the
/// screen is too small for the margin.
pub open spec fn inner_area(width: u16, height: u16) -> Region {
    if width >= 2 && height >= 2 {
        Region { x: 1, y: 1, width: (width - 2) as u16, height: (height - 2) as u16 }
    } else {
        Region { x: 0, y: 0, width: 0, height: 0 }
    }
}

/// The height left for the list and preview once the one-line status
/// region is cut off the bottom of the inner area.
pub open spec fn main_height(width: u16, height: u16) -> int {
    let inner = inner_area(width, height);
    if inner.height >= 1 {
        inner.height - 1
    } else {
        0
    }
}

/// The list region: the left fifth of the inner area, above the status
/// line.
pub open spec fn list_area(width: u16, height: u16) -> Region {
    let inner = inner_area(width, height);
    Region {
        x: inner.x,
        y: inner.y,
        width: (inner.width * 20 / 100) as u16,
        height: main_height(width, height) as u16,
    }
}

/// The preview region: the rest of the inner width, beside the list.
pub open spec fn preview_area(width: u16, height: u16) -> Region {
    let inner = inner_area(width, height);
    let lw = inner.width * 20 / 100;
    Region {
        x: (inner.x + lw) as u16,
        y: inner.y,
        width: (inner.width - lw) as u16,
        height: main_height(width, height) as u16,
    }
}

/// The status region: the bottom line of the inner area, inset one more
/// cell on the left and right; empty when even that does not fit.
pub open spec fn status_area(width: u16, height: u16) -> Region {
    let inner = inner_area(width, height);
    let row_y = inner.y + main_height(width, height);
    let row_h: int = if inner.height >= 1 {
        1
    } else {
        0
    };
    if inner.width >= 2 {
        Region {
            x: (inner.x + 1) as u16,
            y: row_y as u16,
            width: (inner.width - 2) as u16,
            height: row_h as u16,
        }
    } else {
        Region { x: 0, y: 0, width: 0, height: 0 }
    }
}

/// Split a screen of the given size into the list, preview and status
/// regions. The list takes a fifth of the inner width, the preview the
/// rest of it at the list's right edge, and the status line sits beneath
/// both; every region fits on the screen, whatever its size.
pub fn compute_layout(width: u16, height: u16) -> (r: ScreenRegions)
    ensures
        r.list == list_area(width, height),
        r.preview == preview_area(width, height),
        r.status == status_area(width, height),
        region_fits(r.list, width, height),
        region_fits(r.preview, width, height),
        region_fits(r.status, width, height),
        r.preview.x == r.list.x + r.list.width,
        r.list.width + r.preview.width == inner_area(width, height).width,
{
    let small = width < 2 || height < 2;
    let ix: u16 = if small { 0 } else { 1 };
    let iy: u16 = if small { 0 } else { 1 };
    let iw: u16 = if small { 0 } else { width - 2 };
    let ih: u16 = if small { 0 } else { height - 2 };

    let mh: u16 = if ih >= 1 { ih - 1 } else { 0 };
    let lw: u16 = ((iw as u32) * 20 / 100) as u16;
    assert(iw as int * 20 / 100 <= iw as int) by (nonlinear_arith);

    let list = Region { x: ix, y: iy, width: lw, height: mh };
    let preview = Region { x: ix + lw, y: iy, width: iw - lw, height: mh };
    let status = if iw >= 2 {
        Region { x: ix + 1, y: iy + mh, width: iw - 2, height: if ih >= 1 { 1 } else { 0 } }
    } else {
        Region { x: 0, y: 0, width: 0, height: 0 }
    };
    ScreenRegions { list, preview, status }
}

} // verus!
