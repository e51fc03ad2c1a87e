use vstd::prelude::*;

use crate::orientation::{is_terminal, Orientation, Stance};
use crate::zombie::ZombieDrawable;

verus! {

/// First cell of the walking frames in the sheet.
pub const WALK_OFFSET: usize = 32;

/// First cell of the normal death frames in the sheet.
pub const NORMAL_DEATH_OFFSET: usize = 64;

/// Sheet row group that the agents' frames occupy.
pub const SHEET_ROW: u32 = 2;

/// Layout of a packed sprite sheet: the pixel width of each cell, the width
/// of the whole sheet, and the padding that follows each cell.
pub struct SpriteSheet {
    pub cell_widths: Vec<u32>,
    pub total_width: u32,
    pub padding: u32,
}

/// Where the renderer samples an agent's current frame.
#[derive(Clone, Copy, Debug, PartialEq, Eq, Structural)]
pub struct SheetCell {
    /// Together with `cell_span`: columns per row are `sheet_width / cell_span`.
    pub sheet_width: u32,
    /// Pixel width of the selected cell plus the padding.
    pub cell_span: u64,
    pub row_selector: u32,
    /// 0 samples the death band of the row, 1 the alive band.
    pub sub_row_offset: u32,
    pub index: usize,
}

/// The stance has no frames of its own for a `Still` heading, so the walking
/// frames of the heading itself are used.
pub open spec fn falls_back(z: ZombieDrawable) -> bool {
    z.stance != Stance::Still && z.orientation == Orientation::Still
}

/// Linear index of the agent's current frame in the sheet.
pub open spec fn cell_index(z: ZombieDrawable) -> int {
    let facing = z.facing_direction.code_spec() as int;
    if z.stance == Stance::Still {
        facing * 4 + z.alive_frame_index
    } else if falls_back(z) {
        z.orientation.code_spec() * 8 + z.alive_frame_index + WALK_OFFSET
    } else if z.stance == Stance::Walking {
        facing * 8 + z.alive_frame_index + WALK_OFFSET
    } else if z.stance == Stance::NormalDeath {
        facing * 6 + z.death_frame_index + NORMAL_DEATH_OFFSET
    } else {
        facing * 8 + z.death_frame_index
    }
}

impl SpriteSheet {
    /// The cell that shows agent `z`.
    pub open spec fn cell_of(self, z: ZombieDrawable) -> SheetCell {
        let index = cell_index(z);
        SheetCell {
            sheet_width: self.total_width,
            cell_span: (self.cell_widths@[index] + self.padding) as u64,
            row_selector: SHEET_ROW,
            sub_row_offset: if is_terminal(z.stance) { 0 } else { 1 },
            index: index as usize,
        }
    }

    /// Resolves the agent's frame. Where the stance falls back on the walking
    /// frames, the agent's facing direction is set to its heading.
    pub fn get_next_sprite(&self, drawable: &mut ZombieDrawable) -> (r: SheetCell)
        requires
            cell_index(*old(drawable)) < self.cell_widths@.len(),
        ensures
            r == self.cell_of(*old(drawable)),
            *final(drawable) == if falls_back(*old(drawable)) {
                ZombieDrawable { facing_direction: old(drawable).orientation, ..*old(drawable) }
            } else {
                *old(drawable)
            },
    {
        let n_cells = self.cell_widths.len();
        assert(cell_index(*drawable) < n_cells);
        let facing = drawable.facing_direction.code();
        let index: usize = match drawable.stance {
            Stance::Still => facing * 4 + drawable.alive_frame_index,
            Stance::Walking if drawable.orientation != Orientation::Still => {
                facing * 8 + drawable.alive_frame_index + WALK_OFFSET
            },
            Stance::NormalDeath if drawable.orientation != Orientation::Still => {
                facing * 6 + drawable.death_frame_index + NORMAL_DEATH_OFFSET
            },
            Stance::CriticalDeath if drawable.orientation != Orientation::Still => {
                facing * 8 + drawable.death_frame_index
            },
            _ => {
                drawable.facing_direction = drawable.orientation;
                drawable.orientation.code() * 8 + drawable.alive_frame_index + WALK_OFFSET
            },
        };
        let sub_row_offset: u32 = if drawable.stance.is_dead() { 0 } else { 1 };
        SheetCell {
            sheet_width: self.total_width,
            cell_span: self.cell_widths[index] as u64 + self.padding as u64,
            row_selector: SHEET_ROW,
            sub_row_offset,
            index,
        }
    }
}

} // verus!
