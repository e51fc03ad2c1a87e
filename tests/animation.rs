use zombie_game::{Orientation, Position, SpriteSheet, Stance, ZombieDrawable};

fn sheet(cells: usize) -> SpriteSheet {
    let mut cell_widths = Vec::new();
    for i in 0..cells {
        cell_widths.push(40 + i as u32);
    }
    SpriteSheet { cell_widths, total_width: 4000, padding: 2 }
}

#[test]
fn still_index() {
    let mut z = ZombieDrawable::new(Position::new(0, 0));
    z.facing_direction = Orientation::Up;
    z.alive_frame_index = 1;
    let cell = sheet(200).get_next_sprite(&mut z);
    assert_eq!(Orientation::Up.code(), 2);
    assert_eq!(cell.index, 9);
    assert_eq!(cell.sub_row_offset, 1);
    assert_eq!(cell.row_selector, 2);
    assert_eq!(cell.sheet_width, 4000);
    assert_eq!(cell.cell_span, 49 + 2);
}

#[test]
fn walking_index() {
    let mut z = ZombieDrawable::new(Position::new(0, 0));
    z.stance = Stance::Walking;
    z.orientation = Orientation::UpLeft;
    z.facing_direction = Orientation::UpLeft;
    z.alive_frame_index = 2;
    let cell = sheet(200).get_next_sprite(&mut z);
    assert_eq!(cell.index, 58);
    assert_eq!(cell.cell_span, 98 + 2);
    assert_eq!(z.facing_direction, Orientation::UpLeft);
}

#[test]
fn death_indices() {
    let mut z = ZombieDrawable::new(Position::new(0, 0));
    z.stance = Stance::NormalDeath;
    z.facing_direction = Orientation::Down;
    z.death_frame_index = 3;
    z.alive_frame_index = 1;
    let cell = sheet(200).get_next_sprite(&mut z);
    assert_eq!(cell.index, 6 * 6 + 3 + 64);
    assert_eq!(cell.sub_row_offset, 0);
    z.stance = Stance::CriticalDeath;
    let cell = sheet(200).get_next_sprite(&mut z);
    assert_eq!(cell.index, 6 * 8 + 3);
    assert_eq!(cell.sub_row_offset, 0);
}

#[test]
fn still_heading_falls_back_to_walking_frames() {
    let mut z = ZombieDrawable::new(Position::new(0, 0));
    z.stance = Stance::Walking;
    z.orientation = Orientation::Still;
    z.facing_direction = Orientation::Right;
    z.alive_frame_index = 1;
    let cell = sheet(200).get_next_sprite(&mut z);
    assert_eq!(cell.index, 8 * 8 + 1 + 32);
    assert_eq!(cell.sub_row_offset, 1);
    assert_eq!(z.facing_direction, Orientation::Still);
}
