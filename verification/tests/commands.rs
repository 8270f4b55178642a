use cshop_ui::commands::{Anchor, ModifyKind, ResizeEdge, TransformPreset, WindowCommand};

/// The shift computed directly in `f32`: the weights times the change, rounded.
fn by_floats(anchor: Anchor, from: (u32, u32), to: (u32, u32)) -> (i32, i32) {
    let wx: f32 = match anchor {
        Anchor::TopLeft | Anchor::Left | Anchor::BottomLeft => 0.0,
        Anchor::Top | Anchor::Center | Anchor::Bottom => 0.5,
        _ => 1.0,
    };
    let wy: f32 = match anchor {
        Anchor::TopLeft | Anchor::Top | Anchor::TopRight => 0.0,
        Anchor::Left | Anchor::Center | Anchor::Right => 0.5,
        _ => 1.0,
    };
    let dx = to.0 as f32 - from.0 as f32;
    let dy = to.1 as f32 - from.1 as f32;
    ((dx * wx).round() as i32, (dy * wy).round() as i32)
}

const ALL_ANCHORS: [Anchor; 9] = [
    Anchor::TopLeft,
    Anchor::Top,
    Anchor::TopRight,
    Anchor::Left,
    Anchor::Center,
    Anchor::Right,
    Anchor::BottomLeft,
    Anchor::Bottom,
    Anchor::BottomRight,
];

#[test]
fn growing_from_the_centre_splits_the_change() {
    assert_eq!(Anchor::Center.shift((100, 100), (200, 300)), (50, 100));
    assert_eq!(Anchor::TopLeft.shift((100, 100), (200, 300)), (0, 0));
    assert_eq!(Anchor::BottomRight.shift((100, 100), (200, 300)), (100, 200));
    // An odd change rounds half away from zero, either way.
    assert_eq!(Anchor::Center.shift((100, 100), (101, 99)), (1, -1));
}

#[test]
fn the_same_size_shifts_nothing() {
    for a in ALL_ANCHORS {
        assert_eq!(a.shift((640, 480), (640, 480)), (0, 0));
    }
}

#[test]
fn shift_agrees_with_f32_arithmetic_everywhere() {
    let sizes: [u32; 16] = [
        0, 1, 2, 3, 99, 100, 4095, 16_777_215, 16_777_216, 16_777_217, 16_777_219,
        2_147_483_647, 2_147_483_648, 3_000_000_001, 4_294_967_294, u32::MAX,
    ];
    for a in ALL_ANCHORS {
        for &f0 in &sizes {
            for &t0 in &sizes {
                let from = (f0, t0);
                let to = (t0, f0);
                assert_eq!(a.shift(from, to), by_floats(a, from, to), "{a:?} {from:?} -> {to:?}");
            }
        }
    }
    let mut x: u64 = 12345;
    for _ in 0..20000 {
        x = x.wrapping_mul(6364136223846793005).wrapping_add(1442695040888963407);
        let from = ((x >> 3) as u32 >> (x % 9), (x >> 17) as u32 >> (x % 7));
        let to = ((x >> 29) as u32 >> (x % 5), (x >> 35) as u32);
        let a = ALL_ANCHORS[(x % 9) as usize];
        assert_eq!(a.shift(from, to), by_floats(a, from, to), "{a:?} {from:?} -> {to:?}");
    }
}

#[test]
fn anchors_default_to_the_centre_and_sit_in_a_grid() {
    assert_eq!(Anchor::default(), Anchor::Center);
    assert_eq!(Anchor::GRID[1][1], Anchor::Center);
    assert_eq!(Anchor::GRID[0][0], Anchor::TopLeft);
    assert_eq!(Anchor::GRID[2][2], Anchor::BottomRight);
}

#[test]
fn presets_are_named_for_the_menu() {
    assert_eq!(TransformPreset::Rotate90Cw.name(), "Rotate 90° Clockwise");
    assert_eq!(TransformPreset::Rotate90Ccw.name(), "Rotate 90° Counter Clockwise");
    assert_eq!(TransformPreset::Rotate180.name(), "Rotate 180°");
    assert_eq!(TransformPreset::FlipHorizontal.name(), "Flip Horizontal");
    assert_eq!(TransformPreset::FlipVertical.name(), "Flip Vertical");
    assert_eq!(TransformPreset::ALL.len(), 5);
    for (i, a) in TransformPreset::ALL.iter().enumerate() {
        for b in &TransformPreset::ALL[i + 1..] {
            assert_ne!(a.name(), b.name());
        }
    }
}

#[test]
fn modify_dialogs_are_titled_and_labelled() {
    assert_eq!(ModifyKind::Feather.title(), "Feather Selection");
    assert_eq!(ModifyKind::Expand.title(), "Expand Selection");
    assert_eq!(ModifyKind::Contract.title(), "Contract Selection");
    assert_eq!(ModifyKind::Border.title(), "Border Selection");
    assert_eq!(ModifyKind::Smooth.title(), "Smooth Selection");
    assert_eq!(ModifyKind::Feather.field(), "Feather Radius:");
    assert_eq!(ModifyKind::Expand.field(), "Expand By:");
    assert_eq!(ModifyKind::Contract.field(), "Contract By:");
    assert_eq!(ModifyKind::Border.field(), "Width:");
    assert_eq!(ModifyKind::Smooth.field(), "Sample Radius:");
}

#[test]
fn window_commands_carry_their_edge() {
    let c = WindowCommand::StartResize(ResizeEdge::NorthEast);
    assert_eq!(c, WindowCommand::StartResize(ResizeEdge::NorthEast));
    assert_ne!(c, WindowCommand::StartResize(ResizeEdge::SouthWest));
    assert_ne!(WindowCommand::Minimize, WindowCommand::Close);
}
