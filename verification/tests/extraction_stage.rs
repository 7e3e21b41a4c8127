use bevy_mod_ui_independent_text::{
    extract_text_sprite, resolve_camera, DrawPrimitive, StaleLayout, TextSprite,
};

type Rgba = [f32; 4];

const WHITE: Rgba = [1.0, 1.0, 1.0, 1.0];
const RED: Rgba = [1.0, 0.0, 0.0, 1.0];
const NAVY: Rgba = [0.0, 0.0, 0.5, 1.0];

fn sprite(depth: u32, glyph_sections: Vec<usize>) -> TextSprite<Rgba> {
    TextSprite {
        visible: true,
        target_camera: None,
        depth,
        section_colors: vec![WHITE, RED, NAVY],
        glyph_sections,
    }
}

#[test]
fn camera_of_the_text_comes_first() {
    assert_eq!(resolve_camera(Some(3), Some(4)), Some(3));
    assert_eq!(resolve_camera(Some(3), None), Some(3));
}

#[test]
fn default_camera_stands_in() {
    assert_eq!(resolve_camera(None, Some(4)), Some(4));
}

#[test]
fn no_camera_at_all() {
    assert_eq!(resolve_camera(None, None), None);
}

#[test]
fn one_primitive_for_each_glyph() {
    let text = sprite(7, vec![0, 0, 1, 2, 2]);
    let primitives = extract_text_sprite(&text, Some(40)).unwrap();
    let expected: Vec<DrawPrimitive<Rgba>> = [WHITE, WHITE, RED, NAVY, NAVY]
        .into_iter()
        .enumerate()
        .map(|(glyph, color)| DrawPrimitive {
            stack_index: 7,
            camera: 40,
            glyph,
            color,
            flip_x: false,
            flip_y: false,
        })
        .collect();
    assert_eq!(primitives, expected);
}

#[test]
fn sections_need_not_come_in_order() {
    let text = sprite(0, vec![2, 0, 1, 0]);
    let primitives = extract_text_sprite(&text, Some(1)).unwrap();
    let colors: Vec<Rgba> = primitives.iter().map(|p| p.color).collect();
    assert_eq!(colors, vec![NAVY, WHITE, RED, WHITE]);
    let glyphs: Vec<usize> = primitives.iter().map(|p| p.glyph).collect();
    assert_eq!(glyphs, vec![0, 1, 2, 3]);
}

#[test]
fn hidden_text_gives_nothing() {
    let mut text = sprite(7, vec![0, 1, 2]);
    text.visible = false;
    assert_eq!(extract_text_sprite(&text, Some(40)), Ok(vec![]));
    text.target_camera = Some(3);
    assert_eq!(extract_text_sprite(&text, None), Ok(vec![]));
}

#[test]
fn hidden_text_with_a_stale_layout_gives_nothing() {
    let mut text = sprite(7, vec![0, 5, 2]);
    text.visible = false;
    assert_eq!(extract_text_sprite(&text, Some(40)), Ok(vec![]));
}

#[test]
fn text_without_a_camera_gives_nothing() {
    let text = sprite(7, vec![0, 1, 2]);
    assert_eq!(extract_text_sprite(&text, None), Ok(vec![]));
    let stale = sprite(7, vec![3]);
    assert_eq!(extract_text_sprite(&stale, None), Ok(vec![]));
}

#[test]
fn text_without_glyphs_gives_nothing() {
    let text = sprite(7, vec![]);
    assert_eq!(extract_text_sprite(&text, Some(40)), Ok(vec![]));
}

#[test]
fn stale_layout_is_reported_at_its_first_glyph() {
    let text = sprite(7, vec![0, 2, 3, 1, 9]);
    assert_eq!(
        extract_text_sprite(&text, Some(40)),
        Err(StaleLayout { glyph: 2, section: 3 })
    );
}

#[test]
fn text_without_sections_cannot_have_glyphs() {
    let text: TextSprite<Rgba> = TextSprite {
        visible: true,
        target_camera: Some(1),
        depth: 0,
        section_colors: vec![],
        glyph_sections: vec![0],
    };
    assert_eq!(extract_text_sprite(&text, None), Err(StaleLayout { glyph: 0, section: 0 }));
}

#[test]
fn depth_100_is_stacked_above_depth_1() {
    let above = sprite(100, vec![0, 1]);
    let below = sprite(1, vec![2, 2, 0]);
    // extracted in either order, the result is the same
    let first = extract_text_sprite(&below, Some(40)).unwrap();
    let second = extract_text_sprite(&above, Some(40)).unwrap();
    assert_eq!(second, extract_text_sprite(&above, Some(40)).unwrap());
    assert_eq!(first.len(), 3);
    assert_eq!(second.len(), 2);
    for upper in &second {
        assert_eq!(upper.stack_index, 100);
        for lower in &first {
            assert_eq!(lower.stack_index, 1);
            assert!(upper.stack_index > lower.stack_index);
        }
    }
}

#[test]
fn equal_depths_share_a_stack_index() {
    let one = extract_text_sprite(&sprite(5, vec![0]), Some(40)).unwrap();
    let other = extract_text_sprite(&sprite(5, vec![1]), Some(40)).unwrap();
    assert_eq!(one[0].stack_index, other[0].stack_index);
}

#[test]
fn greatest_depth_is_kept() {
    let top = extract_text_sprite(&sprite(u32::MAX, vec![0]), Some(40)).unwrap();
    assert_eq!(top[0].stack_index, u32::MAX);
}

#[test]
fn target_camera_is_used_though_a_default_exists() {
    let mut text = sprite(3, vec![0, 1]);
    text.target_camera = Some(77);
    let with_default = extract_text_sprite(&text, Some(40)).unwrap();
    let without_default = extract_text_sprite(&text, None).unwrap();
    assert_eq!(with_default.len(), 2);
    assert!(with_default.iter().all(|p| p.camera == 77));
    assert_eq!(with_default, without_default);
}

#[test]
fn default_camera_is_used_without_a_target() {
    let text = sprite(3, vec![0, 1]);
    let primitives = extract_text_sprite(&text, Some(40)).unwrap();
    assert!(primitives.iter().all(|p| p.camera == 40));
}

#[test]
fn primitives_are_not_flipped() {
    let text = sprite(3, vec![0, 1, 2]);
    let primitives = extract_text_sprite(&text, Some(40)).unwrap();
    assert!(primitives.iter().all(|p| !p.flip_x && !p.flip_y));
}
