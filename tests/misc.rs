use studyms::{
    player_gravity_machine, player_state_machine, AnimationIndices, BackGround, CustomFilterTag,
    tile_span, Backs, PlayerState, Resource, Tilemode,
};

fn mode(tile_x: bool, tile_y: bool, auto_scroll_x: bool, auto_scroll_y: bool) -> Tilemode {
    Tilemode { tile_x, tile_y, auto_scroll_x, auto_scroll_y }
}

fn back(types: i32) -> BackGround {
    BackGround::new(3, 10, -20, 0, 64, 50, -20, 255, false, true, 0, types, "bg.png".to_string())
}

#[test]
fn background_keeps_fields() {
    let b = back(3);
    assert_eq!(b.id, 3);
    assert_eq!(b.y, -20);
    assert_eq!(b.cy, 64);
    assert_eq!(b.ry, -20);
    assert!(b.front);
    assert_eq!(b.resource, "bg.png");
}

#[test]
fn background_tilemodes() {
    assert_eq!(back(0).tilemode, mode(false, false, false, false));
    assert_eq!(back(1).tilemode, mode(true, false, false, false));
    assert_eq!(back(2).tilemode, mode(false, true, false, false));
    assert_eq!(back(3).tilemode, mode(true, true, false, false));
    assert_eq!(back(4).tilemode, mode(true, false, true, false));
    assert_eq!(back(5).tilemode, mode(false, true, false, true));
    assert_eq!(back(6).tilemode, mode(true, true, true, false));
    assert_eq!(back(7).tilemode, mode(true, true, false, true));
    assert_eq!(back(8).tilemode, mode(false, false, false, false));
    assert_eq!(back(-1).tilemode, mode(false, false, false, false));
}

#[test]
fn filter_tag_bits() {
    assert_eq!(CustomFilterTag::GroupA.bits(), 1);
    assert_eq!(CustomFilterTag::GroupB.bits(), 2);
    assert_eq!(CustomFilterTag::GroupC.bits(), 4);
    assert_eq!(CustomFilterTag::GroupD.bits(), 8);
}

#[test]
fn velocity_clips() {
    assert_eq!(player_state_machine(false, 0, PlayerState::Standing), PlayerState::Jumping);
    assert_eq!(player_state_machine(true, 50_000, PlayerState::Walking), PlayerState::Standing);
    assert_eq!(player_state_machine(true, 50_000, PlayerState::Prone), PlayerState::Prone);
    assert_eq!(player_state_machine(true, 2_000_000, PlayerState::Standing), PlayerState::Walking);
    assert_eq!(player_state_machine(true, -2_000_000, PlayerState::Prone), PlayerState::Walking);
    assert_eq!(player_state_machine(true, 500_000, PlayerState::Walking), PlayerState::Walking);
}

#[test]
fn fall_speed_is_capped() {
    assert_eq!(player_gravity_machine(-300_000_000), -220_000_000);
    assert_eq!(player_gravity_machine(-220_000_000), -220_000_000);
    assert_eq!(player_gravity_machine(-5), -5);
    assert_eq!(player_gravity_machine(40), 40);
}

#[test]
fn frames_advance_and_wrap() {
    let a = AnimationIndices { index: 0, sprite_indices: vec![3, 5, 7] };
    assert_eq!(a.advance(5, 1), 7);
    assert_eq!(a.advance(5, 2), 3);
    assert_eq!(a.advance(7, 0), 7);
    assert_eq!(a.advance(9, 1), 5);
    assert_eq!(a.advance(3, 7), 5);
}

#[test]
fn tiles_start_at_or_before_screen_edge() {
    assert_eq!(tile_span(10, 100, -250, 550), (-290, 10));
    assert_eq!(tile_span(-1000, 64, 0, 800), (-40, 15));
    assert_eq!(tile_span(5, 10, 5, 5), (5, 2));
}

#[test]
fn cell_size_falls_back_to_image() {
    let b = back(1);
    assert_eq!(b.cell_size(300, 200), (300, 64));
}

fn backs(ani: i32, y: i32) -> Backs {
    Backs {
        id: 2,
        x: 40,
        y,
        cx: 0,
        cy: 0,
        rx: -50,
        ry: 0,
        alpha: 255,
        flip_x: true,
        front: false,
        ani,
        types: 4,
        resource: Resource {
            width: 800,
            height: 600,
            origin_x: 400,
            origin_y: 300,
            z: 0,
            resource_url: "back/sky.png".to_string(),
        },
    }
}

#[test]
fn plain_backs_become_backgrounds_with_y_up() {
    let b = backs(0, 120).to_background("sky".to_string()).unwrap();
    assert_eq!(b.id, 2);
    assert_eq!(b.x, 40);
    assert_eq!(b.y, -120);
    assert_eq!(b.rx, -50);
    assert!(b.flip_x);
    assert_eq!(b.resource, "sky");
    assert_eq!(b.tilemode, mode(true, false, true, false));
    let low = backs(0, i32::MIN).to_background(String::new()).unwrap();
    assert_eq!(low.y, i32::MIN);
}

#[test]
fn animated_backs_are_not_drawn() {
    assert!(backs(1, 0).to_background(String::new()).is_none());
    assert!(backs(2, 0).to_background(String::new()).is_none());
}
