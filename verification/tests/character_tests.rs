use tilescene::character::Character;

#[test]
fn new_character_carries_its_roster_entry() {
    let c = Character::new("Kas", "Shopkeeper", 100, 100);
    assert_eq!(c.name, "Kas");
    assert_eq!(c.job, "Shopkeeper");
    assert_eq!((c.x, c.y), (100, 100));
}

#[test]
fn new_character_has_the_standard_clip_tables() {
    let c = Character::new("Jeid", "Barkeeper", 200, 200);
    let idle: Vec<&str> = c.idle_sprite.clips.iter().map(|cl| cl.name.as_str()).collect();
    assert_eq!(idle, ["idle_down", "idle_left", "idle_up", "idle_right"]);
    let walk: Vec<&str> = c.walk_sprite.clips.iter().map(|cl| cl.name.as_str()).collect();
    assert_eq!(walk, ["walk_down", "walk_left", "walk_up", "walk_right"]);
    for (i, cl) in c.idle_sprite.clips.iter().enumerate() {
        assert_eq!(cl.row, i as u32);
        assert_eq!(cl.frame_count, 4);
        assert_eq!(cl.fps, 5);
    }
    assert_eq!(c.idle_sprite.frame_index, 0);
    assert_eq!(c.idle_sprite.elapsed_us, 0);
    assert_eq!(c.idle_sprite.current_clip, 0);
}

#[test]
fn draw_places_the_current_frame_then_advances() {
    let mut c = Character::new("Bres", "Peasant", 400, 230);
    // One full frame duration at 5 fps.
    let cmd = c.draw(200_000);
    assert_eq!((cmd.dest_x, cmd.dest_y), (400, 230));
    assert_eq!((cmd.dest_w, cmd.dest_h), (16, 16));
    assert_eq!((cmd.source.x, cmd.source.y, cmd.source.w, cmd.source.h), (0, 0, 16, 16));
    assert!(!cmd.flip_h && !cmd.flip_v);
    // The first call drew frame 0 and advanced; the second shows frame 1.
    let cmd2 = c.draw(200_000);
    assert_eq!(cmd2.source.x, 16);
    assert_eq!(c.idle_sprite.frame_index, 2);
    // Walking clock untouched.
    assert_eq!(c.walk_sprite.frame_index, 0);
}

#[test]
fn switching_the_active_clip_mid_cycle_resets_the_frame() {
    let mut c = Character::new("Kas", "Shopkeeper", 100, 100);
    c.draw(200_000);
    c.draw(250_000);
    assert_eq!(c.idle_sprite.frame_index, 2);
    c.idle_sprite.set_clip(2);
    assert_eq!(c.idle_sprite.current_clip, 2);
    assert_eq!(c.idle_sprite.frame_index, 0);
    assert_eq!(c.idle_sprite.elapsed_us, 0);
    // The next draw samples the new clip's strip at frame zero.
    let cmd = c.draw(0);
    assert_eq!((cmd.source.x, cmd.source.y), (0, 32));
}
