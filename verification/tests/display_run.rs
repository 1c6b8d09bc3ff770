use tdf::kitty::{
    direct_display_config, tmux_display_config, CursorMovementPolicy, DisplayConfig, DisplayLocation,
    KittyAction, KittyDisplay, KittyDisplayRun, KittyImage, KittyReadyToDisplay, MaybeTransferred,
    NumberOrId, Position,
};

fn loc(columns: u16, rows: u16) -> DisplayLocation {
    DisplayLocation { columns, rows, x: 3, ..DisplayLocation::default() }
}

fn item(img: KittyImage, page_num: usize) -> KittyReadyToDisplay {
    KittyReadyToDisplay {
        img,
        page_num,
        pos: Position { x: page_num as u16, y: 1 },
        display_loc: loc(0, 7),
        cell_w: 10,
        cell_h: 20,
    }
}

fn not_yet(id: u32) -> KittyImage {
    KittyImage::Cached(MaybeTransferred::NotYet(NumberOrId::Id(id)))
}

fn transferred(id: u32) -> KittyImage {
    KittyImage::Cached(MaybeTransferred::Transferred(id))
}

#[test]
fn defaults_match_protocol() {
    let c = DisplayConfig::default();
    assert_eq!(c.cursor_movement, CursorMovementPolicy::MoveToAfterImage);
    assert!(!c.create_virtual_placement);
    assert_eq!(c.parent_id, None);
    assert_eq!(c.parent_placement, None);
    assert_eq!(c.location.columns, 0);
    assert_eq!(c.location.rows, 0);
    assert_eq!(c.location.z_index, 0);
}

#[test]
fn tmux_config_fills_open_extent() {
    let c = tmux_display_config(loc(0, 0), 12, 34);
    assert_eq!((c.location.columns, c.location.rows), (12, 34));
    assert_eq!(c.location.x, 3);
    assert_eq!(c.cursor_movement, CursorMovementPolicy::DontMove);
    assert!(c.create_virtual_placement);
    let c = tmux_display_config(loc(5, 6), 12, 34);
    assert_eq!((c.location.columns, c.location.rows), (5, 6));
    let c = tmux_display_config(loc(5, 0), 12, 34);
    assert_eq!((c.location.columns, c.location.rows), (5, 34));
}

#[test]
fn direct_config_keeps_location() {
    let c = direct_display_config(loc(0, 0));
    assert_eq!(c.location, loc(0, 0));
    assert_eq!(c.cursor_movement, CursorMovementPolicy::DontMove);
    assert!(!c.create_virtual_placement);
}

#[test]
fn number_or_id_value() {
    assert_eq!(NumberOrId::Id(4).get(), 4);
    assert_eq!(NumberOrId::Number(9).get(), 9);
}

#[test]
fn no_change_does_nothing() {
    let (run, action) = KittyDisplayRun::<String>::start(KittyDisplay::NoChange, None, 1);
    assert_eq!(action, KittyAction::Finished);
    assert_eq!(run.into_result(), Ok(()));
    let (run, action) = KittyDisplayRun::<String>::start(KittyDisplay::NoChange, Some((1, 2)), 1);
    assert_eq!(action, KittyAction::Finished);
    assert_eq!(run.into_result(), Ok(()));
}

#[test]
fn clear_directly() {
    let (mut run, action) = KittyDisplayRun::<String>::start(KittyDisplay::ClearImages, None, 1);
    assert_eq!(action, KittyAction::ClearAll);
    assert_eq!(run.after_clear(Ok(())), KittyAction::Finished);
    assert_eq!(run.into_result(), Ok(()));
}

#[test]
fn clear_under_tmux_is_skipped() {
    let (run, action) = KittyDisplayRun::<String>::start(KittyDisplay::ClearImages, Some((0, 0)), 1);
    assert_eq!(action, KittyAction::Finished);
    assert_eq!(run.into_result(), Ok(()));
}

#[test]
fn failed_clear_aborts() {
    let display = KittyDisplay::DisplayImages(vec![item(not_yet(5), 0)]);
    let (mut run, action) = KittyDisplayRun::<String>::start(display, None, 1);
    assert_eq!(action, KittyAction::ClearAll);
    assert_eq!(run.after_clear(Err("gone".to_string())), KittyAction::Finished);
    assert_eq!(
        run.into_result(),
        Err((vec![], "Couldn't clear previous images", "gone".to_string()))
    );
}

#[test]
fn direct_display_of_cached_pages() {
    let display = KittyDisplay::DisplayImages(vec![item(not_yet(5), 0), item(transferred(8), 1)]);
    let (mut run, action) = KittyDisplayRun::<String>::start(display, None, 1);
    assert_eq!(action, KittyAction::ClearAll);
    let action = run.after_clear(Ok(()));
    assert_eq!(
        action,
        KittyAction::TransmitAndDisplay {
            index: 0,
            config: direct_display_config(loc(0, 7)),
            placement_id: None,
            at: Some(Position { x: 0, y: 1 }),
        }
    );
    let action = run.after_image(Ok(42));
    assert_eq!(
        action,
        KittyAction::Display {
            index: 1,
            image_id: 8,
            config: direct_display_config(loc(0, 7)),
            at: Some(Position { x: 1, y: 1 }),
        }
    );
    assert_eq!(run.items_ref()[0].img, transferred(42));
    assert_eq!(run.after_image(Ok(8)), KittyAction::Finished);
    assert_eq!(run.items_ref()[1].img, transferred(8));
    assert_eq!(run.into_result(), Ok(()));
}

#[test]
fn tmux_display_with_placeholders() {
    let display = KittyDisplay::DisplayImages(vec![
        item(not_yet(5), 0),
        item(transferred(8), 1),
        item(KittyImage::Dynamic, 2),
    ]);
    let (mut run, action) = KittyDisplayRun::<String>::start(display, Some((3, 4)), 100);
    let config = tmux_display_config(loc(0, 7), 10, 20);
    assert_eq!(
        action,
        KittyAction::TransmitAndDisplay { index: 0, config, placement_id: Some(5), at: None }
    );
    assert_eq!(
        run.after_image(Ok(77)),
        KittyAction::Placeholders { image_id: 77, pos: Position { x: 0, y: 1 }, cell_w: 10, cell_h: 20 }
    );
    assert_eq!(
        run.after_placeholders(),
        KittyAction::Display { index: 1, image_id: 8, config, at: None }
    );
    assert_eq!(
        run.after_image(Ok(999)),
        KittyAction::Placeholders { image_id: 8, pos: Position { x: 1, y: 1 }, cell_w: 10, cell_h: 20 }
    );
    assert_eq!(
        run.after_placeholders(),
        KittyAction::TransmitDynamic { index: 2, image_id: 102, config }
    );
    assert_eq!(
        run.after_image(Ok(102)),
        KittyAction::Placeholders { image_id: 102, pos: Position { x: 2, y: 1 }, cell_w: 10, cell_h: 20 }
    );
    assert_eq!(run.after_placeholders(), KittyAction::Finished);
    assert_eq!(run.items_ref()[0].img, transferred(77));
    assert_eq!(run.items_ref()[2].img, KittyImage::Dynamic);
    assert_eq!(run.into_result(), Ok(()));
}

#[test]
fn failures_are_collected_in_order() {
    let display = KittyDisplay::DisplayImages(vec![
        item(not_yet(5), 10),
        item(transferred(8), 11),
        item(KittyImage::Dynamic, 12),
        item(transferred(9), 13),
    ]);
    let (mut run, _) = KittyDisplayRun::<&str>::start(display, Some((0, 0)), 1);
    // a failure skips the placeholders and moves on
    assert_eq!(
        run.after_image(Err("first")),
        KittyAction::Display { index: 1, image_id: 8, config: tmux_display_config(loc(0, 7), 10, 20), at: None }
    );
    assert!(matches!(run.after_image(Ok(8)), KittyAction::Placeholders { image_id: 8, .. }));
    assert!(matches!(run.after_placeholders(), KittyAction::TransmitDynamic { image_id: 13, .. }));
    assert!(matches!(run.after_image(Err("second")), KittyAction::Display { index: 3, .. }));
    assert_eq!(run.after_image(Err("third")), KittyAction::Finished);
    // the image that failed to transmit is still not transferred
    assert_eq!(run.items_ref()[0].img, not_yet(5));
    assert_eq!(
        run.into_result(),
        Err((vec![10, 12, 13], "Couldn't transfer image to the terminal", "first"))
    );
}

#[test]
fn empty_batch_under_tmux() {
    let (run, action) = KittyDisplayRun::<()>::start(KittyDisplay::DisplayImages(vec![]), Some((0, 0)), 1);
    assert_eq!(action, KittyAction::Finished);
    assert_eq!(run.into_result(), Ok(()));
}

#[test]
fn empty_batch_directly_still_clears() {
    let (mut run, action) = KittyDisplayRun::<()>::start(KittyDisplay::DisplayImages(vec![]), None, 1);
    assert_eq!(action, KittyAction::ClearAll);
    assert_eq!(run.after_clear(Ok(())), KittyAction::Finished);
    assert_eq!(run.into_result(), Ok(()));
}

#[test]
fn transferred_image_is_redisplayed_next_time() {
    let display = KittyDisplay::DisplayImages(vec![item(not_yet(5), 4)]);
    let (mut run, _) = KittyDisplayRun::<()>::start(display, Some((0, 0)), 1);
    run.after_image(Ok(31));
    assert_eq!(run.after_placeholders(), KittyAction::Finished);
    let updated = run.items_ref()[0];
    assert_eq!(run.into_result(), Ok(()));
    let (_, action) = KittyDisplayRun::<()>::start(KittyDisplay::DisplayImages(vec![updated]), Some((0, 0)), 1);
    assert_eq!(
        action,
        KittyAction::Display { index: 0, image_id: 31, config: tmux_display_config(loc(0, 7), 10, 20), at: None }
    );
}
