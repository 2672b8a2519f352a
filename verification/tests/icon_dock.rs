use markeron::{
    dock_menu_actions, dock_menu_source, dock_menu_subclass_name, load_icon_from_png,
    icon_from_decoded, DockMenuAction, IconError, IconImage,
};

fn encode_png(width: u32, height: u32, rgba: Vec<u8>) -> Vec<u8> {
    let img = image::RgbaImage::from_raw(width, height, rgba).unwrap();
    let mut out = std::io::Cursor::new(Vec::new());
    img.write_to(&mut out, image::ImageFormat::Png).unwrap();
    out.into_inner()
}

#[test]
fn load_icon_decodes_png() {
    let rgba = vec![255, 0, 0, 255, 0, 255, 0, 128];
    let png = encode_png(2, 1, rgba.clone());
    let icon = load_icon_from_png(&png).unwrap();
    assert_eq!(icon.width, 2);
    assert_eq!(icon.height, 1);
    assert_eq!(icon.rgba, rgba);
    assert_ne!(icon.rgba, png);
}

#[test]
fn load_icon_rejects_garbage() {
    for bytes in [&b"not an image"[..], &[][..]] {
        match load_icon_from_png(bytes) {
            Err(IconError::Undecodable(message)) => assert!(!message.is_empty()),
            Ok(_) => panic!("garbage decoded as an icon"),
        }
    }
}

#[test]
fn dock_menu_entries_in_order() {
    let actions = dock_menu_actions();
    assert_eq!(
        actions,
        vec![
            DockMenuAction::ToggleDrawing,
            DockMenuAction::ClearDrawing,
            DockMenuAction::TogglePenetration
        ]
    );
    let names: Vec<&str> = actions.iter().map(|a| a.action_name()).collect();
    assert_eq!(names, vec!["toggle_drawing", "clear_drawing", "toggle_penetration"]);
    let selectors: Vec<&str> = actions.iter().map(|a| a.selector_name()).collect();
    assert_eq!(
        selectors,
        vec!["markerOnToggleDrawing:", "markerOnClearDrawing:", "markerOnTogglePenetration:"]
    );
    assert_eq!(dock_menu_source(), "dock-menu");
}

#[test]
fn dock_subclass_name_appends_superclass() {
    assert_eq!(dock_menu_subclass_name("AppDelegate"), "MarkerOnDockMenuDelegate_AppDelegate");
    assert_eq!(dock_menu_subclass_name(""), "MarkerOnDockMenuDelegate_");
}

#[test]
fn icon_from_decoded_keeps_samples_and_message() {
    let icon = icon_from_decoded(Ok((vec![1, 2, 3, 4], 1, 1))).unwrap();
    assert_eq!(icon, IconImage { rgba: vec![1, 2, 3, 4], width: 1, height: 1 });
    assert_eq!(
        icon_from_decoded(Err("bad signature".to_string())).unwrap_err(),
        IconError::Undecodable("bad signature".to_string())
    );
}
