use cavestory::no_data_scene::NoDataScene;

#[test]
fn data_error_is_shown_once() {
    let mut scene = NoDataScene::new("missing data".to_string());
    assert!(scene.tick());
    assert!(!scene.tick());
    assert_eq!(scene.err, "missing data");
}
