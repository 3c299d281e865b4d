use devtools::model::Settings;
use devtools::worker::geometry::{quick_input_geometry, QuickInputGeometry, WorkArea};

const SCREEN: WorkArea = WorkArea { x: 0, y: 0, width: 1920, height: 1080 };

#[test]
fn keeps_requested_size_without_a_monitor() {
    let mut settings = Settings::default();
    settings.quick_input_width = 5000;
    settings.quick_input_height = 10;
    assert_eq!(
        quick_input_geometry(&settings, None, false),
        QuickInputGeometry { width: 1600, height: 40, position: None }
    );
}

#[test]
fn places_the_window_below_the_pointer_inside_the_work_area() {
    let settings = Settings::default();
    assert_eq!(
        quick_input_geometry(&settings, Some((100, 200, SCREEN)), false),
        QuickInputGeometry { width: 560, height: 56, position: Some((100, 216)) }
    );
    assert_eq!(
        quick_input_geometry(&settings, Some((1900, 1070, SCREEN)), false),
        QuickInputGeometry { width: 560, height: 56, position: Some((1348, 1012)) }
    );
    assert_eq!(
        quick_input_geometry(&settings, Some((-50, -50, SCREEN)), false),
        QuickInputGeometry { width: 560, height: 56, position: Some((12, 12)) }
    );
}

#[test]
fn fits_the_size_to_small_work_areas_and_leaves_wayland_placement_alone() {
    let mut settings = Settings::default();
    settings.quick_input_width = 1600;
    settings.quick_input_height = 240;
    let small = WorkArea { x: 100, y: 50, width: 500, height: 100 };
    assert_eq!(
        quick_input_geometry(&settings, Some((300, 60, small)), true),
        QuickInputGeometry { width: 476, height: 76, position: None }
    );
    let tiny = WorkArea { x: 0, y: 0, width: 200, height: 30 };
    assert_eq!(
        quick_input_geometry(&settings, Some((10, 10, tiny)), false),
        QuickInputGeometry { width: 240, height: 40, position: Some((12, 12)) }
    );
}
