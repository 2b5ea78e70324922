use egui_glfw::MonitorData;
use egui_glfw::find_monitor;

#[test]
fn monitor_data_holds_position_and_size() {
    let m = MonitorData::new((100, 200), (1920, 1080));
    assert_eq!(m.pos, (100, 200));
    assert_eq!(m.size, (1920, 1080));
}

#[test]
fn find_monitor_picks_the_first_containing_monitor() {
    let monitors = vec![
        MonitorData::new((0, 0), (1920, 1080)),
        MonitorData::new((1920, 0), (1920, 1080)),
    ];
    assert_eq!(find_monitor(&monitors, (10, 10)), 0);
    assert_eq!(find_monitor(&monitors, (2000, 500)), 1);
    // A border point belongs to the first monitor that reaches it.
    assert_eq!(find_monitor(&monitors, (1920, 0)), 0);
}

#[test]
fn find_monitor_falls_back_to_the_first_monitor() {
    let monitors = vec![MonitorData::new((0, 0), (800, 600))];
    assert_eq!(find_monitor(&monitors, (5000, 5000)), 0);
}
