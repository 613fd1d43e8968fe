use os::batch::{run_next_app, AppImage, AppManager};
use os::loader::get_app_data;

#[test]
fn apps_run_in_order_then_none() {
    let table = [0x8040_0000usize, 0x8040_1000, 0x8040_1800, 0x8040_1800];
    let mut m = AppManager::new(3, &table);
    assert_eq!(m.get_current_app(), 0);
    assert_eq!(run_next_app(&mut m), Some(AppImage { start: 0x8040_0000, len: 0x1000 }));
    assert_eq!(m.get_current_app(), 1);
    assert_eq!(run_next_app(&mut m), Some(AppImage { start: 0x8040_1000, len: 0x800 }));
    assert_eq!(run_next_app(&mut m), Some(AppImage { start: 0x8040_1800, len: 0 }));
    assert_eq!(m.get_current_app(), 3);
    assert_eq!(run_next_app(&mut m), None);
    assert_eq!(m.get_current_app(), 3);
}

#[test]
fn load_app_and_move_on() {
    let table = [10usize, 20, 35];
    let mut m = AppManager::new(2, &table);
    assert_eq!(m.load_app(1), Some(AppImage { start: 20, len: 15 }));
    assert_eq!(m.load_app(2), None);
    m.move_to_next_app();
    assert_eq!(m.get_current_app(), 1);
}

#[test]
fn no_apps() {
    let mut m = AppManager::new(0, &[0x8040_0000]);
    assert_eq!(m.load_app(0), None);
    assert_eq!(run_next_app(&mut m), None);
}

#[test]
fn app_data_from_table() {
    let table = [0x100usize, 0x180, 0x400];
    assert_eq!(get_app_data(&table, 0), AppImage { start: 0x100, len: 0x80 });
    assert_eq!(get_app_data(&table, 1), AppImage { start: 0x180, len: 0x280 });
}

#[test]
fn only_the_loaded_image_needs_order() {
    let table = [10usize, 20, 5];
    let mut m = AppManager::new(2, &table);
    assert_eq!(run_next_app(&mut m), Some(AppImage { start: 10, len: 10 }));
    assert_eq!(m.get_current_app(), 1);
}
