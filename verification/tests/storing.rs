use ed_timelapse::screenshot::Screenshot;
use ed_timelapse::timelapse::{
    date_pattern, deliver, store_screenshot, time_pattern, Delivery, StorePlan,
};

fn shot() -> Screenshot {
    Screenshot {
        path: "C:\\Pictures\\Frontier Developments\\Elite Dangerous\\Screenshot_0001.bmp".to_string(),
        location: "Mitterand Hollow".to_string(),
    }
}

#[test]
fn patterns_of_date_and_time() {
    assert_eq!(date_pattern(), "%Y-%m-%d");
    assert_eq!(time_pattern(), "%H-%M-%S");
}

#[test]
fn stored_screenshot_goes_to_day_and_place() {
    let plan = store_screenshot(shot(), true, "2024-05-17", "21-04-59");
    assert_eq!(
        plan,
        StorePlan {
            source: shot().path,
            folder: "2024-05-17 Mitterand Hollow".to_string(),
            file_name: "21-04-59.jpg".to_string(),
            remove_original: true,
        }
    );
}

#[test]
fn original_is_kept_when_asked() {
    let plan = store_screenshot(shot(), false, "2024-05-17", "00-00-00");
    assert!(!plan.remove_original);
    assert_eq!(plan.file_name, "00-00-00.jpg");
}

#[test]
fn unknown_location_names_the_folder_too() {
    let nowhere = Screenshot { path: "p".to_string(), location: "Unknown location".to_string() };
    let plan = store_screenshot(nowhere, true, "2025-01-02", "03-04-05");
    assert_eq!(plan.folder, "2025-01-02 Unknown location");
}

#[test]
fn unorganized_screenshot_stays_in_place() {
    assert_eq!(deliver(shot(), false, true, "2024-05-17", "21-04-59"), Delivery::Keep(shot().path));
    assert_eq!(deliver(shot(), false, false, "", ""), Delivery::Keep(shot().path));
}

#[test]
fn organized_screenshot_is_stored() {
    assert_eq!(
        deliver(shot(), true, false, "2024-05-17", "21-04-59"),
        Delivery::Store(store_screenshot(shot(), false, "2024-05-17", "21-04-59"))
    );
    assert_eq!(
        deliver(shot(), true, true, "2024-05-17", "21-04-59"),
        Delivery::Store(StorePlan {
            source: shot().path,
            folder: "2024-05-17 Mitterand Hollow".to_string(),
            file_name: "21-04-59.jpg".to_string(),
            remove_original: true,
        })
    );
}
