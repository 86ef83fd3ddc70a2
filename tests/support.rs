use wallpaper_changer::config::{interval_from_stored, interval_from_value};
use wallpaper_changer::desktop::wide_path;
use wallpaper_changer::images::{file_url, list_files, FileInfo};
use wallpaper_changer::rotation::DirEntryInfo;
use wallpaper_changer::scheduler::Scheduler;

#[test]
fn bootstrap_from_stored_number() {
    assert_eq!(interval_from_stored(Some(120)), 120);
    assert_eq!(interval_from_stored(None), 300);
    assert_eq!(interval_from_stored(Some(0)), 300);
}

#[test]
fn bootstrap_from_json_value() {
    assert_eq!(interval_from_value(Some(&serde_json::Value::from(120u64))), 120);
    assert_eq!(interval_from_value(Some(&serde_json::Value::from("120"))), 300);
    assert_eq!(interval_from_value(Some(&serde_json::Value::from(-5i64))), 300);
    assert_eq!(interval_from_value(Some(&serde_json::Value::Null)), 300);
    assert_eq!(interval_from_value(None), 300);
    assert_eq!(Scheduler::from_config(Some(&serde_json::Value::from(45u64))).get_interval(), 45);
    assert_eq!(Scheduler::from_config(None).get_interval(), 300);
}

#[test]
fn wide_path_is_utf16_with_terminator() {
    assert_eq!(wide_path(""), vec![0u16]);
    assert_eq!(wide_path("C:\\a.png"), vec![67, 58, 92, 97, 46, 112, 110, 103, 0]);
    assert_eq!(wide_path("é😀"), vec![0xE9, 0xD83D, 0xDE00, 0]);
    let s = "D:\\Bilder\\Straße\\𝄞.jpg";
    let mut expected: Vec<u16> = s.encode_utf16().collect();
    expected.push(0);
    assert_eq!(wide_path(s), expected);
}

#[test]
fn file_url_points_at_image_server() {
    assert_eq!(file_url("a.png"), "http://127.0.0.1:8080/a.png");
    assert_eq!(file_url(""), "http://127.0.0.1:8080/");
}

#[test]
fn list_files_keeps_regular_files() {
    let entries = vec![
        DirEntryInfo { name: "a.png".to_string(), is_file: true },
        DirEntryInfo { name: "sub".to_string(), is_file: false },
        DirEntryInfo { name: "notes.txt".to_string(), is_file: true },
    ];
    assert_eq!(
        list_files(&entries),
        vec![
            FileInfo { name: "a.png".to_string(), data: "http://127.0.0.1:8080/a.png".to_string() },
            FileInfo {
                name: "notes.txt".to_string(),
                data: "http://127.0.0.1:8080/notes.txt".to_string(),
            },
        ]
    );
    assert!(list_files(&Vec::new()).is_empty());
}
