use screencap::files::{
    analyze_files_and_folders, analyze_item, format_size, get_item_type_and_extension, ItemInput,
};
use screencap::files::MAX_TIMESTAMP_MILLIS;
use screencap::settings::{SettingEntry, SettingItem, Settings};

fn float_size(size: u64) -> String {
    const KB: u64 = 1024;
    const MB: u64 = KB * 1024;
    const GB: u64 = MB * 1024;
    if size >= GB {
        format!("{:.2} GB", size as f64 / GB as f64)
    } else if size >= MB {
        format!("{:.2} MB", size as f64 / MB as f64)
    } else if size >= KB {
        format!("{:.2} KB", size as f64 / KB as f64)
    } else {
        format!("{} bytes", size)
    }
}

#[test]
fn format_size_exact_values() {
    assert_eq!(format_size(0), "0 bytes");
    assert_eq!(format_size(1023), "1023 bytes");
    assert_eq!(format_size(1024), "1.00 KB");
    assert_eq!(format_size(1536), "1.50 KB");
    assert_eq!(format_size(1_048_576), "1.00 MB");
    assert_eq!(format_size(1_073_741_824), "1.00 GB");
    assert_eq!(format_size(5 * 1_073_741_824 + 536_870_912), "5.50 GB");
    assert_eq!(format_size(1_048_575), "1024.00 KB");
}

#[test]
fn format_size_agrees_with_float_formatting() {
    let mut samples: Vec<u64> = vec![1152, 1035, 1034, 2047, 10_000, 123_456_789, 999_999_999_999];
    let mut x: u64 = 1;
    while x < (1u64 << 52) {
        samples.push(x);
        samples.push(x + 5);
        samples.push(x * 7 / 3);
        x = x * 3 + 1;
    }
    for s in samples {
        assert_eq!(format_size(s), float_size(s), "size {}", s);
    }
}

#[test]
fn item_kinds_and_extensions() {
    let kind = |n: &str, m: &str| get_item_type_and_extension(n, m);
    assert_eq!(kind("folder", "directory"), ("Directory".to_string(), String::new()));
    assert_eq!(kind("Song.MP3", "audio/mpeg"), ("Audio".to_string(), "mp3".to_string()));
    assert_eq!(kind("clip.mp4", "video/mp4"), ("Video".to_string(), "mp4".to_string()));
    assert_eq!(kind("notes.txt", "text/plain"), ("Text".to_string(), "txt".to_string()));
    assert_eq!(kind("paper.PDF", "application/pdf"), ("Text".to_string(), "pdf".to_string()));
    assert_eq!(
        kind("setup.exe", "application/x-msdownload"),
        ("Executable".to_string(), "exe".to_string())
    );
    assert_eq!(kind("run", "application/x-executable"), ("Executable".to_string(), String::new()));
    assert_eq!(kind("photo.JpEg", "image/jpeg"), ("Image".to_string(), "jpeg".to_string()));
    assert_eq!(kind("archive.tar.gz", "application/gzip"), ("Other".to_string(), "gz".to_string()));
    assert_eq!(kind(".bashrc", "text/x-shellscript"), ("Text".to_string(), String::new()));
    assert_eq!(kind("a.pdfx", "application/pdfx"), ("Other".to_string(), "pdfx".to_string()));
}

fn item(name: &str, mime: &str, size: u64, ms: u64, dir: bool, children: Option<Vec<ItemInput>>) -> ItemInput {
    ItemInput {
        name: name.to_string(),
        path: format!("/home/u/{}", name),
        item_type: mime.to_string(),
        size,
        last_modified: ms,
        contents: None,
        is_directory: dir,
        children,
    }
}

#[test]
fn analyze_file_item() {
    let d = analyze_item(item("report.PDF", "application/pdf", 2048, 1_700_000_000_000, false, None)).unwrap();
    assert_eq!(d.id, "/home/u/report.PDF");
    assert_eq!(d.name, "report.PDF");
    assert_eq!(d.path, "/home/u/report.PDF");
    assert_eq!(d.created, "2023-11-14T22:13:20+00:00");
    assert_eq!(d.modified, d.created);
    assert_eq!(d.accessed, d.created);
    assert_eq!(d.size, "2.00 KB");
    assert_eq!(d.item_type, "Text");
    assert_eq!(d.extension, "pdf");
    assert!(!d.is_directory);
    assert!(d.children.is_none());
}

#[test]
fn analyze_directory_with_children() {
    let kids = vec![
        item("a.png", "image/png", 10, 1_500, false, None),
        item("sub", "directory", 0, 0, true, Some(vec![item("b.wav", "audio/wav", 3_000_000, 0, false, None)])),
    ];
    let d = analyze_item(item("top", "directory", 0, 0, true, Some(kids))).unwrap();
    assert_eq!(d.item_type, "Directory");
    assert_eq!(d.created, "1970-01-01T00:00:00+00:00");
    let c = d.children.unwrap();
    assert_eq!(c.len(), 2);
    assert_eq!(c[0].created, "1970-01-01T00:00:01.500+00:00");
    assert_eq!(c[0].size, "10 bytes");
    assert_eq!(c[0].extension, "png");
    let g = c[1].children.as_ref().unwrap();
    assert_eq!(g[0].item_type, "Audio");
    assert_eq!(g[0].size, "2.86 MB");
    // children of a file are not summarised
    let f = analyze_item(item("f.txt", "text/plain", 1, 0, false, Some(vec![]))).unwrap();
    assert!(f.children.is_none());
}

#[test]
fn analyze_list_keeps_order() {
    let out = analyze_files_and_folders(vec![
        item("x.mp4", "video/mp4", 1, 0, false, None),
        item("y", "application/zip", 1, 0, false, None),
    ])
    .unwrap();
    assert_eq!(out.len(), 2);
    assert_eq!(out[0].item_type, "Video");
    assert_eq!(out[1].item_type, "Other");
}

#[test]
fn default_settings_are_off_with_descriptions() {
    let s = Settings::default();
    for i in [&s.files_and_folders, &s.screen, &s.session, &s.processes, &s.keyboard, &s.mouse, &s.camera, &s.mic] {
        assert!(!i.enabled);
        assert!(!i.description.is_empty());
    }
    assert_eq!(
        s.mouse.description,
        "Captures your mouse movements and clicks to learn how you interact with your computer."
    );
    let d = SettingItem::default();
    assert!(!d.enabled && d.description.is_empty());
}

#[test]
fn apply_setting_by_key() {
    let mut s = Settings::default();
    let on = SettingItem { enabled: true, description: "mine".to_string() };
    assert!(s.apply("camera", on.clone()));
    assert!(s.camera.enabled);
    assert_eq!(s.camera.description, "mine");
    assert!(!s.mic.enabled);
    assert!(!s.apply("printer", on));
    assert!(!s.screen.enabled);
}

#[test]
fn analyze_item_at_last_representable_time() {
    assert_eq!(MAX_TIMESTAMP_MILLIS, 8_210_266_876_799_999);
    let d = analyze_item(item("late.txt", "text/plain", 1, MAX_TIMESTAMP_MILLIS, false, None)).unwrap();
    assert_eq!(d.created, "+262142-12-31T23:59:59.999+00:00");
    assert_eq!(d.accessed, d.created);
}

fn entry(key: &str, enabled: Option<bool>, description: Option<&str>) -> SettingEntry {
    SettingEntry { key: key.to_string(), enabled, description: description.map(str::to_string) }
}

#[test]
fn merged_settings_follow_entries() {
    let s = Settings::merged(&vec![
        entry("screen", Some(true), Some("watch")),
        entry("printer", Some(true), Some("x")),
        entry("mic", None, None),
        entry("screen", Some(false), Some("again")),
        entry("mouse", Some(true), None),
    ]);
    assert!(!s.screen.enabled);
    assert_eq!(s.screen.description, "again");
    assert!(!s.mic.enabled);
    assert_eq!(s.mic.description, "");
    assert!(s.mouse.enabled);
    assert_eq!(s.mouse.description, "");
    assert_eq!(s.camera.description, Settings::default().camera.description);
    let d = Settings::merged(&Vec::new());
    assert_eq!(d.keyboard.description, Settings::default().keyboard.description);
}
