use imgd::store::{locate, locate_now, month_dir, object_file, public_url, year_dir, UploadResponse};

#[test]
fn year_and_month_are_zero_padded() {
    assert_eq!(year_dir(2024), "2024");
    assert_eq!(year_dir(5), "0005");
    assert_eq!(year_dir(12345), "12345");
    assert_eq!(year_dir(-5), "-005");
    assert_eq!(month_dir(3), "03");
    assert_eq!(month_dir(12), "12");
    assert_eq!(object_file("ab"), "ab.webp");
}

#[test]
fn location_of_object() {
    let l = locate(2024, 1, "ff00");
    assert_eq!(l.relative_path, "/2024/01/ff00.webp");
}

#[test]
fn url_joins_base_without_trailing_slashes() {
    assert_eq!(
        public_url("https://img.example.com/images/", "/2024/01/x.webp"),
        "https://img.example.com/images/2024/01/x.webp"
    );
    assert_eq!(public_url("https://h//", "/p"), "https://h/p");
    assert_eq!(public_url("", "/p"), "/p");
    let r = UploadResponse::new("https://img.example.com/images", "/a".to_string(), "s".to_string(), 7);
    assert_eq!(r.url, "https://img.example.com/images/a");
    assert_eq!(r.size, 7);
}

#[test]
fn location_now_uses_current_year_and_month() {
    let l = locate_now("ab");
    assert_eq!(l.file_name, "ab.webp");
    assert_eq!(l.relative_path, format!("/{}/{}/ab.webp", l.year_dir, l.month_dir));
    let month: u32 = l.month_dir.parse().expect("month");
    assert!((1..=12).contains(&month));
    assert_eq!(l.month_dir.len(), 2);
    let year: i32 = l.year_dir.parse().expect("year");
    assert!(year >= 2024);
}
