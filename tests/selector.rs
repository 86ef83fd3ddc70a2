use wallpaper_changer::rotation::{
    image_candidates, is_image_file_name, name_has_extension, select_for_rotation, select_image,
    DirEntryInfo, RotationError,
};
use wallpaper_changer::scheduler::{Action, Scheduler};
use wallpaper_changer::rotation::RotationOutcome;

fn file(name: &str) -> DirEntryInfo {
    DirEntryInfo { name: name.to_string(), is_file: true }
}

fn dir(name: &str) -> DirEntryInfo {
    DirEntryInfo { name: name.to_string(), is_file: false }
}

#[test]
fn extension_matching_ignores_ascii_case() {
    assert!(is_image_file_name("a.JPG"));
    assert!(is_image_file_name("c.png"));
    assert!(is_image_file_name("x.PnG"));
    assert!(is_image_file_name("archive.tar.jpg"));
    assert!(!is_image_file_name("b.txt"));
    assert!(!is_image_file_name("photo.jpeg"));
    assert!(!is_image_file_name("png"));
    assert!(!is_image_file_name(".png"));
    assert!(!is_image_file_name("a.png.txt"));
    assert!(!is_image_file_name("apng"));
    assert!(!is_image_file_name(""));
    assert!(is_image_file_name("..png"));
}

#[test]
fn extension_of_general_names() {
    assert!(name_has_extension("notes.MD", "md"));
    assert!(!name_has_extension("notes.md", "txt"));
    assert!(name_has_extension("x.", ""));
    assert!(!name_has_extension(".", ""));
    assert!(name_has_extension("été.Jpg", "jpg"));
}

#[test]
fn candidates_restricted_to_images() {
    let entries = vec![file("a.JPG"), file("b.txt"), file("c.png"), dir("d.png")];
    assert_eq!(image_candidates(&entries), vec!["a.JPG".to_string(), "c.png".to_string()]);
    let mut seen_a = false;
    let mut seen_c = false;
    for _ in 0..200 {
        let r = select_image(&entries).unwrap();
        assert!(r == "a.JPG" || r == "c.png");
        seen_a |= r == "a.JPG";
        seen_c |= r == "c.png";
    }
    assert!(seen_a && seen_c);
}

#[test]
fn single_candidate_is_chosen() {
    let entries = vec![file("b.txt"), file("only.png"), dir("sub")];
    assert_eq!(select_image(&entries), Ok("only.png".to_string()));
}

#[test]
fn empty_directory_has_no_candidates() {
    assert_eq!(select_image(&Vec::new()), Err(RotationError::NoCandidates));
}

#[test]
fn non_image_directory_has_no_candidates() {
    let entries = vec![file("b.txt"), file("readme"), dir("pics.jpg"), file(".png")];
    assert_eq!(select_image(&entries), Err(RotationError::NoCandidates));
}

#[test]
fn unreadable_directory_is_reported() {
    assert_eq!(select_for_rotation(&None), Err(RotationError::DirectoryUnreadable));
    assert_eq!(select_for_rotation(&Some(vec![file("x.txt")])), Err(RotationError::NoCandidates));
    assert_eq!(select_for_rotation(&Some(vec![file("x.jpg")])), Ok("x.jpg".to_string()));
}

#[test]
fn one_shot_rotation_keeps_wait() {
    let mut s = Scheduler::new(Some(60));
    s.finish_rotation(1_000, &RotationOutcome::Applied("x.jpg".to_string()));
    assert_eq!(s.poll(20_000), Action::Wait { timeout_ms: 41_000 });
    let one_shot = select_for_rotation(&Some(vec![file("y.png")]));
    assert_eq!(one_shot, Ok("y.png".to_string()));
    assert_eq!(s.poll(30_000), Action::Wait { timeout_ms: 31_000 });
    assert_eq!(s.poll(61_000), Action::Rotate);
}
