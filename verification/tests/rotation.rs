use wallpaper_rotator::applier::apply_outcome;
use wallpaper_rotator::images::has_supported_extension;
use wallpaper_rotator::images::list_images;
use wallpaper_rotator::scheduler::interval_seconds;
use wallpaper_rotator::FileEntry;
use wallpaper_rotator::RotationMode;
use wallpaper_rotator::RotationState;
use wallpaper_rotator::WallpaperError;

fn entry(path: &str, name: &str, is_file: bool) -> FileEntry {
    FileEntry {
        path: path.to_string(),
        name: name.to_string(),
        is_file,
    }
}

fn file(name: &str) -> FileEntry {
    entry(&format!("/pics/{}", name), name, true)
}

#[test]
fn listing_keeps_all_supported_files_in_order() {
    let entries = vec![file("a.png"), file("b.jpg"), file("c.bmp")];
    let r = list_images(true, &entries);
    assert_eq!(
        r,
        Ok(vec![
            "/pics/a.png".to_string(),
            "/pics/b.jpg".to_string(),
            "/pics/c.bmp".to_string(),
        ])
    );
}

#[test]
fn listing_skips_unsupported_files_and_subdirectories() {
    let entries = vec![
        file("a.png"),
        file("notes.txt"),
        entry("/pics/more.png", "more.png", false),
        file("b.jpeg"),
        file("archive.tar.gz"),
        file("noextension"),
    ];
    let r = list_images(true, &entries);
    assert_eq!(
        r,
        Ok(vec!["/pics/a.png".to_string(), "/pics/b.jpeg".to_string()])
    );
}

#[test]
fn listing_of_empty_directory_fails() {
    let entries: Vec<FileEntry> = vec![];
    assert_eq!(list_images(true, &entries), Err(WallpaperError::NoImagesFound));
}

#[test]
fn listing_of_all_unsupported_directory_fails() {
    let entries = vec![file("readme.md"), file("movie.mp4"), file("pic.gif")];
    assert_eq!(list_images(true, &entries), Err(WallpaperError::NoImagesFound));
}

#[test]
fn listing_of_non_directory_fails() {
    let entries = vec![file("a.png")];
    assert_eq!(list_images(false, &entries), Err(WallpaperError::NotADirectory));
}

#[test]
fn extensions_match_without_regard_to_case() {
    assert!(has_supported_extension("A.PNG"));
    assert!(has_supported_extension("b.JpEg"));
    assert!(has_supported_extension("c.bmp"));
    assert!(has_supported_extension("d.JPG"));
}

#[test]
fn extension_edge_cases() {
    assert!(!has_supported_extension("jpg"));
    assert!(!has_supported_extension(".jpg"));
    assert!(!has_supported_extension("a."));
    assert!(!has_supported_extension(""));
    assert!(!has_supported_extension("x.jpgg"));
    assert!(has_supported_extension("x.tar.png"));
    assert!(has_supported_extension("..bmp"));
}

#[test]
fn sequential_rotation_repeats_the_initial_order() {
    let images = vec![
        "/d/a.png".to_string(),
        "/d/b.jpg".to_string(),
        "/d/c.bmp".to_string(),
    ];
    let mut state = RotationState::new(images.clone(), 1, RotationMode::Sequential);
    let mut applied = Vec::new();
    for _ in 0..6 {
        applied.push(state.current_image().clone());
        state.advance();
    }
    let mut expected = images.clone();
    expected.extend(images.clone());
    assert_eq!(applied, expected);
}

#[test]
fn sequential_trace_wraps_after_the_last_image() {
    let images = vec![
        "/d/a.png".to_string(),
        "/d/b.jpg".to_string(),
        "/d/c.bmp".to_string(),
    ];
    let mut state = RotationState::new(images, 1, RotationMode::Sequential);
    assert_eq!(state.interval_minutes(), 1);
    assert_eq!(state.current_image(), "/d/a.png");
    state.advance();
    assert_eq!(state.current_image(), "/d/b.jpg");
    state.advance();
    assert_eq!(state.current_image(), "/d/c.bmp");
    state.advance();
    assert_eq!(state.current_image(), "/d/a.png");
}

#[test]
fn single_image_is_applied_forever_in_any_mode() {
    for mode in [RotationMode::Sequential, RotationMode::Random] {
        let images = vec!["/d/only.jpg".to_string()];
        let mut state = RotationState::new(images, 5, mode);
        assert_eq!(state.interval_minutes(), 5);
        for _ in 0..4 {
            assert_eq!(state.current_image(), "/d/only.jpg");
            state.advance();
        }
    }
}

#[test]
fn every_reshuffle_is_a_permutation_of_the_full_set() {
    let images: Vec<String> = (0..7).map(|i| format!("/d/img{}.png", i)).collect();
    let mut sorted_original = images.clone();
    sorted_original.sort();
    let mut state = RotationState::new(images, 15, RotationMode::Random);
    for _ in 0..10 {
        assert_eq!(state.index(), 0);
        let mut now = state.image_list().clone();
        now.sort();
        assert_eq!(now, sorted_original);
        state.advance();
    }
}

#[test]
fn a_failed_apply_does_not_change_what_comes_next() {
    let images = vec![
        "/d/a.png".to_string(),
        "/d/b.jpg".to_string(),
        "/d/c.bmp".to_string(),
    ];
    // Iteration 1 fails; the scheduler still prepares iteration 2, and
    // the selected images are those of an all-success run.
    let outcomes = [true, false, true, true];
    let mut state = RotationState::new(images, 1, RotationMode::Sequential);
    let mut applied = Vec::new();
    for ok in outcomes {
        applied.push(state.current_image().clone());
        let _ = ok;
        state.advance();
    }
    assert_eq!(
        applied,
        vec![
            "/d/a.png".to_string(),
            "/d/b.jpg".to_string(),
            "/d/c.bmp".to_string(),
            "/d/a.png".to_string(),
        ]
    );
}

#[test]
fn one_apply_outcome_per_attempt() {
    assert_eq!(apply_outcome(true, true, true, 0), Ok(()));
    assert_eq!(
        apply_outcome(false, true, true, 0),
        Err(WallpaperError::PathDoesNotExist)
    );
    assert_eq!(
        apply_outcome(true, false, true, 0),
        Err(WallpaperError::InvalidPath)
    );
    assert_eq!(
        apply_outcome(true, true, false, 87),
        Err(WallpaperError::OsRejected(87))
    );
    // An OS code reported alongside an earlier failing stage is ignored.
    assert_eq!(
        apply_outcome(false, false, false, 5),
        Err(WallpaperError::PathDoesNotExist)
    );
}

#[test]
fn interval_conversion_to_seconds() {
    assert_eq!(interval_seconds(1), 60);
    assert_eq!(interval_seconds(5), 300);
    assert_eq!(interval_seconds(15), 900);
    assert_eq!(interval_seconds(0), 0);
}

#[test]
fn error_messages() {
    assert_eq!(
        WallpaperError::PathDoesNotExist.message(),
        "path does not exist"
    );
    assert_eq!(
        WallpaperError::NotADirectory.message(),
        "the provided path is not a directory"
    );
    assert_eq!(
        WallpaperError::NoImagesFound.message(),
        "no image files found in the directory"
    );
    assert_eq!(
        WallpaperError::InvalidPath.message(),
        "the path cannot be converted for the OS"
    );
    assert_eq!(
        WallpaperError::OsRejected(2).message(),
        "the OS rejected the wallpaper change"
    );
}

#[test]
fn state_getters_report_the_run_configuration() {
    let images = vec!["/d/a.png".to_string(), "/d/b.png".to_string()];
    let mut state = RotationState::new(images.clone(), 15, RotationMode::Sequential);
    assert_eq!(state.mode(), RotationMode::Sequential);
    assert_eq!(state.interval_minutes(), 15);
    assert_eq!(state.index(), 0);
    assert_eq!(state.image_list(), &images);
    state.advance();
    assert_eq!(state.index(), 1);
    state.advance();
    assert_eq!(state.index(), 2);
    // index wraps at use time: with two images, index 2 selects the first
    assert_eq!(state.current_image(), "/d/a.png");
}
