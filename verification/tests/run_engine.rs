use std::sync::Arc;
use std::sync::Mutex;

use rayon::iter::IntoParallelIterator;
use rayon::iter::ParallelIterator;

use file_gatherer::counter::ProgressCounter;
use file_gatherer::dispatch::dest_path;
use file_gatherer::dispatch::plan_copies;
use file_gatherer::extensions::CategorySelection;
use file_gatherer::extensions::get_avaliable_extentions;
use file_gatherer::run::SearchRequest;
use file_gatherer::run::completed_message;
use file_gatherer::run::setup;
use file_gatherer::run::started_message;
use file_gatherer::walker::DiscoveredEntry;

fn entry(path: &str, file_name: &str, is_file: bool) -> DiscoveredEntry {
    DiscoveredEntry {
        path: path.to_string(),
        file_name: file_name.to_string(),
        is_file,
    }
}

fn request(root: &str, output: &str, sel: CategorySelection) -> SearchRequest {
    SearchRequest {
        root_path: root.to_string(),
        output_path: output.to_string(),
        categories: sel,
    }
}

const IMAGES_ONLY: CategorySelection = CategorySelection {
    images: true,
    videos: false,
    compressed_files: false,
    sounds: false,
};

#[test]
fn counter_counts_every_increment() {
    let mut counter = ProgressCounter::new();
    assert_eq!(counter.current_value(), 0);
    for _ in 0..5000 {
        counter.increment();
    }
    assert_eq!(counter.current_value(), 5000);
    counter.increment_many(5000);
    assert_eq!(counter.current_value(), 10000);
}

#[test]
fn concurrent_increments_lose_no_update() {
    let counter = Arc::new(Mutex::new(ProgressCounter::new()));
    (0..4096).into_par_iter().for_each(|_: usize| {
        let mut shared = counter.lock().unwrap();
        if shared.current_value() < usize::MAX {
            shared.increment();
        }
    });
    assert_eq!(counter.lock().unwrap().current_value(), 4096);
}

#[test]
fn destination_is_output_joined_with_base_name() {
    assert_eq!(dest_path("out", "x.jpg"), "out/x.jpg");
    assert_eq!(dest_path("/tmp/dest", "clip.mp4"), "/tmp/dest/clip.mp4");
}

#[test]
fn plan_keeps_matches_and_drops_the_rest() {
    let exts = get_avaliable_extentions(true, false, false, false);
    let entries = vec![
        entry("root/a/one.jpg", "one.jpg", true),
        entry("root/notes.txt", "notes.txt", true),
        entry("root/a", "a", false),
        entry("root/b/two.PNG", "two.PNG", true),
        entry("root/movie.mp4", "movie.mp4", true),
        entry("root/three.gif", "three.gif", true),
    ];
    let jobs = plan_copies(&entries, &exts, "out");
    assert_eq!(jobs.len(), 3);
    assert_eq!(jobs[0].source, "root/a/one.jpg");
    assert_eq!(jobs[0].dest, "out/one.jpg");
    assert_eq!(jobs[1].source, "root/b/two.PNG");
    assert_eq!(jobs[1].dest, "out/two.PNG");
    assert_eq!(jobs[2].source, "root/three.gif");
    assert_eq!(jobs[2].dest, "out/three.gif");
}

#[test]
fn directory_named_like_an_image_is_not_planned() {
    let exts = get_avaliable_extentions(true, false, false, false);
    let entries = vec![entry("root/shots.jpg", "shots.jpg", false)];
    let jobs = plan_copies(&entries, &exts, "out");
    assert!(jobs.is_empty());
}

#[test]
fn colliding_base_names_share_one_destination() {
    let exts = get_avaliable_extentions(true, false, false, false);
    let entries = vec![
        entry("root/a/x.jpg", "x.jpg", true),
        entry("root/b/x.jpg", "x.jpg", true),
    ];
    let jobs = plan_copies(&entries, &exts, "out");
    assert_eq!(jobs.len(), 2);
    assert_eq!(jobs[0].dest, jobs[1].dest);
    assert_eq!(jobs[0].dest, "out/x.jpg");
    assert_ne!(jobs[0].source, jobs[1].source);
}

#[test]
fn empty_discovery_completes_at_once() {
    let mut controller = setup(request("missing", "out", IMAGES_ONLY));
    controller.output_dir_ensured();
    controller.entries_discovered(&Vec::new());
    assert!(controller.is_complete());
    assert_eq!(controller.files_copied(), 0);
    assert_eq!(controller.files_failed(), 0);
    assert!(controller.jobs().is_empty());
}

#[test]
fn missing_root_discovers_nothing() {
    let mut controller = setup(request(
        "/surely/not/a/directory/anywhere/at/all",
        "out",
        IMAGES_ONLY,
    ));
    controller.output_dir_ensured();
    controller.run_discovery();
    assert!(controller.is_complete());
    assert!(controller.jobs().is_empty());
    assert_eq!(controller.files_copied(), 0);
    assert_eq!(controller.files_failed(), 0);
}

#[test]
fn end_to_end_images_only() {
    let mut controller = setup(request("root", "out", IMAGES_ONLY));
    let msg = controller.output_dir_ensured();
    assert_eq!(msg, started_message());
    let entries = vec![
        entry("root/img.png", "img.png", true),
        entry("root/clip.mp4", "clip.mp4", true),
        entry("root/note.txt", "note.txt", true),
    ];
    controller.entries_discovered(&entries);
    assert!(!controller.is_complete());
    let jobs = controller.jobs();
    assert_eq!(jobs.len(), 1);
    assert_eq!(jobs[0].source, "root/img.png");
    assert_eq!(jobs[0].dest, "out/img.png");
    controller.record_copy_result(true);
    assert!(controller.is_complete());
    assert_eq!(controller.files_copied(), 1);
    assert_eq!(controller.files_failed(), 0);
}

#[test]
fn matching_and_non_matching_files_are_counted_apart() {
    let mut controller = setup(request("root", "out", CategorySelection {
        images: true,
        videos: true,
        compressed_files: false,
        sounds: false,
    }));
    controller.output_dir_ensured();
    let entries = vec![
        entry("root/a.jpg", "a.jpg", true),
        entry("root/b.mp4", "b.mp4", true),
        entry("root/c.webm", "c.webm", true),
        entry("root/d.txt", "d.txt", true),
        entry("root/e.rs", "e.rs", true),
    ];
    controller.entries_discovered(&entries);
    assert_eq!(controller.jobs().len(), 3);
    for _ in 0..3 {
        assert!(!controller.is_complete());
        controller.record_copy_result(true);
    }
    assert!(controller.is_complete());
    assert_eq!(controller.files_copied(), 3);
}

#[test]
fn failures_never_abort_the_batch() {
    let mut controller = setup(request("root", "out", IMAGES_ONLY));
    controller.output_dir_ensured();
    let entries = vec![
        entry("root/a.jpg", "a.jpg", true),
        entry("root/b.jpg", "b.jpg", true),
        entry("root/c.jpg", "c.jpg", true),
    ];
    controller.entries_discovered(&entries);
    controller.record_copy_result(true);
    controller.record_copy_result(false);
    controller.record_copy_result(true);
    assert!(controller.is_complete());
    assert_eq!(controller.files_copied(), 2);
    assert_eq!(controller.files_failed(), 1);
}

#[test]
fn dismissing_a_complete_run_reveals_the_output_and_resets() {
    let mut controller = setup(request("root", "out", IMAGES_ONLY));
    let msg = controller.output_dir_ensured();
    assert!(msg.contains("Processing files"));
    controller.entries_discovered(&Vec::new());
    assert!(controller.is_complete());
    assert!(completed_message().contains("complete"));
    let revealed = controller.dismiss();
    assert_eq!(revealed, "out");
    assert!(!controller.is_complete());
}

#[test]
fn status_messages_are_fixed() {
    assert_eq!(
        started_message(),
        "Processing files... This may take a few moments depending on the number of files in the directory. Please wait."
    );
    assert_eq!(
        completed_message(),
        "File processing is complete. Click anywhere to close this message and continue."
    );
}
