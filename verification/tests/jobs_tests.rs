use std::collections::HashSet;
use wallpaperize::geometry::Dimensions;
use wallpaperize::jobs::{plan_jobs, Decision, Rendering, WallpaperJob};
use wallpaperize::raster::ImageBuffer;

fn flat(width: u32, height: u32, rgb: (u8, u8, u8)) -> ImageBuffer {
    let mut data = Vec::new();
    for _ in 0..(width * height) {
        data.push(rgb.0);
        data.push(rgb.1);
        data.push(rgb.2);
    }
    ImageBuffer::from_raw(width, height, data).unwrap()
}

fn entries() -> Vec<String> {
    ["/in/a.jpg", "/in/notes.txt", "/in/b.JPG", "/in/c.jpeg", "/in/d.png"]
        .iter()
        .map(|s| s.to_string())
        .collect()
}

/// Runs the jobs over a pretended file system and counts the sources read.
fn run(jobs: &[WallpaperJob], stored: &mut HashSet<String>) -> usize {
    let mut decoded = 0;
    for job in jobs {
        let path = job.output_path();
        if job.decide(stored.contains(&path)) == Decision::Decode {
            decoded += 1;
            match job.render(Some(&flat(4, 3, (1, 2, 3))), 1) {
                Rendering::Store { path, .. } => {
                    stored.insert(path);
                }
                other => panic!("no wallpaper: {:?}", other),
            }
        }
    }
    decoded
}

#[test]
fn job_keeps_what_it_was_made_of() {
    let dims = Dimensions::new(8, 6).unwrap();
    let job = WallpaperJob::new("/in/a.jpg".to_string(), "/out".to_string(), dims, true);
    assert_eq!(job.source_path(), "/in/a.jpg");
    assert_eq!(job.target_dir(), "/out");
    assert_eq!(job.dims(), dims);
    assert!(job.force());
    assert_eq!(job.output_path(), "/out/adjusted - a.jpg");
}

#[test]
fn existing_result_is_skipped_without_force() {
    let dims = Dimensions::new(8, 6).unwrap();
    let job = WallpaperJob::new("/in/a.jpg".to_string(), "/out".to_string(), dims, false);
    assert_eq!(job.decide(true), Decision::Skip);
    assert_eq!(job.decide(false), Decision::Decode);
}

#[test]
fn force_reads_the_source_whatever_exists() {
    let dims = Dimensions::new(8, 6).unwrap();
    let job = WallpaperJob::new("/in/a.jpg".to_string(), "/out".to_string(), dims, true);
    assert_eq!(job.decide(true), Decision::Decode);
    assert_eq!(job.decide(false), Decision::Decode);
}

#[test]
fn undecodable_source_gives_no_wallpaper() {
    let dims = Dimensions::new(8, 6).unwrap();
    let job = WallpaperJob::new("/in/a.jpg".to_string(), "/out".to_string(), dims, false);
    assert!(matches!(job.render(None, 1), Rendering::Undecodable));
}

#[test]
fn canvas_beyond_memory_gives_no_wallpaper() {
    let dims = Dimensions::new(u32::MAX, u32::MAX).unwrap();
    let job = WallpaperJob::new("/in/a.jpg".to_string(), "/out".to_string(), dims, false);
    assert!(matches!(job.render(Some(&flat(2, 2, (0, 0, 0))), 1), Rendering::Oversized));
}

#[test]
fn decoded_source_gives_the_wallpaper_and_its_place() {
    let dims = Dimensions::new(12, 6).unwrap();
    let job = WallpaperJob::new("/in/sub/a.PNG".to_string(), "/out".to_string(), dims, false);
    match job.render(Some(&flat(4, 4, (5, 6, 7))), 2) {
        Rendering::Store { path, image } => {
            assert_eq!(path, "/out/adjusted - a.PNG");
            assert_eq!((image.width(), image.height()), (12, 6));
            assert_eq!(image.pixel(6, 3), (5, 6, 7));
        }
        other => panic!("no wallpaper: {:?}", other),
    }
}

#[test]
fn only_pictures_become_jobs_in_directory_order() {
    let dims = Dimensions::new(1920, 1080).unwrap();
    let jobs = plan_jobs(&entries(), "/in - adjusted", dims, false);
    let sources: Vec<&str> = jobs.iter().map(|job| job.source_path()).collect();
    assert_eq!(sources, vec!["/in/a.jpg", "/in/b.JPG", "/in/c.jpeg", "/in/d.png"]);
    for job in &jobs {
        assert_eq!(job.target_dir(), "/in - adjusted");
        assert_eq!(job.dims(), dims);
        assert!(!job.force());
    }
}

#[test]
fn directory_without_pictures_has_no_jobs() {
    let dims = Dimensions::new(10, 10).unwrap();
    let names = vec!["a.txt".to_string(), "sub".to_string(), "b.jpg.bak".to_string()];
    assert!(plan_jobs(&names, "/t", dims, true).is_empty());
    assert!(plan_jobs(&Vec::new(), "/t", dims, true).is_empty());
}

/// Plans the run over three JPEGs, a PNG and a text file, and renders the
/// job at `index` for a full HD canvas.
fn full_hd_wallpaper(index: usize, expected_path: &str) {
    let dims = Dimensions::new(1920, 1080).unwrap();
    let jobs = plan_jobs(&entries(), "/in - adjusted", dims, false);
    assert_eq!(jobs.len(), 4);
    let job = &jobs[index];
    assert_eq!(job.decide(false), Decision::Decode);
    match job.render(Some(&flat(32, 24, (40, 50, 60))), 1) {
        Rendering::Store { path, image } => {
            assert_eq!((image.width(), image.height()), (1920, 1080));
            assert_eq!(image.as_raw().len(), 1920 * 1080 * 3);
            assert_eq!(path, expected_path);
            assert_eq!(path, job.output_path());
        }
        other => panic!("no wallpaper: {:?}", other),
    }
}

#[test]
fn three_jpegs_a_png_and_a_text_file() {
    let dims = Dimensions::new(1920, 1080).unwrap();
    let jobs = plan_jobs(&entries(), "/in - adjusted", dims, false);
    let outputs: Vec<String> = jobs.iter().map(|job| job.output_path()).collect();
    assert_eq!(
        outputs,
        vec![
            "/in - adjusted/adjusted - a.jpg",
            "/in - adjusted/adjusted - b.JPG",
            "/in - adjusted/adjusted - c.jpeg",
            "/in - adjusted/adjusted - d.png",
        ]
    );
    assert!(outputs.iter().all(|path| !path.contains("notes")));
}

#[test]
fn full_hd_wallpaper_of_the_first_jpeg() {
    full_hd_wallpaper(0, "/in - adjusted/adjusted - a.jpg");
}

#[test]
fn full_hd_wallpaper_of_the_second_jpeg() {
    full_hd_wallpaper(1, "/in - adjusted/adjusted - b.JPG");
}

#[test]
fn full_hd_wallpaper_of_the_third_jpeg() {
    full_hd_wallpaper(2, "/in - adjusted/adjusted - c.jpeg");
}

#[test]
fn full_hd_wallpaper_of_the_png() {
    full_hd_wallpaper(3, "/in - adjusted/adjusted - d.png");
}

#[test]
fn second_run_without_force_reads_nothing() {
    let dims = Dimensions::new(6, 6).unwrap();
    let jobs = plan_jobs(&entries(), "/out", dims, false);
    let mut stored = HashSet::new();
    assert_eq!(run(&jobs, &mut stored), 4);
    let after_first = stored.clone();
    assert_eq!(after_first.len(), 4);
    assert_eq!(run(&jobs, &mut stored), 0);
    assert_eq!(stored, after_first);
}

#[test]
fn second_run_with_force_reads_everything_again() {
    let dims = Dimensions::new(6, 6).unwrap();
    let jobs = plan_jobs(&entries(), "/out", dims, true);
    let mut stored = HashSet::new();
    assert_eq!(run(&jobs, &mut stored), 4);
    let after_first = stored.clone();
    assert_eq!(run(&jobs, &mut stored), 4);
    assert_eq!(stored, after_first);
}

#[test]
fn forced_runs_give_the_same_wallpaper() {
    let dims = Dimensions::new(9, 5).unwrap();
    let job = WallpaperJob::new("/in/a.jpg".to_string(), "/out".to_string(), dims, true);
    let source = flat(3, 3, (100, 150, 200));
    let first = job.render(Some(&source), 2);
    let second = job.render(Some(&source), 2);
    match (first, second) {
        (
            Rendering::Store { path: path_a, image: image_a },
            Rendering::Store { path: path_b, image: image_b },
        ) => {
            assert_eq!(path_a, path_b);
            assert_eq!(image_a.as_raw(), image_b.as_raw());
        }
        other => panic!("no wallpaper: {:?}", other),
    }
}

#[test]
fn partly_stored_results_are_completed() {
    let dims = Dimensions::new(6, 6).unwrap();
    let jobs = plan_jobs(&entries(), "/out", dims, false);
    let mut stored = HashSet::new();
    stored.insert("/out/adjusted - b.JPG".to_string());
    assert_eq!(run(&jobs, &mut stored), 3);
    assert_eq!(stored.len(), 4);
}

#[test]
fn copied_job_is_the_same_job() {
    let dims = Dimensions::new(3, 4).unwrap();
    let job = WallpaperJob::new("/in/a.webp".to_string(), "/out".to_string(), dims, true);
    let copy = job.clone();
    assert_eq!(copy.source_path(), job.source_path());
    assert_eq!(copy.target_dir(), job.target_dir());
    assert_eq!(copy.dims(), job.dims());
    assert_eq!(copy.force(), job.force());
    assert_eq!(copy.output_path(), "/out/adjusted - a.webp");
}
