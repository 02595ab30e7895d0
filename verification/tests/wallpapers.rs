use theme_picker::error::ThemeError;
use theme_picker::services::wallpaper::{choose_wallpaper, image_files, is_image_file};

fn names(all: &[&str]) -> Vec<String> {
    all.iter().map(|n| n.to_string()).collect()
}

#[test]
fn images_are_told_by_their_extension() {
    for path in ["a.png", "/w/b.jpg", "c.jpeg", "d.bmp", "/w/dir.d/e.png", "x.tar.png", "..png"] {
        assert!(is_image_file(path), "{:?}", path);
    }
    for path in [
        "",
        "png",
        ".png",
        "/w/.png",
        "a.gif",
        "a.png.txt",
        "a.pngx",
        "a.pn",
        "a.",
        "a.png/",
        "/w.png/readme",
        "a.jpe",
        "a.jpegg",
    ] {
        assert!(!is_image_file(path), "{:?}", path);
    }
}

#[test]
fn the_case_of_the_extension_does_not_matter() {
    for path in ["a.PNG", "a.Png", "a.JPG", "a.jPeG", "a.BMP", "A.bMp"] {
        assert!(is_image_file(path), "{:?}", path);
    }
    // Only the letters A to Z have another case here.
    assert!(!is_image_file("a.\u{ff50}ng"));
    assert!(!is_image_file("a.p\u{1e45}g"));
}

#[test]
fn the_images_among_files_keep_their_order() {
    let files = names(&["/w/z.png", "/w/readme.txt", "/w/a.JPG", "/w/.hidden", "/w/m.bmp"]);
    assert_eq!(image_files(&files), names(&["/w/z.png", "/w/a.JPG", "/w/m.bmp"]));
    assert_eq!(image_files(&Vec::new()), Vec::<String>::new());
}

#[test]
fn a_wallpaper_is_one_of_the_images_listed() {
    let files = names(&["/w/notes.txt", "/w/a.png", "/w/b.jpg", "/w/c.gif", "/w/d.jpeg"]);
    let images = names(&["/w/a.png", "/w/b.jpg", "/w/d.jpeg"]);
    let mut seen = Vec::new();
    for _ in 0..300 {
        let chosen = choose_wallpaper(&files).unwrap();
        assert!(images.contains(&chosen), "{:?}", chosen);
        if !seen.contains(&chosen) {
            seen.push(chosen);
        }
    }
    // A pick that always gave the same image would be no pick.
    assert!(seen.len() > 1);
}

#[test]
fn the_only_image_is_the_wallpaper() {
    let files = names(&["/w/notes.txt", "/w/only.bmp"]);
    assert_eq!(choose_wallpaper(&files), Ok("/w/only.bmp".to_string()));
}

#[test]
fn no_image_is_no_wallpaper() {
    assert_eq!(choose_wallpaper(&Vec::new()), Err(ThemeError::NoImagesFound));
    assert_eq!(
        choose_wallpaper(&names(&["/w/notes.txt", "/w/.png", "/w/movie.mp4"])),
        Err(ThemeError::NoImagesFound)
    );
}
