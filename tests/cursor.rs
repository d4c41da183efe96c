use image_viewer::navigation::{step_for_keys, ImageViewerApp, Shown, Step};

fn files(n: usize) -> Vec<String> {
    (0..n).map(|i| format!("img{}.png", i)).collect()
}

fn shown_path(s: Shown) -> Option<String> {
    match s {
        Shown::Image(p) => Some(p),
        Shown::NoImage => None,
    }
}

#[test]
fn new_viewer_shows_first_file() {
    let app = ImageViewerApp::new(files(3));
    assert_eq!(app.current_image(), Some(&"img0.png".to_string()));
}

#[test]
fn step_back_at_first_stays() {
    let mut app = ImageViewerApp::new(files(3));
    app.step_back();
    assert_eq!(app.current_image(), Some(&"img0.png".to_string()));
}

#[test]
fn step_forward_at_last_stays() {
    let mut app = ImageViewerApp::new(files(3));
    app.step_forward();
    app.step_forward();
    assert_eq!(app.current_image(), Some(&"img2.png".to_string()));
    app.step_forward();
    assert_eq!(app.current_image(), Some(&"img2.png".to_string()));
    app.step_back();
    assert_eq!(app.current_image(), Some(&"img1.png".to_string()));
}

#[test]
fn steps_on_empty_list_stay_at_nothing() {
    let mut app = ImageViewerApp::new(Vec::new());
    app.step_back();
    app.step_forward();
    app.step_back();
    assert_eq!(app.current_image(), None);
    assert!(matches!(app.update(false, true), Shown::NoImage));
    assert!(matches!(app.update(true, false), Shown::NoImage));
}

#[test]
fn any_sequence_of_steps_stays_in_range() {
    let mut app = ImageViewerApp::new(files(4));
    let pattern = [true, true, false, true, true, true, true, false, false, false, false, false];
    let mut expected: usize = 0;
    for &forward in pattern.iter() {
        if forward {
            app.step_forward();
            if expected + 1 < 4 {
                expected += 1;
            }
        } else {
            app.step_back();
            expected = expected.saturating_sub(1);
        }
        assert_eq!(app.current_image(), Some(&format!("img{}.png", expected)));
    }
}

#[test]
fn keys_choose_the_step() {
    assert_eq!(step_for_keys(true, false), Some(Step::Back));
    assert_eq!(step_for_keys(false, true), Some(Step::Forward));
    assert_eq!(step_for_keys(true, true), Some(Step::Back));
    assert_eq!(step_for_keys(false, false), None);
}

#[test]
fn update_moves_then_shows() {
    let mut app = ImageViewerApp::new(files(3));
    assert_eq!(shown_path(app.update(false, false)), Some("img0.png".to_string()));
    assert_eq!(shown_path(app.update(false, true)), Some("img1.png".to_string()));
    assert_eq!(shown_path(app.update(false, true)), Some("img2.png".to_string()));
    assert_eq!(shown_path(app.update(false, true)), Some("img2.png".to_string()));
    assert_eq!(shown_path(app.update(true, true)), Some("img1.png".to_string()));
    assert_eq!(shown_path(app.update(true, false)), Some("img0.png".to_string()));
    assert_eq!(shown_path(app.update(true, false)), Some("img0.png".to_string()));
}

#[test]
fn empty_list_shows_placeholder() {
    let mut app = ImageViewerApp::new(Vec::new());
    assert!(matches!(app.update(false, false), Shown::NoImage));
}

#[test]
fn open_at_starts_on_named_file() {
    let app = ImageViewerApp::open_at(files(4), Some("img2.png".to_string()));
    assert_eq!(app.current_image(), Some(&"img2.png".to_string()));
}

#[test]
fn open_at_takes_first_of_equal_paths() {
    let list = vec!["a.png".to_string(), "b.png".to_string(), "b.png".to_string()];
    let mut app = ImageViewerApp::open_at(list, Some("b.png".to_string()));
    assert_eq!(app.current_image(), Some(&"b.png".to_string()));
    app.step_back();
    assert_eq!(app.current_image(), Some(&"a.png".to_string()));
}

#[test]
fn open_at_unknown_or_no_file_starts_on_first() {
    let app = ImageViewerApp::open_at(files(3), Some("other.png".to_string()));
    assert_eq!(app.current_image(), Some(&"img0.png".to_string()));
    let app = ImageViewerApp::open_at(files(3), None);
    assert_eq!(app.current_image(), Some(&"img0.png".to_string()));
    let app = ImageViewerApp::open_at(Vec::new(), Some("x.png".to_string()));
    assert_eq!(app.current_image(), None);
}
