use hash_quest::ui_state::{DoSave, PaintColor, PaintUndo, Painting, Paused};

#[test]
fn pause_button_toggles_label() {
    let mut p = Paused::new();
    assert!(!p.paused);
    assert_eq!(p.btn_text, "Pause");
    p.toggle();
    assert!(p.paused);
    assert_eq!(p.btn_text, "Resume");
    p.toggle();
    assert!(!p.paused);
    assert_eq!(p.btn_text, "Pause");
    let d = Paused::default();
    assert!(!d.paused && d.btn_text.is_empty());
    assert!(!DoSave { save: false }.save);
}

#[test]
fn paint_color_starts_at_one() {
    let c = PaintColor::new("#ff0000");
    assert_eq!(c.name, "#ff0000");
    assert_eq!(c.count, 1);
}

#[test]
fn painting_counts_strokes_per_colour() {
    let mut p = Painting::new("#ffffff");
    assert_eq!(p.get_colors_count(), 0);
    p.do_paint("#000000".to_string());
    p.do_paint("#000000".to_string());
    p.do_paint("#ff0000".to_string());
    p.do_paint("#ffffff".to_string());
    assert_eq!(p.get_colors_count(), 3);
    assert_eq!(p.get_painted_pixels("#000000"), 2);
    assert_eq!(p.get_painted_pixels("#ff0000"), 1);
    assert_eq!(p.get_painted_pixels("#00ff00"), 0);
    assert_eq!(p.get_painted_pixels_total(), 3);
    p.set_bg_color("#000000".to_string());
    assert_eq!(p.get_painted_pixels_total(), 2);
    assert_eq!(p.background_color.count, 1);
}

#[test]
fn undo_and_redo_strokes() {
    let mut u: PaintUndo<u32> = PaintUndo::new();
    assert!(!u.can_undo() && !u.can_redo());
    u.add_path();
    assert!(u.paths.is_empty());
    u.add_position(1);
    u.add_position(2);
    u.add_path();
    assert_eq!(u.paths, vec![vec![1, 2]]);
    assert!(u.current_path.is_empty());
    u.add_position(3);
    u.add_path();
    u.undo();
    assert_eq!(u.paths, vec![vec![1, 2]]);
    assert_eq!(u.undo_paths, vec![vec![3]]);
    u.redo();
    assert_eq!(u.paths, vec![vec![1, 2], vec![3]]);
    assert!(u.undo_paths.is_empty());
    u.undo();
    u.add_position(4);
    assert!(u.undo_paths.is_empty());
    u.redo();
    assert_eq!(u.paths, vec![vec![1, 2]]);
    u.clear();
    assert!(u.paths.is_empty() && u.current_path.is_empty());
}
