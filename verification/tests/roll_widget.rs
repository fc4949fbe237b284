use expression_editor_ui::roll_widget::{RecentWindow, WINDOW};

#[test]
fn a_window_keeps_the_most_recent_samples_in_order() {
    let mut w: RecentWindow<u32> = RecentWindow::new();
    assert!(w.is_empty());
    for i in 0..WINDOW as u32 {
        w.push(i);
    }
    assert_eq!(w.len(), WINDOW);
    assert_eq!(w.items()[0], 0);
    w.push(1000);
    assert_eq!(w.len(), WINDOW);
    assert_eq!(w.items()[0], 1);
    assert_eq!(*w.items().last().unwrap(), 1000);
    let mut f: RecentWindow<f64> = RecentWindow::default();
    f.push(16.7);
    assert_eq!(f.items().as_slice(), &[16.7]);
}
