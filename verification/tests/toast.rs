use std::time::{Duration, Instant};
use winrmpc::ui::app::toast::{
    expired_after, lifetime_secs, toast_colors, Toast, Toasts, MAX_TOASTS, TOAST_ERROR_SECS, TOAST_INFO_SECS,
};
use winrmpc::ui::theme::colors::AppColors;

fn toast(is_error: bool, age_secs: u64) -> Toast {
    Toast::shown_at("x".to_string(), is_error, Instant::now() - Duration::from_secs(age_secs))
}

#[test]
fn errors_linger_longer_than_info() {
    assert!(toast(false, TOAST_INFO_SECS).expired());
    assert!(
        !toast(true, TOAST_INFO_SECS).expired(),
        "an error must outlive the info timeout — it is the one worth reading"
    );
    assert!(toast(true, TOAST_ERROR_SECS).expired());
}

#[test]
fn a_fresh_toast_has_not_expired() {
    assert!(!toast(false, 0).expired());
    assert!(!toast(true, 0).expired());
}

#[test]
fn lifetimes_are_four_and_eight_seconds() {
    assert_eq!(lifetime_secs(false), 4);
    assert_eq!(lifetime_secs(true), 8);
    assert!(!expired_after(false, 3));
    assert!(expired_after(false, 4));
    assert!(!expired_after(true, 7));
    assert!(expired_after(true, 8));
}

#[test]
fn pushing_past_the_limit_drops_the_oldest() {
    let mut ts = Toasts::new();
    for i in 0..5 {
        ts.push(Toast::new(format!("t{i}"), false));
    }
    assert_eq!(ts.len(), MAX_TOASTS);
    assert_eq!(ts.get(0).text, "t2");
    assert_eq!(ts.get(2).text, "t4");
    ts.dismiss_oldest();
    assert_eq!(ts.len(), 2);
    assert_eq!(ts.get(0).text, "t3");
}

#[test]
fn pruning_by_age_keeps_only_the_unexpired() {
    let mut ts = Toasts::new();
    ts.push(Toast::new("info".to_string(), false));
    ts.push(Toast::new("error".to_string(), true));
    ts.push(Toast::new("info2".to_string(), false));
    ts.prune_by_age(&vec![5, 5, 1]);
    assert_eq!(ts.len(), 2);
    assert_eq!(ts.get(0).text, "error");
    assert_eq!(ts.get(1).text, "info2");
}

#[test]
fn fresh_toasts_survive_pruning_by_the_clock() {
    let mut ts = Toasts::new();
    ts.push(Toast::new("a".to_string(), false));
    ts.push(toast(false, 60));
    ts.prune_expired();
    assert_eq!(ts.len(), 1);
    assert_eq!(ts.get(0).text, "a");
}

#[test]
fn errors_are_drawn_in_the_error_colour() {
    let colors = AppColors::new();
    assert_eq!(toast_colors(&colors, true), (colors.error(), colors.error()));
    assert_eq!(toast_colors(&colors, false), (colors.border(), colors.text_primary()));
}
