use win7_notifications::notification::{check_icon, IconError, Shown};
use win7_notifications::registry::{close_notification, Placement, Registry};
use win7_notifications::util::Rect;
use win7_notifications::{Notification, Timeout};

fn desktop() -> Rect {
    Rect { left: 0, top: 0, right: 1920, bottom: 1040 }
}

#[test]
fn new_notification_has_only_its_appname() {
    let notification = Notification::new("app.exe");
    assert_eq!(notification.app_name(), "app.exe");
    assert_eq!(notification.title(), "");
    assert_eq!(notification.text(), "");
    assert_eq!(notification.icon_rgba(), None);
    assert_eq!(notification.icon_size(), (32, 32));
    assert_eq!(notification.expiry(), Timeout::Default);
}

#[test]
fn builders_overwrite_their_field_and_chain() {
    let mut notification = Notification::new("app.exe");
    notification
        .appname("App name")
        .summary("Critical Error")
        .body("Just kidding, this is just the notification example.")
        .timeout(Timeout::Never);
    assert_eq!(notification.app_name(), "App name");
    assert_eq!(notification.title(), "Critical Error");
    assert_eq!(
        notification.text(),
        "Just kidding, this is just the notification example."
    );
    assert_eq!(notification.expiry(), Timeout::Never);
    assert_eq!(notification.icon_rgba(), None);
    notification.summary("Second").timeout(Timeout::Milliseconds(10));
    assert_eq!(notification.title(), "Second");
    assert_eq!(notification.app_name(), "App name");
    assert_eq!(notification.expiry(), Timeout::Milliseconds(10));
}

#[test]
fn icon_keeps_buffer_and_size() {
    let rgba: Vec<u8> = (0..24).collect();
    assert!(check_icon(&rgba, 3, 2).is_ok());
    let mut notification = Notification::new("app.exe");
    notification.summary("title").icon(rgba.clone(), 3, 2);
    assert_eq!(notification.icon_rgba(), Some(&rgba));
    assert_eq!(notification.icon_size(), (3, 2));
    assert_eq!(notification.title(), "title");
    let (width, height) = notification.icon_size();
    assert_eq!(
        notification.icon_rgba().map(|buffer| buffer.len()),
        Some((width * height * 4) as usize)
    );
}

#[test]
fn icon_can_be_replaced() {
    let mut notification = Notification::new("app.exe");
    notification.icon(vec![0; 16], 2, 2);
    notification.icon(vec![7; 4], 1, 1);
    assert_eq!(notification.icon_rgba(), Some(&vec![7, 7, 7, 7]));
    assert_eq!(notification.icon_size(), (1, 1));
}

#[test]
fn icon_length_must_be_a_multiple_of_four() {
    assert!(check_icon(&[0; 15], 2, 2).is_err());
    assert!(check_icon(&[0; 17], 2, 2).is_err());
    assert!(check_icon(&[0; 3], 1, 1).is_err());
    assert!(check_icon(&[0; 1], 0, 0).is_err());
}

#[test]
fn icon_size_must_match_the_pixel_count() {
    assert!(check_icon(&[0; 16], 2, 2).is_ok());
    assert!(check_icon(&[0; 16], 4, 1).is_ok());
    assert!(check_icon(&[0; 16], 1, 4).is_ok());
    assert!(check_icon(&[0; 16], 2, 3).is_err());
    assert!(check_icon(&[0; 16], 16, 1).is_err());
    assert!(check_icon(&[0; 16], 0, 0).is_err());
    assert!(check_icon(&[0; 12], 2, 2).is_err());
}

#[test]
fn empty_icon_matches_an_empty_size() {
    assert!(check_icon(&[], 0, 0).is_ok());
    assert!(check_icon(&[], 0, 5).is_ok());
    assert!(check_icon(&[], 4_000_000_000, 0).is_ok());
    assert!(check_icon(&[], 1, 1).is_err());
}

#[test]
fn icon_size_is_not_taken_modulo_the_word() {
    assert!(check_icon(&[], 65_536, 65_536).is_err());
    assert!(check_icon(&[0; 4], 65_537, 65_535).is_err());
}

#[test]
fn clone_keeps_every_field() {
    let mut notification = Notification::new("app.exe");
    notification
        .summary("title")
        .body("text")
        .icon(vec![1, 2, 3, 4], 1, 1)
        .timeout(Timeout::Milliseconds(9));
    let copy = notification.clone();
    assert_eq!(copy.app_name(), "app.exe");
    assert_eq!(copy.title(), "title");
    assert_eq!(copy.text(), "text");
    assert_eq!(copy.icon_rgba(), Some(&vec![1, 2, 3, 4]));
    assert_eq!(copy.icon_size(), (1, 1));
    assert_eq!(copy.expiry(), Timeout::Milliseconds(9));
}

#[test]
fn show_without_a_window_returns_the_error_code() {
    let mut registry = Registry::new(desktop());
    let notification = Notification::new("app.exe");
    assert_eq!(notification.show(&mut registry, 0, 1400), Err(1400));
    assert_eq!(notification.show(&mut registry, 0, 0), Err(0));
    assert_eq!(registry.len(), 0);
}

#[test]
fn show_registers_the_window_and_sets_the_timer() {
    let mut registry = Registry::new(desktop());
    let notification = Notification::new("app.exe");
    assert!(registry.has_room());
    assert_eq!(
        notification.show(&mut registry, 42, 0),
        Ok(Shown {
            moves: vec![Placement { window: 42, x: 1545, y: 855 }],
            close_after: Some(5000),
        })
    );
    assert_eq!(registry.handles(), vec![42]);
}

#[test]
fn show_ignores_the_error_code_of_a_success() {
    let mut registry = Registry::new(desktop());
    let notification = Notification::new("app.exe");
    let shown = notification.show(&mut registry, -7, 1400).unwrap();
    assert_eq!(shown.moves, vec![Placement { window: -7, x: 1545, y: 855 }]);
}

#[test]
fn show_resolves_each_timeout() {
    let mut registry = Registry::new(desktop());
    let mut notification = Notification::new("app.exe");
    notification.timeout(Timeout::Never);
    assert_eq!(notification.show(&mut registry, 1, 0).unwrap().close_after, None);
    notification.timeout(Timeout::Milliseconds(250));
    assert_eq!(
        notification.show(&mut registry, 2, 0).unwrap().close_after,
        Some(250)
    );
    notification.timeout(Timeout::Default);
    assert_eq!(
        notification.show(&mut registry, 3, 0).unwrap().close_after,
        Some(5000)
    );
}

#[test]
fn one_notification_can_be_shown_many_times() {
    let mut registry = Registry::new(desktop());
    let mut notification = Notification::new("app.exe");
    notification.timeout(Timeout::Never);
    for window in 1..=4 {
        let shown = notification.show(&mut registry, window, 0).unwrap();
        assert_eq!(shown.moves.len(), window as usize);
        assert_eq!(shown.moves.last().unwrap().y, 855);
        assert_eq!(shown.moves[0].y, 855 - 180 * (window as i32 - 1));
    }
    assert_eq!(registry.handles(), vec![1, 2, 3, 4]);
    assert_eq!(notification.expiry(), Timeout::Never);
}

#[test]
fn shown_then_closed_leaves_the_registry_as_before() {
    let mut registry = Registry::new(desktop());
    let notification = Notification::new("app.exe");
    notification.show(&mut registry, 1, 0).unwrap();
    notification.show(&mut registry, 2, 0).unwrap();
    let moves = close_notification(&mut registry, 2);
    assert_eq!(moves, vec![Placement { window: 1, x: 1545, y: 855 }]);
    assert_eq!(registry.handles(), vec![1]);
}

#[test]
fn check_icon_says_what_is_wrong() {
    assert_eq!(check_icon(&[0; 16], 2, 2), Ok(()));
    assert_eq!(check_icon(&[0; 6], 1, 1), Err(IconError::LengthNotDivisibleBy4));
    assert_eq!(check_icon(&[0; 15], 2, 2), Err(IconError::LengthNotDivisibleBy4));
    assert_eq!(check_icon(&[0; 16], 2, 3), Err(IconError::SizeMismatch));
    assert_eq!(check_icon(&[], 65_536, 65_536), Err(IconError::SizeMismatch));
    assert_eq!(check_icon(&[], 1, 1), Err(IconError::SizeMismatch));
}

#[test]
fn icon_errors_in_words() {
    assert_eq!(
        IconError::LengthNotDivisibleBy4.message(),
        "The length of `rgba` is not divisible by 4"
    );
    assert_eq!(
        IconError::SizeMismatch.message(),
        "`width * height` is not equal `rgba.len() / 4`"
    );
}

#[test]
fn try_icon_sets_a_buffer_that_fits() {
    let mut notification = Notification::new("app.exe");
    notification.summary("title");
    assert_eq!(notification.try_icon(vec![1, 2, 3, 4, 5, 6, 7, 8], 2, 1), Ok(()));
    assert_eq!(notification.icon_rgba(), Some(&vec![1, 2, 3, 4, 5, 6, 7, 8]));
    assert_eq!(notification.icon_size(), (2, 1));
    assert_eq!(notification.title(), "title");
}

#[test]
fn try_icon_refuses_a_length_that_is_no_multiple_of_four() {
    let mut notification = Notification::new("app.exe");
    assert_eq!(
        notification.try_icon(vec![0; 6], 1, 1),
        Err(IconError::LengthNotDivisibleBy4)
    );
    assert_eq!(notification.icon_rgba(), None);
    assert_eq!(notification.icon_size(), (32, 32));
}

#[test]
fn try_icon_refuses_a_wrong_size_and_keeps_the_old_icon() {
    let mut notification = Notification::new("app.exe");
    notification.icon(vec![9; 4], 1, 1);
    assert_eq!(
        notification.try_icon(vec![0; 16], 3, 3),
        Err(IconError::SizeMismatch)
    );
    assert_eq!(
        notification.try_icon(Vec::new(), 65_536, 65_536),
        Err(IconError::SizeMismatch)
    );
    assert_eq!(notification.icon_rgba(), Some(&vec![9, 9, 9, 9]));
    assert_eq!(notification.icon_size(), (1, 1));
    assert_eq!(notification.app_name(), "app.exe");
}
