use starcore::names::{
    format_log_line, new_wallpaper_class_name, tray_class_registered, wallpaper_class_name,
    wallpaper_window_title, ERROR_CLASS_ALREADY_EXISTS,
};
use starcore::wndproc::{
    wallpaper_window_reply, WindowReply, HTTRANSPARENT, MA_NOACTIVATE, WM_DESTROY, WM_ERASEBKGND,
    WM_MOUSEACTIVATE, WM_NCHITTEST, WM_PAINT,
};

#[test]
fn log_line_format() {
    assert_eq!(format_log_line(1700000000, "Application starting"), "[1700000000] Application starting");
    assert_eq!(format_log_line(0, ""), "[0] ");
}

#[test]
fn window_titles() {
    assert_eq!(wallpaper_window_title(0), "CPU Live Wallpaper 0");
    assert_eq!(wallpaper_window_title(12), "CPU Live Wallpaper 12");
}

#[test]
fn class_names() {
    assert_eq!(wallpaper_class_name(0), "BGCoreV2WallpaperClass_0");
    assert_eq!(wallpaper_class_name(u32::MAX), "BGCoreV2WallpaperClass_4294967295");
}

#[test]
fn random_class_name_shape() {
    let s = new_wallpaper_class_name();
    let digits = s.strip_prefix("BGCoreV2WallpaperClass_").expect("prefix");
    assert!(!digits.is_empty());
    let n: u32 = digits.parse().expect("a u32");
    assert_eq!(n.to_string(), digits);
}

#[test]
fn tray_class_registration_outcome() {
    assert!(tray_class_registered(0xC001, 0));
    assert!(tray_class_registered(0, ERROR_CLASS_ALREADY_EXISTS));
    assert!(!tray_class_registered(0, 5));
    assert_eq!(ERROR_CLASS_ALREADY_EXISTS, 1410);
}

#[test]
fn wallpaper_window_replies() {
    assert_eq!(wallpaper_window_reply(WM_NCHITTEST), WindowReply::Return(HTTRANSPARENT));
    assert_eq!(wallpaper_window_reply(WM_MOUSEACTIVATE), WindowReply::Return(MA_NOACTIVATE));
    assert_eq!(wallpaper_window_reply(WM_DESTROY), WindowReply::Destroyed);
    assert_eq!(wallpaper_window_reply(WM_ERASEBKGND), WindowReply::Return(1));
    assert_eq!(wallpaper_window_reply(WM_PAINT), WindowReply::Paint);
    assert_eq!(wallpaper_window_reply(0x0200), WindowReply::Default);
    assert_eq!(HTTRANSPARENT, -1);
    assert_eq!(MA_NOACTIVATE, 3);
    assert_eq!((WM_DESTROY, WM_PAINT, WM_ERASEBKGND, WM_MOUSEACTIVATE, WM_NCHITTEST), (2, 15, 20, 33, 132));
}
