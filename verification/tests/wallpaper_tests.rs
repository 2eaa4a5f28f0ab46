use player_core::audio_format::{crossfade_compatible, push_plan, DecodedBufferKind, FileAudio, NativeFormat, PushPlan};
use player_core::wallpaper::{
    config_value, contains_text, fehbg_path, gsettings_value, is_pid_dir_name, swww_line_path,
    trim_text, wallpaper_candidates, wallpaper_ref, xfconf_value, TrimSet, WallpaperRef,
};
use player_core::wallpaper::{
    config_file_of, daemon_of, gsettings_of, wallpaper_sources, ConfigSource, SettingsSource, WallpaperDaemon,
    WallpaperSource,
};
use player_core::wallpaper::{accept_image, wallpaper_read, wallpaper_read_decision, WallpaperRead};

fn strings(v: &[&str]) -> Vec<String> {
    v.iter().map(|s| s.to_string()).collect()
}

#[test]
fn trimming_matches_std() {
    for s in ["  a b  ", "\t\n x \u{a0}", "", "   ", "\u{3000}y\u{2009}", "z"] {
        assert_eq!(trim_text(s, TrimSet::WhiteSpace), s.trim());
    }
    assert_eq!(trim_text("' \"x\" '", TrimSet::QuotesAndSpace), "x");
    assert_eq!(trim_text("'\"x y\"'", TrimSet::Quotes), "x y");
}

#[test]
fn substring_search() {
    assert!(contains_text("/usr/bin/swaybg", "swaybg"));
    assert!(!contains_text("feh", "swaybg"));
    assert!(contains_text("abc", ""));
    assert!(contains_text("/xfce4-desktop/backdrop/screen0/monitor0/last-image", "last-image"));
}

#[test]
fn swww_lines() {
    assert_eq!(
        swww_line_path("Monitor eDP-1 (2560x1600): /path/to/wallpaper.jpg \n").as_deref(),
        Some("/path/to/wallpaper.jpg")
    );
    assert_eq!(swww_line_path("no separator here"), None);
}

#[test]
fn config_lines() {
    assert_eq!(
        config_value("current_wallpaper = \"/home/u/w.png\"", "current_wallpaper").as_deref(),
        Some("/home/u/w.png")
    );
    assert_eq!(config_value("wallpaper='/a b.jpg'", "wallpaper").as_deref(), Some("/a b.jpg"));
    assert_eq!(config_value("Image=file:///x.png", "Image").as_deref(), Some("file:///x.png"));
    assert_eq!(config_value("file=/x.png", "Image"), None);
    assert_eq!(config_value("no equals sign", "file"), None);
    assert_eq!(config_value("k=a=b", "k").as_deref(), Some("a=b"));
}

#[test]
fn fehbg_scripts() {
    assert_eq!(
        fehbg_path("#!/bin/sh\nexec feh --bg-scale '/home/u/wall.jpg' \n").as_deref(),
        Some("/home/u/wall.jpg")
    );
    assert_eq!(fehbg_path("feh --bg-fill \"/w.png\"").as_deref(), Some("/w.png"));
    assert_eq!(fehbg_path("feh --bg-fill '/unterminated").as_deref(), Some("/unterminated"));
    assert_eq!(fehbg_path("feh --bg-fill /x.png"), None);
}

#[test]
fn gsettings_and_xfconf_values() {
    assert_eq!(gsettings_value("'file:///usr/share/bg.png'\n"), "file:///usr/share/bg.png");
    assert_eq!(gsettings_value("'"), "");
    assert_eq!(gsettings_value("plain"), "plain");
    assert_eq!(xfconf_value(" '/w.jpg'\n"), "/w.jpg");
}

#[test]
fn wallpaper_references() {
    assert_eq!(wallpaper_ref("  "), None);
    assert_eq!(wallpaper_ref("file:///a/b.png"), Some(WallpaperRef::Path("/a/b.png".into())));
    assert_eq!(wallpaper_ref(" ~/Pictures/w.jpg "), Some(WallpaperRef::HomeRelative("Pictures/w.jpg".into())));
    assert_eq!(wallpaper_ref("/abs/w.jpg"), Some(WallpaperRef::Path("/abs/w.jpg".into())));
}

#[test]
fn daemon_arguments() {
    let flags = strings(&["-i", "--image"]);
    let args = strings(&["swaybg", "-o", "*", "-i", "/w.png", "-m", "fill"]);
    assert_eq!(wallpaper_candidates(&args, "swaybg", &flags), strings(&["/w.png"]));
    let args = strings(&["feh", "--bg-scale", "/w.jpg"]);
    assert_eq!(wallpaper_candidates(&args, "feh", &vec![]), strings(&["/w.jpg"]));
    assert!(wallpaper_candidates(&args, "swaybg", &flags).is_empty());
    assert!(wallpaper_candidates(&vec![], "feh", &vec![]).is_empty());
    let args = strings(&["/usr/bin/swaybg", "--image", "/a.png", "-i", "/b.png"]);
    assert_eq!(wallpaper_candidates(&args, "swaybg", &flags), strings(&["/a.png", "/b.png"]));
}

#[test]
fn pid_names() {
    assert!(is_pid_dir_name("1234"));
    assert!(!is_pid_dir_name("self"));
    assert!(!is_pid_dir_name("12a"));
    assert!(is_pid_dir_name(""));
}

#[test]
fn crossfade_compatibility() {
    let next = FileAudio { sample_rate: 44100, channels: 2, kind: DecodedBufferKind::S24, bits_per_sample: 24 };
    assert!(crossfade_compatible(&next, 44100, Some(NativeFormat::S243)));
    assert!(!crossfade_compatible(&next, 48000, Some(NativeFormat::S24)));
    assert!(!crossfade_compatible(&next, 44100, Some(NativeFormat::S16)));
    assert!(!crossfade_compatible(&next, 44100, None));
}

#[test]
fn push_plans() {
    assert_eq!(push_plan(256, 0, 1000), PushPlan { samples: 256, frames_pushed: 128, keep_going: true });
    assert_eq!(push_plan(256, 900, 1000), PushPlan { samples: 200, frames_pushed: 900, keep_going: false });
    assert_eq!(push_plan(256, 872, 1000), PushPlan { samples: 256, frames_pushed: 1000, keep_going: true });
    assert_eq!(push_plan(7, 0, 10), PushPlan { samples: 7, frames_pushed: 3, keep_going: true });
}

#[test]
fn wallpaper_sources_in_lookup_order() {
    let src = wallpaper_sources();
    assert_eq!(src.len(), 18);
    assert_eq!(src[0], WallpaperSource::Gsettings(SettingsSource::Gnome));
    assert_eq!(src[1], WallpaperSource::Daemon(WallpaperDaemon::Swaybg));
    assert_eq!(src[5], WallpaperSource::SwwwQuery);
    assert_eq!(src[6], WallpaperSource::HyprpaperLoaded);
    assert_eq!(src[9], WallpaperSource::ConfigFile(ConfigSource::Waypaper));
    assert_eq!(src[13], WallpaperSource::Fehbg);
    assert_eq!(src[14], WallpaperSource::Gsettings(SettingsSource::Cinnamon));
    assert_eq!(src[16], WallpaperSource::KdeDbus);
    assert_eq!(src[17], WallpaperSource::Xfconf);
    let (bin, flags) = daemon_of(WallpaperDaemon::Swaybg);
    assert_eq!(bin, "swaybg");
    assert_eq!(flags, vec!["-i".to_string(), "--image".to_string()]);
    assert!(daemon_of(WallpaperDaemon::Feh).1.is_empty());
    assert_eq!(
        config_file_of(ConfigSource::Nitrogen),
        ("nitrogen/bg-saved.cfg".to_string(), "file".to_string())
    );
    assert_eq!(
        gsettings_of(SettingsSource::Mate),
        ("org.mate.background".to_string(), "picture-filename".to_string())
    );
}

fn tiny_png() -> Vec<u8> {
    let img = image::RgbImage::new(2, 2);
    let mut out = std::io::Cursor::new(Vec::new());
    img.write_to(&mut out, image::ImageFormat::Png).unwrap();
    out.into_inner()
}

#[test]
fn wallpaper_bytes_are_used_framed_or_skipped() {
    let png = tiny_png();
    assert_eq!(accept_image(png.clone()), Some(png.clone()));
    assert_eq!(accept_image(b"not an image".to_vec()), None);
    assert_eq!(wallpaper_read(&png, "/w/a.mp4"), WallpaperRead::Use);
    assert_eq!(wallpaper_read(&b"junk".to_vec(), "/w/a.mp4"), WallpaperRead::DecodeVideoFrame);
    assert_eq!(wallpaper_read(&b"junk".to_vec(), "/w/a.txt"), WallpaperRead::Skip);
    assert_eq!(wallpaper_read_decision(false, "/w/loop.webm"), WallpaperRead::DecodeVideoFrame);
    assert_eq!(wallpaper_read_decision(true, "/w/a.txt"), WallpaperRead::Use);
}
