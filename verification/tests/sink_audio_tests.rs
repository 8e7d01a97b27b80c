use yt_spout_syphon_bridge::audio::{
    coreaudio_device_id, enumerate_devices, normalize_device_id, normalize_devices, AudioDevice,
    DeviceEntry,
};
use yt_spout_syphon_bridge::engine::{
    choose_title, loadfile_command, loop_flag_value, parse_loop_flag, quality_format,
    startup_properties, PropertyValue,
};
use yt_spout_syphon_bridge::pump::Dims;
use yt_spout_syphon_bridge::sink::{init, release, send, send_texture, SenderState, SinkKind};

#[test]
fn sender_init_happens_once() {
    let mut s = SenderState::new(SinkKind::Spout);
    init(&mut s, 1280, 720);
    assert_eq!(s.initialized, Some(Dims { width: 1280, height: 720 }));
    init(&mut s, 640, 480);
    assert_eq!(s.initialized, Some(Dims { width: 1280, height: 720 }));
}

#[test]
fn sender_counts_frames() {
    let mut s = SenderState::new(SinkKind::Syphon);
    init(&mut s, 1280, 720);
    send(&mut s, 7, 1280, 720);
    send_texture(&mut s, 7, 1280, 720);
    assert_eq!(s.frames_sent, 2);
}

#[test]
fn sender_release_allows_reinit() {
    let mut s = SenderState::new(SinkKind::Spout);
    init(&mut s, 1280, 720);
    release(&mut s);
    assert_eq!(s.initialized, None);
    init(&mut s, 640, 480);
    assert_eq!(s.initialized, Some(Dims { width: 640, height: 480 }));
}

fn entry(name: &str, description: &str) -> DeviceEntry {
    DeviceEntry { name: name.to_string(), description: description.to_string() }
}

fn pairs(devices: &[AudioDevice]) -> Vec<(String, String)> {
    devices.iter().map(|d| (d.id.clone(), d.name.clone())).collect()
}

#[test]
fn device_list_uses_description_and_skips_nameless() {
    let raw = vec![
        entry("auto", "Autoselect device"),
        entry("coreaudio/abc", ""),
        entry("", "ghost entry"),
    ];
    let devices = normalize_devices(&raw);
    assert_eq!(
        pairs(&devices),
        vec![
            ("auto".to_string(), "Autoselect device".to_string()),
            ("coreaudio/abc".to_string(), "coreaudio/abc".to_string()),
        ]
    );
}

#[test]
fn empty_device_list_falls_back_to_auto() {
    let devices = normalize_devices(&Vec::new());
    assert_eq!(pairs(&devices), vec![("auto".to_string(), "Default".to_string())]);
    let ghost_only = normalize_devices(&vec![entry("", "x")]);
    assert_eq!(pairs(&ghost_only), vec![("auto".to_string(), "Default".to_string())]);
}

#[test]
fn portable_enumeration_offers_the_automatic_device() {
    assert_eq!(enumerate_devices(), vec![("auto".to_string(), "Default".to_string())]);
}

#[test]
fn device_ids_get_platform_prefix_and_default() {
    assert_eq!(coreaudio_device_id("AppleHDA:0"), "coreaudio/AppleHDA:0");
    assert_eq!(normalize_device_id(""), "auto");
    assert_eq!(normalize_device_id("coreaudio/x"), "coreaudio/x");
}

#[test]
fn quality_caps_map_to_format_filters() {
    assert_eq!(
        quality_format(&Some("1080p".to_string())),
        "bestvideo[height<=1080]+bestaudio/best[height<=1080]"
    );
    assert_eq!(
        quality_format(&Some("720p".to_string())),
        "bestvideo[height<=720]+bestaudio/best[height<=720]"
    );
    assert_eq!(
        quality_format(&Some("480p".to_string())),
        "bestvideo[height<=480]+bestaudio/best[height<=480]"
    );
    assert_eq!(quality_format(&Some("best".to_string())), "bestvideo+bestaudio/best");
    assert_eq!(quality_format(&None), "bestvideo+bestaudio/best");
}

#[test]
fn startup_properties_configure_the_engine_in_order() {
    let props = startup_properties(&Some("720p".to_string()));
    let names: Vec<&str> = props.iter().map(|(n, _)| n.as_str()).collect();
    assert_eq!(
        names,
        vec![
            "ytdl",
            "ytdl-raw-options",
            "ytdl-format",
            "hwdec",
            "vo",
            "cache",
            "cache-secs",
            "demuxer-max-bytes",
            "demuxer-max-back-bytes",
            "cache-pause-initial",
            "cache-pause-wait",
            "audio-pitch-correction",
        ]
    );
    assert!(matches!(props[0].1, PropertyValue::Flag(true)));
    match &props[2].1 {
        PropertyValue::Text(s) => {
            assert_eq!(s, "bestvideo[height<=720]+bestaudio/best[height<=720]")
        }
        _ => panic!("ytdl-format must be a text property"),
    }
    match &props[4].1 {
        PropertyValue::Text(s) => assert_eq!(s, "libmpv"),
        _ => panic!("vo must be a text property"),
    }
    assert!(matches!(props[6].1, PropertyValue::Int(10)));
    assert!(matches!(props[10].1, PropertyValue::Int(3)));
}

#[test]
fn loadfile_replaces_the_current_source() {
    let (name, args) = loadfile_command("https://example.test/v");
    assert_eq!(name, "loadfile");
    assert_eq!(args, vec!["https://example.test/v".to_string(), "replace".to_string()]);
}

#[test]
fn loop_flag_round_trips() {
    assert_eq!(loop_flag_value(true), "inf");
    assert_eq!(loop_flag_value(false), "no");
    assert!(parse_loop_flag(&"inf".to_string()));
    assert!(!parse_loop_flag(&"no".to_string()));
    assert!(!parse_loop_flag(&"".to_string()));
}

#[test]
fn title_prefers_media_title_then_filename() {
    assert_eq!(
        choose_title(Some("A Title".to_string()), Some("file.mp4".to_string())),
        "A Title"
    );
    assert_eq!(choose_title(Some("".to_string()), Some("file.mp4".to_string())), "file.mp4");
    assert_eq!(choose_title(None, Some("file.mp4".to_string())), "file.mp4");
    assert_eq!(choose_title(None, None), "(unknown title)");
}
