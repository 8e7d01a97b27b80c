//! Decode-engine decisions: the pure rules behind the engine's
//! property/command interface.
//!
//! The engine itself is an external capability; what belongs to this
//! crate is which values the player hands it — the stream-format filter
//! for a requested quality cap, the loop-mode property values — and how
//! its answers are read back.

use vstd::prelude::*;

verus! {

/// The view of an optional string.
pub open spec fn opt_view(s: Option<String>) -> Option<Seq<char>> {
    match s {
        Some(x) => Some(x@),
        None => None,
    }
}

/// The engine's stream-format filter for a requested quality cap: a known
/// cap selects the best stream within that height, anything else the best
/// stream overall.
pub open spec fn spec_quality_format(quality: Option<Seq<char>>) -> Seq<char> {
    match quality {
        Some(q) => {
            if q == "1080p"@ {
                "bestvideo[height<=1080]+bestaudio/best[height<=1080]"@
            } else if q == "720p"@ {
                "bestvideo[height<=720]+bestaudio/best[height<=720]"@
            } else if q == "480p"@ {
                "bestvideo[height<=480]+bestaudio/best[height<=480]"@
            } else {
                "bestvideo+bestaudio/best"@
            }
        },
        None => "bestvideo+bestaudio/best"@,
    }
}

/// The stream-format filter handed to the engine for a play request.
pub fn quality_format(quality: &Option<String>) -> (r: String)
    ensures
        r@ == spec_quality_format(
            match quality {
                Some(q) => Some(q@),
                None => None,
            },
        ),
{
    match quality {
        Some(q) => {
            if *q == "1080p".to_owned() {
                "bestvideo[height<=1080]+bestaudio/best[height<=1080]".to_owned()
            } else if *q == "720p".to_owned() {
                "bestvideo[height<=720]+bestaudio/best[height<=720]".to_owned()
            } else if *q == "480p".to_owned() {
                "bestvideo[height<=480]+bestaudio/best[height<=480]".to_owned()
            } else {
                "bestvideo+bestaudio/best".to_owned()
            }
        },
        None => "bestvideo+bestaudio/best".to_owned(),
    }
}

/// A value handed to the engine's property store.
#[derive(Clone, Debug)]
pub enum PropertyValue {
    Flag(bool),
    Int(i64),
    Text(String),
}

/// The property assignments that configure a fresh engine instance, in
/// the order they are applied: streaming-site resolution with browser
/// cookies, the stream-format filter for the requested quality, safe
/// hardware decoding, the render-callback video output, generous
/// caching against stutter, and pitch correction for speed changes.
pub fn startup_properties(quality: &Option<String>) -> (r: Vec<(String, PropertyValue)>)
    ensures
        r@.len() == 12,
        r@[0].0@ == "ytdl"@ && r@[0].1 == PropertyValue::Flag(true),
        r@[1].0@ == "ytdl-raw-options"@ && r@[1].1 is Text && r@[1].1->0@
            == "cookies-from-browser=chrome"@,
        r@[2].0@ == "ytdl-format"@ && r@[2].1 is Text && r@[2].1->0@ == spec_quality_format(
            match quality {
                Some(q) => Some(q@),
                None => None,
            },
        ),
        r@[3].0@ == "hwdec"@ && r@[3].1 is Text && r@[3].1->0@ == "auto-safe"@,
        r@[4].0@ == "vo"@ && r@[4].1 is Text && r@[4].1->0@ == "libmpv"@,
        r@[5].0@ == "cache"@ && r@[5].1 == PropertyValue::Flag(true),
        r@[6].0@ == "cache-secs"@ && r@[6].1 == PropertyValue::Int(10),
        r@[7].0@ == "demuxer-max-bytes"@ && r@[7].1 is Text && r@[7].1->0@ == "150M"@,
        r@[8].0@ == "demuxer-max-back-bytes"@ && r@[8].1 is Text && r@[8].1->0@ == "75M"@,
        r@[9].0@ == "cache-pause-initial"@ && r@[9].1 == PropertyValue::Flag(true),
        r@[10].0@ == "cache-pause-wait"@ && r@[10].1 == PropertyValue::Int(3),
        r@[11].0@ == "audio-pitch-correction"@ && r@[11].1 == PropertyValue::Flag(true),
{
    let mut r: Vec<(String, PropertyValue)> = Vec::new();
    r.push(("ytdl".to_owned(), PropertyValue::Flag(true)));
    r.push((
        "ytdl-raw-options".to_owned(),
        PropertyValue::Text("cookies-from-browser=chrome".to_owned()),
    ));
    r.push(("ytdl-format".to_owned(), PropertyValue::Text(quality_format(quality))));
    r.push(("hwdec".to_owned(), PropertyValue::Text("auto-safe".to_owned())));
    r.push(("vo".to_owned(), PropertyValue::Text("libmpv".to_owned())));
    r.push(("cache".to_owned(), PropertyValue::Flag(true)));
    r.push(("cache-secs".to_owned(), PropertyValue::Int(10)));
    r.push(("demuxer-max-bytes".to_owned(), PropertyValue::Text("150M".to_owned())));
    r.push(("demuxer-max-back-bytes".to_owned(), PropertyValue::Text("75M".to_owned())));
    r.push(("cache-pause-initial".to_owned(), PropertyValue::Flag(true)));
    r.push(("cache-pause-wait".to_owned(), PropertyValue::Int(3)));
    r.push(("audio-pitch-correction".to_owned(), PropertyValue::Flag(true)));
    r
}

/// The engine command that starts playback of a source, issued only after
/// the render context exists: the command name and its arguments, the
/// second of which replaces whatever was playing.
pub fn loadfile_command(url: &str) -> (r: (String, Vec<String>))
    ensures
        r.0@ == "loadfile"@,
        r.1@.len() == 2,
        r.1@[0]@ == url@,
        r.1@[1]@ == "replace"@,
{
    let mut args: Vec<String> = Vec::new();
    args.push(url.to_owned());
    args.push("replace".to_owned());
    ("loadfile".to_owned(), args)
}

/// The engine's loop-file property value for a requested loop mode.
pub fn loop_flag_value(enabled: bool) -> (r: &'static str)
    ensures
        r@ == if enabled {
            "inf"@
        } else {
            "no"@
        },
{
    if enabled {
        "inf"
    } else {
        "no"
    }
}

/// Whether an engine-reported loop-file property value means looping.
pub fn parse_loop_flag(value: &String) -> (r: bool)
    ensures
        r == (value@ == "inf"@),
{
    *value == "inf".to_owned()
}

/// The title shown for the playing medium: the engine's media title where
/// it knows one, else the file name, else a fixed placeholder.
pub open spec fn spec_choose_title(title: Option<Seq<char>>, filename: Option<Seq<char>>) -> Seq<
    char,
> {
    if title is Some && title->0.len() > 0 {
        title->0
    } else if filename is Some {
        filename->0
    } else {
        "(unknown title)"@
    }
}

/// Pick the displayed title from the engine's `media-title` and
/// `filename` property reads (`None` where the read failed).
pub fn choose_title(title: Option<String>, filename: Option<String>) -> (r: String)
    ensures
        r@ == spec_choose_title(opt_view(title), opt_view(filename)),
{
    match title {
        Some(t) => {
            if !t.as_str().is_empty() {
                t
            } else {
                title_fallback(filename)
            }
        },
        None => title_fallback(filename),
    }
}

/// The displayed title when the engine knows no media title.
fn title_fallback(filename: Option<String>) -> (r: String)
    ensures
        r@ == match filename {
            Some(f) => f@,
            None => "(unknown title)"@,
        },
{
    match filename {
        Some(f) => f,
        None => "(unknown title)".to_owned(),
    }
}

} // verus!
