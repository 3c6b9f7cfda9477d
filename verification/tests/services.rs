use relay_bot::error::FailureReason;
use relay_bot::json::is_readable;
use relay_bot::pattern::captured_texts;
use relay_bot::services::{
    key_file, ConfigMissing, gfycat_caption, gfycat_entry, gfycat_url, http_outcome, missing_field, mistyped_field, pattern,
    read_document, registration_order, report_error, require, require_first, require_number,
    require_text, require_whole, vacant_field, weather_caption, weather_entry, weather_url,
    xkcd_caption, xkcd_reply, xkcd_url, yt_caption, yt_reply, yt_url, GfycatEntry, Service,
    WeatherEntry,
};
use rustc_serialize::json::Json;

fn doc(text: &str) -> Json {
    read_document(text).unwrap()
}

fn violation(text: &str) -> FailureReason {
    FailureReason::ContractViolation(text.to_string())
}

fn upstream(text: &str) -> FailureReason {
    FailureReason::Upstream(text.to_string())
}

#[test]
fn addresses_are_built_around_what_is_asked_for() {
    assert_eq!(xkcd_url("327"), "https://xkcd.com/327/info.0.json");
    assert_eq!(gfycat_url("TallShyAnt"), "http://gfycat.com/cajax/get/TallShyAnt");
    assert_eq!(
        weather_url("Oslo", "k3y"),
        "http://api.openweathermap.org/data/2.5/weather?q=Oslo&APPID=k3y"
    );
    assert_eq!(
        yt_url("abc123", "k3y"),
        "https://www.googleapis.com/youtube/v3/videos?id=abc123&key=k3y&part=snippet,contentDetails&fields=items(snippet/title,snippet/channelTitle,contentDetails/duration)"
    );
    assert_eq!(xkcd_url(""), "https://xkcd.com//info.0.json");
}

#[test]
fn status_200_gives_the_body() {
    assert_eq!(http_outcome(200, "Ok", "body".to_string()), Ok("body".to_string()));
    assert_eq!(http_outcome(200, "Ok", String::new()), Ok(String::new()));
}

#[test]
fn other_statuses_are_upstream_failures() {
    assert_eq!(http_outcome(400, "BadRequest", "b".to_string()), Err(upstream("HTTP Bad Request")));
    assert_eq!(http_outcome(404, "NotFound", "b".to_string()), Err(upstream("HTTP Not Found")));
    assert_eq!(
        http_outcome(500, "InternalServerError", "b".to_string()),
        Err(upstream("InternalServerError"))
    );
    assert_eq!(http_outcome(201, "Created", "b".to_string()), Err(upstream("Created")));
    assert_eq!(http_outcome(0, "", "b".to_string()), Err(upstream("")));
}

#[test]
fn a_body_that_is_no_json_is_an_upstream_failure_in_the_parsers_words() {
    let body = "{\"title\": ";
    let expected = format!("{}", Json::from_str(body).unwrap_err());
    assert_eq!(read_document(body), Err(upstream(&expected)));
    assert_eq!(xkcd_reply(body), Err(upstream(&expected)));
    assert_eq!(yt_reply(body), Err(upstream(&expected)));
    assert_ne!(expected, body);
    assert_eq!(expected, "SyntaxError(\"EOF While parsing value\", 1, 11)");
}

#[test]
fn a_body_that_is_json_is_read_as_it_stands() {
    assert_eq!(read_document("[1, \"two\"]"), Ok(Json::from_str("[1,\"two\"]").unwrap()));
    assert_eq!(read_document(" null "), Ok(Json::Null));
}

#[test]
fn failures_are_worded_with_service_and_field() {
    assert_eq!(missing_field("XKCD", "title"), violation("XKCD API error - could not find 'title'"));
    assert_eq!(
        mistyped_field("Youtube", "items", "an array"),
        violation("Youtube API error - 'items' was not an array")
    );
    assert_eq!(vacant_field("Youtube", "items"), violation("Youtube API error - 'items' was empty"));
}

#[test]
fn required_fields_are_looked_up_in_objects_only() {
    let json = doc("{\"a\": {\"b\": 1}, \"s\": \"text\", \"n\": 7, \"l\": [\"x\", \"y\"]}");
    assert_eq!(require(&json, "a", "S"), Ok(&doc("{\"b\": 1}")));
    assert_eq!(require(&json, "b", "S"), Err(violation("S API error - could not find 'b'")));
    assert_eq!(
        require(&doc("[1]"), "a", "S"),
        Err(violation("S API error - could not find 'a'"))
    );
    assert_eq!(
        require(&doc("\"a\""), "a", "S"),
        Err(violation("S API error - could not find 'a'"))
    );
}

#[test]
fn required_texts_numbers_and_first_elements() {
    let json = doc(
        "{\"s\": \"text\", \"n\": 7, \"neg\": -7, \"f\": 1.5, \"l\": [\"x\", \"y\"], \"e\": [], \"t\": true}",
    );
    assert_eq!(require_text(&json, "s", "S"), Ok("text".to_string()));
    assert_eq!(require_text(&json, "n", "S"), Err(violation("S API error - 'n' was not a string")));
    assert_eq!(require_text(&json, "x", "S"), Err(violation("S API error - could not find 'x'")));
    assert_eq!(require_whole(&json, "n", "S"), Ok(7));
    assert_eq!(require_whole(&json, "neg", "S"), Err(violation("S API error - 'neg' was not a u64")));
    assert_eq!(require_whole(&json, "f", "S"), Err(violation("S API error - 'f' was not a u64")));
    assert_eq!(require_whole(&json, "s", "S"), Err(violation("S API error - 's' was not a u64")));
    assert_eq!(require_whole(&json, "x", "S"), Err(violation("S API error - could not find 'x'")));
    assert_eq!(require_number(&json, "n", "S", "a number"), Ok(&doc("7")));
    assert_eq!(require_number(&json, "neg", "S", "a number"), Ok(&doc("-7")));
    assert_eq!(require_number(&json, "f", "S", "a number"), Ok(&doc("1.5")));
    assert_eq!(
        require_number(&json, "t", "S", "a number"),
        Err(violation("S API error - 't' was not a number"))
    );
    assert_eq!(
        require_number(&json, "x", "S", "a f64"),
        Err(violation("S API error - could not find 'x'"))
    );
    assert_eq!(require_first(&json, "l", "S"), Ok(&doc("\"x\"")));
    assert_eq!(require_first(&json, "e", "S"), Err(violation("S API error - 'e' was empty")));
    assert_eq!(require_first(&json, "s", "S"), Err(violation("S API error - 's' was not an array")));
    assert_eq!(require_first(&json, "x", "S"), Err(violation("S API error - could not find 'x'")));
}

#[test]
fn an_error_that_a_service_reports_is_an_upstream_failure() {
    assert_eq!(report_error(&doc("{\"error\": \"no such clip\"}"), "error", "gfycat"), Some(upstream("no such clip")));
    assert_eq!(
        report_error(&doc("{\"error\": 404}"), "error", "gfycat"),
        Some(violation("gfycat API error - 'error' was not a string"))
    );
    assert_eq!(report_error(&doc("{\"fine\": 1}"), "error", "gfycat"), None);
    assert_eq!(report_error(&doc("[]"), "error", "gfycat"), None);
}

#[test]
fn a_comic_is_worded_with_title_and_date() {
    let body = "{\"title\": \"Exploits of a Mom\", \"year\": \"2007\", \"month\": \"10\", \"day\": \"10\", \"num\": 327}";
    assert_eq!(xkcd_reply(body), Ok("Exploits of a Mom (2007-10-10)".to_string()));
    assert_eq!(xkcd_caption(&doc(body)), Ok("Exploits of a Mom (2007-10-10)".to_string()));
}

#[test]
fn the_first_broken_field_of_a_comic_decides() {
    assert_eq!(
        xkcd_reply("{\"year\": 2007}"),
        Err(violation("XKCD API error - could not find 'title'"))
    );
    assert_eq!(
        xkcd_reply("{\"title\": \"t\", \"year\": 2007, \"month\": 1}"),
        Err(violation("XKCD API error - 'year' was not a string"))
    );
    assert_eq!(
        xkcd_reply("{\"title\": \"t\", \"year\": \"2007\", \"day\": \"1\"}"),
        Err(violation("XKCD API error - could not find 'month'"))
    );
    assert_eq!(
        xkcd_reply("{\"title\": \"t\", \"year\": \"2007\", \"month\": \"1\", \"day\": null}"),
        Err(violation("XKCD API error - 'day' was not a string"))
    );
    assert_eq!(xkcd_reply("[]"), Err(violation("XKCD API error - could not find 'title'")));
}

const VIDEO: &str = "{\"items\": [{\"snippet\": {\"title\": \"Title\", \"channelTitle\": \"Channel\"}, \"contentDetails\": {\"duration\": \"PT3M\"}}]}";

#[test]
fn a_video_is_worded_with_title_channel_and_length() {
    assert_eq!(yt_reply(VIDEO), Ok("\"Title\" by Channel (3 minutes)".to_string()));
    assert_eq!(yt_caption(&doc(VIDEO)), Ok("\"Title\" by Channel (3 minutes)".to_string()));
    let long = VIDEO.replace("PT3M", "P1DT1H1M1S");
    assert_eq!(
        yt_reply(&long),
        Ok("\"Title\" by Channel (1 day, 1 hour, 1 minute, 1 second)".to_string())
    );
}

#[test]
fn the_first_broken_field_of_a_video_decides() {
    assert_eq!(yt_reply("{}"), Err(violation("Youtube API error - could not find 'items'")));
    assert_eq!(
        yt_reply("{\"items\": {}}"),
        Err(violation("Youtube API error - 'items' was not an array"))
    );
    assert_eq!(yt_reply("{\"items\": []}"), Err(violation("Youtube API error - 'items' was empty")));
    assert_eq!(
        yt_reply("{\"items\": [{}]}"),
        Err(violation("Youtube API error - could not find 'snippet'"))
    );
    assert_eq!(
        yt_reply("{\"items\": [{\"snippet\": {}}]}"),
        Err(violation("Youtube API error - could not find 'title'"))
    );
    assert_eq!(
        yt_reply("{\"items\": [{\"snippet\": {\"title\": 1}}]}"),
        Err(violation("Youtube API error - 'title' was not a string"))
    );
    assert_eq!(
        yt_reply("{\"items\": [{\"snippet\": {\"title\": \"t\"}}]}"),
        Err(violation("Youtube API error - could not find 'channelTitle'"))
    );
    assert_eq!(
        yt_reply("{\"items\": [{\"snippet\": {\"title\": \"t\", \"channelTitle\": \"c\"}}]}"),
        Err(violation("Youtube API error - could not find 'contentDetails'"))
    );
    assert_eq!(
        yt_reply(&VIDEO.replace("\"duration\": \"PT3M\"", "\"length\": 3")),
        Err(violation("Youtube API error - could not find 'duration'"))
    );
    assert_eq!(
        yt_reply(&VIDEO.replace("\"PT3M\"", "180")),
        Err(violation("Youtube API error - 'duration' was not a string"))
    );
    assert_eq!(
        yt_reply(&VIDEO.replace("PT3M", "3 minutes")),
        Err(violation("Youtube API error - 'duration' was not a duration"))
    );
}

const CLIP: &str = "{\"gfyItem\": {\"frameRate\": 29.97, \"numFrames\": 300, \"nsfw\": \"0\", \"webmSize\": 4194304, \"title\": \"A cat\"}}";

#[test]
fn a_clip_entry_holds_label_frames_and_size() {
    assert_eq!(
        gfycat_entry(&doc(CLIP)),
        Ok(GfycatEntry { label: "\"A cat\"".to_string(), frames: 300, size: 4194304 })
    );
    assert_eq!(
        gfycat_entry(&doc(&CLIP.replace("\"nsfw\": \"0\"", "\"nsfw\": \"1\""))),
        Ok(GfycatEntry { label: "NSFW \"A cat\"".to_string(), frames: 300, size: 4194304 })
    );
    assert_eq!(
        gfycat_entry(&doc(&CLIP.replace("\"nsfw\": \"0\"", "\"nsfw\": 1"))),
        Ok(GfycatEntry { label: "\"A cat\"".to_string(), frames: 300, size: 4194304 })
    );
    assert_eq!(
        gfycat_entry(&doc(&CLIP.replace("\"A cat\"", "null").replace("\"0\"", "\"1\""))),
        Ok(GfycatEntry { label: "NSFW <unknown>".to_string(), frames: 300, size: 4194304 })
    );
    assert_eq!(
        gfycat_entry(&doc(&CLIP.replace("29.97", "30"))),
        Ok(GfycatEntry { label: "\"A cat\"".to_string(), frames: 300, size: 4194304 })
    );
}

#[test]
fn the_first_broken_field_of_a_clip_decides() {
    assert_eq!(gfycat_entry(&doc("{\"error\": \"gone\", \"gfyItem\": 1}")), Err(upstream("gone")));
    assert_eq!(
        gfycat_entry(&doc("{\"error\": 1}")),
        Err(violation("gfycat API error - 'error' was not a string"))
    );
    assert_eq!(gfycat_entry(&doc("{}")), Err(violation("gfycat API error - could not find 'gfyItem'")));
    assert_eq!(
        gfycat_entry(&doc("{\"gfyItem\": []}")),
        Err(violation("gfycat API error - 'gfyItem' was not an object"))
    );
    assert_eq!(
        gfycat_entry(&doc("{\"gfyItem\": {}}")),
        Err(violation("gfycat API error - could not find 'frameRate'"))
    );
    assert_eq!(
        gfycat_entry(&doc(&CLIP.replace("29.97", "\"fast\""))),
        Err(violation("gfycat API error - 'frameRate' was not a f64"))
    );
    assert_eq!(
        gfycat_entry(&doc(&CLIP.replace("\"numFrames\": 300, ", ""))),
        Err(violation("gfycat API error - could not find 'numFrames'"))
    );
    assert_eq!(
        gfycat_entry(&doc(&CLIP.replace("300", "-300"))),
        Err(violation("gfycat API error - 'numFrames' was not a u64"))
    );
    assert_eq!(
        gfycat_entry(&doc(&CLIP.replace("\"nsfw\": \"0\", ", ""))),
        Err(violation("gfycat API error - could not find 'nsfw'"))
    );
    assert_eq!(
        gfycat_entry(&doc(&CLIP.replace("4194304", "4.5"))),
        Err(violation("gfycat API error - 'webmSize' was not a u64"))
    );
    assert_eq!(
        gfycat_entry(&doc(&CLIP.replace(", \"title\": \"A cat\"", ""))),
        Err(violation("gfycat API error - could not find 'title'"))
    );
}

#[test]
fn a_clip_is_worded_with_size_and_length() {
    assert_eq!(
        gfycat_caption("NSFW \"A cat\"", "2.00", "10.0"),
        "NSFW \"A cat\" (2.00 MB, 10.0 seconds)"
    );
    assert_eq!(gfycat_caption("", "", ""), " ( MB,  seconds)");
}

const WEATHER: &str = "{\"name\": \"Oslo\", \"weather\": [{\"description\": \"light rain\"}, {\"description\": \"mist\"}], \"main\": {\"temp\": 280.15, \"humidity\": 81}, \"wind\": {\"speed\": 4.1}}";

#[test]
fn a_weather_entry_holds_name_and_description() {
    assert_eq!(
        weather_entry(&doc(WEATHER)),
        Ok(WeatherEntry { name: "Oslo".to_string(), description: "light rain".to_string() })
    );
}

#[test]
fn the_first_broken_field_of_a_weather_report_decides() {
    assert_eq!(
        weather_entry(&doc("{\"message\": \"city not found\", \"cod\": \"404\"}")),
        Err(upstream("city not found"))
    );
    assert_eq!(
        weather_entry(&doc("{\"message\": 0.0}")),
        Err(violation("OpenWeatherMap API error - 'message' was not a string"))
    );
    assert_eq!(
        weather_entry(&doc("{}")),
        Err(violation("OpenWeatherMap API error - could not find 'name'"))
    );
    assert_eq!(
        weather_entry(&doc("{\"name\": \"Oslo\", \"weather\": 1}")),
        Err(violation("OpenWeatherMap API error - 'weather' was not an array"))
    );
    assert_eq!(
        weather_entry(&doc("{\"name\": \"Oslo\", \"weather\": []}")),
        Err(violation("OpenWeatherMap API error - 'weather' was empty"))
    );
    assert_eq!(
        weather_entry(&doc("{\"name\": \"Oslo\", \"weather\": [{}]}")),
        Err(violation("OpenWeatherMap API error - could not find 'description'"))
    );
    assert_eq!(
        weather_entry(&doc(&WEATHER.replace("\"main\"", "\"other\""))),
        Err(violation("OpenWeatherMap API error - could not find 'main'"))
    );
    assert_eq!(
        weather_entry(&doc(&WEATHER.replace("280.15", "\"cold\""))),
        Err(violation("OpenWeatherMap API error - 'temp' was not a number"))
    );
    assert_eq!(
        weather_entry(&doc(&WEATHER.replace("\"humidity\": 81", "\"dry\": 1"))),
        Err(violation("OpenWeatherMap API error - could not find 'humidity'"))
    );
    assert_eq!(
        weather_entry(&doc(&WEATHER.replace("\"wind\"", "\"breeze\""))),
        Err(violation("OpenWeatherMap API error - could not find 'wind'"))
    );
    assert_eq!(
        weather_entry(&doc(&WEATHER.replace("4.1", "null"))),
        Err(violation("OpenWeatherMap API error - 'speed' was not a number"))
    );
}

#[test]
fn the_weather_is_worded_with_all_its_numbers() {
    assert_eq!(
        weather_caption("Oslo", "44.60", "7.00", "81", "light rain", "4.10"),
        "Oslo weather: 44.60 \u{b0}F (7.00 \u{b0}C), 81% humidity, light rain and wind 4.10 m/s"
    );
}

#[test]
fn services_are_registered_in_a_fixed_order() {
    assert_eq!(
        registration_order(true, true),
        vec![Service::Video, Service::Weather, Service::Clip, Service::Comic]
    );
    assert_eq!(registration_order(false, true), vec![Service::Weather, Service::Clip, Service::Comic]);
    assert_eq!(registration_order(true, false), vec![Service::Video, Service::Clip, Service::Comic]);
    assert_eq!(registration_order(false, false), vec![Service::Clip, Service::Comic]);
}

#[test]
fn every_service_has_a_pattern_with_one_group() {
    for service in [Service::Video, Service::Weather, Service::Clip, Service::Comic] {
        let compiled = regex::Regex::new(pattern(service)).unwrap();
        assert_eq!(compiled.captures_len(), 2);
    }
    assert_eq!(pattern(Service::Comic), r"xkcd\.com/(\d+)");
    assert_eq!(pattern(Service::Clip), r"gfycat\.com/((?:[A-Z][a-z]+){3})");
    assert_eq!(pattern(Service::Weather), r"^!weather\s*(.+?)\s*$");
    assert_eq!(
        pattern(Service::Video),
        r"(?:(?:youtube\.com/watch\?\S*?v=)|(?:youtu\.be/))([\w-]+)"
    );
}

#[test]
fn patterns_capture_what_the_services_are_asked_about() {
    let capture = |service: Service, text: &str| {
        captured_texts(&regex::Regex::new(pattern(service)).unwrap(), text)
    };
    assert_eq!(capture(Service::Video, "check out youtu.be/abc123"), vec!["abc123"]);
    assert_eq!(
        capture(Service::Video, "https://www.youtube.com/watch?t=1&v=dQw4w9WgXcQ&x=y"),
        vec!["dQw4w9WgXcQ"]
    );
    assert_eq!(capture(Service::Weather, "!weather   New York  "), vec!["New York"]);
    assert_eq!(capture(Service::Weather, "say !weather Oslo"), Vec::<String>::new());
    assert_eq!(capture(Service::Clip, "gfycat.com/TallShyAnt nice"), vec!["TallShyAnt"]);
    assert_eq!(capture(Service::Clip, "gfycat.com/tallshyant"), Vec::<String>::new());
    assert_eq!(capture(Service::Comic, "xkcd.com/327 xkcd.com/1"), vec!["327", "1"]);
}

#[test]
fn only_videos_and_weather_need_a_key() {
    assert_eq!(key_file(Service::Video), Some("gapi_key.dat"));
    assert_eq!(key_file(Service::Weather), Some("wapi_key.dat"));
    assert_eq!(key_file(Service::Clip), None);
    assert_eq!(key_file(Service::Comic), None);
}

#[test]
fn a_missing_key_is_worded_for_the_operator() {
    assert_eq!(
        ConfigMissing { service: Service::Video }.message(),
        "gapi_key.dat should contain a Google API key to use youtube functionality"
    );
    assert_eq!(
        ConfigMissing { service: Service::Weather }.message(),
        "wapi_key.dat should contain an OpenWeatherMap API key to use weather functionality"
    );
}

#[test]
fn a_missing_key_switches_off_only_the_service_that_needs_it() {
    for has_video_key in [false, true] {
        for has_weather_key in [false, true] {
            let registered = registration_order(has_video_key, has_weather_key);
            assert_eq!(registered.contains(&Service::Video), has_video_key);
            assert_eq!(registered.contains(&Service::Weather), has_weather_key);
            assert!(registered.contains(&Service::Clip));
            assert!(registered.contains(&Service::Comic));
        }
    }
}

const REFUSED: &str = "answer is too long, too deeply nested or has too long an exponent";

fn nested(depth: usize) -> String {
    "[".repeat(depth) + &"]".repeat(depth)
}

#[test]
fn a_text_within_the_limits_is_readable() {
    assert!(is_readable(""));
    assert!(is_readable(VIDEO));
    assert!(is_readable(CLIP));
    assert!(is_readable(WEATHER));
    assert!(is_readable(&nested(128)));
    assert!(is_readable(&("[{\"k\":".repeat(64) + "1" + &"}]".repeat(64))));
    assert!(is_readable("1e123456789"));
    assert!(is_readable("1E-123456789"));
    assert!(is_readable("12345678901234567890"));
    assert!(is_readable(&"x".repeat(65535)));
}

#[test]
fn only_what_is_open_at_once_counts_as_depth() {
    let siblings = "[".to_string() + &"[{}],".repeat(5000) + "[]]";
    assert!(is_readable(&siblings));
    assert!(read_document(&siblings).is_ok());
    assert!(is_readable(&(nested(128) + &nested(128))));
    assert!(!is_readable(&nested(129)));
    assert!(!is_readable(&"{".repeat(129)));
    assert!(!is_readable(&("[]".repeat(10) + &"[".repeat(129))));
}

#[test]
fn brackets_and_digits_inside_strings_do_not_count() {
    assert!(is_readable(&format!("\"{}\"", "[{".repeat(500))));
    assert!(is_readable("\"e0123456789\""));
    assert!(is_readable("{\"hash\": \"ab3e12345678901234567890\"}"));
    assert!(is_readable(&format!("\"a\\\"{}\"", "[".repeat(500))));
    assert!(is_readable(&format!("\"a\\\\\\\"{}\"", "[".repeat(500))));
    assert_eq!(
        read_document("\"e0123456789\""),
        Ok(Json::String("e0123456789".to_string()))
    );
    assert!(!is_readable(&format!("\"a\\\\\"{}", "[".repeat(500))));
    assert!(!is_readable(&format!("\"closed\" {}", "[".repeat(129))));
}

#[test]
fn too_long_an_exponent_is_not_readable() {
    assert!(!is_readable("1e1234567890"));
    assert!(!is_readable("1E+1234567890"));
    assert!(!is_readable("[1, 2e-0000000000]"));
    assert!(!is_readable("1e999999999999999999999"));
    assert!(!is_readable("{\"n\": \"text\", \"m\": 1e0000000001}"));
}

#[test]
fn a_text_of_more_than_65535_bytes_is_not_readable() {
    assert!(!is_readable(&"x".repeat(65536)));
    assert!(is_readable(&"\u{e9}".repeat(32767)));
    assert!(!is_readable(&"\u{e9}".repeat(32768)));
    let keys = format!("{{\"{}\": {{\"{}\": 1}}}}", "a".repeat(40_000), "b".repeat(40_000));
    assert!(!is_readable(&keys));
    assert!(!is_readable(&format!("{{\"{}\": 1}}", "k".repeat(65_536))));
}

#[test]
fn a_brace_that_closes_after_a_comma_is_not_readable() {
    assert!(!is_readable("[{\"x\":{\"a\":1,},\"y\":2}]"));
    assert!(!is_readable("{\"a\":1,}"));
    assert!(!is_readable("{\"a\":1 , \n\t\r }"));
    assert!(!is_readable("[1,}"));
    assert!(is_readable("{\"a\":\",}\"}"));
    assert!(is_readable("{\"a\":\"x\\\",}\"}"));
    assert!(is_readable("{\"a\":[1,2],\"b\":{},\"c\":{\"d\":[{}, {}]}}"));
    assert!(is_readable("[1,]"));
    assert!(is_readable("{\"a\":1,\"b\":2 }"));
    assert_eq!(read_document("[{\"x\":{\"a\":1,},\"y\":2}]"), Err(upstream(REFUSED)));
    assert_eq!(xkcd_reply("{\"title\": \"t\",}"), Err(upstream(REFUSED)));
}

#[test]
fn a_body_beyond_the_limits_is_refused_before_it_is_parsed() {
    let keys = format!("{{\"{}\": {{\"{}\": 1}}}}", "a".repeat(40_000), "b".repeat(40_000));
    assert_eq!(read_document(&keys), Err(upstream(REFUSED)));
    assert_eq!(read_document(&"[".repeat(300_000)), Err(upstream(REFUSED)));
    assert_eq!(read_document(&"[".repeat(200)), Err(upstream(REFUSED)));
    assert_eq!(read_document("1e999999999999999999999"), Err(upstream(REFUSED)));
    assert_eq!(xkcd_reply("{\"num\": 1e1234567890}"), Err(upstream(REFUSED)));
    assert_eq!(yt_reply(&("{\"items\": ".to_string() + &"[".repeat(129))), Err(upstream(REFUSED)));
}

#[test]
fn a_body_at_the_limits_is_parsed() {
    assert!(read_document(&nested(128)).is_ok());
    assert_eq!(read_document("1e000000002"), Ok(Json::F64(100.0)));
    let long_keys = format!("{{\"{}\": {{\"{}\": 1}}}}", "a".repeat(30_000), "b".repeat(30_000));
    let parsed = read_document(&long_keys).unwrap();
    let inner = parsed.find(&"a".repeat(30_000)).unwrap();
    assert_eq!(inner.find(&"b".repeat(30_000)), Some(&Json::U64(1)));
}
