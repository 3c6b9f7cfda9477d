//! What the bot knows about the services it asks: where to ask, how to read
//! an answer, and how to word what it found.
//!
//! Nothing here talks to a network. A caller fetches the address that a
//! function of this module gives and hands the status and the body back.

use crate::duration::{duration_text, in_words, is_duration, yt_parse_time};
use crate::error::{handled_view, FailureReason, FailureView};
use crate::json::{
    array_of, as_list, as_text, as_whole, content, find, is_number, is_object, is_readable, member,
    parse, parsed, readable, string_of, whole_of,
};
use crate::text::same_text;
use rustc_serialize::json::Json;
use vstd::prelude::*;

verus! {

/// What a lookup in a document gives, as contracts see it.
pub type Found<T> = Result<T, FailureView>;

/// The failure reported where an answer lacks a field.
pub open spec fn missing(service: Seq<char>, key: Seq<char>) -> FailureView {
    FailureView::ContractViolation(service + " API error - could not find '"@ + key + "'"@)
}

/// The failure reported where a field of an answer is not of the kind
/// expected; `kind` is worded with its article, as in `a string`.
pub open spec fn mistyped(service: Seq<char>, key: Seq<char>, kind: Seq<char>) -> FailureView {
    FailureView::ContractViolation(service + " API error - '"@ + key + "' was not "@ + kind)
}

/// The failure reported where an array of an answer has no first element.
pub open spec fn vacant(service: Seq<char>, key: Seq<char>) -> FailureView {
    FailureView::ContractViolation(service + " API error - '"@ + key + "' was empty"@)
}

/// The field `key` of `json`, which has to be there.
pub open spec fn required(json: Json, key: Seq<char>, service: Seq<char>) -> Found<Json> {
    match member(json, key) {
        Some(value) => Ok(value),
        None => Err(missing(service, key)),
    }
}

/// The field `key` of `json`, which has to be there and be a string.
pub open spec fn required_text(json: Json, key: Seq<char>, service: Seq<char>) -> Found<
    Seq<char>,
> {
    match required(json, key, service) {
        Ok(value) => match as_text(value) {
            Some(text) => Ok(text),
            None => Err(mistyped(service, key, "a string"@)),
        },
        Err(reason) => Err(reason),
    }
}

/// The field `key` of `json`, which has to be there and be a number stored
/// as an integer and not negative.
pub open spec fn required_whole(json: Json, key: Seq<char>, service: Seq<char>) -> Found<u64> {
    match required(json, key, service) {
        Ok(value) => match as_whole(value) {
            Some(whole) => Ok(whole),
            None => Err(mistyped(service, key, "a u64"@)),
        },
        Err(reason) => Err(reason),
    }
}

/// The field `key` of `json`, which has to be there and be a number, under
/// the name `kind` for what was expected.
pub open spec fn required_number(
    json: Json,
    key: Seq<char>,
    service: Seq<char>,
    kind: Seq<char>,
) -> Found<Json> {
    match required(json, key, service) {
        Ok(value) => if content(value) is Number {
            Ok(value)
        } else {
            Err(mistyped(service, key, kind))
        },
        Err(reason) => Err(reason),
    }
}

/// The first element of the field `key` of `json`, which has to be there and
/// be an array that is not empty.
pub open spec fn required_first(json: Json, key: Seq<char>, service: Seq<char>) -> Found<Json> {
    match required(json, key, service) {
        Ok(value) => match as_list(value) {
            Some(items) => if items.len() > 0 {
                Ok(items[0])
            } else {
                Err(vacant(service, key))
            },
            None => Err(mistyped(service, key, "an array"@)),
        },
        Err(reason) => Err(reason),
    }
}

/// The error that a service reports in its own answer under `key`: nothing
/// where the answer has no such field, the reported text as an upstream
/// failure where it has, and a violation where the field is no string.
pub open spec fn reported_error(json: Json, key: Seq<char>, service: Seq<char>) -> Option<
    FailureView,
> {
    match member(json, key) {
        Some(value) => match as_text(value) {
            Some(text) => Some(FailureView::Upstream(text)),
            None => Some(mistyped(service, key, "a string"@)),
        },
        None => None,
    }
}

/// Whether `r` is what the lookup `found` stands for.
pub open spec fn gives_value(r: Result<&Json, FailureReason>, found: Found<Json>) -> bool {
    match r {
        Ok(value) => found == Ok::<Json, FailureView>(*value),
        Err(reason) => found == Err::<Json, FailureView>(reason@),
    }
}

/// Words the failure for a field that is not there.
pub fn missing_field(service: &str, key: &str) -> (reason: FailureReason)
    ensures
        reason@ == missing(service@, key@),
{
    let mut message = service.to_owned();
    message.append(" API error - could not find '");
    message.append(key);
    message.append("'");
    FailureReason::ContractViolation(message)
}

/// Words the failure for a field of the wrong kind.
pub fn mistyped_field(service: &str, key: &str, kind: &str) -> (reason: FailureReason)
    ensures
        reason@ == mistyped(service@, key@, kind@),
{
    let mut message = service.to_owned();
    message.append(" API error - '");
    message.append(key);
    message.append("' was not ");
    message.append(kind);
    FailureReason::ContractViolation(message)
}

/// Words the failure for an array without a first element.
pub fn vacant_field(service: &str, key: &str) -> (reason: FailureReason)
    ensures
        reason@ == vacant(service@, key@),
{
    let mut message = service.to_owned();
    message.append(" API error - '");
    message.append(key);
    message.append("' was empty");
    FailureReason::ContractViolation(message)
}

/// Looks up a field that has to be there.
pub fn require<'a>(json: &'a Json, key: &str, service: &str) -> (r: Result<
    &'a Json,
    FailureReason,
>)
    ensures
        gives_value(r, required(*json, key@, service@)),
{
    match find(json, key) {
        Some(value) => Ok(value),
        None => Err(missing_field(service, key)),
    }
}

/// Looks up a field that has to be a string.
pub fn require_text(json: &Json, key: &str, service: &str) -> (r: Result<String, FailureReason>)
    ensures
        handled_view(r) == required_text(*json, key@, service@),
{
    let value = require(json, key, service)?;
    match string_of(value) {
        Some(text) => Ok(text.to_owned()),
        None => Err(mistyped_field(service, key, "a string")),
    }
}

/// Looks up a field that has to be an integer that is not negative.
pub fn require_whole(json: &Json, key: &str, service: &str) -> (r: Result<u64, FailureReason>)
    ensures
        match r {
            Ok(whole) => required_whole(*json, key@, service@) == Ok::<u64, FailureView>(whole),
            Err(reason) => required_whole(*json, key@, service@) == Err::<u64, FailureView>(
                reason@,
            ),
        },
{
    let value = require(json, key, service)?;
    match whole_of(value) {
        Some(whole) => Ok(whole),
        None => Err(mistyped_field(service, key, "a u64")),
    }
}

/// Looks up a field that has to be a number of any kind.
pub fn require_number<'a>(json: &'a Json, key: &str, service: &str, kind: &str) -> (r: Result<
    &'a Json,
    FailureReason,
>)
    ensures
        gives_value(r, required_number(*json, key@, service@, kind@)),
{
    let value = require(json, key, service)?;
    if is_number(value) {
        Ok(value)
    } else {
        Err(mistyped_field(service, key, kind))
    }
}

/// Looks up the first element of a field that has to be an array.
pub fn require_first<'a>(json: &'a Json, key: &str, service: &str) -> (r: Result<
    &'a Json,
    FailureReason,
>)
    ensures
        gives_value(r, required_first(*json, key@, service@)),
{
    let value = require(json, key, service)?;
    match array_of(value) {
        Some(items) => {
            if items.len() > 0 {
                Ok(&items[0])
            } else {
                Err(vacant_field(service, key))
            }
        },
        None => Err(mistyped_field(service, key, "an array")),
    }
}

/// Looks for the error that a service reports in its own answer.
pub fn report_error(json: &Json, key: &str, service: &str) -> (r: Option<FailureReason>)
    ensures
        r is Some <==> reported_error(*json, key@, service@) is Some,
        r matches Some(reason) ==> reported_error(*json, key@, service@) == Some(reason@),
{
    match find(json, key) {
        Some(value) => match string_of(value) {
            Some(text) => Some(FailureReason::Upstream(text.to_owned())),
            None => Some(mistyped_field(service, key, "a string")),
        },
        None => None,
    }
}

/// The failure reported for a body that is not handed to the parser.
pub open spec fn refused() -> FailureView {
    FailureView::Upstream("answer is too long, too deeply nested or has too long an exponent"@)
}

/// What becomes of an answer's body: an upstream failure where the body is
/// beyond what the parser is given, else the document it holds, or an
/// upstream failure with the parser's words where it holds none.
pub open spec fn document(body: Seq<char>) -> Found<Json> {
    if !readable(body) {
        Err(refused())
    } else {
        match parsed(body) {
            Ok(json) => Ok(json),
            Err(message) => Err(FailureView::Upstream(message)),
        }
    }
}

/// Reads the body of an answer as a JSON document.
pub fn read_document(body: &str) -> (r: Result<Json, FailureReason>)
    ensures
        match r {
            Ok(json) => document(body@) == Ok::<Json, FailureView>(json),
            Err(reason) => document(body@) == Err::<Json, FailureView>(reason@),
        },
{
    if !is_readable(body) {
        return Err(
            FailureReason::Upstream(
                "answer is too long, too deeply nested or has too long an exponent".to_owned(),
            ),
        );
    }
    match parse(body) {
        Ok(json) => Ok(json),
        Err(message) => Err(FailureReason::Upstream(message)),
    }
}

/// What an HTTP response amounts to: the body under status 200, and an
/// upstream failure under any other status. `status_text` is how the
/// transport words the status.
pub open spec fn response(status: u16, status_text: Seq<char>, body: Seq<char>) -> Found<
    Seq<char>,
> {
    if status == 200 {
        Ok(body)
    } else if status == 400 {
        Err(FailureView::Upstream("HTTP Bad Request"@))
    } else if status == 404 {
        Err(FailureView::Upstream("HTTP Not Found"@))
    } else {
        Err(FailureView::Upstream(status_text))
    }
}

/// Decides what an HTTP response amounts to.
pub fn http_outcome(status: u16, status_text: &str, body: String) -> (r: Result<
    String,
    FailureReason,
>)
    ensures
        handled_view(r) == response(status, status_text@, body@),
{
    if status == 200 {
        Ok(body)
    } else if status == 400 {
        Err(FailureReason::Upstream("HTTP Bad Request".to_owned()))
    } else if status == 404 {
        Err(FailureReason::Upstream("HTTP Not Found".to_owned()))
    } else {
        Err(FailureReason::Upstream(status_text.to_owned()))
    }
}

/// Where the comic service answers for the comic `id`.
pub open spec fn xkcd_address(id: Seq<char>) -> Seq<char> {
    "https://xkcd.com/"@ + id + "/info.0.json"@
}

/// The address to ask the comic service about the comic `id`.
pub fn xkcd_url(id: &str) -> (url: String)
    ensures
        url@ == xkcd_address(id@),
{
    let mut url = "https://xkcd.com/".to_owned();
    url.append(id);
    url.append("/info.0.json");
    url
}

/// How a comic is worded: its title, and its date in brackets.
pub open spec fn xkcd_wording(
    title: Seq<char>,
    year: Seq<char>,
    month: Seq<char>,
    day: Seq<char>,
) -> Seq<char> {
    title + " ("@ + year + "-"@ + month + "-"@ + day + ")"@
}

/// What the comic service's answer `json` amounts to. The fields are looked
/// for in the order title, year, month, day, and the first that fails
/// decides.
pub open spec fn xkcd_answer(json: Json) -> Found<Seq<char>> {
    match required_text(json, "title"@, "XKCD"@) {
        Err(reason) => Err(reason),
        Ok(title) => match required_text(json, "year"@, "XKCD"@) {
            Err(reason) => Err(reason),
            Ok(year) => match required_text(json, "month"@, "XKCD"@) {
                Err(reason) => Err(reason),
                Ok(month) => match required_text(json, "day"@, "XKCD"@) {
                    Err(reason) => Err(reason),
                    Ok(day) => Ok(xkcd_wording(title, year, month, day)),
                },
            },
        },
    }
}

/// Words the comic that an answer of the comic service describes.
pub fn xkcd_caption(json: &Json) -> (r: Result<String, FailureReason>)
    ensures
        handled_view(r) == xkcd_answer(*json),
{
    let title = require_text(json, "title", "XKCD")?;
    let year = require_text(json, "year", "XKCD")?;
    let month = require_text(json, "month", "XKCD")?;
    let day = require_text(json, "day", "XKCD")?;
    let mut caption = title;
    caption.append(" (");
    caption.append(year.as_str());
    caption.append("-");
    caption.append(month.as_str());
    caption.append("-");
    caption.append(day.as_str());
    caption.append(")");
    Ok(caption)
}

/// Reads and words the body of an answer of the comic service.
pub fn xkcd_reply(body: &str) -> (r: Result<String, FailureReason>)
    ensures
        handled_view(r) == match document(body@) {
            Ok(json) => xkcd_answer(json),
            Err(reason) => Err(reason),
        },
{
    let json = read_document(body)?;
    xkcd_caption(&json)
}

/// Where the video service answers for the video `id`, asked with `key`.
pub open spec fn yt_address(id: Seq<char>, key: Seq<char>) -> Seq<char> {
    "https://www.googleapis.com/youtube/v3/videos?id="@ + id + "&key="@ + key
        + "&part=snippet,contentDetails&fields=items(snippet/title,snippet/channelTitle,contentDetails/duration)"@
}

/// The address to ask the video service about the video `id`.
pub fn yt_url(id: &str, key: &str) -> (url: String)
    ensures
        url@ == yt_address(id@, key@),
{
    let mut url = "https://www.googleapis.com/youtube/v3/videos?id=".to_owned();
    url.append(id);
    url.append("&key=");
    url.append(key);
    url.append(
        "&part=snippet,contentDetails&fields=items(snippet/title,snippet/channelTitle,contentDetails/duration)",
    );
    url
}

/// How a video is worded: its title in quotes, its channel, and its length
/// in brackets.
pub open spec fn yt_wording(title: Seq<char>, channel: Seq<char>, length: Seq<char>) -> Seq<char> {
    "\""@ + title + "\" by "@ + channel + " ("@ + length + ")"@
}

/// What the video service's answer `json` amounts to. Looked for, in this
/// order, are the first of the items, its snippet with title and channel
/// title, and its content details with a duration that can be put into
/// words; the first that fails decides.
pub open spec fn yt_answer(json: Json) -> Found<Seq<char>> {
    match required_first(json, "items"@, "Youtube"@) {
        Err(reason) => Err(reason),
        Ok(item) => match required(item, "snippet"@, "Youtube"@) {
            Err(reason) => Err(reason),
            Ok(snippet) => match required_text(snippet, "title"@, "Youtube"@) {
                Err(reason) => Err(reason),
                Ok(title) => match required_text(snippet, "channelTitle"@, "Youtube"@) {
                    Err(reason) => Err(reason),
                    Ok(channel) => match required(item, "contentDetails"@, "Youtube"@) {
                        Err(reason) => Err(reason),
                        Ok(details) => match required_text(details, "duration"@, "Youtube"@) {
                            Err(reason) => Err(reason),
                            Ok(duration) => if duration_text(duration) {
                                Ok(
                                    yt_wording(
                                        title,
                                        channel,
                                        in_words(duration, duration.len() as int),
                                    ),
                                )
                            } else {
                                Err(mistyped("Youtube"@, "duration"@, "a duration"@))
                            },
                        },
                    },
                },
            },
        },
    }
}

/// Words the video that an answer of the video service describes.
pub fn yt_caption(json: &Json) -> (r: Result<String, FailureReason>)
    ensures
        handled_view(r) == yt_answer(*json),
{
    let item = require_first(json, "items", "Youtube")?;
    let snippet = require(item, "snippet", "Youtube")?;
    let title = require_text(snippet, "title", "Youtube")?;
    let channel = require_text(snippet, "channelTitle", "Youtube")?;
    let details = require(item, "contentDetails", "Youtube")?;
    let duration = require_text(details, "duration", "Youtube")?;
    if !is_duration(duration.as_str()) {
        return Err(mistyped_field("Youtube", "duration", "a duration"));
    }
    let length = yt_parse_time(duration.as_str());
    let mut caption = "\"".to_owned();
    caption.append(title.as_str());
    caption.append("\" by ");
    caption.append(channel.as_str());
    caption.append(" (");
    caption.append(length.as_str());
    caption.append(")");
    Ok(caption)
}

/// Reads and words the body of an answer of the video service.
pub fn yt_reply(body: &str) -> (r: Result<String, FailureReason>)
    ensures
        handled_view(r) == match document(body@) {
            Ok(json) => yt_answer(json),
            Err(reason) => Err(reason),
        },
{
    let json = read_document(body)?;
    yt_caption(&json)
}

/// Where the clip service answers for the clip `id`.
pub open spec fn gfycat_address(id: Seq<char>) -> Seq<char> {
    "http://gfycat.com/cajax/get/"@ + id
}

/// The address to ask the clip service about the clip `id`.
pub fn gfycat_url(id: &str) -> (url: String)
    ensures
        url@ == gfycat_address(id@),
{
    let mut url = "http://gfycat.com/cajax/get/".to_owned();
    url.append(id);
    url
}

/// What the bot takes from an answer of the clip service.
#[derive(Debug, Clone, PartialEq, Eq)]
pub struct GfycatEntry {
    /// The warning, if any, and the title, as they open the caption.
    pub label: String,
    /// The number of frames.
    pub frames: u64,
    /// The size of the clip in bytes.
    pub size: u64,
}

/// A clip entry as contracts see it.
pub struct GfycatEntryView {
    pub label: Seq<char>,
    pub frames: u64,
    pub size: u64,
}

impl View for GfycatEntry {
    type V = GfycatEntryView;

    open spec fn view(&self) -> GfycatEntryView {
        GfycatEntryView { label: self.label@, frames: self.frames, size: self.size }
    }
}

/// The warning that opens the caption of a clip: `NSFW ` where the field
/// `nsfw` is the string `1`, and nothing otherwise.
pub open spec fn gfycat_warning(item: Json) -> Found<Seq<char>> {
    match required(item, "nsfw"@, "gfycat"@) {
        Err(reason) => Err(reason),
        Ok(value) => if as_text(value) == Some("1"@) {
            Ok("NSFW "@)
        } else {
            Ok(Seq::<char>::empty())
        },
    }
}

/// The title of a clip in quotes, or `<unknown>` where the title is no
/// string.
pub open spec fn gfycat_title(item: Json) -> Found<Seq<char>> {
    match required(item, "title"@, "gfycat"@) {
        Err(reason) => Err(reason),
        Ok(value) => match as_text(value) {
            Some(title) => Ok("\""@ + title + "\""@),
            None => Ok("<unknown>"@),
        },
    }
}

/// What the clip service's answer `json` amounts to. An error that the
/// service reports comes first. Then, in this order, the item has to be an
/// object, its frame rate a number, its number of frames a whole number, its
/// warning flag there, its size a whole number and its title there; the
/// first that fails decides.
pub open spec fn gfycat_answer(json: Json) -> Found<GfycatEntryView> {
    match reported_error(json, "error"@, "gfycat"@) {
        Some(reason) => Err(reason),
        None => match required(json, "gfyItem"@, "gfycat"@) {
            Err(reason) => Err(reason),
            Ok(item) => if !(content(item) is Object) {
                Err(mistyped("gfycat"@, "gfyItem"@, "an object"@))
            } else {
                match required_number(item, "frameRate"@, "gfycat"@, "a f64"@) {
                    Err(reason) => Err(reason),
                    Ok(_) => match required_whole(item, "numFrames"@, "gfycat"@) {
                        Err(reason) => Err(reason),
                        Ok(frames) => match gfycat_warning(item) {
                            Err(reason) => Err(reason),
                            Ok(warning) => match required_whole(item, "webmSize"@, "gfycat"@) {
                                Err(reason) => Err(reason),
                                Ok(size) => match gfycat_title(item) {
                                    Err(reason) => Err(reason),
                                    Ok(title) => Ok(
                                        GfycatEntryView { label: warning + title, frames, size },
                                    ),
                                },
                            },
                        },
                    },
                }
            },
        },
    }
}

/// Takes from an answer of the clip service what goes into a caption. The
/// frame rate is only checked to be a number: it stays in the document.
pub fn gfycat_entry(json: &Json) -> (r: Result<GfycatEntry, FailureReason>)
    ensures
        match r {
            Ok(entry) => gfycat_answer(*json) == Ok::<GfycatEntryView, FailureView>(entry@),
            Err(reason) => gfycat_answer(*json) == Err::<GfycatEntryView, FailureView>(reason@),
        },
{
    if let Some(reason) = report_error(json, "error", "gfycat") {
        return Err(reason);
    }
    let item = require(json, "gfyItem", "gfycat")?;
    if !is_object(item) {
        return Err(mistyped_field("gfycat", "gfyItem", "an object"));
    }
    let _ = require_number(item, "frameRate", "gfycat", "a f64")?;
    let frames = require_whole(item, "numFrames", "gfycat")?;
    let flag = require(item, "nsfw", "gfycat")?;
    let mut label = String::new();
    if let Some(text) = string_of(flag) {
        if same_text(text, "1") {
            label.append("NSFW ");
        }
    }
    let ghost warning = label@;
    let size = require_whole(item, "webmSize", "gfycat")?;
    let named = require(item, "title", "gfycat")?;
    match string_of(named) {
        Some(title) => {
            label.append("\"");
            label.append(title);
            label.append("\"");
            assert(label@ =~= warning + ("\""@ + title@ + "\""@));
        },
        None => {
            label.append("<unknown>");
        },
    }
    Ok(GfycatEntry { label, frames, size })
}

/// How a clip is worded: its label, then its size and its length in
/// brackets, both as the caller has put the numbers into digits.
pub open spec fn gfycat_wording(label: Seq<char>, megabytes: Seq<char>, seconds: Seq<char>) -> Seq<
    char,
> {
    label + " ("@ + megabytes + " MB, "@ + seconds + " seconds)"@
}

/// Words a clip.
pub fn gfycat_caption(label: &str, megabytes: &str, seconds: &str) -> (caption: String)
    ensures
        caption@ == gfycat_wording(label@, megabytes@, seconds@),
{
    let mut caption = label.to_owned();
    caption.append(" (");
    caption.append(megabytes);
    caption.append(" MB, ");
    caption.append(seconds);
    caption.append(" seconds)");
    caption
}

/// Where the weather service answers for the place `place`, asked with
/// `key`.
pub open spec fn weather_address(place: Seq<char>, key: Seq<char>) -> Seq<char> {
    "http://api.openweathermap.org/data/2.5/weather?q="@ + place + "&APPID="@ + key
}

/// The address to ask the weather service about a place.
pub fn weather_url(place: &str, key: &str) -> (url: String)
    ensures
        url@ == weather_address(place@, key@),
{
    let mut url = "http://api.openweathermap.org/data/2.5/weather?q=".to_owned();
    url.append(place);
    url.append("&APPID=");
    url.append(key);
    url
}

/// What the bot takes from an answer of the weather service.
#[derive(Debug, Clone, PartialEq, Eq)]
pub struct WeatherEntry {
    /// The name of the place.
    pub name: String,
    /// The weather there, in words.
    pub description: String,
}

/// A weather entry as contracts see it.
pub struct WeatherEntryView {
    pub name: Seq<char>,
    pub description: Seq<char>,
}

impl View for WeatherEntry {
    type V = WeatherEntryView;

    open spec fn view(&self) -> WeatherEntryView {
        WeatherEntryView { name: self.name@, description: self.description@ }
    }
}

/// The description in the first element of the field `weather`.
pub open spec fn weather_description(json: Json) -> Found<Seq<char>> {
    match required_first(json, "weather"@, "OpenWeatherMap"@) {
        Err(reason) => Err(reason),
        Ok(first) => required_text(first, "description"@, "OpenWeatherMap"@),
    }
}

/// Whether the numbers of a weather report are there: temperature and
/// humidity under `main`, and the wind's speed under `wind`.
pub open spec fn weather_numbers(json: Json) -> Found<()> {
    match required(json, "main"@, "OpenWeatherMap"@) {
        Err(reason) => Err(reason),
        Ok(main) => match required_number(main, "temp"@, "OpenWeatherMap"@, "a number"@) {
            Err(reason) => Err(reason),
            Ok(_) => match required_number(main, "humidity"@, "OpenWeatherMap"@, "a number"@) {
                Err(reason) => Err(reason),
                Ok(_) => match required(json, "wind"@, "OpenWeatherMap"@) {
                    Err(reason) => Err(reason),
                    Ok(wind) => match required_number(
                        wind,
                        "speed"@,
                        "OpenWeatherMap"@,
                        "a number"@,
                    ) {
                        Err(reason) => Err(reason),
                        Ok(_) => Ok(()),
                    },
                },
            },
        },
    }
}

/// What the weather service's answer `json` amounts to. An error that the
/// service reports comes first. Then, in this order, the name, the
/// description and the numbers have to be there; the first that fails
/// decides.
pub open spec fn weather_answer(json: Json) -> Found<WeatherEntryView> {
    match reported_error(json, "message"@, "OpenWeatherMap"@) {
        Some(reason) => Err(reason),
        None => match required_text(json, "name"@, "OpenWeatherMap"@) {
            Err(reason) => Err(reason),
            Ok(name) => match weather_description(json) {
                Err(reason) => Err(reason),
                Ok(description) => match weather_numbers(json) {
                    Err(reason) => Err(reason),
                    Ok(_) => Ok(WeatherEntryView { name, description }),
                },
            },
        },
    }
}

/// Takes from an answer of the weather service what goes into a caption.
/// The numbers are only checked to be there: they stay in the document.
pub fn weather_entry(json: &Json) -> (r: Result<WeatherEntry, FailureReason>)
    ensures
        match r {
            Ok(entry) => weather_answer(*json) == Ok::<WeatherEntryView, FailureView>(entry@),
            Err(reason) => weather_answer(*json) == Err::<WeatherEntryView, FailureView>(reason@),
        },
{
    if let Some(reason) = report_error(json, "message", "OpenWeatherMap") {
        return Err(reason);
    }
    let name = require_text(json, "name", "OpenWeatherMap")?;
    let first = require_first(json, "weather", "OpenWeatherMap")?;
    let description = require_text(first, "description", "OpenWeatherMap")?;
    let main = require(json, "main", "OpenWeatherMap")?;
    let _ = require_number(main, "temp", "OpenWeatherMap", "a number")?;
    let _ = require_number(main, "humidity", "OpenWeatherMap", "a number")?;
    let wind = require(json, "wind", "OpenWeatherMap")?;
    let _ = require_number(wind, "speed", "OpenWeatherMap", "a number")?;
    Ok(WeatherEntry { name, description })
}

/// How the weather is worded, with every number as the caller has put it
/// into digits.
pub open spec fn weather_wording(
    name: Seq<char>,
    fahrenheit: Seq<char>,
    celsius: Seq<char>,
    humidity: Seq<char>,
    description: Seq<char>,
    wind: Seq<char>,
) -> Seq<char> {
    name + " weather: "@ + fahrenheit + " \u{00B0}F ("@ + celsius + " \u{00B0}C), "@ + humidity
        + "% humidity, "@ + description + " and wind "@ + wind + " m/s"@
}

/// Words the weather at a place.
pub fn weather_caption(
    name: &str,
    fahrenheit: &str,
    celsius: &str,
    humidity: &str,
    description: &str,
    wind: &str,
) -> (caption: String)
    ensures
        caption@ == weather_wording(
            name@,
            fahrenheit@,
            celsius@,
            humidity@,
            description@,
            wind@,
        ),
{
    let mut caption = name.to_owned();
    caption.append(" weather: ");
    caption.append(fahrenheit);
    caption.append(" \u{00B0}F (");
    caption.append(celsius);
    caption.append(" \u{00B0}C), ");
    caption.append(humidity);
    caption.append("% humidity, ");
    caption.append(description);
    caption.append(" and wind ");
    caption.append(wind);
    caption.append(" m/s");
    caption
}

/// The services that the bot can ask.
#[derive(Debug, Clone, Copy, PartialEq, Eq)]
pub enum Service {
    /// Titles and lengths of videos; needs a key.
    Video,
    /// The weather at a place; needs a key.
    Weather,
    /// Titles and sizes of clips.
    Clip,
    /// Titles and dates of comics.
    Comic,
}

/// The pattern that finds, in a message, what to ask a service about. Each
/// has one capture group.
pub open spec fn pattern_text(service: Service) -> Seq<char> {
    match service {
        Service::Video => "(?:(?:youtube\\.com/watch\\?\\S*?v=)|(?:youtu\\.be/))([\\w-]+)"@,
        Service::Weather => "^!weather\\s*(.+?)\\s*$"@,
        Service::Clip => "gfycat\\.com/((?:[A-Z][a-z]+){3})"@,
        Service::Comic => "xkcd\\.com/(\\d+)"@,
    }
}

/// The pattern to register for a service.
pub fn pattern(service: Service) -> (text: &'static str)
    ensures
        text@ == pattern_text(service),
{
    match service {
        Service::Video => "(?:(?:youtube\\.com/watch\\?\\S*?v=)|(?:youtu\\.be/))([\\w-]+)",
        Service::Weather => "^!weather\\s*(.+?)\\s*$",
        Service::Clip => "gfycat\\.com/((?:[A-Z][a-z]+){3})",
        Service::Comic => "xkcd\\.com/(\\d+)",
    }
}

/// The file that holds the key that a service is asked with. Clips and
/// comics are asked without a key.
pub open spec fn key_file_name(service: Service) -> Option<Seq<char>> {
    match service {
        Service::Video => Some("gapi_key.dat"@),
        Service::Weather => Some("wapi_key.dat"@),
        Service::Clip => None,
        Service::Comic => None,
    }
}

/// The file to read the key of a service from, if the service needs one.
pub fn key_file(service: Service) -> (file: Option<&'static str>)
    ensures
        file is Some <==> key_file_name(service) is Some,
        file matches Some(name) ==> key_file_name(service) == Some(name@),
{
    match service {
        Service::Video => Some("gapi_key.dat"),
        Service::Weather => Some("wapi_key.dat"),
        Service::Clip => None,
        Service::Comic => None,
    }
}

/// Whether a service is registered: it is, unless it needs a key that is not
/// at hand.
pub open spec fn enabled(service: Service, has_video_key: bool, has_weather_key: bool) -> bool {
    match service {
        Service::Video => has_video_key,
        Service::Weather => has_weather_key,
        Service::Clip => true,
        Service::Comic => true,
    }
}

/// A service that is switched off because its key is not at hand.
#[derive(Debug, Clone, Copy, PartialEq, Eq)]
pub struct ConfigMissing {
    pub service: Service,
}

/// What to tell the operator about a service that is switched off.
pub open spec fn missing_notice(service: Service) -> Seq<char> {
    match service {
        Service::Video => "gapi_key.dat should contain a Google API key to use youtube functionality"@,
        Service::Weather => "wapi_key.dat should contain an OpenWeatherMap API key to use weather functionality"@,
        Service::Clip => ""@,
        Service::Comic => ""@,
    }
}

impl ConfigMissing {
    /// What to tell the operator.
    pub fn message(&self) -> (text: &'static str)
        ensures
            text@ == missing_notice(self.service),
    {
        match self.service {
            Service::Video => "gapi_key.dat should contain a Google API key to use youtube functionality",
            Service::Weather => "wapi_key.dat should contain an OpenWeatherMap API key to use weather functionality",
            Service::Clip => "",
            Service::Comic => "",
        }
    }
}

/// The services to register, in registration order: videos and weather
/// where their keys are at hand, then clips and comics.
pub open spec fn registration(has_video_key: bool, has_weather_key: bool) -> Seq<Service> {
    let keyed = if has_video_key {
        seq![Service::Video]
    } else {
        Seq::<Service>::empty()
    } + if has_weather_key {
        seq![Service::Weather]
    } else {
        Seq::<Service>::empty()
    };
    keyed + seq![Service::Clip, Service::Comic]
}

/// A missing key switches off the one service that needs it and no other:
/// a service is registered exactly when it is enabled.
pub proof fn missing_key_disables_one_service(
    service: Service,
    has_video_key: bool,
    has_weather_key: bool,
)
    ensures
        registration(has_video_key, has_weather_key).contains(service) <==> enabled(
            service,
            has_video_key,
            has_weather_key,
        ),
{
    let registered = registration(has_video_key, has_weather_key);
    if enabled(service, has_video_key, has_weather_key) {
        if has_video_key && has_weather_key {
            assert(registered[0] == Service::Video && registered[1] == Service::Weather);
            assert(registered[2] == Service::Clip && registered[3] == Service::Comic);
        } else if has_video_key {
            assert(registered[0] == Service::Video);
            assert(registered[1] == Service::Clip && registered[2] == Service::Comic);
        } else if has_weather_key {
            assert(registered[0] == Service::Weather);
            assert(registered[1] == Service::Clip && registered[2] == Service::Comic);
        } else {
            assert(registered[0] == Service::Clip && registered[1] == Service::Comic);
        }
    }
}

/// Lists the services to register, in the order in which their matchers are
/// registered.
pub fn registration_order(has_video_key: bool, has_weather_key: bool) -> (services: Vec<Service>)
    ensures
        services@ == registration(has_video_key, has_weather_key),
{
    let mut services: Vec<Service> = Vec::new();
    if has_video_key {
        services.push(Service::Video);
    }
    if has_weather_key {
        services.push(Service::Weather);
    }
    services.push(Service::Clip);
    services.push(Service::Comic);
    services
}

} // verus!
