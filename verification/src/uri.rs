//! Where the media and its subtitles come from.

use crate::error::Error;
use crate::video::{state_for, Command, Video, VideoView};
use vstd::prelude::*;
use vstd::string::StringExecFns;

verus! {

#[verifier::external_type_specification]
#[verifier::external_body]
pub struct ExUrl(url::Url);

/// The text of a URL, as `Url::as_str` returns it.
pub uninterp spec fn url_text(url: url::Url) -> Seq<char>;

/// The text of the URL that `Url::parse` reads from a string, or `None` for a
/// string that it refuses.
pub uninterp spec fn parsed_text(text: Seq<char>) -> Option<Seq<char>>;

/// `Url::as_str` returns the serialization of the URL.
pub assume_specification[ url::Url::as_str ](url: &url::Url) -> (text: &str)
    ensures
        text@ == url_text(*url),
;

/// `Url::parse` reads an absolute URL from a string, and refuses a string
/// that holds none.
#[verifier::external_body]
fn parse_url(text: &str) -> (url: Option<url::Url>)
    ensures
        match url {
            Some(u) => parsed_text(text@) == Some(url_text(u)),
            None => parsed_text(text@) is None,
        },
{
    url::Url::parse(text).ok()
}

/// The name of the sink that takes the decoded video.
pub const VIDEO_SINK: &'static str = "iced_video";

/// The name of the sink that takes the subtitle text.
pub const TEXT_SINK: &'static str = "iced_text";

/// What comes before the URI in the description of a pipeline.
pub open spec fn description_head() -> Seq<char> {
    "playbin uri=\""@
}

/// What comes after the URI in the description of a pipeline: a sink for
/// subtitle text, and a sink for video that scales and converts every frame
/// to NV12 with square pixels. Both sinks drop what is not taken in time.
pub open spec fn description_tail() -> Seq<char> {
    "\" text-sink=\"appsink name=iced_text sync=true drop=true\" video-sink=\"videoscale ! videoconvert ! appsink name=iced_video drop=true caps=video/x-raw,format=NV12,pixel-aspect-ratio=1/1\""@
}

/// The description of the pipeline that plays the media at `uri`, for the
/// backend to launch.
pub fn pipeline_description(uri: &url::Url) -> (description: String)
    ensures
        description@ == description_head() + url_text(*uri) + description_tail(),
{
    let head = String::from_str("playbin uri=\"");
    let with_uri = head.concat(uri.as_str());
    with_uri.concat(
        "\" text-sink=\"appsink name=iced_text sync=true drop=true\" video-sink=\"videoscale ! videoconvert ! appsink name=iced_video drop=true caps=video/x-raw,format=NV12,pixel-aspect-ratio=1/1\"",
    )
}

impl Video {
    /// Set the subtitle URL to display.
    ///
    /// Subtitles are loaded while the pipeline is in the ready state. The
    /// caller brings it there first and says in `ready` whether that worked.
    /// If it did not, the call fails with `Error::StateChange` and nothing
    /// changes. Otherwise the orders are returned that load the subtitles
    /// and bring the pipeline back to where it was, paused or playing.
    pub fn set_subtitle_url(&mut self, url: &url::Url, ready: bool) -> (commands: Result<
        Vec<Command>,
        Error,
    >)
        ensures
            match commands {
                Ok(list) => {
                    &&& ready
                    &&& list@.len() == 2
                    &&& list@[0] matches Command::SetSubtitleUri(text) && text@ == url_text(*url)
                    &&& list@[1] == Command::SetState(state_for(old(self)@.state.paused))
                    &&& final(self)@ == (VideoView {
                        state: old(self)@.state.with_paused(old(self)@.state.paused),
                        ..old(self)@
                    })
                },
                Err(error) => {
                    &&& !ready
                    &&& error == Error::StateChange
                    &&& final(self)@ == old(self)@
                },
            },
    {
        if !ready {
            return Err(Error::StateChange);
        }
        let paused = self.paused();
        let text = String::from_str(url.as_str());
        let state = self.set_paused(paused);
        let mut list: Vec<Command> = Vec::new();
        list.push(Command::SetSubtitleUri(text));
        list.push(Command::SetState(state));
        Ok(list)
    }

    /// Get the current subtitle URL, from what the backend holds as the URI
    /// of the subtitles in use: `None` where it holds none, or holds text
    /// that is no URL.
    pub fn subtitle_url(&self, current: Option<String>) -> (url: Option<url::Url>)
        ensures
            match url {
                Some(u) => current matches Some(text) && parsed_text(text@) == Some(url_text(u)),
                None => current matches Some(text) ==> parsed_text(text@) is None,
            },
    {
        match current {
            Some(text) => parse_url(text.as_str()),
            None => None,
        }
    }
}

} // verus!
