//! General-purpose commands: information about a voice channel, and echo.

use crate::text::{decimal, decimal_string};
use vstd::prelude::*;
use vstd::string::*;

verus! {

/// How a voice channel chooses the quality of its video.
#[derive(Clone, Copy, Debug, PartialEq, Eq, Structural)]
pub enum VideoQualityMode {
    /// Discord chooses the quality for best performance.
    Auto,
    /// 720p.
    Full,
    /// A mode that is not known.
    Unknown,
}

impl VideoQualityMode {
    /// The name under which a mode appears in a reply.
    pub open spec fn label(self) -> Seq<char> {
        match self {
            VideoQualityMode::Auto => "Auto"@,
            VideoQualityMode::Full => "Full"@,
            VideoQualityMode::Unknown => "Unknown"@,
        }
    }
}

/// What the bot reads of a voice channel. A field that Discord did not send
/// is `None`.
#[derive(Clone, Debug, PartialEq, Eq)]
pub struct VoiceChannel {
    pub name: String,
    /// Bits per second.
    pub bitrate: Option<u64>,
    /// The most users that may be in the channel at once.
    pub user_limit: Option<u64>,
    /// The voice region, such as "us-east".
    pub rtc_region: Option<String>,
    pub video_quality_mode: Option<VideoQualityMode>,
}

/// A `VoiceChannel` as a mathematical value.
pub struct VoiceChannelView {
    pub name: Seq<char>,
    pub bitrate: Option<u64>,
    pub user_limit: Option<u64>,
    pub rtc_region: Option<Seq<char>>,
    pub video_quality_mode: Option<VideoQualityMode>,
}

impl View for VoiceChannel {
    type V = VoiceChannelView;

    open spec fn view(&self) -> VoiceChannelView {
        VoiceChannelView {
            name: self.name@,
            bitrate: self.bitrate,
            user_limit: self.user_limit,
            rtc_region: match self.rtc_region {
                Some(region) => Some(region@),
                None => None,
            },
            video_quality_mode: self.video_quality_mode,
        }
    }
}

impl VoiceChannelView {
    /// The bitrate as it is shown: 0 where the channel has none.
    pub open spec fn shown_bitrate(self) -> nat {
        match self.bitrate {
            Some(bitrate) => bitrate as nat,
            None => 0,
        }
    }

    /// The user limit as it is shown: 0 where the channel has none.
    pub open spec fn shown_user_limit(self) -> nat {
        match self.user_limit {
            Some(limit) => limit as nat,
            None => 0,
        }
    }

    /// The region as it is shown: empty where the channel has none.
    pub open spec fn shown_rtc_region(self) -> Seq<char> {
        match self.rtc_region {
            Some(region) => region,
            None => Seq::empty(),
        }
    }

    /// The video quality mode as it is shown: `Unknown` where the channel has
    /// none.
    pub open spec fn shown_video_quality_mode(self) -> VideoQualityMode {
        match self.video_quality_mode {
            Some(mode) => mode,
            None => VideoQualityMode::Unknown,
        }
    }
}

/// The text of the reply to `voiceinfo`: five lines, one for each of name,
/// bitrate, user limit, region and video quality mode, without a final line
/// break.
pub open spec fn voiceinfo_reply(channel: VoiceChannelView) -> Seq<char> {
    "**Name**: "@ + channel.name + "\n**Bitrate**: "@ + decimal(channel.shown_bitrate())
        + "\n**User limit**: "@ + decimal(channel.shown_user_limit()) + "\n**RTC region**: "@
        + channel.shown_rtc_region() + "\n**Video quality mode**: "@
        + channel.shown_video_quality_mode().label()
}

/// Renders a mode through the `Debug` implementation that serenity derives
/// for its own `VideoQualityMode`.
///
/// Not proved: that the text is the variant's name. serenity declares the
/// enum with the three fieldless variants `Auto`, `Full` and `Unknown` and
/// derives `Debug` for it, and a derived `Debug` writes the name of a
/// fieldless variant.
#[verifier::external_body]
fn video_quality_mode_debug(mode: VideoQualityMode) -> (text: String)
    ensures
        text@ == mode.label(),
{
    let outside = match mode {
        VideoQualityMode::Auto => poise::serenity_prelude::VideoQualityMode::Auto,
        VideoQualityMode::Full => poise::serenity_prelude::VideoQualityMode::Full,
        VideoQualityMode::Unknown => poise::serenity_prelude::VideoQualityMode::Unknown,
    };
    format!("{:?}", outside)
}

/// The reply of the `voiceinfo` command for a voice channel. Sending it is
/// the caller's part.
pub fn voiceinfo(channel: VoiceChannel) -> (reply: String)
    ensures
        reply@ == voiceinfo_reply(channel@),
{
    let bitrate = decimal_string(channel.bitrate.unwrap_or(0));
    let user_limit = decimal_string(channel.user_limit.unwrap_or(0));
    let rtc_region = channel.rtc_region.unwrap_or(String::new());
    let mode = video_quality_mode_debug(
        channel.video_quality_mode.unwrap_or(VideoQualityMode::Unknown),
    );

    let mut reply = String::from_str("**Name**: ");
    reply.append(channel.name.as_str());
    reply.append("\n**Bitrate**: ");
    reply.append(bitrate.as_str());
    reply.append("\n**User limit**: ");
    reply.append(user_limit.as_str());
    reply.append("\n**RTC region**: ");
    reply.append(rtc_region.as_str());
    reply.append("\n**Video quality mode**: ");
    reply.append(mode.as_str());
    assert(reply@ =~= voiceinfo_reply(channel@));
    reply
}

/// Where a channel has none of its optional fields, the reply shows a bitrate
/// of 0, a user limit of 0, an empty region and the mode `Unknown`.
pub proof fn lemma_voiceinfo_defaults(channel: VoiceChannelView)
    requires
        channel.bitrate is None,
        channel.user_limit is None,
        channel.rtc_region is None,
        channel.video_quality_mode is None,
    ensures
        voiceinfo_reply(channel) == "**Name**: "@ + channel.name
            + "\n**Bitrate**: 0\n**User limit**: 0\n**RTC region**: \n**Video quality mode**: Unknown"@,
{
    reveal_strlit("\n**Bitrate**: ");
    reveal_strlit("\n**User limit**: ");
    reveal_strlit("\n**RTC region**: ");
    reveal_strlit("\n**Video quality mode**: ");
    reveal_strlit("Unknown");
    reveal_strlit(
        "\n**Bitrate**: 0\n**User limit**: 0\n**RTC region**: \n**Video quality mode**: Unknown",
    );
    assert(decimal(0) =~= seq!['0']);
    assert(voiceinfo_reply(channel) =~= "**Name**: "@ + channel.name
        + "\n**Bitrate**: 0\n**User limit**: 0\n**RTC region**: \n**Video quality mode**: Unknown"@);
}

/// Where a channel has all of its optional fields, the reply holds each of
/// them as it is: the bitrate and the user limit as their decimal numerals,
/// the region as its own text, the mode under its own name.
pub proof fn lemma_voiceinfo_shows_what_is_set(
    channel: VoiceChannelView,
    bitrate: u64,
    user_limit: u64,
    rtc_region: Seq<char>,
    mode: VideoQualityMode,
)
    requires
        channel.bitrate == Some(bitrate),
        channel.user_limit == Some(user_limit),
        channel.rtc_region == Some(rtc_region),
        channel.video_quality_mode == Some(mode),
    ensures
        voiceinfo_reply(channel) == "**Name**: "@ + channel.name + "\n**Bitrate**: "@ + decimal(
            bitrate as nat,
        ) + "\n**User limit**: "@ + decimal(user_limit as nat) + "\n**RTC region**: "@ + rtc_region
            + "\n**Video quality mode**: "@ + mode.label(),
{
}

/// The reply of the echo command: the text it was given, character for
/// character. Nothing is trimmed, and an empty text gives an empty reply.
pub fn echo(msg: String) -> (reply: String)
    ensures
        reply@ == msg@,
{
    msg
}

} // verus!
