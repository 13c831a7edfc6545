//! The command lines handed to the retrieval tool.

use vstd::prelude::*;
use vstd::utf8::decode_utf8;
use vstd::utf8::valid_utf8;

use crate::text::decimal;
use crate::text::decimal_text;
use crate::text::lossy;
use crate::text::lossy_text;
use crate::text::texts;
use crate::yt_dlp::config::YtDlpConfig;
use crate::yt_dlp::YtDlpModule;

verus! {

/// Name of the executable that lists and retrieves.
pub const TOOL: &'static str = "yt-dlp";

/// What is said of a retrieval that could not be started.
pub const NOT_STARTED: &'static str = "yt-dlp command failed";

/// The number of entries asked of the lister where the settings name none.
pub const DEFAULT_LIMIT: u64 = 10;

/// What a run of the tool left behind.
#[derive(Debug, Clone)]
pub struct ToolOutput {
    /// Whether the tool reported success when it ended.
    pub success: bool,
    /// What it wrote to its standard output.
    pub stdout: Vec<u8>,
    /// What it wrote to its standard error.
    pub stderr: Vec<u8>,
}

/// Arguments with which the tool lists the `limit` most recent entries of `locator`.
pub open spec fn list_args(locator: Seq<char>, limit: u64) -> Seq<Seq<char>> {
    seq![
        "--no-warnings"@,
        "--flat-playlist"@,
        "--skip-download"@,
        "--print"@,
        "title,webpage_url"@,
        "--playlist-end"@,
        decimal(limit as nat),
        locator,
    ]
}

/// What there is to say about a run that failed: that it could not be
/// started, or what the tool wrote to its standard error. Where that is
/// UTF-8 it is the text as written; where it is not, it is the text with a
/// replacement character for each stretch that encodes nothing.
pub open spec fn failure_text(run: Option<ToolOutput>) -> Seq<char> {
    match run {
        None => NOT_STARTED@,
        Some(output) => if valid_utf8(output.stderr@) {
            decode_utf8(output.stderr@)
        } else {
            lossy(output.stderr@)
        },
    }
}

/// What a retrieval came to: done, or failed with what there is to say about it.
pub open spec fn retrieval_outcome(run: Option<ToolOutput>) -> Result<(), Seq<char>> {
    match run {
        None => Err(failure_text(run)),
        Some(output) => if output.success {
            Ok(())
        } else {
            Err(failure_text(run))
        },
    }
}

/// What a listing came to: what the lister printed, or failed with what
/// there is to say about it.
pub open spec fn listing_outcome(run: Option<ToolOutput>) -> Result<Seq<u8>, Seq<char>> {
    match run {
        None => Err(failure_text(run)),
        Some(output) => if output.success {
            Ok(output.stdout@)
        } else {
            Err(failure_text(run))
        },
    }
}

/// The switch `name` where the setting, or else its default, is on; nothing otherwise.
pub open spec fn switch(setting: Option<bool>, default: bool, name: Seq<char>) -> Seq<Seq<char>> {
    if setting.unwrap_or(default) {
        seq![name]
    } else {
        Seq::empty()
    }
}

/// The option `name` followed by its value where one is set; nothing otherwise.
pub open spec fn valued(name: Seq<char>, value: Option<String>) -> Seq<Seq<char>> {
    match value {
        Some(v) => seq![name, v@],
        None => Seq::empty(),
    }
}

/// The text of `value`, or `default` where none is set.
pub open spec fn text_or(value: Option<String>, default: Seq<char>) -> Seq<char> {
    match value {
        Some(v) => v@,
        None => default,
    }
}

impl YtDlpConfig {
    /// Arguments of the retrieval of `video_url` under these settings.
    pub open spec fn download_args(&self, video_url: Seq<char>) -> Seq<Seq<char>> {
        seq!["--downloader"@, "aria2c"@]
            + switch(self.write_thumbnail, true, "--write-thumbnail"@)
            + switch(self.write_description, false, "--write-description"@)
            + switch(self.write_info_json, false, "--write-info-json"@)
            + switch(self.write_comments, false, "--write-comments"@)
            + switch(self.write_subs, false, "--write-subs"@)
            + switch(self.audio_only, false, "--extract-audio"@)
            + valued("--audio-format"@, self.audio_format)
            + switch(self.embed_chapters, true, "--embed-chapters"@)
            + switch(self.embed_info_json, true, "--embed-info-json"@)
            + switch(self.embed_metadata, true, "--embed-metadata"@)
            + switch(self.embed_subs, false, "--embed-subs"@)
            + switch(self.embed_thumbnail, true, "--embed-thumbnail"@)
            + switch(self.split_chapters, false, "--split-chapters"@)
            + valued("--format"@, self.format)
            + valued("--cookies"@, self.cookie)
            + seq![
                "--convert-thumbnails"@,
                text_or(self.thumbnail_format, "jpg"@),
                "-o"@,
                text_or(self.output_format, "%(title)s.%(ext)s"@),
                video_url,
            ]
    }
}

/// Appends one argument.
fn push_text(args: &mut Vec<String>, text: &str)
    ensures
        texts(final(args)@) == texts(old(args)@).push(text@),
{
    args.push(text.to_owned());
    assert(texts(args@) =~= texts(old(args)@).push(text@));
}

/// Appends the switch `name` where the setting, or else its default, is on.
fn push_switch(args: &mut Vec<String>, setting: Option<bool>, default: bool, name: &str)
    ensures
        texts(final(args)@) == texts(old(args)@) + switch(setting, default, name@),
{
    if setting.unwrap_or(default) {
        push_text(args, name);
        assert(texts(args@) =~= texts(old(args)@) + switch(setting, default, name@));
    } else {
        assert(texts(args@) =~= texts(old(args)@) + switch(setting, default, name@));
    }
}

/// Appends the option `name` and its value where one is set.
fn push_valued(args: &mut Vec<String>, name: &str, value: &Option<String>)
    ensures
        texts(final(args)@) == texts(old(args)@) + valued(name@, *value),
{
    match value {
        Some(v) => {
            push_text(args, name);
            push_text(args, v.as_str());
            assert(texts(args@) =~= texts(old(args)@) + valued(name@, *value));
        },
        None => {
            assert(texts(args@) =~= texts(old(args)@) + valued(name@, *value));
        },
    }
}

/// Appends the value's text, or `default` where none is set.
fn push_text_or(args: &mut Vec<String>, value: &Option<String>, default: &str)
    ensures
        texts(final(args)@) == texts(old(args)@).push(text_or(*value, default@)),
{
    match value {
        Some(v) => push_text(args, v.as_str()),
        None => push_text(args, default),
    }
}

impl YtDlpModule {
    /// The arguments with which the tool lists the `limit` most recent entries
    /// of `locator`, title and locator of each on a line of its own.
    pub fn list_args(locator: &str, limit: u64) -> (args: Vec<String>)
        ensures
            texts(args@) == list_args(locator@, limit),
    {
        let mut args: Vec<String> = Vec::new();
        assert(texts(args@) =~= Seq::empty());
        push_text(&mut args, "--no-warnings");
        push_text(&mut args, "--flat-playlist");
        push_text(&mut args, "--skip-download");
        push_text(&mut args, "--print");
        push_text(&mut args, "title,webpage_url");
        push_text(&mut args, "--playlist-end");
        let count = decimal_text(limit);
        push_text(&mut args, count.as_str());
        push_text(&mut args, locator);
        assert(texts(args@) =~= list_args(locator@, limit));
        args
    }

    /// Reads what a run of the retrieval left behind. A run that could not be
    /// started and a run that ended without success are failures; the second
    /// is reported with what the tool wrote to its standard error.
    pub fn retrieved(run: Option<ToolOutput>) -> (outcome: Result<(), String>)
        ensures
            outcome is Ok <==> retrieval_outcome(run) is Ok,
            outcome matches Err(said) ==> retrieval_outcome(run) == Err::<(), Seq<char>>(said@),
    {
        match run {
            None => Err(NOT_STARTED.to_owned()),
            Some(output) => if output.success {
                Ok(())
            } else {
                Err(lossy_text(output.stderr.as_slice()))
            },
        }
    }

    /// Reads what a run of the lister left behind. A run that could not be
    /// started and a run that ended without success are failures; a run that
    /// ended with success hands over what the lister printed.
    pub fn listed(run: Option<ToolOutput>) -> (outcome: Result<Vec<u8>, String>)
        ensures
            outcome matches Ok(printed) ==> listing_outcome(run) == Ok::<Seq<u8>, Seq<char>>(
                printed@,
            ),
            outcome matches Err(said) ==> listing_outcome(run) == Err::<Seq<u8>, Seq<char>>(
                said@,
            ),
    {
        match run {
            None => Err(NOT_STARTED.to_owned()),
            Some(output) => if output.success {
                Ok(output.stdout)
            } else {
                Err(lossy_text(output.stderr.as_slice()))
            },
        }
    }

    /// The arguments with which the tool retrieves `video_url`: the downloader,
    /// one switch per setting that is on, the options that carry a value, then
    /// the thumbnail format, the output template and the locator itself.
    pub fn download_args(&self, video_url: &str) -> (args: Vec<String>)
        ensures
            texts(args@) == self.spec_config().download_args(video_url@),
    {
        let c = &self.config;
        let mut args: Vec<String> = Vec::new();
        assert(texts(args@) =~= Seq::empty());
        push_text(&mut args, "--downloader");
        push_text(&mut args, "aria2c");
        assert(texts(args@) =~= seq!["--downloader"@, "aria2c"@]);
        push_switch(&mut args, c.write_thumbnail, true, "--write-thumbnail");
        push_switch(&mut args, c.write_description, false, "--write-description");
        push_switch(&mut args, c.write_info_json, false, "--write-info-json");
        push_switch(&mut args, c.write_comments, false, "--write-comments");
        push_switch(&mut args, c.write_subs, false, "--write-subs");
        push_switch(&mut args, c.audio_only, false, "--extract-audio");
        push_valued(&mut args, "--audio-format", &c.audio_format);
        push_switch(&mut args, c.embed_chapters, true, "--embed-chapters");
        push_switch(&mut args, c.embed_info_json, true, "--embed-info-json");
        push_switch(&mut args, c.embed_metadata, true, "--embed-metadata");
        push_switch(&mut args, c.embed_subs, false, "--embed-subs");
        push_switch(&mut args, c.embed_thumbnail, true, "--embed-thumbnail");
        push_switch(&mut args, c.split_chapters, false, "--split-chapters");
        push_valued(&mut args, "--format", &c.format);
        push_valued(&mut args, "--cookies", &c.cookie);
        let ghost head = texts(args@);
        push_text(&mut args, "--convert-thumbnails");
        push_text_or(&mut args, &c.thumbnail_format, "jpg");
        push_text(&mut args, "-o");
        push_text_or(&mut args, &c.output_format, "%(title)s.%(ext)s");
        push_text(&mut args, video_url);
        assert(texts(args@) =~= head + seq![
            "--convert-thumbnails"@,
            text_or(c.thumbnail_format, "jpg"@),
            "-o"@,
            text_or(c.output_format, "%(title)s.%(ext)s"@),
            video_url@,
        ]);
        args
    }
}

} // verus!
