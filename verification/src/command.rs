//! The `render` command: its arguments, the encoder at the other end of its frame channel, and how
//! a run ends.
use vstd::prelude::*;
use crate::capture::RenderVideoOptions;
use crate::clock::TimeLimit;
use crate::encode::ffmpeg_cli::{
    concatenated, frame_len, size_text, written_frames, EncodeSettings, Error, ExitReport,
    FFmpegCliEncoder, VideoEncodeCodec, WriteCall, WriteOutcome,
};
use crate::encode::sidecar;
use crate::text;
use ffmpeg_sidecar::command::FfmpegCommand;

verus! {

/// What is wrong with the arguments of the command.
#[derive(Debug)]
pub enum ArgumentError {
    FpsNotPositive,
    ConnectTimeoutNotPositive,
    InvalidSize { size: String },
    ZeroSize,
    /// The connect timeout is no duration, for the given reason.
    BadConnectTimeout { cause: String },
}

impl ArgumentError {
    /// The error in words.
    pub open spec fn words(&self) -> Seq<char> {
        match self {
            ArgumentError::FpsNotPositive => "--fps must be positive"@,
            ArgumentError::ConnectTimeoutNotPositive => "--connect-timeout must be positive"@,
            ArgumentError::InvalidSize { size } => {
                "Invalid --size "@ + text::debug_text(size@)
                    + ": expected <width>x<height>, e.g. 1920x1080"@
            },
            ArgumentError::ZeroSize => "--size must be nonzero"@,
            ArgumentError::BadConnectTimeout { cause } => "Bad --connect-timeout: "@ + cause@,
        }
    }

    /// Puts the error into words.
    pub fn message(&self) -> (message: String)
        ensures
            message@ == self.words(),
    {
        let mut m = String::new();
        match self {
            ArgumentError::FpsNotPositive => {
                m.append("--fps must be positive");
            },
            ArgumentError::ConnectTimeoutNotPositive => {
                m.append("--connect-timeout must be positive");
            },
            ArgumentError::InvalidSize { size } => {
                m.append("Invalid --size ");
                m.append(text::debug_quoted(size.as_str()).as_str());
                m.append(": expected <width>x<height>, e.g. 1920x1080");
            },
            ArgumentError::ZeroSize => {
                m.append("--size must be nonzero");
            },
            ArgumentError::BadConnectTimeout { cause } => {
                m.append("Bad --connect-timeout: ");
                m.append(cause.as_str());
            },
        }
        assert(m@ == self.words());
        m
    }
}

/// Does `c` separate a width from a height?
pub open spec fn is_cross(c: char) -> bool {
    c == 'x' || c == 'X'
}

/// Is `at` where the first separator stands?
pub open spec fn first_cross(size: Seq<char>, at: int) -> bool {
    &&& 0 <= at < size.len()
    &&& is_cross(size[at])
    &&& forall|i: int| 0 <= i < at ==> !is_cross(#[trigger] size[i])
}

/// What a size reads as.
pub enum SizeView {
    Invalid,
    Zero,
    Size(u32, u32),
}

/// The size that two numbers make up.
pub open spec fn size_of(width: Option<u32>, height: Option<u32>) -> SizeView {
    match (width, height) {
        (Some(width), Some(height)) => if width > 0 && height > 0 {
            SizeView::Size(width, height)
        } else {
            SizeView::Zero
        },
        _ => SizeView::Invalid,
    }
}

/// Two numbers on both sides of the first `x` or `X`, with or without white space around them.
pub open spec fn read_size(size: Seq<char>) -> SizeView {
    if exists|at: int| first_cross(size, at) {
        let at = choose|at: int| first_cross(size, at);
        size_of(
            text::u32_text(text::trimmed(size.take(at))),
            text::u32_text(text::trimmed(size.skip(at + 1))),
        )
    } else {
        SizeView::Invalid
    }
}

/// Is this the outcome that reading the size gives?
pub open spec fn reports_size(res: Result<(u32, u32), ArgumentError>, size: Seq<char>) -> bool {
    match read_size(size) {
        SizeView::Size(width, height) => res == Ok::<(u32, u32), ArgumentError>((width, height)),
        SizeView::Zero => res matches Err(ArgumentError::ZeroSize),
        SizeView::Invalid => res matches Err(ArgumentError::InvalidSize { size: given }) && given@
            == size,
    }
}

/// Reads `"1920x1080"` as `(1920, 1080)`.
pub fn parse_size(size: &str) -> (res: Result<(u32, u32), ArgumentError>)
    ensures
        reports_size(res, size@),
{
    let chars = text::chars_of(size);
    let mut at: usize = 0;
    while at < chars.len() && chars[at] != 'x' && chars[at] != 'X'
        invariant
            at <= chars.len(),
            chars@ == size@,
            forall|i: int| 0 <= i < at ==> !is_cross(#[trigger] size@[i]),
        decreases chars.len() - at,
    {
        at = at + 1;
    }
    if at == chars.len() {
        return Err(ArgumentError::InvalidSize { size: size.to_owned() });
    }
    proof {
        lemma_first_cross(size@, at as int);
        assert(size@.take(at as int) == chars@.subrange(0, at as int));
        assert(size@.skip(at + 1) == chars@.subrange(at + 1, chars@.len() as int));
    }
    let left = text::trim(&chars, 0, at);
    let width = text::read_u32(&chars, left.0, left.1);
    let right = text::trim(&chars, at + 1, chars.len());
    let height = text::read_u32(&chars, right.0, right.1);
    assert(width == text::u32_text(text::trimmed(size@.take(at as int))));
    assert(height == text::u32_text(text::trimmed(size@.skip(at + 1))));
    assert(first_cross(size@, at as int));
    match (width, height) {
        (Some(width), Some(height)) => if width > 0 && height > 0 {
            Ok((width, height))
        } else {
            Err(ArgumentError::ZeroSize)
        },
        _ => Err(ArgumentError::InvalidSize { size: size.to_owned() }),
    }
}

/// There is one first separator at most.
proof fn lemma_first_cross(size: Seq<char>, at: int)
    requires
        first_cross(size, at),
    ensures
        (choose|i: int| first_cross(size, i)) == at,
{
    let other = choose|i: int| first_cross(size, i);
    if other < at {
        assert(!is_cross(size[other]));
    } else if at < other {
        assert(!is_cross(size[at]));
    }
}

/// A size that is written out reads back as it was, with a small or a capital letter in between.
pub proof fn written_size_reads_back(width: u32, height: u32, cross: char)
    requires
        width > 0,
        height > 0,
        is_cross(cross),
    ensures
        read_size(
            text::decimal_text(width as nat).push(cross) + text::decimal_text(height as nat),
        ) == SizeView::Size(width, height),
        read_size(size_text(width, height)) == SizeView::Size(width, height),
{
    lemma_size_reads_back(width, height, cross);
    lemma_size_reads_back(width, height, 'x');
    reveal_strlit("x");
    assert(size_text(width, height) == text::decimal_text(width as nat).push('x')
        + text::decimal_text(height as nat));
}

proof fn lemma_size_reads_back(width: u32, height: u32, cross: char)
    requires
        width > 0,
        height > 0,
        is_cross(cross),
    ensures
        read_size(
            text::decimal_text(width as nat).push(cross) + text::decimal_text(height as nat),
        ) == SizeView::Size(width, height),
{
    let w = text::decimal_text(width as nat);
    let h = text::decimal_text(height as nat);
    let size = w.push(cross) + h;
    text::decimal_reads_back(width);
    text::decimal_reads_back(height);
    let at = w.len() as int;
    assert(size[at] == cross);
    assert forall|i: int| 0 <= i < at implies !is_cross(#[trigger] size[i]) by {
        assert(size[i] == w[i]);
        assert(text::is_digit(w[i]));
    }
    lemma_first_cross(size, at);
    assert(first_cross(size, at));
    assert(size.take(at) == w);
    assert(size.skip(at + 1) == h);
    lemma_digits_are_trimmed(w);
    lemma_digits_are_trimmed(h);
}

proof fn lemma_digits_are_trimmed(s: Seq<char>)
    requires
        s.len() > 0,
        forall|i: int| 0 <= i < s.len() ==> text::is_digit(#[trigger] s[i]),
    ensures
        text::trimmed(s) == s,
{
    assert(text::is_digit(s[0]));
    assert(text::is_digit(s[s.len() - 1]));
}

/// The codecs that can be asked for.
#[derive(Debug, Clone, Copy, PartialEq, Eq, Structural)]
pub enum CodecArg {
    /// H.264/AVC via libx264, which plays everywhere.
    H264,
    /// H.265/HEVC via libx265: smaller files, pickier players.
    H265,
}

impl From<CodecArg> for VideoEncodeCodec {
    fn from(codec: CodecArg) -> (res: Self) {
        match codec {
            CodecArg::H264 => VideoEncodeCodec::H264,
            CodecArg::H265 => VideoEncodeCodec::H265,
        }
    }
}

impl vstd::std_specs::convert::FromSpecImpl<CodecArg> for VideoEncodeCodec {
    open spec fn obeys_from_spec() -> bool {
        true
    }

    open spec fn from_spec(codec: CodecArg) -> Self {
        match codec {
            CodecArg::H264 => VideoEncodeCodec::H264,
            CodecArg::H265 => VideoEncodeCodec::H265,
        }
    }
}

/// What feeds the viewer.
#[derive(Debug)]
pub enum RenderSource {
    /// The recording at this path or address.
    File(String),
    /// An SDK client that connects to the server.
    Live,
}

impl RenderSource {
    /// An input and listening exclude each other, and one of them has to be asked for.
    pub fn select(url_or_path: Option<String>, listen: bool) -> (source: RenderSource)
        requires
            url_or_path is Some <==> !listen,
        ensures
            source == match url_or_path {
                Some(input) => RenderSource::File(input),
                None => RenderSource::Live,
            },
            source is Live <==> listen,
    {
        match url_or_path {
            Some(input) => RenderSource::File(input),
            None => RenderSource::Live,
        }
    }
}

/// The arguments of the command. Of the numbers that need not be whole, it is told here what
/// matters for the run.
#[derive(Debug)]
pub struct RenderCommand {
    /// The recording to render: a path or an address. Excludes `listen`.
    pub url_or_path: Option<String>,
    /// Listen for a live SDK client instead of reading a file.
    pub listen: bool,
    /// Output file path.
    pub output: String,
    /// Output frame rate, as the decimal number that ffmpeg is given.
    pub fps: String,
    /// Is the frame rate positive?
    pub fps_positive: bool,
    /// Is the connect timeout positive?
    pub connect_timeout_positive: bool,
    /// The connect timeout, or the reason why it is no duration.
    pub connect_timeout: Result<TimeLimit, String>,
    /// Resolution of the rendered viewport, `<width>x<height>`.
    pub size: String,
    /// Timeline to play back.
    pub timeline: Option<String>,
    /// Video codec to encode with.
    pub codec: CodecArg,
    /// Constant rate factor: 0-51, lower means higher quality and a bigger file.
    pub crf: u32,
    /// Use the deterministic capture loop.
    pub deterministic: bool,
    /// Deterministic mode only: minimum number of settled steps after each seek.
    pub min_settle_steps: u32,
    /// Upper bound on render passes or settle steps per output frame.
    pub max_settle_steps: u32,
    /// Explicit path to the `ffmpeg` binary.
    pub ffmpeg_path: Option<String>,
}

/// What the command comes down to.
pub struct RenderPlan {
    pub source: RenderSource,
    pub options: RenderVideoOptions,
    /// The encoder's session, before the first frame.
    pub session: EncoderSession,
}

/// Does the plan do what the command asks for, at this size and with this connect timeout? What the
/// command does not say is left at its default.
pub open spec fn carries_out(
    plan: RenderPlan,
    command: RenderCommand,
    width: u32,
    height: u32,
    connect_timeout: TimeLimit,
) -> bool {
    &&& plan.source == match command.url_or_path {
        Some(input) => RenderSource::File(input),
        None => RenderSource::Live,
    }
    &&& plan.options.width == width
    &&& plan.options.height == height
    &&& plan.options.timeline == command.timeline
    &&& plan.options.deterministic == command.deterministic
    &&& plan.options.min_settle_steps == command.min_settle_steps
    &&& plan.options.max_settle_steps == command.max_settle_steps
    &&& plan.options.connect_timeout == connect_timeout
    &&& plan.options.settle_sleep.spec_nanos() == 5_000_000
    &&& plan.options.load_timeout.spec_nanos() == 300_000_000_000
    &&& plan.session.well_formed()
    &&& plan.session.stage() == SessionStage::Receiving
    &&& plan.session.received() == Seq::<FrameView>::empty()
    &&& plan.session.spec_encoder() is None
    &&& plan.session.spec_fps() == command.fps
    &&& plan.session.spec_codec() == match command.codec {
        CodecArg::H264 => VideoEncodeCodec::H264,
        CodecArg::H265 => VideoEncodeCodec::H265,
    }
    &&& plan.session.spec_crf() == command.crf
    &&& plan.session.spec_ffmpeg_path() == command.ffmpeg_path
    &&& plan.session.spec_output() == command.output
}

impl RenderCommand {
    /// Works out what to do: the frame rate and the connect timeout have to be positive, the size
    /// has to be one, and the connect timeout has to be a duration. The first fault counts.
    pub fn run(self) -> (res: Result<RenderPlan, ArgumentError>)
        requires
            self.url_or_path is Some <==> !self.listen,
        ensures
            if !self.fps_positive {
                res matches Err(ArgumentError::FpsNotPositive)
            } else if !self.connect_timeout_positive {
                res matches Err(ArgumentError::ConnectTimeoutNotPositive)
            } else {
                match read_size(self.size@) {
                    SizeView::Zero => res matches Err(ArgumentError::ZeroSize),
                    SizeView::Invalid => res matches Err(ArgumentError::InvalidSize { size })
                        && size@ == self.size@,
                    SizeView::Size(width, height) => match self.connect_timeout {
                        Err(reason) => res == Err::<RenderPlan, ArgumentError>(
                            ArgumentError::BadConnectTimeout { cause: reason },
                        ),
                        Ok(limit) => res matches Ok(plan) && carries_out(
                            plan,
                            self,
                            width,
                            height,
                            limit,
                        ),
                    },
                }
            },
    {
        if !self.fps_positive {
            return Err(ArgumentError::FpsNotPositive);
        }
        if !self.connect_timeout_positive {
            return Err(ArgumentError::ConnectTimeoutNotPositive);
        }
        let (width, height) = match parse_size(self.size.as_str()) {
            Ok(size) => size,
            Err(err) => return Err(err),
        };
        let source = RenderSource::select(self.url_or_path, self.listen);
        let connect_timeout = match self.connect_timeout {
            Ok(limit) => limit,
            Err(cause) => return Err(ArgumentError::BadConnectTimeout { cause }),
        };
        let mut options = RenderVideoOptions::default();
        options.width = width;
        options.height = height;
        options.timeline = self.timeline;
        options.deterministic = self.deterministic;
        options.min_settle_steps = self.min_settle_steps;
        options.max_settle_steps = self.max_settle_steps;
        options.connect_timeout = connect_timeout;
        let session = EncoderSession::new(
            self.fps,
            VideoEncodeCodec::from(self.codec),
            self.crf,
            self.ffmpeg_path,
            self.output,
        );
        Ok(RenderPlan { source, options, session })
    }
}

/// One frame that came through the channel.
pub struct FrameView {
    pub width: u32,
    pub height: u32,
    pub rgba: Seq<u8>,
}

/// The pixels of some frames.
pub open spec fn pixels_of(frames: Seq<FrameView>) -> Seq<Seq<u8>> {
    frames.map_values(|frame: FrameView| frame.rgba)
}

/// An encoder's record of some frames that were all written.
pub open spec fn all_written(frames: Seq<FrameView>) -> Seq<WriteCall> {
    frames.map_values(
        |frame: FrameView| WriteCall { rgba: frame.rgba, outcome: WriteOutcome::Written },
    )
}

/// If every frame was written, the written ones are all of them.
proof fn lemma_all_written(frames: Seq<FrameView>)
    ensures
        written_frames(all_written(frames)) == pixels_of(frames),
    decreases frames.len(),
{
    if frames.len() > 0 {
        lemma_all_written(frames.drop_last());
        assert(all_written(frames).drop_last() == all_written(frames.drop_last()));
        assert(pixels_of(frames) == pixels_of(frames.drop_last()).push(frames.last().rgba));
    }
}

/// The record of some frames is that of all but the last one, and then the last one.
proof fn lemma_one_more_written(frames: Seq<FrameView>)
    requires
        frames.len() > 0,
    ensures
        all_written(frames) == all_written(frames.drop_last()).push(
            WriteCall { rgba: frames.last().rgba, outcome: WriteOutcome::Written },
        ),
{
}

/// What an encoder's session is waiting for.
#[derive(Debug, Clone, Copy, PartialEq, Eq, Structural)]
pub enum SessionStage {
    /// A frame, or the end of the channel.
    Receiving,
    /// How the start of ffmpeg went, for a first frame of this size.
    Starting { width: u32, height: u32 },
    /// How the write of a frame went.
    Writing,
    /// Nothing: it has failed.
    Failed,
}

/// What has to be done with a frame.
#[derive(Debug)]
pub enum FrameStep {
    /// Start an encoder of these settings first.
    Start(EncodeSettings),
    /// Write it to the pipe.
    Write,
}

/// There was nothing to encode.
#[derive(Debug)]
pub struct NoFrames {
    /// The output file, as it is to be shown.
    pub output: String,
}

impl NoFrames {
    /// The error in words.
    pub open spec fn words(&self) -> Seq<char> {
        "No frames were rendered — nothing written to "@ + self.output@
    }

    /// Puts the error into words.
    pub fn message(&self) -> (message: String)
        ensures
            message@ == self.words(),
    {
        let mut m = String::new();
        m.append("No frames were rendered — nothing written to ");
        m.append(self.output.as_str());
        assert(m@ == self.words());
        m
    }
}

/// The encoder at the other end of the frame channel. It is started by the first frame, so that it
/// matches the actual size of the frames.
pub struct EncoderSession {
    fps: String,
    codec: VideoEncodeCodec,
    crf: u32,
    ffmpeg_path: Option<String>,
    output: String,
    stage: SessionStage,
    encoder: Option<FFmpegCliEncoder>,
    received: Ghost<Seq<FrameView>>,
}

impl EncoderSession {
    pub closed spec fn spec_fps(&self) -> String {
        self.fps
    }

    pub closed spec fn spec_codec(&self) -> VideoEncodeCodec {
        self.codec
    }

    pub closed spec fn spec_crf(&self) -> u32 {
        self.crf
    }

    pub closed spec fn spec_ffmpeg_path(&self) -> Option<String> {
        self.ffmpeg_path
    }

    pub closed spec fn spec_output(&self) -> String {
        self.output
    }

    pub closed spec fn stage(&self) -> SessionStage {
        self.stage
    }

    /// The encoder, once it has been started.
    pub closed spec fn spec_encoder(&self) -> Option<FFmpegCliEncoder> {
        self.encoder
    }

    /// The frames that have come through the channel, in order.
    pub closed spec fn received(&self) -> Seq<FrameView> {
        self.received@
    }

    /// The settings for frames of this size.
    pub open spec fn settings_for(&self, width: u32, height: u32) -> EncodeSettings {
        EncodeSettings {
            width,
            height,
            fps: self.spec_fps(),
            codec: self.spec_codec(),
            crf: self.spec_crf(),
            ffmpeg_path: self.spec_ffmpeg_path(),
        }
    }

    /// Does the other session encode in the same way, to the same file?
    pub open spec fn same_target(&self, other: &EncoderSession) -> bool {
        &&& self.spec_fps() == other.spec_fps()
        &&& self.spec_codec() == other.spec_codec()
        &&& self.spec_crf() == other.spec_crf()
        &&& self.spec_ffmpeg_path() == other.spec_ffmpeg_path()
        &&& self.spec_output() == other.spec_output()
    }

    /// Is this an open encoder of the first frame's size that has written exactly these frames?
    spec fn has_written(&self, encoder: FFmpegCliEncoder, frames: Seq<FrameView>) -> bool {
        &&& encoder.well_formed()
        &&& encoder.is_open()
        &&& encoder.spec_width() == self.received@[0].width
        &&& encoder.spec_height() == self.received@[0].height
        &&& encoder.calls() == all_written(frames)
    }

    /// The first frame starts an encoder of its size, and as long as nothing fails every frame is
    /// written.
    pub closed spec fn well_formed(&self) -> bool {
        match self.stage {
            SessionStage::Receiving => match self.encoder {
                None => self.received@.len() == 0,
                Some(encoder) => {
                    &&& self.received@.len() > 0
                    &&& self.has_written(encoder, self.received@)
                    &&& encoder.in_hand() is None
                },
            },
            SessionStage::Starting { width, height } => {
                &&& self.encoder is None
                &&& self.received@.len() == 1
                &&& self.received@[0].width == width
                &&& self.received@[0].height == height
            },
            SessionStage::Writing => {
                &&& self.received@.len() > 0
                &&& self.encoder matches Some(encoder) && {
                    &&& self.has_written(encoder, self.received@.drop_last())
                    &&& encoder.in_hand() == Some(self.received@.last().rgba)
                }
            },
            SessionStage::Failed => true,
        }
    }

    /// Between frames, every frame that has come has been written exactly once and in order, by an
    /// encoder of the first frame's size. Before the first frame there is no encoder.
    pub proof fn frames_are_written_once_and_in_order(&self)
        requires
            self.well_formed(),
            self.stage() == SessionStage::Receiving,
        ensures
            match self.spec_encoder() {
                None => self.received().len() == 0,
                Some(encoder) => {
                    &&& self.received().len() > 0
                    &&& encoder.spec_width() == self.received()[0].width
                    &&& encoder.spec_height() == self.received()[0].height
                    &&& encoder.spec_num_frames_written() == self.received().len()
                    &&& written_frames(encoder.calls()) == pixels_of(self.received())
                    &&& encoder.piped() == concatenated(pixels_of(self.received()))
                },
            },
    {
        if let Some(encoder) = self.encoder {
            lemma_all_written(self.received@);
            encoder.written_frames_are_counted_and_piped();
        }
    }

    /// Before the first frame.
    pub fn new(
        fps: String,
        codec: VideoEncodeCodec,
        crf: u32,
        ffmpeg_path: Option<String>,
        output: String,
    ) -> (session: Self)
        ensures
            session.well_formed(),
            session.stage() == SessionStage::Receiving,
            session.spec_fps() == fps,
            session.spec_codec() == codec,
            session.spec_crf() == crf,
            session.spec_ffmpeg_path() == ffmpeg_path,
            session.spec_output() == output,
            session.spec_encoder() is None,
            session.received() == Seq::<FrameView>::empty(),
    {
        EncoderSession {
            fps,
            codec,
            crf,
            ffmpeg_path,
            output,
            stage: SessionStage::Receiving,
            encoder: None,
            received: Ghost(Seq::empty()),
        }
    }

    fn settings(&self, width: u32, height: u32) -> (settings: EncodeSettings)
        ensures
            settings == self.settings_for(width, height),
    {
        let ffmpeg_path = match &self.ffmpeg_path {
            Some(path) => Some(path.clone()),
            None => None,
        };
        EncodeSettings {
            width,
            height,
            fps: self.fps.clone(),
            codec: self.codec,
            crf: self.crf,
            ffmpeg_path,
        }
    }

    /// Takes in one frame. The first one asks for an encoder of its size; a later one may be written
    /// if it has the length of a frame.
    pub fn receive(&mut self, width: u32, height: u32, rgba: &[u8]) -> (res: Result<
        FrameStep,
        Error,
    >)
        requires
            old(self).well_formed(),
            old(self).stage() == SessionStage::Receiving,
        ensures
            final(self).well_formed(),
            final(self).same_target(old(self)),
            final(self).received() == old(self).received().push(
                (FrameView { width, height, rgba: rgba@ }),
            ),
            match old(self).spec_encoder() {
                None => {
                    &&& res == Ok::<FrameStep, Error>(
                        FrameStep::Start(old(self).settings_for(width, height)),
                    )
                    &&& final(self).stage() == (SessionStage::Starting { width, height })
                    &&& final(self).spec_encoder() is None
                },
                Some(encoder) => {
                    let expected = frame_len(encoder.spec_width(), encoder.spec_height());
                    &&& if rgba@.len() == expected {
                        &&& res == Ok::<FrameStep, Error>(FrameStep::Write)
                        &&& final(self).stage() == SessionStage::Writing
                    } else {
                        &&& res == Err::<FrameStep, Error>(
                            Error::BadFrameSize {
                                expected: expected as usize,
                                got: rgba@.len() as usize,
                                width: encoder.spec_width(),
                                height: encoder.spec_height(),
                            },
                        )
                        &&& final(self).stage() == SessionStage::Failed
                    }
                    &&& final(self).spec_encoder() matches Some(after)
                    &&& after.well_formed()
                    &&& after.spec_width() == encoder.spec_width()
                    &&& after.spec_height() == encoder.spec_height()
                    &&& after.spec_num_frames_written() == encoder.spec_num_frames_written()
                },
            },
    {
        let ghost before = self.received@;
        let ghost frame = FrameView { width, height, rgba: rgba@ };
        proof {
            self.received@ = before.push(frame);
            assert(self.received@.drop_last() == before);
        }
        match self.encoder.take() {
            None => {
                self.stage = SessionStage::Starting { width, height };
                Ok(FrameStep::Start(self.settings(width, height)))
            },
            Some(mut encoder) => {
                let res = encoder.write_frame(rgba);
                self.encoder = Some(encoder);
                match res {
                    Ok(()) => {
                        self.stage = SessionStage::Writing;
                        Ok(FrameStep::Write)
                    },
                    Err(err) => {
                        self.stage = SessionStage::Failed;
                        Err(err)
                    },
                }
            },
        }
    }

    /// The command that starts the encoder which the first frame has asked for.
    pub fn command(&self) -> (res: Result<FfmpegCommand, Error>)
        requires
            self.stage() is Starting,
        ensures
            self.stage() matches SessionStage::Starting { width, height } ==> {
                let settings = self.settings_for(width, height);
                match res {
                    Ok(command) => {
                        &&& settings.nonempty()
                        &&& sidecar::command_args(command) == sidecar::initial_args()
                            + settings.args(self.spec_output()@)
                        &&& match self.spec_ffmpeg_path() {
                            Some(path) => sidecar::command_program(command) == path@,
                            None => sidecar::is_ffmpeg(sidecar::command_program(command)),
                        }
                    },
                    Err(err) => {
                        &&& !settings.nonempty()
                        &&& err == Error::ZeroSize { width, height }
                    },
                }
            },
    {
        let (width, height): (u32, u32) = match self.stage {
            SessionStage::Starting { width, height } => (width, height),
            _ => (0, 0),
        };
        self.settings(width, height).command(self.output.as_str())
    }

    /// Takes in how the start of ffmpeg went: failed, with the reason, or succeeded, with or without a
    /// pipe to its standard input. `rgba` is the frame that asked for it; may it be written now?
    pub fn started(&mut self, rgba: &[u8], started: Result<bool, String>) -> (res: Result<
        (),
        Error,
    >)
        requires
            old(self).well_formed(),
            old(self).stage() matches SessionStage::Starting { width, height } && frame_len(
                width,
                height,
            ) <= usize::MAX,
            rgba@ == old(self).received().last().rgba,
        ensures
            final(self).well_formed(),
            final(self).same_target(old(self)),
            final(self).received() == old(self).received(),
            final(self).stage() == if res is Ok {
                SessionStage::Writing
            } else {
                SessionStage::Failed
            },
            old(self).stage() matches SessionStage::Starting { width, height } ==> {
                if width == 0 || height == 0 {
                    res == Err::<(), Error>(Error::ZeroSize { width, height })
                } else {
                    match started {
                        Err(cause) => res == Err::<(), Error>(Error::FailedToStartFfmpeg(cause)),
                        Ok(false) => res matches Err(Error::NoStdin),
                        Ok(true) => {
                            &&& final(self).spec_encoder() matches Some(encoder)
                            &&& encoder.well_formed()
                            &&& encoder.spec_width() == width
                            &&& encoder.spec_height() == height
                            &&& encoder.spec_num_frames_written() == 0
                            &&& if rgba@.len() == frame_len(width, height) {
                                res is Ok
                            } else {
                                res == Err::<(), Error>(
                                    Error::BadFrameSize {
                                        expected: frame_len(width, height) as usize,
                                        got: rgba@.len() as usize,
                                        width,
                                        height,
                                    },
                                )
                            }
                        },
                    }
                }
            },
    {
        let (width, height): (u32, u32) = match self.stage {
            SessionStage::Starting { width, height } => (width, height),
            _ => (0, 0),
        };
        let settings = self.settings(width, height);
        self.stage = SessionStage::Failed;
        match FFmpegCliEncoder::new(&settings, started) {
            Err(err) => Err(err),
            Ok(mut encoder) => {
                let res = encoder.write_frame(rgba);
                if res.is_ok() {
                    self.stage = SessionStage::Writing;
                }
                assert(all_written(self.received@.drop_last()) == Seq::<WriteCall>::empty());
                self.encoder = Some(encoder);
                res
            },
        }
    }

    /// Accounts for the frame in hand, given how writing it to the pipe went.
    pub fn frame_written(&mut self, written: Result<(), String>) -> (res: Result<(), Error>)
        requires
            old(self).well_formed(),
            old(self).stage() == SessionStage::Writing,
            old(self).received().len() <= u64::MAX,
        ensures
            final(self).well_formed(),
            final(self).same_target(old(self)),
            final(self).received() == old(self).received(),
            old(self).spec_encoder() matches Some(before) && {
                &&& final(self).spec_encoder() matches Some(after)
                &&& after.well_formed()
                &&& after.spec_width() == before.spec_width()
                &&& after.spec_height() == before.spec_height()
                &&& match written {
                    Ok(()) => {
                        &&& res is Ok
                        &&& final(self).stage() == SessionStage::Receiving
                        &&& after.spec_num_frames_written() == before.spec_num_frames_written() + 1
                    },
                    Err(cause) => {
                        &&& res == Err::<(), Error>(Error::WriteFailed(cause))
                        &&& final(self).stage() == SessionStage::Failed
                        &&& after.spec_num_frames_written() == before.spec_num_frames_written()
                    },
                }
            },
    {
        let ghost before = self.received@.drop_last();
        proof {
            lemma_all_written(before);
            lemma_one_more_written(self.received@);
        }
        self.stage = SessionStage::Failed;
        match self.encoder.take() {
            Some(mut encoder) => {
                proof {
                    encoder.written_frames_are_counted_and_piped();
                }
                let res = encoder.frame_written(written);
                self.encoder = Some(encoder);
                if res.is_ok() {
                    self.stage = SessionStage::Receiving;
                }
                res
            },
            None => Err(Error::NoStdin),
        }
    }

    /// Ends the session once no more frames can come: hands out the encoder to be finished, which
    /// has written every frame that came, once and in order. Without any frame there is none, and the
    /// run has failed; `output` is the file that was not written, as it is to be shown.
    pub fn close(self, output: &str) -> (res: Result<FFmpegCliEncoder, NoFrames>)
        requires
            self.well_formed(),
            self.stage() == SessionStage::Receiving,
        ensures
            match res {
                Err(err) => {
                    &&& self.spec_encoder() is None
                    &&& self.received().len() == 0
                    &&& err.output@ == output@
                },
                Ok(encoder) => {
                    &&& self.spec_encoder() == Some(encoder)
                    &&& self.received().len() > 0
                    &&& encoder.well_formed()
                    &&& encoder.is_open()
                    &&& encoder.in_hand() is None
                    &&& encoder.spec_width() == self.received()[0].width
                    &&& encoder.spec_height() == self.received()[0].height
                    &&& encoder.spec_num_frames_written() == self.received().len()
                    &&& written_frames(encoder.calls()) == pixels_of(self.received())
                    &&& encoder.piped() == concatenated(pixels_of(self.received()))
                },
            },
    {
        proof {
            self.frames_are_written_once_and_in_order();
        }
        match self.encoder {
            Some(encoder) => Ok(encoder),
            None => Err(NoFrames { output: output.to_owned() }),
        }
    }
}

/// The number of frames in the file, given how ffmpeg ended once its pipe was closed, and the last
/// lines of its output if they could be had.
pub fn finish_encoding(
    encoder: FFmpegCliEncoder,
    exit: Result<ExitReport, String>,
    stderr_lines: Option<Vec<String>>,
) -> (res: Result<u64, Error>)
    requires
        !encoder.is_open(),
    ensures
        match exit {
            Err(cause) => res == Err::<u64, Error>(Error::WaitFailed(cause)),
            Ok(report) => if report.success {
                res == Ok::<u64, Error>(encoder.spec_num_frames_written())
            } else {
                &&& res matches Err(Error::FfmpegFailed { status, stderr_tail })
                &&& status == report.status
                &&& stderr_tail@ == match stderr_lines {
                    Some(lines) => text::joined(text::texts(lines@), "\n"@),
                    None => Seq::<char>::empty(),
                }
            },
        },
{
    let num_frames: u64 = encoder.num_frames_written();
    match encoder.finish(exit, stderr_lines) {
        Ok(()) => Ok(num_frames),
        Err(err) => Err(err),
    }
}

/// A run that failed although its parts may have succeeded.
#[derive(Debug)]
pub enum RunFailure<E> {
    /// The encoder's thread did not return.
    EncoderPanicked,
    /// Rendering or encoding failed.
    Failed(E),
}

/// How a run ends, given how rendering and encoding ended; the latter is `None` if the encoder's
/// thread panicked. A failed rendering counts before a failed encoding.
pub fn conclude<S, E>(render: Result<S, E>, encode: Option<Result<u64, E>>) -> (res: Result<
    (S, u64),
    RunFailure<E>,
>)
    ensures
        res == match encode {
            None => Err::<(S, u64), RunFailure<E>>(RunFailure::EncoderPanicked),
            Some(encode) => match (render, encode) {
                (Err(err), _) => Err(RunFailure::Failed(err)),
                (Ok(_), Err(err)) => Err(RunFailure::Failed(err)),
                (Ok(stats), Ok(num_encoded)) => Ok((stats, num_encoded)),
            },
        },
{
    match encode {
        None => Err(RunFailure::EncoderPanicked),
        Some(encode) => match render {
            Err(err) => Err(RunFailure::Failed(err)),
            Ok(stats) => match encode {
                Err(err) => Err(RunFailure::Failed(err)),
                Ok(num_encoded) => Ok((stats, num_encoded)),
            },
        },
    }
}

/// A size is split at its first `x` or `X`. It is given exactly if both sides, without the white space
/// around them, read as numbers, the width on the left and the height on the right, and neither of
/// them is zero; a zero is told apart from what does not read as a size.
pub proof fn sizes_are_split_at_the_first_cross(
    size: &str,
    res: Result<(u32, u32), ArgumentError>,
    at: int,
)
    requires
        call_ensures(parse_size, (size,), res),
        0 <= at < size@.len(),
        size@[at] == 'x' || size@[at] == 'X',
        forall|i: int| 0 <= i < at ==> #[trigger] size@[i] != 'x' && size@[i] != 'X',
    ensures
        ({
            let width = text::u32_text(text::trimmed(size@.take(at)));
            let height = text::u32_text(text::trimmed(size@.skip(at + 1)));
            if width is Some && height is Some {
                if width->0 > 0 && height->0 > 0 {
                    res == Ok::<(u32, u32), ArgumentError>((width->0, height->0))
                } else {
                    res matches Err(ArgumentError::ZeroSize)
                }
            } else {
                res matches Err(ArgumentError::InvalidSize { size: given }) && given@ == size@
            }
        }),
{
    assert(first_cross(size@, at));
    lemma_first_cross(size@, at);
}

/// Without an `x` there is no size.
pub proof fn a_size_has_a_cross(size: &str, res: Result<(u32, u32), ArgumentError>)
    requires
        call_ensures(parse_size, (size,), res),
        forall|i: int| 0 <= i < size@.len() ==> #[trigger] size@[i] != 'x' && size@[i] != 'X',
    ensures
        res matches Err(ArgumentError::InvalidSize { size: given }) && given@ == size@,
{
    assert(forall|at: int| !first_cross(size@, at));
}

/// A size that is written out in decimal is read as it was, for every width and height.
pub proof fn every_size_reads_back(
    width: u32,
    height: u32,
    size: &str,
    res: Result<(u32, u32), ArgumentError>,
)
    requires
        width > 0,
        height > 0,
        size@ == size_text(width, height),
        call_ensures(parse_size, (size,), res),
    ensures
        res == Ok::<(u32, u32), ArgumentError>((width, height)),
{
    written_size_reads_back(width, height, 'x');
}

/// A command with a fault is refused for the first one, in this order: the frame rate, the connect
/// timeout, the size, and the connect timeout as a duration. A command without a fault is carried
/// out.
pub proof fn the_first_fault_counts(
    command: RenderCommand,
    res: Result<RenderPlan, ArgumentError>,
    size: &str,
    read: Result<(u32, u32), ArgumentError>,
)
    requires
        command.url_or_path is Some <==> !command.listen,
        call_ensures(RenderCommand::run, (command,), res),
        size@ == command.size@,
        call_ensures(parse_size, (size,), read),
    ensures
        !command.fps_positive ==> (res matches Err(ArgumentError::FpsNotPositive)),
        command.fps_positive && !command.connect_timeout_positive ==> (res matches Err(
            ArgumentError::ConnectTimeoutNotPositive,
        )),
        command.fps_positive && command.connect_timeout_positive ==> {
            &&& read is Err ==> res is Err && res->Err_0.words() == read->Err_0.words()
            &&& read is Ok && command.connect_timeout is Err ==> res == Err::<
                RenderPlan,
                ArgumentError,
            >(ArgumentError::BadConnectTimeout { cause: command.connect_timeout->Err_0 })
            &&& read is Ok && command.connect_timeout is Ok ==> res is Ok
        },
{
}

/// A plan takes every argument over, unchanged: the source, the size, the timeline, the way of capture
/// and its limits, the connect timeout, the rate, the codec, the quality, the program and the output.
pub proof fn a_plan_takes_every_argument_over(
    command: RenderCommand,
    res: Result<RenderPlan, ArgumentError>,
    size: &str,
    read: Result<(u32, u32), ArgumentError>,
)
    requires
        command.url_or_path is Some <==> !command.listen,
        call_ensures(RenderCommand::run, (command,), res),
        size@ == command.size@,
        call_ensures(parse_size, (size,), read),
    ensures
        res matches Ok(plan) ==> {
            &&& plan.source is Live <==> command.listen
            &&& plan.source matches RenderSource::File(input) ==> command.url_or_path == Some(input)
            &&& read == Ok::<(u32, u32), ArgumentError>((plan.options.width, plan.options.height))
            &&& plan.options.timeline == command.timeline
            &&& plan.options.deterministic == command.deterministic
            &&& plan.options.min_settle_steps == command.min_settle_steps
            &&& plan.options.max_settle_steps == command.max_settle_steps
            &&& command.connect_timeout == Ok::<TimeLimit, String>(plan.options.connect_timeout)
            &&& plan.options.settle_sleep.spec_nanos() == 5_000_000
            &&& plan.options.load_timeout.spec_nanos() == 300_000_000_000
            &&& plan.session.spec_fps()@ == command.fps@
            &&& command.codec == CodecArg::H264 ==> plan.session.spec_codec()
                == VideoEncodeCodec::H264
            &&& command.codec == CodecArg::H265 ==> plan.session.spec_codec()
                == VideoEncodeCodec::H265
            &&& plan.session.spec_crf() == command.crf
            &&& plan.session.spec_ffmpeg_path() == command.ffmpeg_path
            &&& plan.session.spec_output()@ == command.output@
            &&& plan.session.stage() == SessionStage::Receiving
            &&& plan.session.received().len() == 0
        },
{
}

/// An input is read as a file, and without one the viewer listens; each codec that can be asked for is
/// its own.
pub proof fn arguments_mean_what_they_say(
    url_or_path: Option<String>,
    listen: bool,
    source: RenderSource,
    codec: CodecArg,
    encode: VideoEncodeCodec,
)
    requires
        url_or_path is Some <==> !listen,
        call_ensures(RenderSource::select, (url_or_path, listen), source),
        call_ensures(VideoEncodeCodec::from, (codec,), encode),
    ensures
        url_or_path matches Some(input) ==> source == RenderSource::File(input),
        listen ==> source == RenderSource::Live,
        codec == CodecArg::H264 ==> encode == VideoEncodeCodec::H264,
        codec == CodecArg::H265 ==> encode == VideoEncodeCodec::H265,
{
}

/// The first frame asks for an encoder of its own size, with the session's rate, codec, quality and
/// program. Each later frame is to be written if it has the length of a frame of that first size,
/// and ends the session otherwise. Every frame is received, once and in order.
pub proof fn the_first_frame_starts_the_encoder(
    session: &mut EncoderSession,
    width: u32,
    height: u32,
    rgba: &[u8],
    res: Result<FrameStep, Error>,
)
    requires
        old(session).well_formed(),
        old(session).stage() == SessionStage::Receiving,
        call_ensures(EncoderSession::receive, (session, width, height, rgba), res),
    ensures
        final(session).well_formed(),
        final(session).received().len() == old(session).received().len() + 1,
        final(session).received().drop_last() == old(session).received(),
        final(session).received().last().width == width,
        final(session).received().last().height == height,
        final(session).received().last().rgba == rgba@,
        old(session).received().len() == 0 ==> {
            &&& res matches Ok(FrameStep::Start(settings))
            &&& settings.width == width
            &&& settings.height == height
            &&& settings.fps@ == old(session).spec_fps()@
            &&& settings.codec == old(session).spec_codec()
            &&& settings.crf == old(session).spec_crf()
            &&& settings.ffmpeg_path == old(session).spec_ffmpeg_path()
            &&& final(session).stage() == (SessionStage::Starting { width, height })
        },
        old(session).received().len() > 0 ==> {
            let first = old(session).received()[0];
            let expected = first.width * first.height * 4;
            if rgba@.len() == expected {
                &&& res matches Ok(FrameStep::Write)
                &&& final(session).stage() == SessionStage::Writing
            } else {
                &&& res matches Err(Error::BadFrameSize {
                    expected: needed,
                    got,
                    width: first_width,
                    height: first_height,
                })
                &&& needed == expected as usize
                &&& got == rgba@.len() as usize
                &&& first_width == first.width
                &&& first_height == first.height
                &&& final(session).stage() == SessionStage::Failed
            }
        },
        final(session).spec_fps()@ == old(session).spec_fps()@,
        final(session).spec_codec() == old(session).spec_codec(),
        final(session).spec_crf() == old(session).spec_crf(),
        final(session).spec_ffmpeg_path() == old(session).spec_ffmpeg_path(),
        final(session).spec_output()@ == old(session).spec_output()@,
{
}

/// The command that a session starts is that of its settings at the size of the first frame, for its
/// own output.
pub proof fn a_session_starts_its_own_command(
    session: &EncoderSession,
    res: Result<FfmpegCommand, Error>,
    settings: &EncodeSettings,
    output: &str,
    direct: Result<FfmpegCommand, Error>,
)
    requires
        session.well_formed(),
        session.stage() is Starting,
        settings.width == session.received()[0].width,
        settings.height == session.received()[0].height,
        settings.fps@ == session.spec_fps()@,
        settings.codec == session.spec_codec(),
        settings.crf == session.spec_crf(),
        settings.ffmpeg_path == session.spec_ffmpeg_path(),
        output@ == session.spec_output()@,
        call_ensures(EncoderSession::command, (session,), res),
        call_ensures(EncodeSettings::command, (settings, output), direct),
    ensures
        res is Ok <==> direct is Ok,
        res is Ok ==> sidecar::command_args(res->Ok_0) == sidecar::command_args(direct->Ok_0),
        res is Ok && settings.ffmpeg_path is Some ==> sidecar::command_program(res->Ok_0)
            == sidecar::command_program(direct->Ok_0),
        res is Err ==> res->Err_0 == direct->Err_0,
{
}

/// The first frame is to be written exactly if ffmpeg runs with a pipe and the frame has pixels and the
/// length that its size calls for. Otherwise the session has failed.
pub proof fn the_first_frame_is_written_once_ffmpeg_runs(
    session: &mut EncoderSession,
    rgba: &[u8],
    started: Result<bool, String>,
    res: Result<(), Error>,
)
    requires
        old(session).well_formed(),
        old(session).stage() is Starting,
        frame_len(old(session).received()[0].width, old(session).received()[0].height)
            <= usize::MAX,
        rgba@ == old(session).received().last().rgba,
        call_ensures(EncoderSession::started, (session, rgba, started), res),
    ensures
        ({
            let first = old(session).received()[0];
            &&& res is Ok <==> {
                &&& first.width > 0
                &&& first.height > 0
                &&& started == Ok::<bool, String>(true)
                &&& rgba@.len() == first.width * first.height * 4
            }
            &&& first.width == 0 || first.height == 0 ==> res->Err_0 == (Error::ZeroSize {
                width: first.width,
                height: first.height,
            })
            &&& first.width > 0 && first.height > 0 ==> {
                &&& started is Err ==> res->Err_0 == Error::FailedToStartFfmpeg(started->Err_0)
                &&& started == Ok::<bool, String>(false) ==> res->Err_0 == Error::NoStdin
                &&& started == Ok::<bool, String>(true) && res is Err ==> res->Err_0 == (
                Error::BadFrameSize {
                    expected: (first.width * first.height * 4) as usize,
                    got: rgba@.len() as usize,
                    width: first.width,
                    height: first.height,
                })
            }
        }),
        final(session).stage() == if res is Ok {
            SessionStage::Writing
        } else {
            SessionStage::Failed
        },
        final(session).received() == old(session).received(),
{
}

/// A frame that the pipe took leaves the session ready for the next one; one that it did not take ends
/// it, with the reason.
pub proof fn a_failed_write_ends_the_session(
    session: &mut EncoderSession,
    written: Result<(), String>,
    res: Result<(), Error>,
)
    requires
        old(session).well_formed(),
        old(session).stage() == SessionStage::Writing,
        old(session).received().len() <= u64::MAX,
        call_ensures(EncoderSession::frame_written, (session, written), res),
    ensures
        res is Ok <==> written is Ok,
        written matches Err(cause) ==> res->Err_0 == Error::WriteFailed(cause),
        final(session).stage() == if written is Ok {
            SessionStage::Receiving
        } else {
            SessionStage::Failed
        },
        final(session).received() == old(session).received(),
{
}

/// A session without a frame has nothing to finish, and tells the output that was not written. Any
/// other one hands out an encoder that has written every frame, each exactly as it came.
pub proof fn a_session_without_frames_has_failed(
    session: EncoderSession,
    output: &str,
    res: Result<FFmpegCliEncoder, NoFrames>,
)
    requires
        session.well_formed(),
        session.stage() == SessionStage::Receiving,
        call_ensures(EncoderSession::close, (session, output), res),
    ensures
        res is Ok <==> session.received().len() > 0,
        res matches Err(err) ==> err.output@ == output@,
        res matches Ok(encoder) ==> {
            &&& encoder.spec_num_frames_written() == session.received().len()
            &&& encoder.piped() == concatenated(
                session.received().map_values(|frame: FrameView| frame.rgba),
            )
            &&& encoder.spec_width() == session.received()[0].width
            &&& encoder.spec_height() == session.received()[0].height
            &&& encoder.is_open()
        },
{
}

/// A video that was encoded without a fault has as many frames as were written. Any other outcome is
/// that of the encoder.
pub proof fn written_frames_are_reported(
    encoder: FFmpegCliEncoder,
    exit: Result<ExitReport, String>,
    stderr_lines: Option<Vec<String>>,
    res: Result<u64, Error>,
    end: Result<(), Error>,
)
    requires
        call_ensures(finish_encoding, (encoder, exit, stderr_lines), res),
        call_ensures(FFmpegCliEncoder::finish, (encoder, exit, stderr_lines), end),
    ensures
        end is Ok ==> res == Ok::<u64, Error>(encoder.spec_num_frames_written()),
        end is Err ==> res is Err && res->Err_0.words() == end->Err_0.words(),
{
}

/// A run succeeds exactly if it was rendered and encoded. A panic of the encoder counts before
/// everything else, and a failed rendering before a failed encoding.
pub proof fn a_run_needs_both_its_halves<S, E>(
    render: Result<S, E>,
    encode: Option<Result<u64, E>>,
    res: Result<(S, u64), RunFailure<E>>,
)
    requires
        call_ensures(conclude::<S, E>, (render, encode), res),
    ensures
        res is Ok <==> render is Ok && encode is Some && encode->0 is Ok,
        res is Ok ==> res->Ok_0 == (render->Ok_0, encode->0->Ok_0),
        encode is None ==> res->Err_0 == RunFailure::<E>::EncoderPanicked,
        encode is Some && render is Err ==> res->Err_0 == RunFailure::Failed(render->Err_0),
        encode is Some && render is Ok && encode->0 is Err ==> res->Err_0 == RunFailure::Failed(
            encode->0->Err_0,
        ),
{
}

/// The words of a refused argument tell which one it is, and show what was given.
pub proof fn refused_arguments_are_named(
    err: &ArgumentError,
    message: String,
    none: &NoFrames,
    told: String,
)
    requires
        call_ensures(ArgumentError::message, (err,), message),
        call_ensures(NoFrames::message, (none,), told),
    ensures
        message@ == match err {
            ArgumentError::FpsNotPositive => "--fps must be positive"@,
            ArgumentError::ConnectTimeoutNotPositive => "--connect-timeout must be positive"@,
            ArgumentError::InvalidSize { size } => {
                "Invalid --size "@ + text::debug_text(size@)
                    + ": expected <width>x<height>, e.g. 1920x1080"@
            },
            ArgumentError::ZeroSize => "--size must be nonzero"@,
            ArgumentError::BadConnectTimeout { cause } => "Bad --connect-timeout: "@ + cause@,
        },
        told@ == "No frames were rendered — nothing written to "@ + none.output@,
{
}

} // verus!
