//! Encoding raw RGBA frames to a video file by piping them to the `ffmpeg` command line tool.
use vstd::prelude::*;
use crate::encode::sidecar;
use ffmpeg_sidecar::command::FfmpegCommand;
use crate::text;
use std::collections::VecDeque;

verus! {

/// Which codec to encode with.
///
/// Both map to software encoders (`libx264` / `libx265`) that ship with stock ffmpeg builds.
#[derive(Debug, Clone, Copy, PartialEq, Eq, Structural)]
pub enum VideoEncodeCodec {
    /// H.264/AVC via `libx264`, the most compatible choice.
    H264,
    /// H.265/HEVC via `libx265`: better compression, less universal playback.
    H265,
}

impl Default for VideoEncodeCodec {
    fn default() -> (codec: Self)
        ensures
            codec == VideoEncodeCodec::H264,
    {
        VideoEncodeCodec::H264
    }
}

impl VideoEncodeCodec {
    /// The name by which ffmpeg knows the encoder.
    pub open spec fn encoder_text(self) -> Seq<char> {
        match self {
            VideoEncodeCodec::H264 => "libx264"@,
            VideoEncodeCodec::H265 => "libx265"@,
        }
    }

    pub fn ffmpeg_encoder_name(self) -> (name: &'static str)
        ensures
            name@ == self.encoder_text(),
    {
        match self {
            VideoEncodeCodec::H264 => "libx264",
            VideoEncodeCodec::H265 => "libx265",
        }
    }
}

/// Settings for [`FFmpegCliEncoder`].
#[derive(Debug)]
pub struct EncodeSettings {
    /// Frame width in pixels. Odd sizes are cropped down by one pixel (yuv420p needs even
    /// dimensions).
    pub width: u32,
    /// Frame height in pixels. Odd sizes are cropped down by one pixel.
    pub height: u32,
    /// Output frame rate, as the decimal number that ffmpeg is given.
    pub fps: String,
    /// Codec to encode with.
    pub codec: VideoEncodeCodec,
    /// Constant rate factor (0-51, lower is higher quality; 23 is the x264 default).
    pub crf: u32,
    /// Explicit path to the `ffmpeg` binary. `None` uses the one that [`FfmpegCommand::new`] finds.
    pub ffmpeg_path: Option<String>,
}

impl Clone for EncodeSettings {
    fn clone(&self) -> (copy: Self)
        ensures
            copy == *self,
    {
        let ffmpeg_path = match &self.ffmpeg_path {
            Some(path) => Some(path.clone()),
            None => None,
        };
        EncodeSettings {
            width: self.width,
            height: self.height,
            fps: self.fps.clone(),
            codec: self.codec,
            crf: self.crf,
            ffmpeg_path,
        }
    }
}

/// `<width>x<height>`.
pub open spec fn size_text(width: u32, height: u32) -> Seq<char> {
    text::decimal_text(width as nat) + "x"@ + text::decimal_text(height as nat)
}

/// Writes `<width>x<height>`.
pub fn size_label(width: u32, height: u32) -> (label: String)
    ensures
        label@ == size_text(width, height),
{
    let mut label = text::decimal(width as u64);
    label.append("x");
    label.append(text::decimal(height as u64).as_str());
    label
}

impl EncodeSettings {
    /// Does a frame of this size hold any pixels?
    pub open spec fn nonempty(&self) -> bool {
        self.width > 0 && self.height > 0
    }

    /// The arguments that make ffmpeg read raw RGBA frames from its standard input and write the
    /// encoded video to `output_path`.
    pub open spec fn args(&self, output_path: Seq<char>) -> Seq<Seq<char>> {
        seq![
            "-hide_banner"@,
            "-f"@,
            "rawvideo"@,
            "-pix_fmt"@,
            "rgba"@,
            "-s"@,
            size_text(self.width, self.height),
            "-r"@,
            self.fps@,
            "-i"@,
            "-"@,
            "-vf"@,
            "crop=trunc(iw/2)*2:trunc(ih/2)*2"@,
            "-c:v"@,
            self.codec.encoder_text(),
            "-pix_fmt"@,
            "yuv420p"@,
            "-crf:v"@,
            text::decimal_text(self.crf as nat),
            "-an"@,
            "-y"@,
            output_path,
        ]
    }

    /// Adds to `command` what makes it encode frames of these settings to `output_path`, replacing
    /// the file if it exists. A size without pixels is refused, with `command` left as it was.
    pub fn configure(
        &self,
        command: &mut FfmpegCommand,
        output_path: &str,
    ) -> (res: Result<(), Error>)
        ensures
            self.nonempty() <==> res is Ok,
            self.nonempty() ==> sidecar::command_args(*final(command)) == sidecar::command_args(
                *old(command),
            ) + self.args(output_path@),
            self.nonempty() ==> sidecar::command_program(*final(command))
                == sidecar::command_program(*old(command)),
            !self.nonempty() ==> *final(command) == *old(command) && res == Err::<(), Error>(
                Error::ZeroSize { width: self.width, height: self.height },
            ),
    {
        if self.width == 0 || self.height == 0 {
            return Err(Error::ZeroSize { width: self.width, height: self.height });
        }
        sidecar::hide_banner(command);
        // Input options, which come before the input: raw RGBA frames on standard input.
        sidecar::args(command, "-f", "rawvideo");
        sidecar::args(command, "-pix_fmt", "rgba");
        sidecar::args(command, "-s", size_label(self.width, self.height).as_str());
        sidecar::args(command, "-r", self.fps.as_str());
        sidecar::input(command, "-");
        // Output options. yuv420p requires even dimensions; a possible odd edge pixel is cropped
        // away, so that the image is never resampled.
        sidecar::args(command, "-vf", "crop=trunc(iw/2)*2:trunc(ih/2)*2");
        sidecar::codec_video(command, self.codec.ffmpeg_encoder_name());
        sidecar::args(command, "-pix_fmt", "yuv420p");
        sidecar::crf(command, self.crf);
        sidecar::no_audio(command);
        sidecar::overwrite(command);
        sidecar::output(command, output_path);
        assert(sidecar::command_args(*command) == sidecar::command_args(*old(command)) + self.args(
            output_path@,
        ));
        Ok(())
    }

    /// The command that encodes frames of these settings to `output_path`, with the `ffmpeg` binary
    /// at the given path if there is one. A size without pixels is refused.
    pub fn command(&self, output_path: &str) -> (res: Result<FfmpegCommand, Error>)
        ensures
            match res {
                Ok(command) => {
                    &&& self.nonempty()
                    &&& sidecar::command_args(command) == sidecar::initial_args() + self.args(
                        output_path@,
                    )
                    &&& match self.ffmpeg_path {
                        Some(path) => sidecar::command_program(command) == path@,
                        None => sidecar::is_ffmpeg(sidecar::command_program(command)),
                    }
                },
                Err(err) => {
                    &&& !self.nonempty()
                    &&& err == Error::ZeroSize { width: self.width, height: self.height }
                },
            },
    {
        let mut command = match &self.ffmpeg_path {
            Some(path) => sidecar::new_with_path(path.as_str()),
            None => sidecar::new(),
        };
        match self.configure(&mut command, output_path) {
            Ok(()) => Ok(command),
            Err(err) => Err(err),
        }
    }
}

/// What can go wrong when encoding video with ffmpeg.
///
/// Failures of the operating system carry its description of them.
#[derive(Debug)]
pub enum Error {
    FailedToStartFfmpeg(String),
    NoStdin,
    BadFrameSize { expected: usize, got: usize, width: u32, height: u32 },
    WriteFailed(String),
    WaitFailed(String),
    FfmpegFailed { status: String, stderr_tail: String },
    ZeroSize { width: u32, height: u32 },
}

impl Error {
    /// The error in words.
    pub open spec fn words(&self) -> Seq<char> {
        match self {
            Error::FailedToStartFfmpeg(cause) => "Failed to start FFmpeg: "@ + cause@,
            Error::NoStdin => "FFmpeg did not provide a stdin pipe"@,
            Error::BadFrameSize { expected, got, width, height } => {
                "Frame size mismatch: expected "@ + text::decimal_text(*expected as nat)
                    + " bytes ("@ + size_text(*width, *height) + " RGBA), got "@
                    + text::decimal_text(*got as nat)
            },
            Error::WriteFailed(cause) => "Failed to write frame to FFmpeg: "@ + cause@,
            Error::WaitFailed(cause) => "Failed to wait for FFmpeg to exit: "@ + cause@,
            Error::FfmpegFailed { status, stderr_tail } => {
                "FFmpeg exited with "@ + status@ + ". Last output:\n"@ + stderr_tail@
            },
            Error::ZeroSize { width, height } => {
                "Video dimensions must be nonzero, got "@ + size_text(*width, *height)
            },
        }
    }

    /// Puts the error into words.
    pub fn message(&self) -> (message: String)
        ensures
            message@ == self.words(),
    {
        let mut m = String::new();
        match self {
            Error::FailedToStartFfmpeg(cause) => {
                m.append("Failed to start FFmpeg: ");
                m.append(cause.as_str());
            },
            Error::NoStdin => {
                m.append("FFmpeg did not provide a stdin pipe");
            },
            Error::BadFrameSize { expected, got, width, height } => {
                m.append("Frame size mismatch: expected ");
                m.append(text::decimal(*expected as u64).as_str());
                m.append(" bytes (");
                m.append(size_label(*width, *height).as_str());
                m.append(" RGBA), got ");
                m.append(text::decimal(*got as u64).as_str());
            },
            Error::WriteFailed(cause) => {
                m.append("Failed to write frame to FFmpeg: ");
                m.append(cause.as_str());
            },
            Error::WaitFailed(cause) => {
                m.append("Failed to wait for FFmpeg to exit: ");
                m.append(cause.as_str());
            },
            Error::FfmpegFailed { status, stderr_tail } => {
                m.append("FFmpeg exited with ");
                m.append(status.as_str());
                m.append(". Last output:\n");
                m.append(stderr_tail.as_str());
            },
            Error::ZeroSize { width, height } => {
                m.append("Video dimensions must be nonzero, got ");
                m.append(size_label(*width, *height).as_str());
            },
        }
        assert(m@ == self.words());
        m
    }
}

/// How many of ffmpeg's last output lines are kept for error reports.
pub const KEEP_LAST_LINES: usize = 30;

/// The last `n` items of `s`, or all of them if there are fewer.
pub open spec fn last_items<T>(s: Seq<T>, n: nat) -> Seq<T> {
    if s.len() <= n {
        s
    } else {
        s.skip(s.len() - n)
    }
}

/// The last lines that ffmpeg wrote to its standard error.
pub struct StderrTail {
    lines: VecDeque<String>,
    seen: Ghost<Seq<Seq<char>>>,
}

impl StderrTail {
    /// Every line that has been read so far.
    pub closed spec fn seen(&self) -> Seq<Seq<char>> {
        self.seen@
    }

    /// The kept lines are the last ones seen.
    pub closed spec fn well_formed(&self) -> bool {
        text::texts(self.lines@) == last_items(self.seen@, KEEP_LAST_LINES as nat)
    }

    /// Nothing read yet.
    pub fn new() -> (tail: Self)
        ensures
            tail.well_formed(),
            tail.seen() == Seq::<Seq<char>>::empty(),
    {
        let tail = StderrTail {
            lines: VecDeque::with_capacity(KEEP_LAST_LINES),
            seen: Ghost(Seq::empty()),
        };
        assert(text::texts(tail.lines@) == Seq::<Seq<char>>::empty());
        tail
    }

    /// Takes in one more line, and forgets the oldest one if there are too many.
    pub fn push(&mut self, line: String)
        requires
            old(self).well_formed(),
        ensures
            final(self).well_formed(),
            final(self).seen() == old(self).seen().push(line@),
    {
        let ghost before = text::texts(self.lines@);
        let ghost all = self.seen@.push(line@);
        assert(before.len() == self.lines@.len());
        if self.lines.len() == KEEP_LAST_LINES {
            self.lines.pop_front();
            assert(text::texts(self.lines@) == before.skip(1));
        }
        let ghost kept = self.lines@;
        self.lines.push_back(line);
        proof {
            assert(text::texts(self.lines@) == text::texts(kept).push(line@));
            self.seen@ = all;
            assert(text::texts(self.lines@) == last_items(all, KEEP_LAST_LINES as nat));
        }
    }

    /// The kept lines, oldest first.
    pub fn into_lines(self) -> (lines: Vec<String>)
        requires
            self.well_formed(),
        ensures
            text::texts(lines@) == last_items(self.seen(), KEEP_LAST_LINES as nat),
    {
        let mut rest = self.lines;
        let ghost all = rest@;
        let mut lines: Vec<String> = Vec::new();
        while rest.len() > 0
            invariant
                lines@ + rest@ == all,
            decreases rest.len(),
        {
            if let Some(line) = rest.pop_front() {
                lines.push(line);
            }
        }
        assert(lines@ == all);
        lines
    }
}

/// How ffmpeg ended.
#[derive(Debug)]
pub struct ExitReport {
    /// Did it end without an error?
    pub success: bool,
    /// The operating system's description of the exit status.
    pub status: String,
}

/// What became of one frame that an encoder was given.
pub enum WriteOutcome {
    /// It was written to the pipe.
    Written,
    /// It was refused: it does not have the length of a frame.
    BadFrameSize,
    /// It was refused: the pipe is closed.
    NoStdin,
    /// The pipe did not take it.
    WriteFailed,
}

/// One frame that an encoder was given.
pub struct WriteCall {
    pub rgba: Seq<u8>,
    pub outcome: WriteOutcome,
}

/// The frames that were written to the pipe, in order.
pub open spec fn written_frames(calls: Seq<WriteCall>) -> Seq<Seq<u8>>
    decreases calls.len(),
{
    if calls.len() == 0 {
        Seq::empty()
    } else {
        let before = written_frames(calls.drop_last());
        if calls.last().outcome is Written {
            before.push(calls.last().rgba)
        } else {
            before
        }
    }
}

/// The bytes of some frames, one frame after the other.
pub open spec fn concatenated(frames: Seq<Seq<u8>>) -> Seq<u8>
    decreases frames.len(),
{
    if frames.len() == 0 {
        Seq::empty()
    } else {
        concatenated(frames.drop_last()) + frames.last()
    }
}

/// Encodes a stream of raw RGBA frames to a video file with a running ffmpeg process.
///
/// The process itself belongs to whoever started it with [`EncodeSettings::command`]: this is what
/// has to be known of it to decide which frames may be piped to it and how the run ended.
pub struct FFmpegCliEncoder {
    width: u32,
    height: u32,
    expected_frame_len: usize,
    num_frames_written: u64,
    /// Is the pipe to ffmpeg's standard input still open? Closing it is how ffmpeg is told that
    /// the frame stream is over.
    stdin_open: bool,
    calls: Ghost<Seq<WriteCall>>,
    in_hand: Ghost<Option<Seq<u8>>>,
    piped: Ghost<Seq<u8>>,
}

/// How many bytes a tightly packed RGBA frame has.
pub open spec fn frame_len(width: u32, height: u32) -> nat {
    (width * height * 4) as nat
}

impl FFmpegCliEncoder {
    pub closed spec fn spec_width(&self) -> u32 {
        self.width
    }

    pub closed spec fn spec_height(&self) -> u32 {
        self.height
    }

    pub closed spec fn spec_num_frames_written(&self) -> u64 {
        self.num_frames_written
    }

    /// Can frames still be piped to ffmpeg?
    pub closed spec fn is_open(&self) -> bool {
        self.stdin_open
    }

    /// The frames that the encoder has been given, and what became of each.
    pub closed spec fn calls(&self) -> Seq<WriteCall> {
        self.calls@
    }

    /// The frame that may be written to the pipe, until it is told what became of the write.
    pub closed spec fn in_hand(&self) -> Option<Seq<u8>> {
        self.in_hand@
    }

    /// The bytes of all the frames that the pipe has taken. As long as no write has failed, they are
    /// all that was sent to ffmpeg.
    pub closed spec fn piped(&self) -> Seq<u8> {
        self.piped@
    }

    /// Frames have pixels, and the length of a frame is known. The frames that were written are
    /// counted, all of them have that length, and their bytes have been piped in order.
    pub closed spec fn well_formed(&self) -> bool {
        &&& self.width > 0
        &&& self.height > 0
        &&& self.expected_frame_len == frame_len(self.width, self.height)
        &&& self.num_frames_written == written_frames(self.calls@).len()
        &&& self.piped@ == concatenated(written_frames(self.calls@))
        &&& forall|i: int|
            0 <= i < written_frames(self.calls@).len() ==> (#[trigger] written_frames(
                self.calls@,
            )[i]).len() == frame_len(self.width, self.height)
        &&& self.in_hand@ matches Some(rgba) ==> rgba.len() == frame_len(self.width, self.height)
    }

    /// The count is the number of frames that were written, whatever else the encoder was given, and
    /// what was piped are exactly those frames, one after the other: that many times the length of
    /// a frame.
    pub proof fn written_frames_are_counted_and_piped(&self)
        requires
            self.well_formed(),
        ensures
            self.spec_num_frames_written() == written_frames(self.calls()).len(),
            self.piped() == concatenated(written_frames(self.calls())),
            self.piped().len() == self.spec_num_frames_written() * frame_len(
                self.spec_width(),
                self.spec_height(),
            ),
    {
        lemma_concatenated_len(
            written_frames(self.calls@),
            frame_len(self.width, self.height),
        );
    }

    /// An encoder ready to receive frames, given how the start of the configured ffmpeg command
    /// went: failed, with the reason, or succeeded, with or without a pipe to its standard input.
    pub fn new(settings: &EncodeSettings, started: Result<bool, String>) -> (res: Result<Self, Error>)
        requires
            frame_len(settings.width, settings.height) <= usize::MAX,
        ensures
            match res {
                Ok(encoder) => {
                    &&& settings.nonempty()
                    &&& started == Ok::<bool, String>(true)
                    &&& encoder.well_formed()
                    &&& encoder.spec_width() == settings.width
                    &&& encoder.spec_height() == settings.height
                    &&& encoder.spec_num_frames_written() == 0
                    &&& encoder.is_open()
                    &&& encoder.calls() == Seq::<WriteCall>::empty()
                    &&& encoder.in_hand() is None
                    &&& encoder.piped() == Seq::<u8>::empty()
                },
                Err(Error::ZeroSize { width, height }) => {
                    &&& !settings.nonempty()
                    &&& width == settings.width
                    &&& height == settings.height
                },
                Err(Error::FailedToStartFfmpeg(cause)) => {
                    &&& settings.nonempty()
                    &&& started matches Err(reason)
                    &&& cause == reason
                },
                Err(Error::NoStdin) => {
                    &&& settings.nonempty()
                    &&& started == Ok::<bool, String>(false)
                },
                Err(_) => false,
            },
    {
        if settings.width == 0 || settings.height == 0 {
            return Err(Error::ZeroSize { width: settings.width, height: settings.height });
        }
        match started {
            Err(cause) => Err(Error::FailedToStartFfmpeg(cause)),
            Ok(false) => Err(Error::NoStdin),
            Ok(true) => {
                let pixels: usize = multiply(settings.width, settings.height);
                Ok(
                    FFmpegCliEncoder {
                        width: settings.width,
                        height: settings.height,
                        expected_frame_len: pixels * 4,
                        num_frames_written: 0,
                        stdin_open: true,
                        calls: Ghost(Seq::empty()),
                        in_hand: Ghost(None),
                        piped: Ghost(Seq::empty()),
                    },
                )
            },
        }
    }

    /// Width of the frames this encoder expects.
    pub fn width(&self) -> (width: u32)
        ensures
            width == self.spec_width(),
    {
        self.width
    }

    /// Height of the frames this encoder expects.
    pub fn height(&self) -> (height: u32)
        ensures
            height == self.spec_height(),
    {
        self.height
    }

    /// Number of frames written so far.
    pub fn num_frames_written(&self) -> (count: u64)
        ensures
            count == self.spec_num_frames_written(),
    {
        self.num_frames_written
    }

    /// May this frame of tightly packed RGBA pixels (`width * height * 4` bytes, row by row) be
    /// written to the pipe? What became of the write is then told to [`Self::frame_written`].
    pub fn write_frame(&mut self, rgba: &[u8]) -> (res: Result<(), Error>)
        requires
            old(self).well_formed(),
            old(self).in_hand() is None,
        ensures
            final(self).well_formed(),
            final(self).spec_width() == old(self).spec_width(),
            final(self).spec_height() == old(self).spec_height(),
            final(self).spec_num_frames_written() == old(self).spec_num_frames_written(),
            final(self).is_open() == old(self).is_open(),
            final(self).piped() == old(self).piped(),
            match res {
                Ok(()) => {
                    &&& rgba@.len() == frame_len(old(self).spec_width(), old(self).spec_height())
                    &&& old(self).is_open()
                    &&& final(self).in_hand() == Some(rgba@)
                    &&& final(self).calls() == old(self).calls()
                },
                Err(Error::BadFrameSize { expected, got, width, height }) => {
                    &&& expected == frame_len(old(self).spec_width(), old(self).spec_height())
                    &&& got == rgba@.len()
                    &&& got != expected
                    &&& width == old(self).spec_width()
                    &&& height == old(self).spec_height()
                    &&& final(self).in_hand() is None
                    &&& final(self).calls() == old(self).calls().push(
                        (WriteCall { rgba: rgba@, outcome: WriteOutcome::BadFrameSize }),
                    )
                },
                Err(Error::NoStdin) => {
                    &&& rgba@.len() == frame_len(old(self).spec_width(), old(self).spec_height())
                    &&& !old(self).is_open()
                    &&& final(self).in_hand() is None
                    &&& final(self).calls() == old(self).calls().push(
                        (WriteCall { rgba: rgba@, outcome: WriteOutcome::NoStdin }),
                    )
                },
                Err(_) => false,
            },
    {
        if rgba.len() != self.expected_frame_len {
            proof {
                let call = WriteCall { rgba: rgba@, outcome: WriteOutcome::BadFrameSize };
                lemma_not_written(self.calls@, call);
                self.calls@ = self.calls@.push(call);
            }
            return Err(
                Error::BadFrameSize {
                    expected: self.expected_frame_len,
                    got: rgba.len(),
                    width: self.width,
                    height: self.height,
                },
            );
        }
        if !self.stdin_open {
            proof {
                let call = WriteCall { rgba: rgba@, outcome: WriteOutcome::NoStdin };
                lemma_not_written(self.calls@, call);
                self.calls@ = self.calls@.push(call);
            }
            return Err(Error::NoStdin);
        }
        self.in_hand = Ghost(Some(rgba@));
        Ok(())
    }

    /// Accounts for the frame in hand, given how writing it to the pipe went.
    pub fn frame_written(&mut self, written: Result<(), String>) -> (res: Result<(), Error>)
        requires
            old(self).well_formed(),
            old(self).in_hand() is Some,
            old(self).spec_num_frames_written() < u64::MAX,
        ensures
            final(self).well_formed(),
            final(self).spec_width() == old(self).spec_width(),
            final(self).spec_height() == old(self).spec_height(),
            final(self).is_open() == old(self).is_open(),
            final(self).in_hand() is None,
            old(self).in_hand() matches Some(rgba) ==> match written {
                Ok(()) => {
                    &&& res is Ok
                    &&& final(self).spec_num_frames_written() == old(self).spec_num_frames_written()
                        + 1
                    &&& final(self).piped() == old(self).piped() + rgba
                    &&& final(self).calls() == old(self).calls().push(
                        (WriteCall { rgba, outcome: WriteOutcome::Written }),
                    )
                },
                Err(cause) => {
                    &&& res == Err::<(), Error>(Error::WriteFailed(cause))
                    &&& final(self).spec_num_frames_written() == old(self).spec_num_frames_written()
                    &&& final(self).piped() == old(self).piped()
                    &&& final(self).calls() == old(self).calls().push(
                        (WriteCall { rgba, outcome: WriteOutcome::WriteFailed }),
                    )
                },
            },
    {
        let ghost rgba = self.in_hand@->0;
        self.in_hand = Ghost(None);
        match written {
            Err(cause) => {
                proof {
                    let call = WriteCall { rgba, outcome: WriteOutcome::WriteFailed };
                    lemma_not_written(self.calls@, call);
                    self.calls@ = self.calls@.push(call);
                }
                Err(Error::WriteFailed(cause))
            },
            Ok(()) => {
                self.num_frames_written = self.num_frames_written + 1;
                proof {
                    let call = WriteCall { rgba, outcome: WriteOutcome::Written };
                    lemma_written(self.calls@, call);
                    self.calls@ = self.calls@.push(call);
                    self.piped@ = self.piped@ + rgba;
                }
                Ok(())
            },
        }
    }

    /// Marks the pipe as closed, which makes ffmpeg flush and finalize the file. Tells whether it
    /// was still open: an encoder that is dropped with its pipe open was never finished, and its
    /// process has to be killed.
    pub fn close(&mut self) -> (was_open: bool)
        requires
            old(self).well_formed(),
        ensures
            final(self).well_formed(),
            final(self).spec_width() == old(self).spec_width(),
            final(self).spec_height() == old(self).spec_height(),
            final(self).spec_num_frames_written() == old(self).spec_num_frames_written(),
            final(self).calls() == old(self).calls(),
            final(self).in_hand() == old(self).in_hand(),
            final(self).piped() == old(self).piped(),
            !final(self).is_open(),
            was_open == old(self).is_open(),
    {
        let was_open = self.stdin_open;
        self.stdin_open = false;
        was_open
    }

    /// The outcome of the whole run, given how ffmpeg ended once its pipe was closed, and the last
    /// lines of its output if they could be had.
    pub fn finish(
        self,
        exit: Result<ExitReport, String>,
        stderr_lines: Option<Vec<String>>,
    ) -> (res: Result<(), Error>)
        requires
            !self.is_open(),
        ensures
            match exit {
                Err(cause) => res == Err::<(), Error>(Error::WaitFailed(cause)),
                Ok(report) => if report.success {
                    res is Ok
                } else {
                    &&& res matches Err(Error::FfmpegFailed { status, stderr_tail })
                    &&& status == report.status
                    &&& stderr_tail@ == match stderr_lines {
                        Some(lines) => text::joined(text::texts(lines@), "\n"@),
                        None => Seq::<char>::empty(),
                    }
                },
            },
    {
        match exit {
            Err(cause) => Err(Error::WaitFailed(cause)),
            Ok(report) => {
                let stderr_tail = match stderr_lines {
                    Some(lines) => text::join(&lines, "\n"),
                    None => String::new(),
                };
                if report.success {
                    Ok(())
                } else {
                    Err(Error::FfmpegFailed { status: report.status, stderr_tail })
                }
            },
        }
    }
}

/// A frame that was not written does not count among those that were.
proof fn lemma_not_written(calls: Seq<WriteCall>, call: WriteCall)
    requires
        !(call.outcome is Written),
    ensures
        written_frames(calls.push(call)) == written_frames(calls),
{
    assert(calls.push(call).drop_last() == calls);
}

/// A frame that was written is the last of those that were.
proof fn lemma_written(calls: Seq<WriteCall>, call: WriteCall)
    requires
        call.outcome is Written,
    ensures
        written_frames(calls.push(call)) == written_frames(calls).push(call.rgba),
        concatenated(written_frames(calls.push(call))) == concatenated(written_frames(calls))
            + call.rgba,
{
    assert(calls.push(call).drop_last() == calls);
    assert(written_frames(calls).push(call.rgba).drop_last() == written_frames(calls));
}

/// Frames of one length have that length times their number.
proof fn lemma_concatenated_len(frames: Seq<Seq<u8>>, len: nat)
    requires
        forall|i: int| 0 <= i < frames.len() ==> (#[trigger] frames[i]).len() == len,
    ensures
        concatenated(frames).len() == frames.len() * len,
    decreases frames.len(),
{
    if frames.len() > 0 {
        let before = frames.drop_last();
        assert forall|i: int| 0 <= i < before.len() implies (#[trigger] before[i]).len() == len by {
            assert(before[i] == frames[i]);
        }
        lemma_concatenated_len(before, len);
        assert(frames.last().len() == len);
        assert(frames.len() * len == (frames.len() - 1) * len + len) by (nonlinear_arith)
            requires
                frames.len() > 0,
        ;
    } else {
        assert(frames.len() * len == 0) by (nonlinear_arith)
            requires
                frames.len() == 0,
        ;
    }
}

fn multiply(width: u32, height: u32) -> (pixels: usize)
    requires
        frame_len(width, height) <= usize::MAX,
    ensures
        pixels == width * height,
{
    assert(0 <= width * height <= width * height * 4) by (nonlinear_arith)
        requires
            0 <= width,
            0 <= height,
    ;
    width as usize * height as usize
}

/// Whatever the settings: before the input, which is the standard input, ffmpeg is told to expect raw
/// frames of RGBA pixels with the given size and rate. After it, it is told to crop to even sides, to
/// use the encoder of the codec and the pixel format that players expect, with the given quality,
/// without sound, and to replace the file, whose path comes last.
pub proof fn ffmpeg_is_told_what_it_gets_and_what_to_make(
    settings: &EncodeSettings,
    output_path: &str,
    res: Result<FfmpegCommand, Error>,
    size: String,
    crf: String,
)
    requires
        call_ensures(EncodeSettings::command, (settings, output_path), res),
        call_ensures(size_label, (settings.width, settings.height), size),
        call_ensures(text::decimal, (settings.crf as u64,), crf),
    ensures
        res is Ok <==> settings.width > 0 && settings.height > 0,
        res matches Err(err) ==> err == (Error::ZeroSize {
            width: settings.width,
            height: settings.height,
        }),
        res matches Ok(command) ==> {
            let args = sidecar::command_args(command);
            &&& args.len() == 24
            &&& args[0] == "-loglevel"@ && args[1] == "level+info"@
            &&& args[2] == "-hide_banner"@
            // What ffmpeg gets.
            &&& args[3] == "-f"@ && args[4] == "rawvideo"@
            &&& args[5] == "-pix_fmt"@ && args[6] == "rgba"@
            &&& args[7] == "-s"@ && args[8] == size@
            &&& args[9] == "-r"@ && args[10] == settings.fps@
            &&& args[11] == "-i"@ && args[12] == "-"@
            // What it makes of that.
            &&& args[13] == "-vf"@ && args[14] == "crop=trunc(iw/2)*2:trunc(ih/2)*2"@
            &&& args[15] == "-c:v"@
            &&& settings.codec == VideoEncodeCodec::H264 ==> args[16] == "libx264"@
            &&& settings.codec == VideoEncodeCodec::H265 ==> args[16] == "libx265"@
            &&& args[17] == "-pix_fmt"@ && args[18] == "yuv420p"@
            &&& args[19] == "-crf:v"@ && args[20] == crf@
            &&& args[21] == "-an"@ && args[22] == "-y"@
            &&& args[23] == output_path@
        },
{
}

/// Two settings that differ in one thing alone give commands that differ in its value alone, at the
/// same place: the codec after `-c:v`, the rate after `-r`, the quality after `-crf:v`, the size after
/// `-s`. The path of `ffmpeg` changes none of the arguments.
pub proof fn each_setting_changes_its_own_argument(
    a: &EncodeSettings,
    b: &EncodeSettings,
    output_path: &str,
    res_a: Result<FfmpegCommand, Error>,
    res_b: Result<FfmpegCommand, Error>,
)
    requires
        a.width > 0 && a.height > 0 && b.width > 0 && b.height > 0,
        call_ensures(EncodeSettings::command, (a, output_path), res_a),
        call_ensures(EncodeSettings::command, (b, output_path), res_b),
    ensures
        res_a is Ok && res_b is Ok,
        ({
            let args_a = sidecar::command_args(res_a->Ok_0);
            let args_b = sidecar::command_args(res_b->Ok_0);
            &&& args_a.len() == args_b.len()
            &&& forall|i: int|
                0 < i < args_a.len() && #[trigger] args_a[i] != args_b[i] ==> args_a[i - 1]
                    == args_b[i - 1] && {
                    ||| a.codec != b.codec && args_a[i - 1] == "-c:v"@
                    ||| a.fps@ != b.fps@ && args_a[i - 1] == "-r"@
                    ||| a.crf != b.crf && args_a[i - 1] == "-crf:v"@
                    ||| (a.width != b.width || a.height != b.height) && args_a[i - 1] == "-s"@
                }
            &&& args_a[0] == args_b[0]
        }),
{
}

/// A size is written as the width, an `x`, and the height.
pub proof fn sizes_are_written_width_first(
    width: u32,
    height: u32,
    label: String,
    left: String,
    right: String,
)
    requires
        call_ensures(size_label, (width, height), label),
        call_ensures(text::decimal, (width as u64,), left),
        call_ensures(text::decimal, (height as u64,), right),
    ensures
        label@ == left@.push('x') + right@,
        label@ == size_text(width, height),
{
    reveal_strlit("x");
    assert(label@ == left@.push('x') + right@);
}

/// A command that is configured keeps what it was given before, in front, and its program; a size
/// without pixels changes nothing.
pub proof fn configuring_only_adds_arguments(
    settings: &EncodeSettings,
    command: &mut FfmpegCommand,
    output_path: &str,
    res: Result<(), Error>,
    whole: Result<FfmpegCommand, Error>,
)
    requires
        call_ensures(EncodeSettings::configure, (settings, command, output_path), res),
        call_ensures(EncodeSettings::command, (settings, output_path), whole),
    ensures
        res is Ok <==> whole is Ok,
        res is Ok ==> {
            let before = sidecar::command_args(*old(command));
            let after = sidecar::command_args(*final(command));
            &&& after.len() == before.len() + 22
            &&& after.take(before.len() as int) == before
            &&& after.skip(before.len() as int) == sidecar::command_args(whole->Ok_0).skip(2)
            &&& sidecar::command_program(*final(command)) == sidecar::command_program(*old(command))
        },
        res is Err ==> *final(command) == *old(command) && whole->Err_0 == res->Err_0,
{
    if res is Ok {
        let before = sidecar::command_args(*old(command));
        let after = sidecar::command_args(*final(command));
        assert(after.take(before.len() as int) == before);
        assert(after.skip(before.len() as int) == settings.args(output_path@));
        assert(sidecar::command_args(whole->Ok_0).skip(2) == settings.args(output_path@));
    }
}

/// The program at the given path is started, and without one an `ffmpeg` is.
pub proof fn the_given_program_is_started(
    settings: &EncodeSettings,
    output_path: &str,
    res: Result<FfmpegCommand, Error>,
)
    requires
        call_ensures(EncodeSettings::command, (settings, output_path), res),
    ensures
        res is Ok && settings.ffmpeg_path is Some ==> sidecar::command_program(res->Ok_0)
            == settings.ffmpeg_path->0@,
        res is Ok && settings.ffmpeg_path is None ==> exists|dir: Seq<char>|
            sidecar::command_program(res->Ok_0) == #[trigger] (dir + "ffmpeg"@)
                || sidecar::command_program(res->Ok_0) == dir + "ffmpeg.exe"@,
{
    if res is Ok && settings.ffmpeg_path is None {
        let program = sidecar::command_program(res->Ok_0);
        if exists|dir: Seq<char>| program == #[trigger] (dir + "ffmpeg.exe"@) {
            let dir = choose|dir: Seq<char>| program == #[trigger] (dir + "ffmpeg.exe"@);
            let other = dir + "ffmpeg"@;
            assert(program == dir + "ffmpeg.exe"@);
        }
    }
}

/// Each codec has its own encoder; H.264 is the default. Settings keep what they hold when they are
/// copied.
pub proof fn each_codec_has_its_encoder(
    codec: VideoEncodeCodec,
    name: &'static str,
    default: VideoEncodeCodec,
    settings: &EncodeSettings,
    copy: EncodeSettings,
)
    requires
        call_ensures(EncodeSettings::clone, (settings,), copy),
        call_ensures(VideoEncodeCodec::ffmpeg_encoder_name, (codec,), name),
        call_ensures(VideoEncodeCodec::default, (), default),
    ensures
        codec == VideoEncodeCodec::H264 ==> name@ == "libx264"@,
        codec == VideoEncodeCodec::H265 ==> name@ == "libx265"@,
        default == VideoEncodeCodec::H264,
        copy == *settings,
{
}

/// What is kept of the output are its last thirty lines, or all of them if there are fewer, in order.
pub proof fn the_last_thirty_lines_are_kept(tail: StderrTail, lines: Vec<String>)
    requires
        tail.well_formed(),
        call_ensures(StderrTail::into_lines, (tail,), lines),
    ensures
        lines@.len() == if tail.seen().len() < 30 {
            tail.seen().len() as int
        } else {
            30
        },
        forall|i: int|
            0 <= i < lines@.len() ==> (#[trigger] lines@[i])@ == tail.seen()[tail.seen().len()
                - lines@.len() + i],
{
    assert(text::texts(lines@).len() == lines@.len());
    assert forall|i: int| 0 <= i < lines@.len() implies (#[trigger] lines@[i])@
        == tail.seen()[tail.seen().len() - lines@.len() + i] by {
        assert(text::texts(lines@)[i] == lines@[i]@);
    }
}

/// Every line that is read counts as seen, once and in order.
pub proof fn every_line_is_seen(fresh: StderrTail, tail: &mut StderrTail, line: String)
    requires
        call_ensures(StderrTail::new, (), fresh),
        old(tail).well_formed(),
        call_ensures(StderrTail::push, (tail, line), ()),
    ensures
        fresh.well_formed() && fresh.seen().len() == 0,
        final(tail).well_formed(),
        final(tail).seen().drop_last() == old(tail).seen(),
        final(tail).seen().last() == line@,
        final(tail).seen().len() == old(tail).seen().len() + 1,
{
}

/// An encoder starts exactly if its frames have pixels and ffmpeg runs with a pipe to its standard
/// input. It then expects frames of the settings' size and has written none.
pub proof fn an_encoder_needs_pixels_and_a_pipe(
    settings: &EncodeSettings,
    started: Result<bool, String>,
    res: Result<FFmpegCliEncoder, Error>,
    width: u32,
    height: u32,
    count: u64,
)
    requires
        call_ensures(FFmpegCliEncoder::new, (settings, started), res),
        res is Ok ==> call_ensures(FFmpegCliEncoder::width, (&res->Ok_0,), width),
        res is Ok ==> call_ensures(FFmpegCliEncoder::height, (&res->Ok_0,), height),
        res is Ok ==> call_ensures(FFmpegCliEncoder::num_frames_written, (&res->Ok_0,), count),
    ensures
        res is Ok <==> settings.width > 0 && settings.height > 0 && started is Ok && started->Ok_0,
        res is Ok ==> {
            &&& res->Ok_0.well_formed()
            &&& res->Ok_0.is_open()
            &&& width == settings.width
            &&& height == settings.height
            &&& count == 0
            &&& res->Ok_0.piped().len() == 0
        },
        settings.width == 0 || settings.height == 0 ==> res->Err_0 == (Error::ZeroSize {
            width: settings.width,
            height: settings.height,
        }),
        settings.width > 0 && settings.height > 0 ==> {
            &&& started matches Err(cause) ==> res->Err_0 == Error::FailedToStartFfmpeg(cause)
            &&& started == Ok::<bool, String>(false) ==> res->Err_0 == Error::NoStdin
        },
{
}

/// A frame may be written exactly if it has four bytes for each pixel and the pipe is open. A frame of
/// another length is refused for that, whether the pipe is open or not.
pub proof fn frames_have_four_bytes_for_each_pixel(
    encoder: &mut FFmpegCliEncoder,
    rgba: &[u8],
    res: Result<(), Error>,
)
    requires
        old(encoder).well_formed(),
        old(encoder).in_hand() is None,
        call_ensures(FFmpegCliEncoder::write_frame, (encoder, rgba), res),
    ensures
        ({
            let expected = old(encoder).spec_width() * old(encoder).spec_height() * 4;
            &&& res is Ok <==> rgba@.len() == expected && old(encoder).is_open()
            &&& rgba@.len() != expected ==> {
                &&& res matches Err(Error::BadFrameSize { expected: needed, got, width, height })
                &&& needed == expected
                &&& got == rgba@.len()
                &&& width == old(encoder).spec_width()
                &&& height == old(encoder).spec_height()
            }
            &&& rgba@.len() == expected && !old(encoder).is_open() ==> res == Err::<(), Error>(
                Error::NoStdin,
            )
            &&& final(encoder).in_hand() == if res is Ok {
                Some(rgba@)
            } else {
                None
            }
            &&& final(encoder).piped() == old(encoder).piped()
            &&& final(encoder).is_open() == old(encoder).is_open()
            &&& final(encoder).spec_width() == old(encoder).spec_width()
            &&& final(encoder).spec_height() == old(encoder).spec_height()
            &&& final(encoder).spec_num_frames_written() == old(encoder).spec_num_frames_written()
        }),
{
}

/// A frame counts, and its bytes come after those before it, exactly if the pipe took it.
pub proof fn only_written_frames_count(
    encoder: &mut FFmpegCliEncoder,
    written: Result<(), String>,
    res: Result<(), Error>,
)
    requires
        old(encoder).well_formed(),
        old(encoder).in_hand() is Some,
        old(encoder).spec_num_frames_written() < u64::MAX,
        call_ensures(FFmpegCliEncoder::frame_written, (encoder, written), res),
    ensures
        res is Ok <==> written is Ok,
        written matches Err(cause) ==> res->Err_0 == Error::WriteFailed(cause),
        final(encoder).in_hand() is None,
        final(encoder).is_open() == old(encoder).is_open(),
        final(encoder).spec_width() == old(encoder).spec_width(),
        final(encoder).spec_height() == old(encoder).spec_height(),
        final(encoder).spec_num_frames_written() == old(encoder).spec_num_frames_written() + (
        if written is Ok {
            1int
        } else {
            0int
        }),
        final(encoder).piped() == if written is Ok {
            old(encoder).piped() + old(encoder).in_hand()->0
        } else {
            old(encoder).piped()
        },
{
}

/// Of the frames that an encoder was given, those that were written make up the stream, in order.
pub proof fn the_stream_is_made_of_written_frames(
    calls: Seq<WriteCall>,
    call: WriteCall,
    frames: Seq<Seq<u8>>,
    frame: Seq<u8>,
)
    ensures
        written_frames(Seq::<WriteCall>::empty()).len() == 0,
        call.outcome is Written ==> written_frames(calls.push(call)) == written_frames(calls).push(
            call.rgba,
        ),
        !(call.outcome is Written) ==> written_frames(calls.push(call)) == written_frames(calls),
        concatenated(Seq::<Seq<u8>>::empty()).len() == 0,
        concatenated(frames.push(frame)) == concatenated(frames) + frame,
{
    assert(calls.push(call).drop_last() == calls);
    assert(frames.push(frame).drop_last() == frames);
}

/// Closing tells whether the pipe was open, and closes it.
pub proof fn closing_closes_the_pipe(encoder: &mut FFmpegCliEncoder, was_open: bool)
    requires
        old(encoder).well_formed(),
        call_ensures(FFmpegCliEncoder::close, (encoder,), was_open),
    ensures
        was_open == old(encoder).is_open(),
        !final(encoder).is_open(),
        final(encoder).spec_num_frames_written() == old(encoder).spec_num_frames_written(),
        final(encoder).piped() == old(encoder).piped(),
{
}

/// A run succeeds exactly if ffmpeg could be awaited and ended without an error. A failed one tells the
/// exit status and the last lines of the output, one below the other.
pub proof fn a_run_succeeds_if_ffmpeg_does(
    encoder: FFmpegCliEncoder,
    exit: Result<ExitReport, String>,
    stderr_lines: Option<Vec<String>>,
    res: Result<(), Error>,
)
    requires
        call_ensures(FFmpegCliEncoder::finish, (encoder, exit, stderr_lines), res),
    ensures
        res is Ok <==> exit is Ok && exit->Ok_0.success,
        exit matches Err(cause) ==> res->Err_0 == Error::WaitFailed(cause),
        exit is Ok && !exit->Ok_0.success ==> {
            &&& res matches Err(Error::FfmpegFailed { status, stderr_tail })
            &&& status@ == exit->Ok_0.status@
            &&& stderr_lines is None ==> stderr_tail@.len() == 0
            &&& stderr_lines is Some ==> stderr_tail@ == text::joined(
                stderr_lines->0@.map_values(|line: String| line@),
                seq!['\n'],
            )
        },
{
    reveal_strlit("\n");
    assert("\n"@ == seq!['\n']);
}

/// The words of an error tell its cause, and each number where it belongs.
pub proof fn errors_tell_their_cause(
    err: &Error,
    message: String,
)
    requires
        call_ensures(Error::message, (err,), message),
    ensures
        message@ == match err {
            Error::FailedToStartFfmpeg(cause) => "Failed to start FFmpeg: "@ + cause@,
            Error::NoStdin => "FFmpeg did not provide a stdin pipe"@,
            Error::BadFrameSize { expected, got, width, height } => {
                "Frame size mismatch: expected "@ + text::decimal_text(*expected as nat)
                    + " bytes ("@ + size_text(*width, *height) + " RGBA), got "@
                    + text::decimal_text(*got as nat)
            },
            Error::WriteFailed(cause) => "Failed to write frame to FFmpeg: "@ + cause@,
            Error::WaitFailed(cause) => "Failed to wait for FFmpeg to exit: "@ + cause@,
            Error::FfmpegFailed { status, stderr_tail } => {
                "FFmpeg exited with "@ + status@ + ". Last output:\n"@ + stderr_tail@
            },
            Error::ZeroSize { width, height } => {
                "Video dimensions must be nonzero, got "@ + size_text(*width, *height)
            },
        },
{
}

} // verus!
