//! What this crate asks of `ffmpeg_sidecar`'s command builder.
//!
//! Each builder method adds arguments at the end of the list that `ffmpeg` will be started with.
//! [`command_args`] names that list, and [`command_program`] the program to be started. Both are
//! taken as the builder is given them; a NUL character in them makes the later start of the process
//! fail.
use vstd::prelude::*;
use crate::text::decimal_text;
use ffmpeg_sidecar::command::FfmpegCommand;

verus! {

/// A command line for `ffmpeg` that is being put together.
#[verifier::external_type_specification]
#[verifier::external_body]
pub struct ExFfmpegCommand(ffmpeg_sidecar::command::FfmpegCommand);

/// The arguments that `command` has been given so far, in order.
pub uninterp spec fn command_args(command: FfmpegCommand) -> Seq<Seq<char>>;

/// The program that `command` will start.
pub uninterp spec fn command_program(command: FfmpegCommand) -> Seq<char>;

/// The arguments that every command begins with: they make ffmpeg prefix its messages with their
/// level.
pub open spec fn initial_args() -> Seq<Seq<char>> {
    seq!["-loglevel"@, "level+info"@]
}

/// `FfmpegCommand::new_with_path` makes a command that starts the program at `path`, with the initial
/// arguments alone.
#[verifier::external_body]
pub(crate) fn new_with_path(path: &str) -> (command: FfmpegCommand)
    ensures
        command_args(command) == initial_args(),
        command_program(command) == path@,
{
    FfmpegCommand::new_with_path(path)
}

/// Is this the name of an `ffmpeg` program, possibly with a directory before it?
pub open spec fn is_ffmpeg(program: Seq<char>) -> bool {
    ||| exists|dir: Seq<char>| program == #[trigger] (dir + "ffmpeg"@)
    ||| exists|dir: Seq<char>| program == #[trigger] (dir + "ffmpeg.exe"@)
}

/// `FfmpegCommand::new` makes a command with the initial arguments alone, which starts an `ffmpeg`.
/// In which directory it is looked for is left open: that depends on whether there is one next to
/// the running executable.
#[verifier::external_body]
pub(crate) fn new() -> (command: FfmpegCommand)
    ensures
        command_args(command) == initial_args(),
        is_ffmpeg(command_program(command)),
{
    FfmpegCommand::new()
}

/// `FfmpegCommand::hide_banner` adds `-hide_banner`.
#[verifier::external_body]
pub(crate) fn hide_banner(command: &mut FfmpegCommand)
    ensures
        command_args(*final(command)) == command_args(*old(command)).push("-hide_banner"@),
        command_program(*final(command)) == command_program(*old(command)),
{
    command.hide_banner();
}

/// `FfmpegCommand::args` adds the arguments it is given, in their order; here an option and its
/// value.
#[verifier::external_body]
pub(crate) fn args(command: &mut FfmpegCommand, option: &str, value: &str)
    ensures
        command_args(*final(command)) == command_args(*old(command)).push(option@).push(value@),
        command_program(*final(command)) == command_program(*old(command)),
{
    command.args([option, value]);
}

/// `FfmpegCommand::input` adds `-i` and the name of the input.
#[verifier::external_body]
pub(crate) fn input(command: &mut FfmpegCommand, name: &str)
    ensures
        command_args(*final(command)) == command_args(*old(command)).push("-i"@).push(name@),
        command_program(*final(command)) == command_program(*old(command)),
{
    command.input(name);
}

/// `FfmpegCommand::codec_video` adds `-c:v` and the name of the codec.
#[verifier::external_body]
pub(crate) fn codec_video(command: &mut FfmpegCommand, codec: &str)
    ensures
        command_args(*final(command)) == command_args(*old(command)).push("-c:v"@).push(codec@),
        command_program(*final(command)) == command_program(*old(command)),
{
    command.codec_video(codec);
}

/// `FfmpegCommand::crf` adds `-crf:v` and the number in decimal.
#[verifier::external_body]
pub(crate) fn crf(command: &mut FfmpegCommand, crf: u32)
    ensures
        command_args(*final(command)) == command_args(*old(command)).push("-crf:v"@).push(
            decimal_text(crf as nat),
        ),
        command_program(*final(command)) == command_program(*old(command)),
{
    command.crf(crf);
}

/// `FfmpegCommand::no_audio` adds `-an`.
#[verifier::external_body]
pub(crate) fn no_audio(command: &mut FfmpegCommand)
    ensures
        command_args(*final(command)) == command_args(*old(command)).push("-an"@),
        command_program(*final(command)) == command_program(*old(command)),
{
    command.no_audio();
}

/// `FfmpegCommand::overwrite` adds `-y`.
#[verifier::external_body]
pub(crate) fn overwrite(command: &mut FfmpegCommand)
    ensures
        command_args(*final(command)) == command_args(*old(command)).push("-y"@),
        command_program(*final(command)) == command_program(*old(command)),
{
    command.overwrite();
}

/// `FfmpegCommand::output` adds the name of the output, with no option before it.
#[verifier::external_body]
pub(crate) fn output(command: &mut FfmpegCommand, name: &str)
    ensures
        command_args(*final(command)) == command_args(*old(command)).push(name@),
        command_program(*final(command)) == command_program(*old(command)),
{
    command.output(name);
}

} // verus!
