//! Types of the data model.
use vstd::prelude::*;

verus! {

/// Delay in follow mode, to allow proper buffering, in milliseconds.
#[derive(Debug, Clone, Copy, PartialEq, Eq, PartialOrd, Structural)]
pub struct FollowDelayMs {
    pub delay: u64,
}

/// The parametric camera lens distortion model that a set of distortion coefficients belongs to.
///
/// The model names and coefficient ordering follow the OpenCV calibration conventions, which are
/// also used by ROS (`sensor_msgs/CameraInfo`).
#[derive(Debug, Clone, Copy, PartialEq, Eq, Structural)]
pub enum LensDistortionModel {
    /// Radial and tangential distortion ("Brown-Conrady"), known as `plumb_bob` in ROS.
    ///
    /// Uses the coefficients `k1, k2, p1, p2, k3` (the remaining coefficients are ignored).
    PlumbBob,
    /// Rational polynomial distortion, known as `rational_polynomial` in ROS.
    ///
    /// Extends the plumb-bob model with a radial denominator polynomial, using all eight
    /// coefficients `k1, k2, p1, p2, k3, k4, k5, k6`.
    RationalPolynomial,
}

impl Default for LensDistortionModel {
    fn default() -> (model: Self)
        ensures
            model == LensDistortionModel::PlumbBob,
    {
        LensDistortionModel::PlumbBob
    }
}

impl LensDistortionModel {
    /// The number that stands for the model in encoded data.
    pub open spec fn spec_code(self) -> u8 {
        match self {
            LensDistortionModel::PlumbBob => 1,
            LensDistortionModel::RationalPolynomial => 2,
        }
    }

    /// The number that stands for the model in encoded data.
    pub fn code(self) -> (code: u8)
        ensures
            code == self.spec_code(),
    {
        match self {
            LensDistortionModel::PlumbBob => 1,
            LensDistortionModel::RationalPolynomial => 2,
        }
    }
}

/// A point in time, as ROS 2 messages give it.
#[derive(Debug, Clone, Copy, PartialEq, Eq, Structural)]
pub struct Time {
    pub sec: i32,
    pub nanosec: u32,
}

impl Time {
    /// The whole time in nanoseconds.
    pub open spec fn spec_nanos(self) -> int {
        self.sec * 1_000_000_000 + self.nanosec
    }

    /// The whole time in nanoseconds.
    pub fn as_nanos(self) -> (nanos: i64)
        ensures
            nanos == self.spec_nanos(),
    {
        self.sec as i64 * 1_000_000_000 + self.nanosec as i64
    }
}

/// A single frame of a compressed video bitstream, `foxglove_msgs/msg/CompressedVideo`.
#[derive(Debug, PartialEq, Eq)]
pub struct CompressedVideo {
    /// Timestamp of the video frame.
    pub timestamp: Time,
    /// Frame of reference for the video.
    ///
    /// The origin of the frame is the optical center of the camera. +x points to the right in the
    /// video, +y points down, and +z points into the plane of the video.
    pub frame_id: String,
    /// Compressed video frame data.
    ///
    /// For packet-based video codecs this data must begin and end on packet boundaries (no partial
    /// packets), and must contain enough video packets to decode exactly one image (either a
    /// keyframe or delta frame).
    pub data: Vec<u8>,
    /// Video format: `h264` (Annex B formatted data), `h265` (HEVC), `vp9`, `av1`.
    pub format: String,
}

impl Clone for CompressedVideo {
    fn clone(&self) -> (copy: Self)
        ensures
            copy.timestamp == self.timestamp,
            copy.frame_id == self.frame_id,
            copy.data@ == self.data@,
            copy.format == self.format,
    {
        CompressedVideo {
            timestamp: self.timestamp,
            frame_id: self.frame_id.clone(),
            data: self.data.clone(),
            format: self.format.clone(),
        }
    }
}

/// A time in nanoseconds is its seconds, a billion nanoseconds each, and its nanoseconds.
pub proof fn a_second_has_a_billion_nanoseconds(time: Time, nanos: i64)
    requires
        call_ensures(Time::as_nanos, (time,), nanos),
    ensures
        nanos == time.sec * 1_000_000_000 + time.nanosec,
        nanos == time.spec_nanos(),
{
}

/// Each distortion model has its own number, and the one without further terms is the default.
pub proof fn each_distortion_model_has_its_number(
    model: LensDistortionModel,
    code: u8,
    default: LensDistortionModel,
)
    requires
        call_ensures(LensDistortionModel::code, (model,), code),
        call_ensures(LensDistortionModel::default, (), default),
    ensures
        model == LensDistortionModel::PlumbBob <==> code == 1,
        model == LensDistortionModel::RationalPolynomial <==> code == 2,
        default == LensDistortionModel::PlumbBob,
{
}

/// A copy of a message is the message: its time, its frame, its data, and its format.
pub proof fn copied_messages_are_the_same(message: &CompressedVideo, copy: CompressedVideo)
    requires
        call_ensures(CompressedVideo::clone, (message,), copy),
    ensures
        copy.timestamp == message.timestamp,
        copy.frame_id@ == message.frame_id@,
        copy.data@ == message.data@,
        copy.format@ == message.format@,
{
}

} // verus!
