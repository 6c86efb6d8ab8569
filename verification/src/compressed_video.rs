//! Compressed video out of `foxglove_msgs/msg/CompressedVideo` messages.
//!
//! The samples go untouched into a video stream, which the viewer decodes.
use vstd::prelude::*;
use crate::definitions::CompressedVideo;
use crate::text;
use crate::timeline::TimeType;

verus! {

/// The codec of a video stream.
#[derive(Debug, Clone, Copy, PartialEq, Eq, Structural)]
pub enum VideoCodec {
    H264,
    H265,
    VP9,
    AV1,
}

/// The codec that a format names, in lower or upper case.
pub open spec fn codec_of(format: Seq<char>) -> Option<VideoCodec> {
    let lower = text::ascii_lower(format);
    if lower == "h264"@ {
        Some(VideoCodec::H264)
    } else if lower == "h265"@ {
        Some(VideoCodec::H265)
    } else if lower == "vp9"@ {
        Some(VideoCodec::VP9)
    } else if lower == "av1"@ {
        Some(VideoCodec::AV1)
    } else {
        None
    }
}

/// Why a message cannot be taken in.
#[derive(Debug)]
pub enum ParseError {
    /// The format, in lower case, is none that can be decoded.
    UnsupportedFormat { format: String },
    /// The codec is a property of the whole stream; it cannot change within a topic.
    MixedCodecs,
}

impl ParseError {
    /// The error in words.
    pub open spec fn words(&self) -> Seq<char> {
        match self {
            ParseError::UnsupportedFormat { format } => {
                "unsupported video format "@ + text::debug_text(format@)
                    + " in CompressedVideo message"@
            },
            ParseError::MixedCodecs => {
                "encountered mixed video codecs on the same topic; this is not supported"@
            },
        }
    }

    /// Puts the error into words.
    pub fn message(&self) -> (message: String)
        ensures
            message@ == self.words(),
    {
        let mut m = String::new();
        match self {
            ParseError::UnsupportedFormat { format } => {
                m.append("unsupported video format ");
                m.append(text::debug_quoted(format.as_str()).as_str());
                m.append(" in CompressedVideo message");
            },
            ParseError::MixedCodecs => {
                m.append("encountered mixed video codecs on the same topic; this is not supported");
            },
        }
        assert(m@ == self.words());
        m
    }
}

fn read_codec(format: &str) -> (res: Result<VideoCodec, ParseError>)
    ensures
        match codec_of(format@) {
            Some(codec) => res == Ok::<VideoCodec, ParseError>(codec),
            None => res matches Err(ParseError::UnsupportedFormat { format: lower }) && lower@
                == text::ascii_lower(format@),
        },
{
    let lower = text::to_ascii_lower(format);
    if text::same_text(lower.as_str(), "h264") {
        Ok(VideoCodec::H264)
    } else if text::same_text(lower.as_str(), "h265") {
        Ok(VideoCodec::H265)
    } else if text::same_text(lower.as_str(), "vp9") {
        Ok(VideoCodec::VP9)
    } else if text::same_text(lower.as_str(), "av1") {
        Ok(VideoCodec::AV1)
    } else {
        Err(ParseError::UnsupportedFormat { format: lower })
    }
}

/// The sensor timestamp of one message.
#[derive(Debug, Clone, Copy, PartialEq, Eq, Structural)]
pub struct TimestampCell {
    /// Nanoseconds.
    pub nanos: u64,
    /// What they count from.
    pub time_type: TimeType,
}

/// What the messages of a topic have in common: the entity that they are logged to, the type of
/// their timeline, and their timestamps, one for each message.
pub struct ParserContext {
    entity_path: String,
    time_type: TimeType,
    timestamps: Vec<TimestampCell>,
}

impl ParserContext {
    pub closed spec fn spec_entity_path(&self) -> String {
        self.entity_path
    }

    pub closed spec fn spec_time_type(&self) -> TimeType {
        self.time_type
    }

    /// The timestamps so far.
    pub closed spec fn timestamps(&self) -> Seq<TimestampCell> {
        self.timestamps@
    }

    /// No timestamps yet.
    pub fn new(entity_path: String, time_type: TimeType) -> (context: Self)
        ensures
            context.spec_entity_path() == entity_path,
            context.spec_time_type() == time_type,
            context.timestamps() == Seq::<TimestampCell>::empty(),
    {
        ParserContext { entity_path, time_type, timestamps: Vec::new() }
    }

    /// The type of the timeline.
    pub fn time_type(&self) -> (time_type: TimeType)
        ensures
            time_type == self.spec_time_type(),
    {
        self.time_type
    }

    /// Adds the sensor timestamp of a message.
    pub fn add_timestamp_cell(&mut self, cell: TimestampCell)
        ensures
            final(self).timestamps() == old(self).timestamps().push(cell),
            final(self).spec_entity_path() == old(self).spec_entity_path(),
            final(self).spec_time_type() == old(self).spec_time_type(),
    {
        self.timestamps.push(cell);
    }
}

/// Nanoseconds as an unsigned number: a time before the epoch wraps around.
pub open spec fn unsigned_nanos(nanos: int) -> u64 {
    if nanos < 0 {
        (nanos + 0x1_0000_0000_0000_0000) as u64
    } else {
        nanos as u64
    }
}

/// The timestamp of a message, on a timeline of the given type.
pub open spec fn timestamp_of(message: CompressedVideo, time_type: TimeType) -> TimestampCell {
    TimestampCell { nanos: unsigned_nanos(message.timestamp.spec_nanos()), time_type }
}

fn wrap_nanos(nanos: i64) -> (unsigned: u64)
    ensures
        unsigned == unsigned_nanos(nanos as int),
{
    if nanos < 0 {
        (nanos as i128 + 0x1_0000_0000_0000_0000i128) as u64
    } else {
        nanos as u64
    }
}

/// Collects the messages of one topic.
pub struct CompressedVideoMessageParser {
    samples: Vec<Vec<u8>>,
    codec: Option<VideoCodec>,
    frame_ids: Vec<String>,
    messages: Ghost<Seq<CompressedVideo>>,
    all_accepted: Ghost<bool>,
}

/// One part of what the messages of a topic become in the store.
#[derive(Debug)]
pub enum VideoChunk {
    /// One row for each message, in order: when it was, its sample, and the frame ID of its image
    /// plane.
    Rows {
        entity_path: String,
        timestamps: Vec<TimestampCell>,
        samples: Vec<Vec<u8>>,
        image_plane_frame_ids: Vec<String>,
    },
    /// The codec of the whole stream, as static data.
    StaticCodec { entity_path: String, codec: VideoCodec },
}

impl CompressedVideoMessageParser {
    /// The samples so far.
    pub closed spec fn samples(&self) -> Seq<Vec<u8>> {
        self.samples@
    }

    /// The codec of the stream, once it is known.
    pub closed spec fn codec(&self) -> Option<VideoCodec> {
        self.codec
    }

    /// The frame IDs so far.
    pub closed spec fn frame_ids(&self) -> Seq<Seq<char>> {
        text::texts(self.frame_ids@)
    }

    /// The messages so far.
    pub closed spec fn messages(&self) -> Seq<CompressedVideo> {
        self.messages@
    }

    /// Has none of the messages been refused?
    pub closed spec fn all_accepted(&self) -> bool {
        self.all_accepted@
    }

    /// The codec is known exactly if there is a sample, and there is a frame ID for each message. If
    /// none was refused, there is also a sample for each, and all of them have that codec.
    pub closed spec fn well_formed(&self) -> bool {
        &&& self.codec is Some <==> self.samples@.len() > 0
        &&& self.frame_ids@.len() == self.messages@.len()
        &&& forall|i: int|
            0 <= i < self.messages@.len() ==> (#[trigger] self.frame_ids@[i])@
                == self.messages@[i].frame_id@
        &&& self.all_accepted@ ==> {
            &&& self.samples@.len() == self.messages@.len()
            &&& forall|i: int|
                0 <= i < self.messages@.len() ==> #[trigger] self.samples@[i]
                    == self.messages@[i].data
            &&& forall|i: int|
                0 <= i < self.messages@.len() ==> codec_of(
                    (#[trigger] self.messages@[i]).format@,
                ) == self.codec
        }
    }

    /// If no message has been refused, each of them has a row: its sample is the message's data and
    /// its frame ID is the message's, in the order of the messages, and they all have one codec.
    pub proof fn accepted_messages_make_up_the_rows(&self)
        requires
            self.well_formed(),
            self.all_accepted(),
        ensures
            self.samples().len() == self.messages().len(),
            self.frame_ids().len() == self.messages().len(),
            self.codec() is Some <==> self.messages().len() > 0,
            forall|i: int|
                #![trigger self.messages()[i]]
                0 <= i < self.messages().len() ==> {
                    &&& self.samples()[i] == self.messages()[i].data
                    &&& self.frame_ids()[i] == self.messages()[i].frame_id@
                    &&& codec_of(self.messages()[i].format@) == self.codec()
                },
    {
        assert forall|i: int| 0 <= i < self.messages@.len() implies {
            &&& self.samples@[i] == (#[trigger] self.messages@[i]).data
            &&& text::texts(self.frame_ids@)[i] == self.messages@[i].frame_id@
        } by {
            assert(self.samples@[i] == self.messages@[i].data);
            assert(self.frame_ids@[i]@ == self.messages@[i].frame_id@);
        }
    }

    /// Does the context hold the timestamps of exactly these messages, in order?
    pub open spec fn in_step(&self, context: &ParserContext) -> bool {
        &&& context.timestamps().len() == self.messages().len()
        &&& forall|i: int|
            0 <= i < self.messages().len() ==> #[trigger] context.timestamps()[i] == timestamp_of(
                self.messages()[i],
                context.spec_time_type(),
            )
    }

    /// No messages yet. Room is made for `num_rows` of them.
    pub fn new(num_rows: usize) -> (parser: Self)
        ensures
            parser.well_formed(),
            parser.samples() == Seq::<Vec<u8>>::empty(),
            parser.codec() is None,
            parser.frame_ids() == Seq::<Seq<char>>::empty(),
            parser.messages() == Seq::<CompressedVideo>::empty(),
            parser.all_accepted(),
    {
        let parser = CompressedVideoMessageParser {
            samples: Vec::with_capacity(num_rows),
            codec: None,
            frame_ids: Vec::with_capacity(num_rows),
            messages: Ghost(Seq::empty()),
            all_accepted: Ghost(true),
        };
        assert(parser.frame_ids() == Seq::<Seq<char>>::empty());
        parser
    }

    /// Takes in one message. Its timestamp and its frame ID are kept even if its codec is refused.
    pub fn append(&mut self, context: &mut ParserContext, message: CompressedVideo) -> (res: Result<
        (),
        ParseError,
    >)
        requires
            old(self).well_formed(),
        ensures
            final(self).well_formed(),
            final(self).messages() == old(self).messages().push(message),
            final(self).all_accepted() == (old(self).all_accepted() && res is Ok),
            old(self).in_step(old(context)) ==> final(self).in_step(final(context)),
            old(self).codec() is Some ==> final(self).codec() == old(self).codec(),
            final(context).spec_entity_path() == old(context).spec_entity_path(),
            final(context).spec_time_type() == old(context).spec_time_type(),
            final(context).timestamps() == old(context).timestamps().push(
                timestamp_of(message, old(context).spec_time_type()),
            ),
            final(self).frame_ids() == old(self).frame_ids().push(message.frame_id@),
            match codec_of(message.format@) {
                None => {
                    &&& res matches Err(ParseError::UnsupportedFormat { format })
                    &&& format@ == text::ascii_lower(message.format@)
                    &&& final(self).samples() == old(self).samples()
                    &&& final(self).codec() == old(self).codec()
                },
                Some(codec) => if old(self).codec() == None::<VideoCodec> || old(self).codec()
                    == Some(codec) {
                    &&& res is Ok
                    &&& final(self).samples() == old(self).samples().push(message.data)
                    &&& final(self).codec() == Some(codec)
                } else {
                    &&& res matches Err(ParseError::MixedCodecs)
                    &&& final(self).samples() == old(self).samples()
                    &&& final(self).codec() == old(self).codec()
                },
            },
    {
        let ghost accepted = self.all_accepted@;
        proof {
            self.messages@ = self.messages@.push(message);
            self.all_accepted@ = false;
        }
        let CompressedVideo { timestamp, frame_id, data, format } = message;
        context.add_timestamp_cell(
            TimestampCell {
                nanos: wrap_nanos(timestamp.as_nanos()),
                time_type: context.time_type(),
            },
        );
        let ghost ids = self.frame_ids@;
        self.frame_ids.push(frame_id);
        assert(text::texts(self.frame_ids@) == text::texts(ids).push(frame_id@));
        let codec = match read_codec(format.as_str()) {
            Ok(codec) => codec,
            Err(err) => return Err(err),
        };
        match self.codec {
            None => {
                self.codec = Some(codec);
            },
            Some(known) => {
                if known != codec {
                    return Err(ParseError::MixedCodecs);
                }
            },
        }
        self.samples.push(data);
        proof {
            self.all_accepted@ = accepted;
        }
        Ok(())
    }

    /// What the messages become: a chunk with their rows and, if there is a sample, another one with
    /// the codec, which is logged once. Both belong to the context's entity. After a refused message
    /// the columns of the rows differ in length.
    pub fn finalize(self, context: ParserContext) -> (chunks: Vec<VideoChunk>)
        requires
            self.well_formed(),
        ensures
            self.codec() is Some <==> self.samples().len() > 0,
            self.all_accepted() ==> (self.codec() is Some <==> self.messages().len() > 0),
            chunks@.len() == if self.codec() is Some {
                2int
            } else {
                1int
            },
            chunks@[0] matches VideoChunk::Rows {
                entity_path,
                timestamps,
                samples,
                image_plane_frame_ids,
            } && {
                &&& entity_path == context.spec_entity_path()
                &&& timestamps@ == context.timestamps()
                &&& samples@ == self.samples()
                &&& text::texts(image_plane_frame_ids@) == image_planes(self.frame_ids())
                &&& self.all_accepted() ==> {
                    &&& samples@.len() == self.messages().len()
                    &&& image_plane_frame_ids@.len() == self.messages().len()
                    &&& self.in_step(&context) ==> timestamps@.len() == self.messages().len()
                    &&& forall|i: int|
                        #![trigger self.messages()[i]]
                        0 <= i < self.messages().len() ==> {
                            &&& self.in_step(&context) ==> timestamps@[i] == timestamp_of(
                                self.messages()[i],
                                context.spec_time_type(),
                            )
                            &&& samples@[i] == self.messages()[i].data
                            &&& image_plane_frame_ids@[i]@ == image_plane(
                                self.messages()[i].frame_id@,
                            )
                        }
                }
            },
            self.codec() matches Some(stream_codec) ==> {
                &&& chunks@[1] matches VideoChunk::StaticCodec { entity_path, codec }
                &&& entity_path == context.spec_entity_path()
                &&& codec == stream_codec
            },
    {
        proof {
            if self.all_accepted() {
                self.accepted_messages_make_up_the_rows();
            }
        }
        let ParserContext { entity_path, time_type: _, timestamps } = context;
        let ghost ids = text::texts(self.frame_ids@);
        let image_plane_frame_ids = suffix_image_plane_frame_ids(self.frame_ids);
        proof {
            let planes = text::texts(image_plane_frame_ids@);
            assert(planes == image_planes(ids));
            assert(image_planes(ids).len() == ids.len());
            assert(planes.len() == image_plane_frame_ids@.len());
            assert forall|i: int| 0 <= i < ids.len() implies (
            #[trigger] image_plane_frame_ids@[i])@ == image_plane(ids[i]) by {
                assert(planes[i] == image_planes(ids)[i]);
            }
        }
        let rows = VideoChunk::Rows {
            entity_path: entity_path.clone(),
            timestamps,
            samples: self.samples,
            image_plane_frame_ids,
        };
        let mut chunks: Vec<VideoChunk> = Vec::new();
        chunks.push(rows);
        if let Some(codec) = self.codec {
            chunks.push(VideoChunk::StaticCodec { entity_path, codec });
        }
        chunks
    }
}

/// The case of the letters of a format does not matter.
pub proof fn format_case_does_not_matter(format: Seq<char>)
    ensures
        codec_of(text::ascii_lower(format)) == codec_of(format),
{
    assert(text::ascii_lower(text::ascii_lower(format)) == text::ascii_lower(format));
}

/// The frame ID of the image plane of a camera. An empty ID stays empty: it is not a valid one.
pub open spec fn image_plane(frame_id: Seq<char>) -> Seq<char> {
    if frame_id.len() == 0 {
        frame_id
    } else {
        frame_id + "_image_plane"@
    }
}

/// The frame IDs of the image planes of some cameras.
pub open spec fn image_planes(frame_ids: Seq<Seq<char>>) -> Seq<Seq<char>> {
    frame_ids.map_values(|frame_id: Seq<char>| image_plane(frame_id))
}

/// Suffixes image frame IDs with `_image_plane`.
///
/// The image plane of a named pinhole frame has a frame ID of its own; in ROS, image and camera
/// share theirs.
pub fn suffix_image_plane_frame_ids(frame_ids: Vec<String>) -> (suffixed: Vec<String>)
    ensures
        text::texts(suffixed@) == image_planes(text::texts(frame_ids@)),
{
    let ghost all = image_planes(text::texts(frame_ids@));
    let mut suffixed: Vec<String> = Vec::new();
    let mut at: usize = 0;
    while at < frame_ids.len()
        invariant
            at <= frame_ids.len(),
            all == image_planes(text::texts(frame_ids@)),
            text::texts(suffixed@) == all.take(at as int),
        decreases frame_ids.len() - at,
    {
        let mut id = frame_ids[at].clone();
        if !id.as_str().is_empty() {
            id.append("_image_plane");
        }
        assert(id@ == all[at as int]);
        assert(all.take(at + 1) == all.take(at as int).push(id@));
        suffixed.push(id);
        assert(text::texts(suffixed@) == all.take(at as int).push(id@));
        at = at + 1;
    }
    assert(all.take(all.len() as int) == all);
    suffixed
}

/// Four formats can be decoded: `h264`, `h265`, `vp9` and `av1`, in small or capital letters. Each names
/// its own codec.
pub proof fn four_formats_name_their_codecs(format: Seq<char>)
    ensures
        text::ascii_lower(format) == "h264"@ ==> codec_of(format) == Some(VideoCodec::H264),
        text::ascii_lower(format) == "h265"@ ==> codec_of(format) == Some(VideoCodec::H265),
        text::ascii_lower(format) == "vp9"@ ==> codec_of(format) == Some(VideoCodec::VP9),
        text::ascii_lower(format) == "av1"@ ==> codec_of(format) == Some(VideoCodec::AV1),
        codec_of(format) is Some ==> {
            ||| text::ascii_lower(format) == "h264"@
            ||| text::ascii_lower(format) == "h265"@
            ||| text::ascii_lower(format) == "vp9"@
            ||| text::ascii_lower(format) == "av1"@
        },
{
    reveal_strlit("h264");
    reveal_strlit("h265");
    reveal_strlit("vp9");
    reveal_strlit("av1");
    assert("h264"@[3] != "h265"@[3]);
    assert("vp9"@[0] != "av1"@[0]);
    assert("h264"@.len() == 4 && "vp9"@.len() == 3 && "av1"@.len() == 3 && "h265"@.len() == 4);
}

/// Whatever a message is, its timestamp and its frame ID are kept. Its sample is kept exactly if its
/// format can be decoded and is that of the samples before it; the first sample decides the codec,
/// which never changes afterwards.
pub proof fn the_first_sample_decides_the_codec(
    parser: &mut CompressedVideoMessageParser,
    context: &mut ParserContext,
    message: CompressedVideo,
    res: Result<(), ParseError>,
)
    requires
        old(parser).well_formed(),
        call_ensures(CompressedVideoMessageParser::append, (parser, context, message), res),
    ensures
        final(parser).well_formed(),
        ({
            let codec = codec_of(message.format@);
            &&& res is Ok <==> codec is Some && (old(parser).codec() is None || old(parser).codec()
                == codec)
            &&& res is Ok ==> final(parser).codec() == codec
            &&& res is Err ==> final(parser).codec() == old(parser).codec()
            &&& codec is None ==> {
                &&& res matches Err(ParseError::UnsupportedFormat { format })
                &&& format@ == text::ascii_lower(message.format@)
            }
            &&& codec is Some && res is Err ==> res == Err::<(), ParseError>(
                ParseError::MixedCodecs,
            )
        }),
        final(parser).samples() == if res is Ok {
            old(parser).samples().push(message.data)
        } else {
            old(parser).samples()
        },
        final(parser).frame_ids() == old(parser).frame_ids().push(message.frame_id@),
        final(parser).messages() == old(parser).messages().push(message),
        final(parser).all_accepted() <==> old(parser).all_accepted() && res is Ok,
        final(context).timestamps().drop_last() == old(context).timestamps(),
        final(context).timestamps().len() == old(context).timestamps().len() + 1,
        final(context).timestamps().last().time_type == old(context).spec_time_type(),
        final(context).spec_time_type() == old(context).spec_time_type(),
        final(context).spec_entity_path() == old(context).spec_entity_path(),
        ({
            let nanos = message.timestamp.sec * 1_000_000_000 + message.timestamp.nanosec;
            let kept = final(context).timestamps().last().nanos;
            &&& nanos >= 0 ==> kept == nanos
            &&& nanos < 0 ==> kept == nanos + 0x1_0000_0000_0000_0000
        }),
{
}

/// A timestamp is the message's time in nanoseconds, on the given timeline; one before the epoch wraps
/// around.
pub proof fn timestamps_are_the_messages_times(message: CompressedVideo, time_type: TimeType)
    ensures
        timestamp_of(message, time_type).time_type == time_type,
        ({
            let nanos = message.timestamp.sec * 1_000_000_000 + message.timestamp.nanosec;
            &&& nanos >= 0 ==> timestamp_of(message, time_type).nanos == nanos
            &&& nanos < 0 ==> timestamp_of(message, time_type).nanos == nanos
                + 0x1_0000_0000_0000_0000
        }),
{
}

/// A context keeps its entity and the type of its timeline, and adds timestamps at the end.
pub proof fn contexts_collect_timestamps_in_order(
    entity_path: String,
    time_type: TimeType,
    fresh: ParserContext,
    context: &mut ParserContext,
    cell: TimestampCell,
    read: TimeType,
)
    requires
        call_ensures(ParserContext::new, (entity_path, time_type), fresh),
        call_ensures(ParserContext::time_type, (&fresh,), read),
        call_ensures(ParserContext::add_timestamp_cell, (context, cell), ()),
    ensures
        fresh.spec_entity_path()@ == entity_path@,
        fresh.timestamps().len() == 0,
        read == time_type,
        final(context).timestamps() == old(context).timestamps().push(cell),
        final(context).spec_entity_path() == old(context).spec_entity_path(),
        final(context).spec_time_type() == old(context).spec_time_type(),
{
}

/// The image plane of a camera is named after its frame, with `_image_plane` behind it. A frame without
/// a name stays without one.
pub proof fn image_planes_are_named_after_their_frames(frame_ids: Vec<String>, suffixed: Vec<String>)
    requires
        call_ensures(suffix_image_plane_frame_ids, (frame_ids,), suffixed),
    ensures
        suffixed@.len() == frame_ids@.len(),
        forall|i: int|
            0 <= i < frame_ids@.len() ==> (#[trigger] suffixed@[i])@ == if frame_ids@[i]@.len() > 0 {
                frame_ids@[i]@ + "_image_plane"@
            } else {
                frame_ids@[i]@
            },
{
    let planes = text::texts(suffixed@);
    assert(planes.len() == suffixed@.len());
    assert(text::texts(frame_ids@).len() == frame_ids@.len());
    assert(image_planes(text::texts(frame_ids@)).len() == frame_ids@.len());
    assert forall|i: int| 0 <= i < frame_ids@.len() implies (#[trigger] suffixed@[i])@
        == if frame_ids@[i]@.len() > 0 {
        frame_ids@[i]@ + "_image_plane"@
    } else {
        frame_ids@[i]@
    } by {
        assert(planes[i] == suffixed@[i]@);
        assert(planes[i] == image_plane(text::texts(frame_ids@)[i]));
    }
}

/// The messages of a topic become one row each, in order: with its own time, its own sample and the
/// image plane of its own frame. The codec comes once, apart from them, and exactly if there is a
/// sample. Both parts belong to the topic's entity.
pub proof fn each_message_becomes_a_row(
    parser: CompressedVideoMessageParser,
    context: ParserContext,
    chunks: Vec<VideoChunk>,
)
    requires
        parser.well_formed(),
        parser.all_accepted(),
        parser.in_step(&context),
        call_ensures(CompressedVideoMessageParser::finalize, (parser, context), chunks),
    ensures
        chunks@.len() == if parser.messages().len() > 0 {
            2int
        } else {
            1int
        },
        chunks@[0] matches VideoChunk::Rows {
            entity_path,
            timestamps,
            samples,
            image_plane_frame_ids,
        } && {
            &&& entity_path@ == context.spec_entity_path()@
            &&& timestamps@.len() == parser.messages().len()
            &&& samples@.len() == parser.messages().len()
            &&& image_plane_frame_ids@.len() == parser.messages().len()
            &&& forall|i: int|
                #![trigger parser.messages()[i]]
                0 <= i < parser.messages().len() ==> {
                    let message = parser.messages()[i];
                    &&& samples@[i]@ == message.data@
                    &&& timestamps@[i] == timestamp_of(message, context.spec_time_type())
                    &&& image_plane_frame_ids@[i]@ == if message.frame_id@.len() > 0 {
                        message.frame_id@ + "_image_plane"@
                    } else {
                        message.frame_id@
                    }
                }
        },
        parser.messages().len() > 0 ==> (chunks@[1] matches VideoChunk::StaticCodec {
            entity_path,
            codec,
        } && {
            &&& entity_path@ == context.spec_entity_path()@
            &&& forall|i: int|
                0 <= i < parser.messages().len() ==> codec_of(
                    (#[trigger] parser.messages()[i]).format@,
                ) == Some(codec)
        }),
{
    parser.accepted_messages_make_up_the_rows();
}

/// Whatever was refused: what is handed over is what was collected.
pub proof fn what_was_collected_is_handed_over(
    parser: CompressedVideoMessageParser,
    context: ParserContext,
    chunks: Vec<VideoChunk>,
)
    requires
        parser.well_formed(),
        call_ensures(CompressedVideoMessageParser::finalize, (parser, context), chunks),
    ensures
        chunks@.len() == if parser.samples().len() > 0 {
            2int
        } else {
            1int
        },
        chunks@[0] matches VideoChunk::Rows {
            entity_path,
            timestamps,
            samples,
            image_plane_frame_ids,
        } && {
            &&& entity_path@ == context.spec_entity_path()@
            &&& timestamps@ == context.timestamps()
            &&& samples@ == parser.samples()
            &&& image_plane_frame_ids@.len() == parser.messages().len()
        },
        parser.samples().len() > 0 ==> (chunks@[1] matches VideoChunk::StaticCodec {
            entity_path,
            codec,
        } && entity_path@ == context.spec_entity_path()@ && Some(codec) == parser.codec()),
{
    if let VideoChunk::Rows { entity_path, timestamps, samples, image_plane_frame_ids } = chunks@[0] {
        assert(text::texts(image_plane_frame_ids@).len() == image_plane_frame_ids@.len());
        assert(parser.frame_ids().len() == parser.messages().len());
    }
}

/// A parser begins without messages. The words of a refusal name the format, in lower case.
pub proof fn parsers_begin_empty(
    num_rows: usize,
    parser: CompressedVideoMessageParser,
    err: &ParseError,
    message: String,
)
    requires
        call_ensures(CompressedVideoMessageParser::new, (num_rows,), parser),
        call_ensures(ParseError::message, (err,), message),
    ensures
        parser.well_formed(),
        parser.all_accepted(),
        parser.messages().len() == 0,
        parser.samples().len() == 0,
        parser.frame_ids().len() == 0,
        parser.codec() is None,
        err matches ParseError::UnsupportedFormat { format } ==> message@
            == "unsupported video format "@ + text::debug_text(format@)
            + " in CompressedVideo message"@,
        err matches ParseError::MixedCodecs ==> message@
            == "encountered mixed video codecs on the same topic; this is not supported"@,
{
}

} // verus!
