use render_to_video::compressed_video::{
    suffix_image_plane_frame_ids, CompressedVideoMessageParser, ParseError, ParserContext,
    TimestampCell, VideoChunk, VideoCodec,
};
use render_to_video::definitions::{
    CompressedVideo, FollowDelayMs, LensDistortionModel, Time,
};
use render_to_video::timeline::TimeType;

fn context() -> ParserContext {
    ParserContext::new("/cam".to_owned(), TimeType::TimestampNs)
}

/// The samples and frame IDs of the rows, their timestamps, and the static codec.
fn split(chunks: Vec<VideoChunk>) -> (Vec<Vec<u8>>, Vec<String>, Vec<u64>, Option<VideoCodec>) {
    assert!(chunks.len() == 1 || chunks.len() == 2);
    let mut chunks = chunks.into_iter();
    let rows = match chunks.next() {
        Some(VideoChunk::Rows { entity_path, timestamps, samples, image_plane_frame_ids }) => {
            assert_eq!(entity_path, "/cam");
            let nanos = timestamps
                .iter()
                .map(|cell: &TimestampCell| {
                    assert_eq!(cell.time_type, TimeType::TimestampNs);
                    cell.nanos
                })
                .collect();
            (samples, image_plane_frame_ids, nanos)
        }
        _ => panic!("rows come first"),
    };
    let codec = chunks.next().map(|chunk| match chunk {
        VideoChunk::StaticCodec { entity_path, codec } => {
            assert_eq!(entity_path, "/cam");
            codec
        }
        VideoChunk::Rows { .. } => panic!("there is one chunk of rows"),
    });
    (rows.0, rows.1, rows.2, codec)
}

fn message(frame_id: &str, data: &[u8], format: &str) -> CompressedVideo {
    CompressedVideo {
        timestamp: Time { sec: 2, nanosec: 500 },
        frame_id: frame_id.to_owned(),
        data: data.to_vec(),
        format: format.to_owned(),
    }
}

#[test]
fn messages_become_two_chunks() {
    let mut context = context();
    let mut parser = CompressedVideoMessageParser::new(2);
    parser.append(&mut context, message("cam", &[1, 2], "h264")).unwrap();
    let mut early = message("", &[3], "H264");
    early.timestamp = Time { sec: -1, nanosec: 1 };
    parser.append(&mut context, early).unwrap();

    let (samples, ids, nanos, codec) = split(parser.finalize(context));
    assert_eq!(samples, [vec![1, 2], vec![3]]);
    assert_eq!(ids, ["cam_image_plane", ""]);
    assert_eq!(codec, Some(VideoCodec::H264));
    assert_eq!(nanos, [2_000_000_500, (-999_999_999i64) as u64]);
}

#[test]
fn no_messages_have_no_codec() {
    let (samples, ids, nanos, codec) =
        split(CompressedVideoMessageParser::new(0).finalize(context()));
    assert!(samples.is_empty());
    assert!(ids.is_empty());
    assert!(nanos.is_empty());
    assert_eq!(codec, None);
}

#[test]
fn formats_name_codecs_in_any_case() {
    for (format, codec) in [
        ("h264", VideoCodec::H264),
        ("H265", VideoCodec::H265),
        ("Vp9", VideoCodec::VP9),
        ("aV1", VideoCodec::AV1),
    ] {
        let mut context = context();
        let mut parser = CompressedVideoMessageParser::new(1);
        parser.append(&mut context, message("c", &[0], format)).unwrap();
        assert_eq!(split(parser.finalize(context)).3, Some(codec));
    }
}

#[test]
fn refused_messages_leave_no_sample() {
    let mut context = context();
    let mut parser = CompressedVideoMessageParser::new(1);
    let err = parser.append(&mut context, message("a", &[1], "MJPEGé")).unwrap_err();
    assert!(matches!(&err, ParseError::UnsupportedFormat { format } if format == "mjpegé"));
    assert_eq!(
        err.message(),
        "unsupported video format \"mjpegé\" in CompressedVideo message"
    );
    parser.append(&mut context, message("b", &[2], "vp9")).unwrap();
    let err = parser.append(&mut context, message("c", &[3], "av1")).unwrap_err();
    assert_eq!(
        err.message(),
        "encountered mixed video codecs on the same topic; this is not supported"
    );
    let (samples, ids, nanos, codec) = split(parser.finalize(context));
    assert_eq!(samples, [vec![2]]);
    assert_eq!(codec, Some(VideoCodec::VP9));
    assert_eq!(ids, ["a_image_plane", "b_image_plane", "c_image_plane"]);
    assert_eq!(nanos.len(), 3);
}

#[test]
fn empty_frame_ids_stay_empty() {
    let ids = vec!["left".to_owned(), String::new(), "right".to_owned()];
    assert_eq!(
        suffix_image_plane_frame_ids(ids),
        ["left_image_plane", "", "right_image_plane"]
    );
}

#[test]
fn data_model_types() {
    assert_eq!(LensDistortionModel::default(), LensDistortionModel::PlumbBob);
    assert_eq!(LensDistortionModel::PlumbBob.code(), 1);
    assert_eq!(LensDistortionModel::RationalPolynomial.code(), 2);
    assert_eq!(FollowDelayMs { delay: 5 }, FollowDelayMs { delay: 5 });
    assert_eq!(Time { sec: i32::MAX, nanosec: u32::MAX }.as_nanos(), 2_147_483_651_294_967_295);
    assert!(FollowDelayMs { delay: 5 } < FollowDelayMs { delay: 6 });
    let video = message("f", &[1, 2], "h264");
    assert_eq!(video.clone(), video);
}
