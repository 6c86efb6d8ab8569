//! How image-like content is drawn as a textured rectangle.
//!
//! Camera parameters are only handed on here; what they hold is up to the caller.
use vstd::prelude::*;

verus! {

/// How an image is filtered when it is shown larger than it is.
#[derive(Debug, Clone, Copy, PartialEq, Eq, Structural)]
pub enum MagnificationFilter {
    Nearest,
    Linear,
    Bicubic,
}

/// How the renderer filters a magnified texture.
#[derive(Debug, Clone, Copy, PartialEq, Eq, Structural)]
pub enum TextureFilterMag {
    Nearest,
    Linear,
    Bicubic,
}

/// How the renderer filters a minified texture.
#[derive(Debug, Clone, Copy, PartialEq, Eq, Structural)]
pub enum TextureFilterMin {
    Nearest,
    Linear,
}

/// The renderer's counterpart of a magnification filter.
pub open spec fn spec_mag_filter(filter: MagnificationFilter) -> TextureFilterMag {
    match filter {
        MagnificationFilter::Nearest => TextureFilterMag::Nearest,
        MagnificationFilter::Linear => TextureFilterMag::Linear,
        MagnificationFilter::Bicubic => TextureFilterMag::Bicubic,
    }
}

/// The renderer's counterpart of a magnification filter.
pub fn mag_filter(filter: MagnificationFilter) -> (mag: TextureFilterMag)
    ensures
        mag == spec_mag_filter(filter),
{
    match filter {
        MagnificationFilter::Nearest => TextureFilterMag::Nearest,
        MagnificationFilter::Linear => TextureFilterMag::Linear,
        MagnificationFilter::Bicubic => TextureFilterMag::Bicubic,
    }
}

/// How a minified texture is filtered: linearly, unless nearest was asked for and a color map is
/// applied afterwards, where interpolation would produce artifacts.
pub fn min_filter(filter: MagnificationFilter, color_mapper_on: bool) -> (min: TextureFilterMin)
    ensures
        min == TextureFilterMin::Nearest <==> filter == MagnificationFilter::Nearest
            && color_mapper_on,
{
    match filter {
        MagnificationFilter::Nearest => if color_mapper_on {
            TextureFilterMin::Nearest
        } else {
            TextureFilterMin::Linear
        },
        MagnificationFilter::Linear | MagnificationFilter::Bicubic => TextureFilterMin::Linear,
    }
}

/// The resolution that a camera was calibrated at.
pub struct CalibratedResolution<R> {
    pub resolution: R,
    /// Is its width zero or less?
    pub width_degenerate: bool,
    /// Is its height zero or less?
    pub height_degenerate: bool,
}

/// What is known of a pinhole camera, as far as it is known.
pub struct PinholeInfo<D, R> {
    pub distortion: Option<D>,
    pub resolution: Option<CalibratedResolution<R>>,
}

/// Can intrinsics be normalized by this resolution?
pub open spec fn usable<R>(resolution: Option<CalibratedResolution<R>>) -> bool {
    resolution matches Some(resolution) && !resolution.width_degenerate
        && !resolution.height_degenerate
}

/// The distortion to undo and the resolution to normalize the intrinsics by. There is nothing to
/// rectify without a distortion, and no way to do it without a resolution, or with a degenerate one.
pub fn rect_distortion<D, R>(
    distortion: Option<D>,
    resolution: Option<CalibratedResolution<R>>,
) -> (rectify: Option<(D, R)>)
    ensures
        match rectify {
            Some((undo, by)) => {
                &&& distortion == Some(undo)
                &&& usable(resolution)
                &&& resolution matches Some(resolution) && resolution.resolution == by
            },
            None => distortion is None || !usable(resolution),
        },
{
    match (distortion, resolution) {
        (Some(distortion), Some(resolution)) => {
            if resolution.width_degenerate || resolution.height_degenerate {
                None
            } else {
                Some((distortion, resolution.resolution))
            }
        },
        _ => None,
    }
}

/// Rectification parameters for image-like content, given the pinhole camera at the root of its
/// transform tree, if there is one.
pub fn rect_distortion_for_entity<D, R>(pinhole: Option<PinholeInfo<D, R>>) -> (rectify: Option<
    (D, R),
>)
    ensures
        match rectify {
            Some((undo, by)) => {
                &&& pinhole matches Some(camera)
                &&& camera.distortion == Some(undo)
                &&& usable(camera.resolution)
                &&& camera.resolution matches Some(resolution) && resolution.resolution == by
            },
            None => pinhole matches Some(camera) ==> camera.distortion is None || !usable(
                camera.resolution,
            ),
        },
{
    match pinhole {
        None => None,
        Some(camera) => rect_distortion(camera.distortion, camera.resolution),
    }
}

/// How a rectangle is drawn.
pub struct RectangleOptions<D, R> {
    pub texture_filter_magnification: TextureFilterMag,
    pub texture_filter_minification: TextureFilterMin,
    /// If the image sits under a distorted pinhole camera, it is rectified, so that linear
    /// projections of 3D geometry land on the right pixels.
    pub distortion: Option<(D, R)>,
}

/// How the rectangle of an image is drawn.
pub fn textured_rect_from_image<D, R>(
    magnification_filter: MagnificationFilter,
    color_mapper_on: bool,
    pinhole: Option<PinholeInfo<D, R>>,
) -> (options: RectangleOptions<D, R>)
    ensures
        options.texture_filter_magnification == spec_mag_filter(magnification_filter),
        options.texture_filter_minification == TextureFilterMin::Nearest <==> magnification_filter
            == MagnificationFilter::Nearest && color_mapper_on,
        match options.distortion {
            Some((undo, by)) => {
                &&& pinhole matches Some(camera)
                &&& camera.distortion == Some(undo)
                &&& usable(camera.resolution)
                &&& camera.resolution matches Some(resolution) && resolution.resolution == by
            },
            None => pinhole matches Some(camera) ==> camera.distortion is None || !usable(
                camera.resolution,
            ),
        },
{
    RectangleOptions {
        texture_filter_magnification: mag_filter(magnification_filter),
        texture_filter_minification: min_filter(magnification_filter, color_mapper_on),
        distortion: rect_distortion_for_entity(pinhole),
    }
}

/// A magnified image is filtered as asked for; a minified one linearly, but for a color-mapped one where
/// nearest was asked for.
pub proof fn only_color_mapped_nearest_images_are_not_interpolated(
    filter: MagnificationFilter,
    color_mapper_on: bool,
    mag: TextureFilterMag,
    min: TextureFilterMin,
)
    requires
        call_ensures(mag_filter, (filter,), mag),
        call_ensures(min_filter, (filter, color_mapper_on), min),
    ensures
        filter == MagnificationFilter::Nearest <==> mag == TextureFilterMag::Nearest,
        filter == MagnificationFilter::Linear <==> mag == TextureFilterMag::Linear,
        filter == MagnificationFilter::Bicubic <==> mag == TextureFilterMag::Bicubic,
        min == TextureFilterMin::Nearest <==> filter == MagnificationFilter::Nearest
            && color_mapper_on,
        min == TextureFilterMin::Linear <==> filter != MagnificationFilter::Nearest
            || !color_mapper_on,
{
}

/// An image is rectified exactly if its camera has a distortion and a resolution with positive sides,
/// and then by just these two.
pub proof fn only_usable_cameras_rectify<D, R>(
    distortion: Option<D>,
    resolution: Option<CalibratedResolution<R>>,
    rectify: Option<(D, R)>,
)
    requires
        call_ensures(rect_distortion::<D, R>, (distortion, resolution), rectify),
    ensures
        rectify is Some <==> distortion is Some && resolution is Some
            && !resolution->0.width_degenerate && !resolution->0.height_degenerate,
        rectify is Some ==> rectify == Some((distortion->0, resolution->0.resolution)),
{
}

/// The camera at the root of an image's transform tree decides how it is rectified; without one it is
/// not.
pub proof fn the_camera_decides_the_rectification<D, R>(
    pinhole: Option<PinholeInfo<D, R>>,
    rectify: Option<(D, R)>,
)
    requires
        call_ensures(rect_distortion_for_entity::<D, R>, (pinhole,), rectify),
    ensures
        rectify is Some <==> pinhole is Some && pinhole->0.distortion is Some
            && pinhole->0.resolution is Some && !pinhole->0.resolution->0.width_degenerate
            && !pinhole->0.resolution->0.height_degenerate,
        rectify is Some ==> rectify == Some(
            (pinhole->0.distortion->0, pinhole->0.resolution->0.resolution),
        ),
{
}

/// An image is drawn with its filters and its rectification, each decided on its own.
pub proof fn images_are_drawn_as_their_parts_say<D, R>(
    filter: MagnificationFilter,
    color_mapper_on: bool,
    pinhole: Option<PinholeInfo<D, R>>,
    options: RectangleOptions<D, R>,
    mag: TextureFilterMag,
    min: TextureFilterMin,
    rectify: Option<(D, R)>,
)
    requires
        call_ensures(
            textured_rect_from_image::<D, R>,
            (filter, color_mapper_on, pinhole),
            options,
        ),
        call_ensures(mag_filter, (filter,), mag),
        call_ensures(min_filter, (filter, color_mapper_on), min),
        call_ensures(rect_distortion_for_entity::<D, R>, (pinhole,), rectify),
    ensures
        options.texture_filter_magnification == mag,
        options.texture_filter_minification == min,
        options.distortion == rectify,
{
}

} // verus!
