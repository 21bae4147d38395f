use plugin_suites::aegp::{
    CameraSuite, CameraType, FilmSizeUnits, LayerSuite, Scene3D, Scene3DMaterialSuite,
    Scene3DMeshSuite, Scene3DNodeSuite, StreamSuite, WorldSuite,
};
use plugin_suites::drawbot::{DrawbotSuite, ImageSuite, PathSuite, PenSuite, SupplierSuite};
use plugin_suites::entry::{SuiteId, SuiteName};
use plugin_suites::gpu_image_processing::{GPUImageProcessingSuite, RenderQuality};
use plugin_suites::mask::{
    MaskFeatherFalloff, MaskFeatherInterp, MaskFeatherType, MaskMBlur, MaskMode, MaskOutlineSuite,
    MaskSuite,
};
use plugin_suites::pf::EffectCustomUIOverlayThemeSuite;
use plugin_suites::time::{TimeSuite, VideoFrameRates};

#[test]
fn mask_mode_codes_are_those_of_the_host() {
    assert_eq!(MaskMode::NoMode.to_raw(), after_effects_sys::PF_MaskMode_NONE as i32);
    assert_eq!(MaskMode::Add.to_raw(), after_effects_sys::PF_MaskMode_ADD as i32);
    assert_eq!(MaskMode::Subtract.to_raw(), after_effects_sys::PF_MaskMode_SUBTRACT as i32);
    assert_eq!(MaskMode::Intersect.to_raw(), after_effects_sys::PF_MaskMode_INTERSECT as i32);
    assert_eq!(MaskMode::Lighten.to_raw(), after_effects_sys::PF_MaskMode_LIGHTEN as i32);
    assert_eq!(MaskMode::Darken.to_raw(), after_effects_sys::PF_MaskMode_DARKEN as i32);
    assert_eq!(MaskMode::Difference.to_raw(), after_effects_sys::PF_MaskMode_DIFFERENCE as i32);
    assert_eq!(MaskMode::Accum.to_raw(), after_effects_sys::PF_MaskMode_ACCUM as i32);
}

#[test]
fn mask_byte_codes_are_those_of_the_host() {
    assert_eq!(MaskMBlur::SameAsLayer.to_raw(), after_effects_sys::AEGP_MaskMBlur_SAME_AS_LAYER as u8);
    assert_eq!(MaskMBlur::Off.to_raw(), after_effects_sys::AEGP_MaskMBlur_OFF as u8);
    assert_eq!(MaskMBlur::On.to_raw(), after_effects_sys::AEGP_MaskMBlur_ON as u8);
    assert_eq!(
        MaskFeatherFalloff::Smooth.to_raw(),
        after_effects_sys::AEGP_MaskFeatherFalloff_SMOOTH as u8
    );
    assert_eq!(
        MaskFeatherFalloff::Linear.to_raw(),
        after_effects_sys::AEGP_MaskFeatherFalloff_LINEAR as u8
    );
    assert_eq!(
        MaskFeatherInterp::Normal.to_raw(),
        after_effects_sys::AEGP_MaskFeatherInterp_NORMAL as u8
    );
    assert_eq!(
        MaskFeatherInterp::HoldCW.to_raw(),
        after_effects_sys::AEGP_MaskFeatherInterp_HOLD_CW as u8
    );
    assert_eq!(MaskFeatherType::Outer.to_raw(), after_effects_sys::AEGP_MaskFeatherType_OUTER as u8);
    assert_eq!(MaskFeatherType::Inner.to_raw(), after_effects_sys::AEGP_MaskFeatherType_INNER as u8);
}

#[test]
fn camera_codes_are_those_of_the_host() {
    assert_eq!(FilmSizeUnits::NoUnits.to_raw(), after_effects_sys::AEGP_FilmSizeUnits_NONE as i32);
    assert_eq!(
        FilmSizeUnits::Horizontal.to_raw(),
        after_effects_sys::AEGP_FilmSizeUnits_HORIZONTAL as i32
    );
    assert_eq!(FilmSizeUnits::Vertical.to_raw(), after_effects_sys::AEGP_FilmSizeUnits_VERTICAL as i32);
    assert_eq!(FilmSizeUnits::Diagonal.to_raw(), after_effects_sys::AEGP_FilmSizeUnits_DIAGONAL as i32);
    assert_eq!(CameraType::NoCamera.to_raw(), after_effects_sys::AEGP_CameraType_NONE as u32);
    assert_eq!(CameraType::Persepctive.to_raw(), after_effects_sys::AEGP_CameraType_PERSPECTIVE as u32);
    assert_eq!(
        CameraType::Orthographic.to_raw(),
        after_effects_sys::AEGP_CameraType_ORTHOGRAPHIC as u32
    );
    assert_eq!(CameraType::NumTypes.to_raw(), after_effects_sys::AEGP_CameraType_NUM_TYPES as u32);
}

#[test]
fn media_codes_are_those_of_the_host() {
    assert_eq!(RenderQuality::Draft.to_raw(), premiere_sys::PrRenderQuality_kPrRenderQuality_Draft as u32);
    assert_eq!(RenderQuality::Low.to_raw(), premiere_sys::PrRenderQuality_kPrRenderQuality_Low as u32);
    assert_eq!(
        RenderQuality::Medium.to_raw(),
        premiere_sys::PrRenderQuality_kPrRenderQuality_Medium as u32
    );
    assert_eq!(RenderQuality::High.to_raw(), premiere_sys::PrRenderQuality_kPrRenderQuality_High as u32);
    assert_eq!(RenderQuality::Max.to_raw(), premiere_sys::PrRenderQuality_kPrRenderQuality_Max as u32);
    assert_eq!(
        RenderQuality::Invalid.to_raw(),
        premiere_sys::PrRenderQuality_kPrRenderQuality_Invalid as u32
    );
    assert_eq!(
        VideoFrameRates::Rate24Drop.to_raw(),
        premiere_sys::PrVideoFrameRates_kVideoFrameRate_24Drop as u32
    );
    assert_eq!(VideoFrameRates::Rate24.to_raw(), premiere_sys::PrVideoFrameRates_kVideoFrameRate_24 as u32);
    assert_eq!(VideoFrameRates::Pal.to_raw(), premiere_sys::PrVideoFrameRates_kVideoFrameRate_PAL as u32);
    assert_eq!(VideoFrameRates::Ntsc.to_raw(), premiere_sys::PrVideoFrameRates_kVideoFrameRate_NTSC as u32);
    assert_eq!(VideoFrameRates::Rate30.to_raw(), premiere_sys::PrVideoFrameRates_kVideoFrameRate_30 as u32);
    assert_eq!(
        VideoFrameRates::PalHd.to_raw(),
        premiere_sys::PrVideoFrameRates_kVideoFrameRate_PAL_HD as u32
    );
    assert_eq!(
        VideoFrameRates::NtscHd.to_raw(),
        premiere_sys::PrVideoFrameRates_kVideoFrameRate_NTSC_HD as u32
    );
    assert_eq!(VideoFrameRates::Rate60.to_raw(), premiere_sys::PrVideoFrameRates_kVideoFrameRate_60 as u32);
    assert_eq!(VideoFrameRates::Max.to_raw(), premiere_sys::PrVideoFrameRates_kVideoFrameRate_Max as u32);
}

#[test]
fn every_variant_round_trips_through_its_code() {
    let modes = [
        MaskMode::NoMode,
        MaskMode::Add,
        MaskMode::Subtract,
        MaskMode::Intersect,
        MaskMode::Lighten,
        MaskMode::Darken,
        MaskMode::Difference,
        MaskMode::Accum,
    ];
    for mode in modes {
        assert_eq!(MaskMode::from_raw(mode.to_raw()), Some(mode));
    }
    for blur in [MaskMBlur::SameAsLayer, MaskMBlur::Off, MaskMBlur::On] {
        assert_eq!(MaskMBlur::from_raw(blur.to_raw()), Some(blur));
    }
    for units in [
        FilmSizeUnits::NoUnits,
        FilmSizeUnits::Horizontal,
        FilmSizeUnits::Vertical,
        FilmSizeUnits::Diagonal,
    ] {
        assert_eq!(FilmSizeUnits::from_raw(units.to_raw()), Some(units));
    }
    for camera in [
        CameraType::NoCamera,
        CameraType::Persepctive,
        CameraType::Orthographic,
        CameraType::NumTypes,
    ] {
        assert_eq!(CameraType::from_raw(camera.to_raw()), Some(camera));
    }
    for quality in [
        RenderQuality::Draft,
        RenderQuality::Low,
        RenderQuality::Medium,
        RenderQuality::High,
        RenderQuality::Max,
        RenderQuality::Invalid,
    ] {
        assert_eq!(RenderQuality::from_raw(quality.to_raw()), Some(quality));
    }
}

#[test]
fn codes_outside_the_published_set_stand_for_nothing() {
    assert_eq!(MaskMode::from_raw(8), None);
    assert_eq!(MaskMode::from_raw(-1), None);
    assert_eq!(MaskMBlur::from_raw(3), None);
    assert_eq!(MaskFeatherFalloff::from_raw(2), None);
    assert_eq!(MaskFeatherInterp::from_raw(2), None);
    assert_eq!(MaskFeatherType::from_raw(200), None);
    assert_eq!(FilmSizeUnits::from_raw(4), None);
    assert_eq!(CameraType::from_raw(3), None);
    assert_eq!(RenderQuality::from_raw(5), None);
    assert_eq!(VideoFrameRates::from_raw(0), None);
    assert_eq!(VideoFrameRates::from_raw(9), None);
}

#[test]
fn every_suite_has_its_published_pair() {
    let pairs = [
        (MaskSuite::id(), SuiteName::Mask, 6),
        (MaskOutlineSuite::id(), SuiteName::MaskOutline, 3),
        (DrawbotSuite::id(), SuiteName::Drawbot, 1),
        (SupplierSuite::id(), SuiteName::Supplier, 1),
        (PenSuite::id(), SuiteName::Pen, 1),
        (ImageSuite::id(), SuiteName::Image, 1),
        (PathSuite::id(), SuiteName::Path, 1),
        (EffectCustomUIOverlayThemeSuite::id(), SuiteName::OverlayTheme, 1),
        (WorldSuite::id(), SuiteName::World, 3),
        (LayerSuite::id(), SuiteName::Layer, 5),
        (StreamSuite::id(), SuiteName::Stream, 4),
        (CameraSuite::id(), SuiteName::Camera, 2),
        (Scene3D::id(), SuiteName::Scene3D, 2),
        (Scene3DMaterialSuite::id(), SuiteName::Scene3DMaterial, 1),
        (Scene3DNodeSuite::id(), SuiteName::Scene3DNode, 1),
        (Scene3DMeshSuite::id(), SuiteName::Scene3DMesh, 1),
        (GPUImageProcessingSuite::id(), SuiteName::GpuImageProcessing, 1),
        (TimeSuite::id(), SuiteName::Time, 1),
    ];
    for (id, name, version) in pairs {
        assert_eq!(id, SuiteId { name, version });
    }
}
