//! The identifiers that the host's published interface fixes: which
//! capability tables exist, in which revision, and which entries each holds.

use vstd::prelude::*;

verus! {

/// The name of a capability table.
#[derive(Clone, Copy, Debug, PartialEq, Eq, Structural, Hash)]
pub enum SuiteName {
    Mask,
    MaskOutline,
    Drawbot,
    Supplier,
    Pen,
    Image,
    Path,
    OverlayTheme,
    World,
    Layer,
    Stream,
    Camera,
    Scene3D,
    Scene3DMaterial,
    Scene3DNode,
    Scene3DMesh,
    GpuImageProcessing,
    Time,
}

/// The (name, version) pair under which a capability table is looked up and
/// given back.
#[derive(Clone, Copy, Debug, PartialEq, Eq, Structural, Hash)]
pub struct SuiteId {
    pub name: SuiteName,
    pub version: u32,
}

/// Entries of the layer mask table.
#[derive(Clone, Copy, Debug, PartialEq, Eq, Structural, Hash)]
pub enum MaskEntry {
    GetLayerNumMasks,
    GetLayerMaskByIndex,
    DisposeMask,
    GetMaskInvert,
    SetMaskInvert,
    GetMaskMode,
    SetMaskMode,
    GetMaskMotionBlurState,
    SetMaskMotionBlurState,
    GetMaskFeatherFalloff,
    SetMaskFeatherFalloff,
    GetMaskColor,
    SetMaskColor,
    GetMaskLockState,
    SetMaskLockState,
    GetMaskIsRotoBezier,
    SetMaskIsRotoBezier,
    DuplicateMask,
    CreateNewMask,
    DeleteMaskFromLayer,
    GetMaskId,
}

/// Entries of the mask outline table.
#[derive(Clone, Copy, Debug, PartialEq, Eq, Structural, Hash)]
pub enum MaskOutlineEntry {
    IsMaskOutlineOpen,
    SetMaskOutlineOpen,
    GetMaskOutlineNumSegments,
    GetMaskOutlineVertexInfo,
    SetMaskOutlineVertexInfo,
    CreateVertex,
    DeleteVertex,
    GetMaskOutlineNumFeathers,
    GetMaskOutlineFeatherInfo,
    SetMaskOutlineFeatherInfo,
    CreateMaskOutlineFeather,
    DeleteMaskOutlineFeather,
}

/// Entries of the drawing tables.
#[derive(Clone, Copy, Debug, PartialEq, Eq, Structural, Hash)]
pub enum DrawEntry {
    GetSupplier,
    GetSurface,
    ReleaseObject,
    FillPath,
    FillVertex,
    SetDashPattern,
    SetScaleFactor,
    MoveTo,
    LineTo,
    BezierTo,
    AddRect,
    AddArc,
    Close,
}

/// Entries of the world, layer, stream and camera tables.
#[derive(Clone, Copy, Debug, PartialEq, Eq, Structural, Hash)]
pub enum CompEntry {
    FillOutEffectWorld,
    GetLayerToWorldXform,
    GetNewLayerStream,
    GetNewStreamValue,
    GetCamera,
    GetCameraFilmSize,
    GetDefaultCameraDistanceToImagePlane,
    GetCameraType,
}

/// Entries of the 3D scene tables.
#[derive(Clone, Copy, Debug, PartialEq, Eq, Structural, Hash)]
pub enum SceneEntry {
    SceneAlloc,
    SceneDispose,
    TextureContextAlloc,
    TextureContextDispose,
    TextureCacheAlloc,
    SetupMotionBlurSamples,
    Build,
    SceneNumLights,
    NodeTraverser,
    HasUvColorTexture,
    GetUvColorTexture,
    GetBasicCoeffs,
    GetMaterialForSide,
    NodeMeshGet,
    FaceGroupBufferCount,
    FaceGroupBufferSize,
    FaceGroupBufferFill,
    GetMaterialSideForFaceGroup,
    MeshGetInfo,
    VertexBufferElementSize,
    FaceBufferElementSize,
    UvBufferElementSize,
    MeshFillBuffers,
}

/// Entries of the GPU image processing and time tables.
#[derive(Clone, Copy, Debug, PartialEq, Eq, Structural, Hash)]
pub enum MediaEntry {
    PixelFormatConvert,
    Scale,
    GaussianBlur,
    GetTicksPerSecond,
    GetTicksPerVideoFrame,
    GetTicksPerAudioSample,
}

/// One entry of one capability table.
#[derive(Clone, Copy, Debug, PartialEq, Eq, Structural, Hash)]
pub enum Entry {
    Mask(MaskEntry),
    MaskOutline(MaskOutlineEntry),
    Draw(DrawEntry),
    Comp(CompEntry),
    Scene(SceneEntry),
    Media(MediaEntry),
}

/// The layer mask table.
pub open spec fn mask_suite() -> SuiteId {
    SuiteId { name: SuiteName::Mask, version: 6 }
}

/// The mask outline table.
pub open spec fn mask_outline_suite() -> SuiteId {
    SuiteId { name: SuiteName::MaskOutline, version: 3 }
}

/// The drawing context table.
pub open spec fn drawbot_suite() -> SuiteId {
    SuiteId { name: SuiteName::Drawbot, version: 1 }
}

/// The table that creates and releases drawing objects.
pub open spec fn supplier_suite() -> SuiteId {
    SuiteId { name: SuiteName::Supplier, version: 1 }
}

/// The pen table.
pub open spec fn pen_suite() -> SuiteId {
    SuiteId { name: SuiteName::Pen, version: 1 }
}

/// The image table.
pub open spec fn image_suite() -> SuiteId {
    SuiteId { name: SuiteName::Image, version: 1 }
}

/// The path table.
pub open spec fn path_suite() -> SuiteId {
    SuiteId { name: SuiteName::Path, version: 1 }
}

/// The overlay theme table.
pub open spec fn overlay_theme_suite() -> SuiteId {
    SuiteId { name: SuiteName::OverlayTheme, version: 1 }
}

/// The world table.
pub open spec fn world_suite() -> SuiteId {
    SuiteId { name: SuiteName::World, version: 3 }
}

/// The layer table.
pub open spec fn layer_suite() -> SuiteId {
    SuiteId { name: SuiteName::Layer, version: 5 }
}

/// The stream table.
pub open spec fn stream_suite() -> SuiteId {
    SuiteId { name: SuiteName::Stream, version: 4 }
}

/// The camera table.
pub open spec fn camera_suite() -> SuiteId {
    SuiteId { name: SuiteName::Camera, version: 2 }
}

/// The 3D scene table.
pub open spec fn scene3d_suite() -> SuiteId {
    SuiteId { name: SuiteName::Scene3D, version: 2 }
}

/// The 3D material table.
pub open spec fn scene3d_material_suite() -> SuiteId {
    SuiteId { name: SuiteName::Scene3DMaterial, version: 1 }
}

/// The 3D node table.
pub open spec fn scene3d_node_suite() -> SuiteId {
    SuiteId { name: SuiteName::Scene3DNode, version: 1 }
}

/// The 3D mesh table.
pub open spec fn scene3d_mesh_suite() -> SuiteId {
    SuiteId { name: SuiteName::Scene3DMesh, version: 1 }
}

/// The GPU image processing table.
pub open spec fn gpu_image_processing_suite() -> SuiteId {
    SuiteId { name: SuiteName::GpuImageProcessing, version: 1 }
}

/// The time table.
pub open spec fn time_suite() -> SuiteId {
    SuiteId { name: SuiteName::Time, version: 1 }
}

} // verus!
