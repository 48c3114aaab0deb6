//! The demo scene as plain data.
//!
//! The scene is a fixed list of entity descriptions: a perspective camera
//! under fly-style control, a tessellated sphere, a white point light and a
//! subdivided ground plane. Each description holds the exact constants the
//! scene is built from, so a front end only has to translate them into the
//! engine's component types, entity by entity.

use vstd::prelude::*;

verus! {

/// A translation in whole scene units along each axis.
#[derive(Clone, Copy, PartialEq, Eq, Structural, Debug)]
pub struct Translation {
    pub x: i32,
    pub y: i32,
    pub z: i32,
}

/// A colour with 8-bit channels; 255 is a channel at full strength.
#[derive(Clone, Copy, PartialEq, Eq, Structural, Debug)]
pub struct Rgb8 {
    pub r: u8,
    pub g: u8,
    pub b: u8,
}

/// A mesh shape, named by its tessellation counts.
#[derive(Clone, Copy, PartialEq, Eq, Structural, Debug)]
pub enum ShapeSpec {
    /// A sphere with `segments` slices around its axis and `rings` stacked
    /// along it.
    Sphere { segments: u32, rings: u32 },
    /// A flat plane subdivided into `columns` times `rows` cells.
    Plane { columns: u32, rows: u32 },
}

/// One entity of the scene: which components it carries and with which
/// constants they are filled.
#[derive(Clone, Copy, PartialEq, Eq, Structural, Debug)]
pub enum EntitySpec {
    /// A perspective camera for a `width` by `height` pixel image, placed at
    /// `at`; when `fly_controlled` holds, input moves it freely.
    Camera { width: u32, height: u32, at: Translation, fly_controlled: bool },
    /// A mesh of the given shape with the default material, placed at `at`.
    Shape { shape: ShapeSpec, at: Translation },
    /// A point light of the given colour and whole-unit intensity, placed at
    /// `at`.
    Light { intensity: u32, color: Rgb8, at: Translation },
}

/// The pixel dimensions the window is opened with.
pub open spec fn spec_window_dimensions() -> (u32, u32) {
    (1024, 768)
}

/// The camera: built for the window's image, ten units back from the origin,
/// and under fly-style control.
pub open spec fn spec_camera_entity() -> EntitySpec {
    EntitySpec::Camera {
        width: 1024,
        height: 768,
        at: Translation { x: 0, y: 0, z: 10 },
        fly_controlled: true,
    }
}

/// The sphere: one hundred segments and rings, at the origin.
pub open spec fn spec_sphere_entity() -> EntitySpec {
    EntitySpec::Shape {
        shape: ShapeSpec::Sphere { segments: 100, rings: 100 },
        at: Translation { x: 0, y: 0, z: 0 },
    }
}

/// The light: white, at intensity ten, above and in front of the shapes.
pub open spec fn spec_light_entity() -> EntitySpec {
    EntitySpec::Light {
        intensity: 10,
        color: Rgb8 { r: 255, g: 255, b: 255 },
        at: Translation { x: 5, y: 5, z: 20 },
    }
}

/// The ground plane: subdivided one hundred by one hundred, at the origin.
pub open spec fn spec_plane_entity() -> EntitySpec {
    EntitySpec::Shape {
        shape: ShapeSpec::Plane { columns: 100, rows: 100 },
        at: Translation { x: 0, y: 0, z: 0 },
    }
}

/// The whole scene, in the order the entities are registered.
pub open spec fn spec_demo_scene() -> Seq<EntitySpec> {
    seq![
        spec_camera_entity(),
        spec_sphere_entity(),
        spec_light_entity(),
        spec_plane_entity(),
    ]
}

/// The pixel dimensions the window is opened with.
pub fn window_dimensions() -> (d: (u32, u32))
    ensures
        d == spec_window_dimensions(),
{
    (1024, 768)
}

/// The camera's description.
pub fn camera_entity() -> (e: EntitySpec)
    ensures
        e == spec_camera_entity(),
{
    EntitySpec::Camera {
        width: 1024,
        height: 768,
        at: Translation { x: 0, y: 0, z: 10 },
        fly_controlled: true,
    }
}

/// The sphere's description.
pub fn sphere_entity() -> (e: EntitySpec)
    ensures
        e == spec_sphere_entity(),
{
    EntitySpec::Shape {
        shape: ShapeSpec::Sphere { segments: 100, rings: 100 },
        at: Translation { x: 0, y: 0, z: 0 },
    }
}

/// The light's description.
pub fn light_entity() -> (e: EntitySpec)
    ensures
        e == spec_light_entity(),
{
    EntitySpec::Light {
        intensity: 10,
        color: Rgb8 { r: 255, g: 255, b: 255 },
        at: Translation { x: 5, y: 5, z: 20 },
    }
}

/// The ground plane's description.
pub fn plane_entity() -> (e: EntitySpec)
    ensures
        e == spec_plane_entity(),
{
    EntitySpec::Shape {
        shape: ShapeSpec::Plane { columns: 100, rows: 100 },
        at: Translation { x: 0, y: 0, z: 0 },
    }
}

/// The whole scene: camera, sphere, light and ground plane, in the order
/// they are registered with the engine.
pub fn demo_scene() -> (s: Vec<EntitySpec>)
    ensures
        s@ == spec_demo_scene(),
{
    let mut s: Vec<EntitySpec> = Vec::new();
    s.push(camera_entity());
    s.push(sphere_entity());
    s.push(light_entity());
    s.push(plane_entity());
    s
}

/// The camera's projection is built for exactly the window's pixel
/// dimensions, so the rendered image is not stretched.
pub proof fn lemma_camera_fits_window()
    ensures
        spec_camera_entity() matches EntitySpec::Camera { width, height, .. }
            && width == spec_window_dimensions().0
            && height == spec_window_dimensions().1,
{
}

} // verus!
