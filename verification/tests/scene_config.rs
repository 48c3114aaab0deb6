use fly_scene::scene::{
    camera_entity, demo_scene, light_entity, plane_entity, sphere_entity, window_dimensions,
    EntitySpec, Rgb8, ShapeSpec, Translation,
};

#[test]
fn camera_is_at_origin_depth_ten_and_fly_controlled() {
    assert_eq!(
        camera_entity(),
        EntitySpec::Camera {
            width: 1024,
            height: 768,
            at: Translation { x: 0, y: 0, z: 10 },
            fly_controlled: true,
        }
    );
}

#[test]
fn sphere_is_hundred_by_hundred_at_origin() {
    assert_eq!(
        sphere_entity(),
        EntitySpec::Shape {
            shape: ShapeSpec::Sphere { segments: 100, rings: 100 },
            at: Translation { x: 0, y: 0, z: 0 },
        }
    );
}

#[test]
fn light_is_white_intensity_ten_above_the_shapes() {
    assert_eq!(
        light_entity(),
        EntitySpec::Light {
            intensity: 10,
            color: Rgb8 { r: 255, g: 255, b: 255 },
            at: Translation { x: 5, y: 5, z: 20 },
        }
    );
}

#[test]
fn plane_is_hundred_by_hundred_at_origin() {
    assert_eq!(
        plane_entity(),
        EntitySpec::Shape {
            shape: ShapeSpec::Plane { columns: 100, rows: 100 },
            at: Translation { x: 0, y: 0, z: 0 },
        }
    );
}

#[test]
fn scene_registers_camera_sphere_light_plane_in_order() {
    let scene = demo_scene();
    assert_eq!(
        scene,
        vec![camera_entity(), sphere_entity(), light_entity(), plane_entity()]
    );
}

#[test]
fn camera_image_matches_window_dimensions() {
    let (w, h) = window_dimensions();
    assert_eq!((w, h), (1024, 768));
    match camera_entity() {
        EntitySpec::Camera { width, height, .. } => {
            assert_eq!(width, w);
            assert_eq!(height, h);
        }
        other => panic!("the camera entity is {:?}", other),
    }
}
