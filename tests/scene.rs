use rust_ray_tracer::scene::{a, c, image_height, Focus, Point, Surface, SAMPLES_PER_PIXEL, WIDTH};

#[test]
fn height_follows_aspect_ratio() {
    assert_eq!(image_height(256, 16, 9), 144);
    assert_eq!(image_height(400, 16, 9), 225);
    assert_eq!(image_height(10, 3, 1), 3);
}

#[test]
fn scene_a_holds_a_hollow_glass_shell() {
    let scene = a();
    assert_eq!((scene.width, scene.height), (WIDTH, 144));
    assert_eq!(scene.balls.len(), 4);
    assert_eq!(scene.balls[2].radius, -450);
    assert_eq!(scene.surfaces[scene.balls[2].surface], Surface::Dielectric { index: 1100 });
    assert_eq!(scene.camera.focus, Focus::OnTarget);
    assert_eq!(scene.camera.lookfrom, Point { x: 3000, y: 3000, z: 2000 });
    assert!(!scene.random_field);
    assert!(scene.balls.iter().all(|b| b.surface < scene.surfaces.len()));
}

#[test]
fn scene_c_is_the_random_field() {
    let scene = c();
    assert!(scene.random_field);
    assert_eq!(scene.camera.focus, Focus::At(10000));
    assert_eq!(scene.camera.aperture, 100);
    assert_eq!(scene.balls[0].radius, 1000000);
    assert_eq!(scene.balls.len(), 4);
    assert!(SAMPLES_PER_PIXEL > 0);
}
