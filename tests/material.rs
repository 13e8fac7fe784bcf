use ray_tracing_001::color::Color;
use ray_tracing_001::material::Lambertian;

#[test]
fn lambertian_attenuates_by_its_albedo() {
    let albedo = Color::new(127, 64, 25);
    let m = Lambertian::new(albedo);
    assert_eq!(m.attenuation(), albedo);
}

#[test]
fn lambertian_keeps_distinct_albedos() {
    let a = Lambertian::new(Color::new(1, 2, 3));
    let b = Lambertian::new(Color::new(3, 2, 1));
    assert_ne!(a, b);
    assert_eq!(b.attenuation(), Color::new(3, 2, 1));
}
