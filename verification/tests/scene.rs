use raykernel::error::KernelError;
use raykernel::math::normal::Normal;
use raykernel::math::point::Point;
use raykernel::math::ray::Ray;
use raykernel::math::vector::Vector;
use raykernel::scene::plane::Plane;
use raykernel::scene::primitive::Primitive;
use raykernel::scene::sphere::Sphere;
use raykernel::scene::world::World;

#[test]
// should construct plane correctly
fn plane_test_new() {
    let plane: Plane = Plane::new(&Point::new(1, 2, 3), &Normal::new(-9, 3, -1));
    assert_eq!(plane.point.x, 1);
    assert_eq!(plane.point.y, 2);
    assert_eq!(plane.point.z, 3);
    assert_eq!(plane.normal.x, -9);
    assert_eq!(plane.normal.y, 3);
    assert_eq!(plane.normal.z, -1);
}

#[test]
// test hit
fn plane_test_hit() {
    let mut plane: Plane = Plane::new(&Point::new(0, 0, 0), &Normal::new(0, 1, 0));
    let ray: Ray = Ray::new(&Point::new(0, 10, 0), &Vector::new(0, -1, 0));

    // test 1
    let mut hit = plane.hit(&ray).unwrap();
    assert_eq!(hit.point.x, 0);
    assert_eq!(hit.point.y, 0);
    assert_eq!(hit.point.z, 0);
    assert_eq!(hit.t, 10);

    // test 2
    plane.point.y = 5;
    hit = plane.hit(&ray).unwrap();
    assert_eq!(hit.point.x, 0);
    assert_eq!(hit.point.y, 5);
    assert_eq!(hit.point.z, 0);
    assert_eq!(hit.t, 5);
}

#[test]
// a ray parallel to the plane misses: the zero denominator is guarded
fn plane_test_parallel_miss() {
    let plane: Plane = Plane::new(&Point::new(0, 0, 0), &Normal::new(0, 1, 0));
    let ray: Ray = Ray::new(&Point::new(0, 10, 0), &Vector::new(1, 0, 0));
    assert!(plane.hit(&ray).is_none());
}

#[test]
// a ray starting on the plane does not intersect itself
fn plane_test_self_intersection() {
    let plane: Plane = Plane::new(&Point::new(0, 0, 0), &Normal::new(0, 1, 0));
    let away: Ray = Ray::new(&Point::new(0, 0, 0), &Vector::new(0, 1, 0));
    assert!(plane.hit(&away).is_none());
    let toward: Ray = Ray::new(&Point::new(3, 0, 4), &Vector::new(0, -1, 0));
    assert!(plane.hit(&toward).is_none());
}

#[test]
// the plane reports its own normal at the hit point
fn plane_test_hit_normal() {
    let plane: Plane = Plane::new(&Point::new(0, 0, 0), &Normal::new(0, 1, 0));
    let ray: Ray = Ray::new(&Point::new(0, 10, 0), &Vector::new(0, -1, 0));
    let hit = plane.hit(&ray).unwrap();
    assert_eq!(hit.normal.x, 0);
    assert_eq!(hit.normal.y, 1);
    assert_eq!(hit.normal.z, 0);
}

#[test]
// should construct sphere correctly
fn sphere_new_fields() {
    let sphere: Sphere = Sphere::new(7, Point::new(1, 2, 3));
    assert_eq!(sphere.radius, 7);
    assert_eq!(sphere.center.x, 1);
    assert_eq!(sphere.center.y, 2);
    assert_eq!(sphere.center.z, 3);
}

#[test]
// construction validates the radius
fn sphere_new_checked() {
    assert!(Sphere::new_checked(1, Point::new(0, 0, 0)).is_ok());
    assert_eq!(
        Sphere::new_checked(0, Point::new(0, 0, 0)).unwrap_err(),
        KernelError::InvalidConstruction
    );
    assert_eq!(
        Sphere::new_checked(-3, Point::new(0, 0, 0)).unwrap_err(),
        KernelError::InvalidConstruction
    );
}

#[test]
// test hit
fn sphere_test_hit() {
    let sphere: Sphere = Sphere::new(1, Point::new(0, 0, 5));
    let ray: Ray = Ray::new(&Point::new(0, 0, 0), &Vector::new(0, 0, 1));

    let hit = sphere.hit(&ray).unwrap();
    assert_eq!(hit.point.x, 0);
    assert_eq!(hit.point.y, 0);
    assert_eq!(hit.point.z, 4);
    assert_eq!(hit.t, 4);
}

#[test]
// the sphere reports the outward radius vector as the normal
fn sphere_test_hit_normal() {
    let sphere: Sphere = Sphere::new(1, Point::new(0, 0, 5));
    let ray: Ray = Ray::new(&Point::new(0, 0, 0), &Vector::new(0, 0, 1));
    let hit = sphere.hit(&ray).unwrap();
    assert_eq!(hit.normal.x, 0);
    assert_eq!(hit.normal.y, 0);
    assert_eq!(hit.normal.z, -1);
}

#[test]
// a ray exactly tangent to the sphere (zero discriminant) is one hit, not a miss
fn sphere_test_tangent_hit() {
    let sphere: Sphere = Sphere::new(1, Point::new(0, 0, 5));
    let ray: Ray = Ray::new(&Point::new(1, 0, 0), &Vector::new(0, 0, 1));
    let hit = sphere.hit(&ray).unwrap();
    assert_eq!(hit.t, 5);
    assert_eq!(hit.point.x, 1);
    assert_eq!(hit.point.y, 0);
    assert_eq!(hit.point.z, 5);
}

#[test]
// a ray starting outside and pointing away misses
fn sphere_test_miss_behind() {
    let sphere: Sphere = Sphere::new(1, Point::new(0, 0, 5));
    let ray: Ray = Ray::new(&Point::new(0, 0, 0), &Vector::new(0, 0, -1));
    assert!(sphere.hit(&ray).is_none());
}

#[test]
// a ray starting inside the sphere hits at the clamped parameter zero
fn sphere_test_inside_clamp() {
    let sphere: Sphere = Sphere::new(2, Point::new(0, 0, 0));
    let ray: Ray = Ray::new(&Point::new(0, 0, 0), &Vector::new(0, 0, 1));
    let hit = sphere.hit(&ray).unwrap();
    assert_eq!(hit.t, 0);
    assert_eq!(hit.point.x, 0);
    assert_eq!(hit.point.y, 0);
    assert_eq!(hit.point.z, 0);
}

#[test]
// Should construct correctly
fn world_test_new() {
    let mut world = World::new(0);
    assert_eq!(world.primitives.len(), 0);
    assert_eq!(world.primitives.capacity(), 0);

    // construct with size
    world = World::new(5);
    assert_eq!(world.primitives.len(), 0);
    assert_eq!(world.primitives.capacity(), 5);
}

#[test]
// should add primitive(s)
fn test_add_primitive() {
    let mut world = World::new(3);
    assert_eq!(world.primitives.len(), 0);

    // add sphere
    let mut primitive: Primitive = Primitive::Sphere(Sphere::new(1, Point::new(0, 0, 0)));
    world.add_primitive(primitive);
    assert_eq!(world.primitives.len(), 1);

    // add plane
    primitive = Primitive::Plane(Plane::new(&Point::new(0, 0, 0), &Normal::new(0, 1, 0)));
    world.add_primitive(primitive);
    assert_eq!(world.primitives.len(), 2);
}

#[test]
// test hit
fn test_hit_true() {
    let mut world = World::new(1);

    // add sphere
    let primitive: Primitive = Primitive::Sphere(Sphere::new(1, Point::new(0, 0, 5)));
    world.add_primitive(primitive);

    let ray = Ray::new(&Point::new(0, 0, 0), &Vector::new(0, 0, 1));

    // we have a hit
    let result = world.hit(&ray);
    let p = result.unwrap();
    assert_eq!(p.x, 0);
    assert_eq!(p.y, 0);
    assert_eq!(p.z, 4);
}

#[test]
#[should_panic]
// test hit
fn test_hit_false() {
    let mut world = World::new(1);

    // add sphere
    let primitive: Primitive = Primitive::Sphere(Sphere::new(1, Point::new(0, 0, 5)));
    world.add_primitive(primitive);

    let ray = Ray::new(&Point::new(0, 0, 0), &Vector::new(0, 0, -1));

    // no hit
    let result = world.hit(&ray);
    result.unwrap(); // should panic
}

#[test]
// the nearest hit wins, not the first primitive in insertion order
fn test_hit_nearest() {
    let mut world = World::new(2);
    world.add_primitive(Primitive::Sphere(Sphere::new(1, Point::new(0, 0, 9))));
    world.add_primitive(Primitive::Sphere(Sphere::new(1, Point::new(0, 0, 5))));

    let ray = Ray::new(&Point::new(0, 0, 0), &Vector::new(0, 0, 1));
    let p = world.hit(&ray).unwrap();
    assert_eq!(p.z, 4);

    let (index, hit) = world.hit_detailed(&ray).unwrap();
    assert_eq!(index, 1);
    assert_eq!(hit.t, 4);
}

#[test]
// on a tie the earliest primitive wins
fn test_hit_tie_keeps_first() {
    let mut world = World::new(2);
    world.add_primitive(Primitive::Sphere(Sphere::new(1, Point::new(0, 0, 5))));
    world.add_primitive(Primitive::Sphere(Sphere::new(1, Point::new(0, 0, 5))));

    let ray = Ray::new(&Point::new(0, 0, 0), &Vector::new(0, 0, 1));
    let (index, hit) = world.hit_detailed(&ray).unwrap();
    assert_eq!(index, 0);
    assert_eq!(hit.t, 4);
}

#[test]
// a sphere and a plane mix in one world; the plane can be the nearest
fn test_hit_mixed_world() {
    let mut world = World::new(2);
    world.add_primitive(Primitive::Sphere(Sphere::new(1, Point::new(0, 0, 9))));
    world.add_primitive(Primitive::Plane(Plane::new(
        &Point::new(0, 0, 3),
        &Normal::new(0, 0, 1),
    )));

    let ray = Ray::new(&Point::new(0, 0, 0), &Vector::new(0, 0, 1));
    let (index, hit) = world.hit_detailed(&ray).unwrap();
    assert_eq!(index, 1);
    assert_eq!(hit.t, 3);
    assert_eq!(hit.point.z, 3);
}
