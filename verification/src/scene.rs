//! The scene: the size of the image, the spheres, and which of them are
//! lights.

use crate::integrator::{Path, Stage};
use crate::object::Object;
use crate::ppm::pixel_count;
use vstd::arithmetic::div_mod::{lemma_fundamental_div_mod, lemma_multiply_divide_lt};
use vstd::prelude::*;

verus! {

/// A scene as it is read: the size of the image in pixels, the number of
/// samples to take of every pixel, and the spheres.
#[derive(Debug)]
pub struct SceneData {
    pub width: i32,
    pub height: i32,
    pub samples_per_pixel: i32,
    pub objects: Vec<Object>,
}

/// A scene ready to be rendered: what was read, and the indices of the
/// spheres that are lights. Nothing changes it once it is made.
#[derive(Debug)]
pub struct Scene {
    width: i32,
    height: i32,
    samples_per_pixel: i32,
    objects: Vec<Object>,
    lights: Vec<usize>,
}

/// What a scene holds.
pub struct SceneView {
    pub width: int,
    pub height: int,
    pub samples_per_pixel: int,
    pub objects: Seq<Object>,
    pub lights: Seq<usize>,
}

/// `lights` lists, in ascending order, the index of every object that is a
/// light, and nothing else.
pub open spec fn is_light_list(objects: Seq<Object>, lights: Seq<usize>) -> bool {
    &&& forall|k: int|
        0 <= k < lights.len() ==> (#[trigger] lights[k]) < objects.len()
            && objects[lights[k] as int].spec_is_emissive()
    &&& forall|k: int, l: int| 0 <= k < l < lights.len() ==> lights[k] < lights[l]
    &&& forall|i: int|
        0 <= i < objects.len() && (#[trigger] objects[i]).spec_is_emissive() ==> lights.contains(
            i as usize,
        )
}

/// The objects decide the list of lights.
pub proof fn lemma_light_list_is_unique(objects: Seq<Object>, a: Seq<usize>, b: Seq<usize>)
    requires
        is_light_list(objects, a),
        is_light_list(objects, b),
    ensures
        a == b,
    decreases a.len(),
{
    if a.len() == 0 || b.len() == 0 {
        // A list that is not empty names a light, which the other list then holds too.
        if a.len() > 0 {
            assert(b.contains(a[0]));
        }
        if b.len() > 0 {
            assert(a.contains(b[0]));
        }
    } else {
        // Either list holds the last light of the other, and nothing beyond its own last.
        let x = a.last();
        let y = b.last();
        assert(b.contains(x));
        assert(a.contains(y));
        assert(x == y);
        // Without it, what is left of either list holds the lights among
        // the objects before it.
        let rest = objects.take(x as int);
        let a0 = a.drop_last();
        let b0 = b.drop_last();
        assert(is_light_list(rest, a0)) by {
            assert forall|i: int| 0 <= i < rest.len() && (#[trigger] rest[i]).spec_is_emissive() implies a0.contains(
                i as usize,
            ) by {
                let k = choose|k: int| 0 <= k < a.len() && a[k] == i as usize;
                assert(a0[k] == i as usize);
            }
        }
        assert(is_light_list(rest, b0)) by {
            assert forall|i: int| 0 <= i < rest.len() && (#[trigger] rest[i]).spec_is_emissive() implies b0.contains(
                i as usize,
            ) by {
                let k = choose|k: int| 0 <= k < b.len() && b[k] == i as usize;
                assert(b0[k] == i as usize);
            }
        }
        lemma_light_list_is_unique(rest, a0, b0);
        assert(a == a0.push(x));
        assert(b == b0.push(y));
    }
}

/// The seed of the random numbers of one pixel: the seed of the image plus
/// the place of the pixel, wrapped round at two to the power 64.
pub open spec fn spec_pixel_seed(seed: u64, pixel: u64) -> u64 {
    ((seed + pixel) % 0x1_0000_0000_0000_0000) as u64
}

/// The seed of the random numbers of one pixel, see [`spec_pixel_seed`].
/// With a generator of its own for every pixel no two workers share one,
/// and the same seed of the image gives the same numbers again.
#[verifier::when_used_as_spec(spec_pixel_seed)]
pub fn pixel_seed(seed: u64, pixel: u64) -> (r: u64)
    ensures
        r == spec_pixel_seed(seed, pixel),
{
    seed.wrapping_add(pixel)
}

/// Under one seed of the image no two pixels have the same seed.
pub proof fn lemma_pixel_seeds_differ(seed: u64, a: u64, b: u64)
    requires
        a != b,
    ensures
        spec_pixel_seed(seed, a) != spec_pixel_seed(seed, b),
{
}

impl SceneView {
    /// The number of pixels: none unless width and height are positive.
    pub open spec fn pixel_count(self) -> nat {
        pixel_count(self.width, self.height)
    }

    /// The light that the draw `draw` picks: the draw is reduced modulo the
    /// number of lights. `None` in a scene without lights.
    pub open spec fn light_for_draw(self, draw: usize) -> Option<usize> {
        if self.lights.len() == 0 {
            None
        } else {
            Some(self.lights[draw as int % self.lights.len() as int])
        }
    }
}

impl View for Scene {
    type V = SceneView;

    closed spec fn view(&self) -> SceneView {
        SceneView {
            width: self.width as int,
            height: self.height as int,
            samples_per_pixel: self.samples_per_pixel as int,
            objects: self.objects@,
            lights: self.lights@,
        }
    }
}

/// Calls `rand::random::<usize>()`, which draws a `usize` from the
/// generator of the current thread. Nothing is claimed of the number drawn.
#[verifier::external_body]
fn random_index() -> usize {
    rand::random::<usize>()
}

impl Scene {
    #[verifier::type_invariant]
    spec fn inv(self) -> bool {
        is_light_list(self.objects@, self.lights@)
    }

    /// The scene of `data`, with its lights found: the objects whose
    /// emission is not black. A scene may have none.
    pub fn new(data: SceneData) -> (r: Scene)
        ensures
            r@.width == data.width,
            r@.height == data.height,
            r@.samples_per_pixel == data.samples_per_pixel,
            r@.objects == data.objects@,
            is_light_list(r@.objects, r@.lights),
    {
        let mut lights: Vec<usize> = Vec::new();
        let mut i: usize = 0;
        while i < data.objects.len()
            invariant
                i <= data.objects.len(),
                is_light_list(data.objects@.take(i as int), lights@),
            decreases data.objects.len() - i,
        {
            let ghost after = data.objects@.take(i + 1);
            let ghost old_lights = lights@;
            if data.objects[i].is_emissive() {
                lights.push(i);
                assert(lights@[old_lights.len() as int] == i);
            }
            assert(is_light_list(after, lights@)) by {
                assert forall|j: int| 0 <= j < after.len() && (#[trigger] after[j]).spec_is_emissive() implies lights@.contains(
                    j as usize,
                ) by {
                    if j < i {
                        let k = choose|k: int| 0 <= k < old_lights.len() && old_lights[k] == j as usize;
                        assert(lights@[k] == j as usize);
                    }
                }
            }
            i = i + 1;
        }
        assert(data.objects@.take(i as int) == data.objects@);
        Scene {
            width: data.width,
            height: data.height,
            samples_per_pixel: data.samples_per_pixel,
            objects: data.objects,
            lights,
        }
    }

    /// The width of the image in pixels.
    pub fn width(&self) -> (r: i32)
        ensures
            r == self@.width,
    {
        self.width
    }

    /// The height of the image in pixels.
    pub fn height(&self) -> (r: i32)
        ensures
            r == self@.height,
    {
        self.height
    }

    /// The number of samples to take of every pixel.
    pub fn samples_per_pixel(&self) -> (r: i32)
        ensures
            r == self@.samples_per_pixel,
    {
        self.samples_per_pixel
    }

    /// The spheres.
    pub fn objects(&self) -> (r: &Vec<Object>)
        ensures
            r@ == self@.objects,
    {
        &self.objects
    }

    /// The indices of the spheres that are lights, in ascending order.
    pub fn lights(&self) -> (r: &Vec<usize>)
        ensures
            r@ == self@.lights,
            is_light_list(self@.objects, self@.lights),
    {
        proof {
            use_type_invariant(self);
        }
        &self.lights
    }

    /// Whether the scene has a light at all. Where it has none there is no
    /// direct lighting to sample.
    pub fn has_lights(&self) -> (r: bool)
        ensures
            r == (self@.lights.len() > 0),
            r == exists|i: int|
                0 <= i < self@.objects.len() && (#[trigger] self@.objects[i]).spec_is_emissive(),
    {
        proof {
            use_type_invariant(self);
            if self.lights@.len() > 0 {
                let i = self.lights@[0] as int;
                assert(0 <= i < self@.objects.len() && self@.objects[i].spec_is_emissive());
            }
        }
        self.lights.len() > 0
    }

    /// A new light path in this scene. It will ask for direct lighting only
    /// if the scene has lights.
    pub fn begin_path(&self) -> (r: Path)
        ensures
            r == (Path { stage: Stage::Primary, depth: 0, surface: 0, lit: self@.lights.len() > 0 }),
            r.wf(),
    {
        Path::start(self.has_lights())
    }

    /// The light that a random number picks: `draw` is reduced modulo the
    /// number of lights, and the result is the index of that light among the
    /// objects. `None` in a scene without lights.
    pub fn light_for_draw(&self, draw: usize) -> (r: Option<usize>)
        ensures
            r == self@.light_for_draw(draw),
            r matches Some(i) ==> i < self@.objects.len() && self@.objects[i as int].spec_is_emissive(),
    {
        proof {
            use_type_invariant(self);
        }
        if self.lights.len() == 0 {
            None
        } else {
            Some(self.lights[draw % self.lights.len()])
        }
    }

    /// Picks one of the lights at random, each draw on its own. `None` in a
    /// scene without lights, and only there.
    pub fn pick_random_light(&self) -> (r: Option<usize>)
        ensures
            r is None <==> self@.lights.len() == 0,
            r matches Some(i) ==> self@.lights.contains(i) && i < self@.objects.len()
                && self@.objects[i as int].spec_is_emissive(),
    {
        self.light_for_draw(random_index())
    }

    /// The number of pixels of the image.
    pub fn pixel_count(&self) -> (r: u64)
        ensures
            r == self@.pixel_count(),
    {
        if self.width > 0 && self.height > 0 {
            assert(0 < self.width * self.height <= 0x7fff_ffff * 0x7fff_ffff) by (nonlinear_arith)
                requires
                    0 < self.width <= 0x7fff_ffff,
                    0 < self.height <= 0x7fff_ffff,
            ;
            (self.width as u64) * (self.height as u64)
        } else {
            0
        }
    }

    /// The column and the row of the pixel `k`, counted row by row from the
    /// first: `None` unless `k` is below the number of pixels.
    pub fn pixel_at(&self, k: u64) -> (r: Option<(i32, i32)>)
        ensures
            r is Some <==> k < self@.pixel_count(),
            r matches Some((column, row)) ==> 0 <= column < self@.width && 0 <= row < self@.height
                && column + row * self@.width == k,
    {
        if k >= self.pixel_count() {
            return None;
        }
        let width: u64 = self.width as u64;
        proof {
            lemma_fundamental_div_mod(k as int, width as int);
            lemma_multiply_divide_lt(k as int, width as int, self.height as int);
            assert((k / width) * width == width * (k / width)) by (nonlinear_arith);
        }
        Some(((k % width) as i32, (k / width) as i32))
    }

    /// The place in the row-by-row order of the pixel in column `column` of
    /// row `row`: `None` unless both lie inside the image.
    pub fn pixel_index(&self, column: i32, row: i32) -> (r: Option<u64>)
        ensures
            r is Some <==> 0 <= column < self@.width && 0 <= row < self@.height,
            r matches Some(k) ==> k == column + row * self@.width && k < self@.pixel_count(),
    {
        if column < 0 || column >= self.width || row < 0 || row >= self.height {
            return None;
        }
        assert(column + row * self.width < self.width * self.height <= 0x7fff_ffff * 0x7fff_ffff
            && 0 <= row * self.width) by (nonlinear_arith)
            requires
                0 <= column < self.width <= 0x7fff_ffff,
                0 <= row < self.height <= 0x7fff_ffff,
        ;
        Some((column as u64) + (row as u64) * (self.width as u64))
    }
}

} // verus!
