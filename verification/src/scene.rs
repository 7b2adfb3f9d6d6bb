//! The scene registry — a fixed, ordered list of placed cubes — and the
//! per-frame renderer logic that turns it into an ordered list of draw
//! submissions.

use vstd::prelude::*;

verus! {

use crate::camera::{in_view_range, view_matrix_spec, Camera, Trig};
use crate::mat4::{translation_spec, Mat4, Vec3};

/// What a cube looks like: one flat color, or one texture handle, chosen at
/// construction.
#[derive(Clone, Copy, Debug, PartialEq, Eq, Structural)]
pub enum Appearance {
    Flat(Vec3),
    Textured(u32),
}

/// One placed cube: a world position and an appearance, both immutable
/// after construction.
#[derive(Clone, Copy, Debug, PartialEq, Eq, Structural)]
pub struct SceneObject {
    pub position: Vec3,
    pub appearance: Appearance,
}

/// The read-only ordered list of scene objects. Iteration order is draw
/// order; the registry is built once and never resized.
pub struct SceneRegistry {
    objects: Vec<SceneObject>,
}

impl SceneRegistry {
    /// The objects, in draw order.
    pub closed spec fn view(self) -> Seq<SceneObject> {
        self.objects@
    }

    /// Freeze a list of objects into a registry.
    pub fn new(objects: Vec<SceneObject>) -> (s: SceneRegistry)
        ensures
            s.view() == objects@,
    {
        SceneRegistry { objects }
    }

    /// How many objects the scene holds.
    pub fn len(&self) -> (n: usize)
        ensures
            n == self.view().len(),
    {
        self.objects.len()
    }

    /// The object at draw position `i`.
    pub fn get(&self, i: usize) -> (o: &SceneObject)
        requires
            i < self.view().len(),
        ensures
            *o == self.view()[i as int],
    {
        &self.objects[i]
    }
}

/// One draw submission: the model transform to upload, and the appearance
/// to bind, for one object.
#[derive(Clone, Copy, Debug, PartialEq, Eq, Structural)]
pub struct DrawSubmission {
    pub model: Mat4,
    pub appearance: Appearance,
}

/// Everything one frame uploads: the view transform, computed once, and one
/// draw submission per scene object, in registry order.
pub struct FramePlan {
    pub view: Mat4,
    pub draws: Vec<DrawSubmission>,
}

/// Compose the draw work of one frame: the camera's view transform, and for
/// each scene object, in registry order, exactly one submission whose model
/// transform is the translation to that object's stored position — rotation
/// and scale are identity in this scene — and whose appearance is the
/// object's own.
pub fn plan_frame(camera: &Camera, t: &Trig, scene: &SceneRegistry) -> (plan: FramePlan)
    requires
        t.wf(),
        in_view_range(camera.position),
    ensures
        plan.view == view_matrix_spec(camera.position, *t),
        plan.draws@.len() == scene.view().len(),
        forall|i: int|
            0 <= i < scene.view().len() ==> (#[trigger] plan.draws@[i]).model == translation_spec(
                scene.view()[i].position,
            ) && plan.draws@[i].appearance == scene.view()[i].appearance,
{
    let view = camera.view_matrix(t);
    let mut draws: Vec<DrawSubmission> = Vec::new();
    let n = scene.len();
    let mut i: usize = 0;
    while i < n
        invariant
            n == scene.view().len(),
            i <= n,
            draws@.len() == i,
            forall|j: int|
                0 <= j < i ==> (#[trigger] draws@[j]).model == translation_spec(
                    scene.view()[j].position,
                ) && draws@[j].appearance == scene.view()[j].appearance,
        decreases n - i,
    {
        let object = scene.get(i);
        draws.push(DrawSubmission {
            model: Mat4::translation(object.position),
            appearance: object.appearance,
        });
        i = i + 1;
    }
    FramePlan { view, draws }
}

} // verus!
