//! The scene graph: a tree of entities, each with a transform, components and
//! children, and the walks over it.

use crate::camera::Camera;
use crate::component::Component;
use crate::light::Light;
use crate::model::{resolution, LoadError, LoadFailure, Model};
use crate::scene::LoadedResources;
use crate::text::str_eq;
use crate::transform::Transform;
use vstd::prelude::*;
use vstd::string::StringExecFns;

verus! {

/// A node of the scene graph.
#[derive(Debug)]
pub struct Entity {
    pub name: String,
    pub enabled: bool,
    pub transform: Transform,
    pub components: Vec<Component>,
    pub children: Vec<Entity>,
}

/// The order in which a walk visits the subtree of `entity`: the entity
/// first, then the subtrees of its children, the last child's first.
pub open spec fn walk(entity: Entity) -> Seq<Entity>
    decreases entity,
{
    seq![entity] + walk_children(entity.children@, entity.children@.len() as int)
}

/// The walk over the subtrees of the first `n` of `children`, the last of
/// them first.
pub open spec fn walk_children(children: Seq<Entity>, n: int) -> Seq<Entity>
    decreases children, n,
{
    if n <= 0 || n > children.len() {
        Seq::empty()
    } else {
        walk(children[n - 1]) + walk_children(children, n - 1)
    }
}

/// What a walk still has to visit when `stack` holds its open entities, the
/// next one on top.
pub open spec fn pending(stack: Seq<&Entity>) -> Seq<Entity>
    decreases stack.len(),
{
    if stack.len() == 0 {
        Seq::empty()
    } else {
        walk(*stack.last()) + pending(stack.drop_last())
    }
}

/// The number of entities in the subtree of `entity`.
pub open spec fn size(entity: Entity) -> nat
    decreases entity,
{
    1 + size_children(entity.children@, entity.children@.len() as int)
}

/// The number of entities in the subtrees of the first `n` of `children`.
pub open spec fn size_children(children: Seq<Entity>, n: int) -> nat
    decreases children, n,
{
    if n <= 0 || n > children.len() {
        0
    } else {
        size(children[n - 1]) + size_children(children, n - 1)
    }
}

/// The components of kind model among the first `n` of `components`, in order.
pub open spec fn models_in(components: Seq<Component>, n: int) -> Seq<Model>
    decreases n,
{
    if n <= 0 {
        Seq::empty()
    } else {
        match components[n - 1] {
            Component::Model(model) => models_in(components, n - 1).push(model),
            _ => models_in(components, n - 1),
        }
    }
}

/// The components of kind light among the first `n` of `components`, in order.
pub open spec fn lights_in(components: Seq<Component>, n: int) -> Seq<Light>
    decreases n,
{
    if n <= 0 {
        Seq::empty()
    } else {
        match components[n - 1] {
            Component::Light(light) => lights_in(components, n - 1).push(light),
            _ => lights_in(components, n - 1),
        }
    }
}

/// The components of kind camera among the first `n` of `components`, in order.
pub open spec fn cameras_in(components: Seq<Component>, n: int) -> Seq<Camera>
    decreases n,
{
    if n <= 0 {
        Seq::empty()
    } else {
        match components[n - 1] {
            Component::Camera(camera) => cameras_in(components, n - 1).push(camera),
            _ => cameras_in(components, n - 1),
        }
    }
}

/// The behaviors among the first `n` of `components`, in order.
pub open spec fn behaviors_in(components: Seq<Component>, n: int) -> Seq<usize>
    decreases n,
{
    if n <= 0 {
        Seq::empty()
    } else {
        match components[n - 1] {
            Component::Behavior(behavior) => behaviors_in(components, n - 1).push(behavior),
            _ => behaviors_in(components, n - 1),
        }
    }
}

/// The first `n` of `components` with the model components among them replaced,
/// in order, by `models`.
pub open spec fn with_models(components: Seq<Component>, models: Seq<Model>, n: int) -> Seq<Component>
    decreases n,
{
    if n <= 0 {
        Seq::empty()
    } else {
        match components[n - 1] {
            Component::Model(_) => with_models(components, models, n - 1).push(
                Component::Model(models[models_in(components, n - 1).len() as int]),
            ),
            other => with_models(components, models, n - 1).push(other),
        }
    }
}

/// Replacing the model components among the first `n` components takes only as
/// many replacements as there are such components, and keeps the number of
/// components.
pub proof fn lemma_with_models(components: Seq<Component>, a: Seq<Model>, b: Seq<Model>, n: int)
    requires
        0 <= n <= components.len(),
        models_in(components, n).len() <= a.len(),
        models_in(components, n).len() <= b.len(),
        forall|k: int| 0 <= k < models_in(components, n).len() ==> a[k] == b[k],
    ensures
        with_models(components, a, n) == with_models(components, b, n),
        with_models(components, a, n).len() == n,
    decreases n,
{
    if n > 0 {
        lemma_with_models(components, a, b, n - 1);
    }
}

/// The first `n` of `components` with the light components among them replaced,
/// in order, by `lights`.
pub open spec fn with_lights(components: Seq<Component>, lights: Seq<Light>, n: int) -> Seq<Component>
    decreases n,
{
    if n <= 0 {
        Seq::empty()
    } else {
        match components[n - 1] {
            Component::Light(_) => with_lights(components, lights, n - 1).push(
                Component::Light(lights[lights_in(components, n - 1).len() as int]),
            ),
            other => with_lights(components, lights, n - 1).push(other),
        }
    }
}

/// Replacing the light components among the first `n` components takes only as
/// many replacements as there are such components, and keeps the number of
/// components.
pub proof fn lemma_with_lights(components: Seq<Component>, a: Seq<Light>, b: Seq<Light>, n: int)
    requires
        0 <= n <= components.len(),
        lights_in(components, n).len() <= a.len(),
        lights_in(components, n).len() <= b.len(),
        forall|k: int| 0 <= k < lights_in(components, n).len() ==> a[k] == b[k],
    ensures
        with_lights(components, a, n) == with_lights(components, b, n),
        with_lights(components, a, n).len() == n,
    decreases n,
{
    if n > 0 {
        lemma_with_lights(components, a, b, n - 1);
    }
}

/// The first `n` of `components` with the camera components among them replaced,
/// in order, by `cameras`.
pub open spec fn with_cameras(components: Seq<Component>, cameras: Seq<Camera>, n: int) -> Seq<Component>
    decreases n,
{
    if n <= 0 {
        Seq::empty()
    } else {
        match components[n - 1] {
            Component::Camera(_) => with_cameras(components, cameras, n - 1).push(
                Component::Camera(cameras[cameras_in(components, n - 1).len() as int]),
            ),
            other => with_cameras(components, cameras, n - 1).push(other),
        }
    }
}

/// Replacing the camera components among the first `n` components takes only as
/// many replacements as there are such components, and keeps the number of
/// components.
pub proof fn lemma_with_cameras(components: Seq<Component>, a: Seq<Camera>, b: Seq<Camera>, n: int)
    requires
        0 <= n <= components.len(),
        cameras_in(components, n).len() <= a.len(),
        cameras_in(components, n).len() <= b.len(),
        forall|k: int| 0 <= k < cameras_in(components, n).len() ==> a[k] == b[k],
    ensures
        with_cameras(components, a, n) == with_cameras(components, b, n),
        with_cameras(components, a, n).len() == n,
    decreases n,
{
    if n > 0 {
        lemma_with_cameras(components, a, b, n - 1);
    }
}

/// The first `n` of `components` with the behaviors among them replaced,
/// in order, by `behaviors`.
pub open spec fn with_behaviors(components: Seq<Component>, behaviors: Seq<usize>, n: int) -> Seq<Component>
    decreases n,
{
    if n <= 0 {
        Seq::empty()
    } else {
        match components[n - 1] {
            Component::Behavior(_) => with_behaviors(components, behaviors, n - 1).push(
                Component::Behavior(behaviors[behaviors_in(components, n - 1).len() as int]),
            ),
            other => with_behaviors(components, behaviors, n - 1).push(other),
        }
    }
}

/// Replacing the behaviors among the first `n` components takes only as
/// many replacements as there are such components, and keeps the number of
/// components.
pub proof fn lemma_with_behaviors(components: Seq<Component>, a: Seq<usize>, b: Seq<usize>, n: int)
    requires
        0 <= n <= components.len(),
        behaviors_in(components, n).len() <= a.len(),
        behaviors_in(components, n).len() <= b.len(),
        forall|k: int| 0 <= k < behaviors_in(components, n).len() ==> a[k] == b[k],
    ensures
        with_behaviors(components, a, n) == with_behaviors(components, b, n),
        with_behaviors(components, a, n).len() == n,
    decreases n,
{
    if n > 0 {
        lemma_with_behaviors(components, a, b, n - 1);
    }
}

/// The position of the first of `children` that is called `name`, or the
/// number of children if none is.
pub open spec fn first_named(children: Seq<Entity>, name: Seq<char>) -> int
    decreases children.len(),
{
    if children.len() == 0 {
        0
    } else if children[0].name@ == name {
        0
    } else {
        1 + first_named(children.drop_first(), name)
    }
}

/// `first_named` is the least position with the name, and at most the length.
pub proof fn lemma_first_named(children: Seq<Entity>, name: Seq<char>)
    ensures
        0 <= first_named(children, name) <= children.len(),
        first_named(children, name) < children.len() ==> children[first_named(children, name)].name@ == name,
        forall|i: int| 0 <= i < first_named(children, name) ==> (#[trigger] children[i]).name@ != name,
    decreases children.len(),
{
    if children.len() > 0 && children[0].name@ != name {
        let tail = children.drop_first();
        lemma_first_named(tail, name);
        assert forall|i: int| 0 <= i < first_named(children, name) implies (#[trigger] children[i]).name@ != name by {
            if i > 0 {
                assert(children[i] == tail[i - 1]);
            }
        }
    }
}

/// A walk visits as many entities as the subtree holds.
pub proof fn lemma_walk_len(entity: Entity)
    ensures
        walk(entity).len() == size(entity),
    decreases entity,
{
    lemma_walk_children_len(entity.children@, entity.children@.len() as int);
}

/// A walk over children visits as many entities as their subtrees hold.
pub proof fn lemma_walk_children_len(children: Seq<Entity>, n: int)
    ensures
        walk_children(children, n).len() == size_children(children, n),
    decreases children, n,
{
    if 0 < n <= children.len() {
        lemma_walk_len(children[n - 1]);
        lemma_walk_children_len(children, n - 1);
    }
}

/// Where the subtree of child `i` starts in the walk over the first `n` children.
pub open spec fn child_offset(children: Seq<Entity>, n: int, i: int) -> int
    decreases n,
{
    if n <= 0 || i >= n - 1 {
        0
    } else {
        walk(children[n - 1]).len() + child_offset(children, n - 1, i)
    }
}

/// The subtree of each child is visited in one piece, as its own walk.
pub proof fn lemma_walk_children_holds_child(children: Seq<Entity>, n: int, i: int)
    requires
        0 <= i < n <= children.len(),
    ensures
        0 <= child_offset(children, n, i),
        child_offset(children, n, i) + walk(children[i]).len() <= walk_children(children, n).len(),
        walk_children(children, n).subrange(
            child_offset(children, n, i),
            child_offset(children, n, i) + walk(children[i]).len(),
        ) == walk(children[i]),
    decreases n,
{
    let whole = walk_children(children, n);
    let head = walk(children[n - 1]);
    if i == n - 1 {
        assert(whole.subrange(0, head.len() as int) =~= head);
    } else {
        lemma_walk_children_holds_child(children, n - 1, i);
        let tail = walk_children(children, n - 1);
        let k = child_offset(children, n - 1, i);
        let len = walk(children[i]).len() as int;
        assert(whole.subrange(head.len() + k, head.len() + k + len) =~= tail.subrange(k, k + len));
    }
}

/// Completeness and order of the walk: it starts with the entity itself,
/// visits exactly as many entities as the subtree holds, and contains the
/// whole walk of every child as one piece after the entity, so that every
/// entity is visited before each of its descendants.
pub proof fn lemma_walk_complete(entity: Entity, i: int)
    requires
        0 <= i < entity.children@.len(),
    ensures
        walk(entity)[0] == entity,
        walk(entity).len() == size(entity),
        ({
            let start = 1 + child_offset(entity.children@, entity.children@.len() as int, i);
            &&& 1 <= start
            &&& start + walk(entity.children@[i]).len() <= walk(entity).len()
            &&& walk(entity).subrange(start, start + walk(entity.children@[i]).len()) == walk(entity.children@[i])
        }),
{
    let children = entity.children@;
    let n = children.len() as int;
    lemma_walk_len(entity);
    lemma_walk_children_holds_child(children, n, i);
    let k = child_offset(children, n, i);
    let len = walk(children[i]).len() as int;
    assert(walk(entity).subrange(1 + k, 1 + k + len) =~= walk_children(children, n).subrange(k, k + len));
}

/// Pushing the first `k` children on the stack puts their subtrees, the last
/// pushed first, before everything that was pending.
proof fn lemma_pending_push(stack: Seq<&Entity>, children: Seq<Entity>, grown: Seq<&Entity>, k: int)
    requires
        0 <= k <= children.len(),
        grown.len() == stack.len() + k,
        forall|j: int| 0 <= j < stack.len() ==> grown[j] == stack[j],
        forall|j: int| 0 <= j < k ==> *grown[stack.len() + j] == children[j],
    ensures
        pending(grown) == walk_children(children, k) + pending(stack),
    decreases k,
{
    if k == 0 {
        assert(grown =~= stack);
        assert(pending(grown) =~= walk_children(children, k) + pending(stack));
    } else {
        lemma_pending_push(stack, children, grown.drop_last(), k - 1);
        assert(*grown.last() == children[k - 1]);
        assert(pending(grown) =~= walk_children(children, k) + pending(stack));
    }
}

/// One step of a round of behavior updates. The host keeps a path into the
/// tree, which starts at the entity that scheduled the round: `Descend`
/// moves it to a child of the current entity, `Ascend` moves it back to the
/// parent, and `Update` runs a behavior on the current entity.
#[derive(Clone, Copy, Debug, PartialEq, Eq, Structural)]
pub enum BehaviorStep {
    Update(usize),
    Descend(usize),
    Ascend,
}

/// The updates of the behaviors among the first `n` of `components`, in order.
pub open spec fn updates_in(components: Seq<Component>, n: int) -> Seq<BehaviorStep>
    decreases n,
{
    if n <= 0 {
        Seq::empty()
    } else {
        match components[n - 1] {
            Component::Behavior(behavior) => updates_in(components, n - 1).push(BehaviorStep::Update(behavior)),
            _ => updates_in(components, n - 1),
        }
    }
}

/// A round of behavior updates over the subtree of `entity`: the entity's
/// own behaviors in the order of its components, then the rounds of its
/// children, the first child's first.
pub open spec fn behavior_round(entity: Entity) -> Seq<BehaviorStep>
    decreases entity,
{
    updates_in(entity.components@, entity.components@.len() as int) + behavior_rounds(
        entity.children@,
        entity.children@.len() as int,
    )
}

/// The rounds of the first `n` of `children`, each entered with `Descend`
/// and left with `Ascend`.
pub open spec fn behavior_rounds(children: Seq<Entity>, n: int) -> Seq<BehaviorStep>
    decreases children, n,
{
    if n <= 0 || n > children.len() {
        Seq::empty()
    } else {
        behavior_rounds(children, n - 1) + seq![BehaviorStep::Descend((n - 1) as usize)] + behavior_round(
            children[n - 1],
        ) + seq![BehaviorStep::Ascend]
    }
}

/// The first model among the first `n` of `components` whose names do not
/// resolve, with what it misses.
pub open spec fn components_failure(components: Seq<Component>, resources: LoadedResources, n: int) -> Option<
    LoadFailure,
>
    decreases n,
{
    if n <= 0 {
        None
    } else {
        match components_failure(components, resources, n - 1) {
            Some(failure) => Some(failure),
            None => match components[n - 1] {
                Component::Model(model) => match resolution(model.mesh_name.0@, model.mesh_name.1@, resources) {
                    Ok(_) => None,
                    Err(failure) => Some(failure),
                },
                _ => None,
            },
        }
    }
}

/// The first model in the subtree of `entity` whose names do not resolve,
/// with what it misses. The entity's own components come first, then its
/// children in order, each with its subtree.
pub open spec fn entity_failure(entity: Entity, resources: LoadedResources) -> Option<LoadFailure>
    decreases entity,
{
    match components_failure(entity.components@, resources, entity.components@.len() as int) {
        Some(failure) => Some(failure),
        None => children_failure(entity.children@, resources, entity.children@.len() as int),
    }
}

/// The first failure in the subtrees of the first `n` of `children`.
pub open spec fn children_failure(children: Seq<Entity>, resources: LoadedResources, n: int) -> Option<LoadFailure>
    decreases children, n,
{
    if n <= 0 || n > children.len() {
        None
    } else {
        match children_failure(children, resources, n - 1) {
            Some(failure) => Some(failure),
            None => entity_failure(children[n - 1], resources),
        }
    }
}

/// Whether `after` is `before` with its names resolved, if it is a model,
/// and `before` itself otherwise.
pub open spec fn component_loaded(before: Component, after: Component, resources: LoadedResources) -> bool {
    match before {
        Component::Model(model) => after matches Component::Model(loaded) && model.loaded_as(loaded, resources),
        _ => after == before,
    }
}

/// Whether `after` is the subtree `before` with every model loaded against
/// `resources` and nothing else changed.
pub open spec fn loaded(before: Entity, after: Entity, resources: LoadedResources) -> bool
    decreases before,
{
    &&& after.name == before.name
    &&& after.enabled == before.enabled
    &&& after.transform == before.transform
    &&& after.components@.len() == before.components@.len()
    &&& forall|i: int|
        0 <= i < before.components@.len() ==> component_loaded(
            before.components@[i],
            #[trigger] after.components@[i],
            resources,
        )
    &&& after.children@.len() == before.children@.len()
    &&& forall|i: int|
        0 <= i < before.children@.len() ==> loaded(before.children@[i], #[trigger] after.children@[i], resources)
}

/// Where no model among the first `n` components fails, none of them fails.
proof fn lemma_components_resolve(components: Seq<Component>, resources: LoadedResources, n: int, i: int)
    requires
        0 <= i < n <= components.len(),
        components_failure(components, resources, n) is None,
    ensures
        components[i] matches Component::Model(model) ==> resolution(
            model.mesh_name.0@,
            model.mesh_name.1@,
            resources,
        ) is Ok,
    decreases n,
{
    if i < n - 1 {
        lemma_components_resolve(components, resources, n - 1, i);
    }
}

/// Where the first `n` subtrees hold no failure, none of them does.
proof fn lemma_children_resolve(children: Seq<Entity>, resources: LoadedResources, n: int, i: int)
    requires
        0 <= i < n <= children.len(),
        children_failure(children, resources, n) is None,
    ensures
        entity_failure(children[i], resources) is None,
    decreases n,
{
    if i < n - 1 {
        lemma_children_resolve(children, resources, n - 1, i);
    }
}

/// After a replacement at the end of a path, the path leads to the replacement.
pub proof fn lemma_replaced_at_leads(before: Entity, after: Entity, path: Seq<usize>, replacement: Entity)
    requires
        replaced_at(before, after, path, replacement),
    ensures
        entity_at(after, path) == Some(replacement),
    decreases path.len(),
{
    if path.len() > 0 {
        lemma_replaced_at_leads(
            before.children@[path[0] as int],
            after.children@[path[0] as int],
            path.drop_first(),
            replacement,
        );
    }
}

/// The position of the first camera among `components`, or their number if
/// there is none.
pub open spec fn first_camera(components: Seq<Component>) -> int
    decreases components.len(),
{
    if components.len() == 0 {
        0
    } else if components[0] is Camera {
        0
    } else {
        1 + first_camera(components.drop_first())
    }
}

/// `first_camera` is the least position of a camera, and at most the length.
pub proof fn lemma_first_camera(components: Seq<Component>)
    ensures
        0 <= first_camera(components) <= components.len(),
        first_camera(components) < components.len() ==> components[first_camera(components)] is Camera,
        forall|i: int| 0 <= i < first_camera(components) ==> !(#[trigger] components[i] is Camera),
    decreases components.len(),
{
    if components.len() > 0 && !(components[0] is Camera) {
        let tail = components.drop_first();
        lemma_first_camera(tail);
        assert forall|i: int| 0 <= i < first_camera(components) implies !(#[trigger] components[i] is Camera) by {
            if i > 0 {
                assert(components[i] == tail[i - 1]);
            }
        }
    }
}

/// The entity reached from `entity` by taking, at each step, the child at
/// the next index of `path`; `None` if an index has no child.
pub open spec fn entity_at(entity: Entity, path: Seq<usize>) -> Option<Entity>
    decreases path.len(),
{
    if path.len() == 0 {
        Some(entity)
    } else if path[0] < entity.children@.len() {
        entity_at(entity.children@[path[0] as int], path.drop_first())
    } else {
        None
    }
}

/// Whether `after` is `before` with the entity at the end of `path`
/// replaced by `replacement`, and nothing else changed.
pub open spec fn replaced_at(before: Entity, after: Entity, path: Seq<usize>, replacement: Entity) -> bool
    decreases path.len(),
{
    if path.len() == 0 {
        after == replacement
    } else {
        &&& path[0] < before.children@.len()
        &&& after.name == before.name
        &&& after.enabled == before.enabled
        &&& after.transform == before.transform
        &&& after.components == before.components
        &&& after.children@.len() == before.children@.len()
        &&& forall|j: int|
            0 <= j < before.children@.len() && j != path[0] ==> #[trigger] after.children@[j] == before.children@[j]
        &&& replaced_at(
            before.children@[path[0] as int],
            after.children@[path[0] as int],
            path.drop_first(),
            replacement,
        )
    }
}

/// Once a model fails to resolve, the failure stays whatever components follow.
proof fn lemma_components_failure_persists(components: Seq<Component>, resources: LoadedResources, m: int, n: int)
    requires
        m <= n,
        components_failure(components, resources, m) is Some,
    ensures
        components_failure(components, resources, n) == components_failure(components, resources, m),
    decreases n - m,
{
    if m < n {
        lemma_components_failure_persists(components, resources, m, n - 1);
    }
}

/// Once a subtree holds a failure, the failure stays whatever children follow.
proof fn lemma_children_failure_persists(children: Seq<Entity>, resources: LoadedResources, m: int, n: int)
    requires
        0 <= m <= n <= children.len(),
        children_failure(children, resources, m) is Some,
    ensures
        children_failure(children, resources, n) == children_failure(children, resources, m),
    decreases n - m,
{
    if m < n {
        lemma_children_failure_persists(children, resources, m, n - 1);
    }
}

impl Entity {
    /// An enabled entity with the default transform, no components and no children.
    pub fn new(name: &str) -> (entity: Entity)
        ensures
            entity.name@ == name@,
            entity.enabled,
            entity.transform == Transform::spec_default(),
            entity.components@.len() == 0,
            entity.children@.len() == 0,
    {
        Entity {
            name: String::from_str(name),
            enabled: true,
            transform: Transform::default(),
            components: Vec::new(),
            children: Vec::new(),
        }
    }

    /// Appends a new child called `name` and hands it out for further set-up.
    /// The children that were there stay as they are.
    pub fn new_child(&mut self, name: &str) -> (child: &mut Entity)
        ensures
            child.name@ == name@,
            child.enabled,
            child.transform == Transform::spec_default(),
            child.components@.len() == 0,
            child.children@.len() == 0,
            final(self).children@ == old(self).children@.push(*final(child)),
            final(self).name == old(self).name,
            final(self).enabled == old(self).enabled,
            final(self).transform == old(self).transform,
            final(self).components == old(self).components,
    {
        let child = Entity::new(name);
        self.children.push(child);
        let last = self.children.len() - 1;
        let r = &mut self.children[last];
        assert(old(self).children@.push(*final(r)) =~= old(self).children@.push(child).update(last as int, *final(r)));
        r
    }

    /// Appends a component.
    pub fn add_component(&mut self, component: Component)
        ensures
            final(self).components@ == old(self).components@.push(component),
            final(self).name == old(self).name,
            final(self).enabled == old(self).enabled,
            final(self).transform == old(self).transform,
            final(self).children == old(self).children,
    {
        self.components.push(component)
    }

    /// A walk over this entity and all its descendants.
    pub fn iter(&self) -> (iter: EntityIter<'_>)
        ensures
            iter.remaining() == walk(*self),
    {
        let mut stack = Vec::new();
        stack.push(self);
        proof {
            assert(stack@.drop_last() =~= Seq::<&Entity>::empty());
            assert(pending(stack@.drop_last()) =~= Seq::<Entity>::empty());
            assert(pending(stack@) =~= walk(*self));
        }
        EntityIter { stack }
    }

    /// This entity and all its descendants, in the order of the walk.
    pub fn descendants(&self) -> (all: Vec<&Entity>)
        ensures
            all@.len() == walk(*self).len(),
            forall|i: int| 0 <= i < all@.len() ==> *all@[i] == walk(*self)[i],
    {
        let mut iter = self.iter();
        let mut all: Vec<&Entity> = Vec::new();
        loop
            invariant
                all@.len() + iter.remaining().len() == walk(*self).len(),
                forall|i: int| 0 <= i < all@.len() ==> *all@[i] == walk(*self)[i],
                forall|i: int| 0 <= i < iter.remaining().len() ==> iter.remaining()[i] == walk(*self)[all@.len() + i],
            ensures
                all@.len() == walk(*self).len(),
                forall|i: int| 0 <= i < all@.len() ==> *all@[i] == walk(*self)[i],
            decreases iter.remaining().len(),
        {
            match iter.next() {
                Some(entity) => {
                    all.push(entity);
                },
                None => {
                    break;
                },
            }
        }
        all
    }

    /// Schedules one round of behavior updates over this entity and its
    /// descendants, for the host to run: the entity's own behaviors in the
    /// order of its components, then the same for each child in order. The
    /// components of an entity are fixed for the round when it is scheduled,
    /// whatever a behavior does to its entity's transform.
    pub fn update_behaviors_of_descendants(&self) -> (steps: Vec<BehaviorStep>)
        ensures
            steps@ == behavior_round(*self),
        decreases *self,
    {
        let mut steps: Vec<BehaviorStep> = Vec::new();
        let components = self.components.len();
        let mut i: usize = 0;
        while i < components
            invariant
                components == self.components@.len(),
                i <= components,
                steps@ == updates_in(self.components@, i as int),
            decreases components - i,
        {
            if let Component::Behavior(behavior) = &self.components[i] {
                steps.push(BehaviorStep::Update(*behavior));
            }
            i += 1;
        }
        let ghost own = steps@;
        let children = self.children.len();
        let mut c: usize = 0;
        while c < children
            invariant
                children == self.children@.len(),
                c <= children,
                steps@ == own + behavior_rounds(self.children@, c as int),
            decreases children - c,
        {
            steps.push(BehaviorStep::Descend(c));
            let mut round = self.children[c].update_behaviors_of_descendants();
            steps.append(&mut round);
            steps.push(BehaviorStep::Ascend);
            c += 1;
            assert(steps@ =~= own + behavior_rounds(self.children@, c as int));
        }
        steps
    }

    /// The first model of this entity or of a descendant whose names do not
    /// resolve against `resources`, as an error; `None` if every model resolves.
    pub fn check_models_on_descendants(&self, resources: &LoadedResources) -> (failure: Option<LoadError>)
        requires
            resources.wf(),
        ensures
            match entity_failure(*self, *resources) {
                Some(expected) => failure matches Some(error) && error@ == expected,
                None => failure is None,
            },
        decreases *self,
    {
        let components = self.components.len();
        let mut i: usize = 0;
        while i < components
            invariant
                resources.wf(),
                components == self.components@.len(),
                i <= components,
                components_failure(self.components@, *resources, i as int) is None,
            decreases components - i,
        {
            if let Component::Model(model) = &self.components[i] {
                match model.resolve(resources) {
                    Ok(_) => {},
                    Err(error) => {
                        proof {
                            lemma_components_failure_persists(self.components@, *resources, i + 1, components as int);
                        }
                        return Some(error);
                    },
                }
            }
            i += 1;
        }
        let children = self.children.len();
        let mut c: usize = 0;
        while c < children
            invariant
                resources.wf(),
                children == self.children@.len(),
                c <= children,
                components_failure(self.components@, *resources, self.components@.len() as int) is None,
                children_failure(self.children@, *resources, c as int) is None,
            decreases children - c,
        {
            match self.children[c].check_models_on_descendants(resources) {
                None => {},
                Some(error) => {
                    proof {
                        lemma_children_failure_persists(self.children@, *resources, c + 1, children as int);
                    }
                    return Some(error);
                },
            }
            c += 1;
        }
        None
    }

    /// Loads every model of this entity and of its descendants against the
    /// tables. Where a model refers to something that is not loaded, the
    /// tree stays as it is and the error names what the first such model
    /// misses.
    pub fn load_models_on_descendants(&mut self, loaded_resources: &LoadedResources) -> (result: Result<(), LoadError>)
        requires
            loaded_resources.wf(),
        ensures
            match entity_failure(*old(self), *loaded_resources) {
                Some(expected) => result matches Err(error) && error@ == expected && *final(self) == *old(self),
                None => result is Ok && loaded(*old(self), *final(self), *loaded_resources),
            },
    {
        match self.check_models_on_descendants(loaded_resources) {
            Some(error) => Err(error),
            None => {
                self.load_resolved(loaded_resources);
                Ok(())
            },
        }
    }

    /// Loads every model of a subtree in which every model resolves.
    fn load_resolved(&mut self, resources: &LoadedResources)
        requires
            resources.wf(),
            entity_failure(*old(self), *resources) is None,
        ensures
            loaded(*old(self), *final(self), *resources),
        decreases *old(self),
    {
        let components = self.components.len();
        let mut i: usize = 0;
        while i < components
            invariant
                resources.wf(),
                components == old(self).components@.len(),
                self.components@.len() == components,
                i <= components,
                self.name == old(self).name,
                self.enabled == old(self).enabled,
                self.transform == old(self).transform,
                self.children == old(self).children,
                components_failure(old(self).components@, *resources, components as int) is None,
                forall|j: int|
                    0 <= j < i ==> component_loaded(old(self).components@[j], #[trigger] self.components@[j], *resources),
                forall|j: int| i <= j < components ==> self.components@[j] == old(self).components@[j],
            decreases components - i,
        {
            proof {
                lemma_components_resolve(old(self).components@, *resources, components as int, i as int);
            }
            if let Component::Model(model) = &mut self.components[i] {
                match model.load(resources) {
                    Ok(()) => {},
                    Err(_) => {},
                }
            }
            i += 1;
        }
        let children = self.children.len();
        let mut c: usize = 0;
        while c < children
            invariant
                resources.wf(),
                children == old(self).children@.len(),
                self.children@.len() == children,
                c <= children,
                self.name == old(self).name,
                self.enabled == old(self).enabled,
                self.transform == old(self).transform,
                self.components@.len() == old(self).components@.len(),
                forall|j: int|
                    0 <= j < old(self).components@.len() ==> component_loaded(
                        old(self).components@[j],
                        #[trigger] self.components@[j],
                        *resources,
                    ),
                children_failure(old(self).children@, *resources, children as int) is None,
                forall|j: int| 0 <= j < c ==> loaded(old(self).children@[j], #[trigger] self.children@[j], *resources),
                forall|j: int| c <= j < children ==> self.children@[j] == old(self).children@[j],
            decreases children - c,
        {
            proof {
                lemma_children_resolve(old(self).children@, *resources, children as int, c as int);
            }
            let child = &mut self.children[c];
            child.load_resolved(resources);
            c += 1;
        }
    }

    /// The entity at the end of `path`, where each index of the path picks
    /// a child of the entity before; `None` if the path leaves the tree.
    pub fn at_path(&self, path: &[usize]) -> (found: Option<&Entity>)
        ensures
            match entity_at(*self, path@) {
                Some(entity) => found == Some(&entity),
                None => found is None,
            },
    {
        let mut current = self;
        let n = path.len();
        let mut i: usize = 0;
        assert(path@.skip(0) =~= path@);
        while i < n
            invariant
                n == path@.len(),
                i <= n,
                entity_at(*self, path@) == entity_at(*current, path@.skip(i as int)),
            decreases n - i,
        {
            let index = path[i];
            assert(path@.skip(i as int).drop_first() =~= path@.skip(i + 1));
            if index < current.children.len() {
                current = &current.children[index];
            } else {
                return None;
            }
            i += 1;
        }
        Some(current)
    }

    /// The entity at the end of `path`, for changing it. The path is
    /// checked first; where it leaves the tree nothing is touched. Nothing
    /// but the entity handed out can change.
    pub fn at_path_mut(&mut self, path: &[usize]) -> (found: Option<&mut Entity>)
        ensures
            match found {
                Some(entity) => entity_at(*old(self), path@) == Some(*entity) && replaced_at(
                    *old(self),
                    *final(self),
                    path@,
                    *final(entity),
                ),
                None => entity_at(*old(self), path@) is None && *final(self) == *old(self),
            },
    {
        if self.at_path(path).is_none() {
            return None;
        }
        Some(self.descend_mut(path))
    }

    /// The entity at the end of a path that stays inside the tree.
    fn descend_mut(&mut self, path: &[usize]) -> (entity: &mut Entity)
        requires
            entity_at(*old(self), path@) is Some,
        ensures
            entity_at(*old(self), path@) == Some(*entity),
            replaced_at(*old(self), *final(self), path@, *final(entity)),
        decreases path@.len(),
    {
        if path.len() == 0 {
            return self;
        }
        let index = path[0];
        let rest = vstd::slice::slice_subrange(path, 1, path.len());
        assert(rest@ =~= path@.drop_first());
        let child = &mut self.children[index];
        child.descend_mut(rest)
    }

    /// The first child called `name`. Only the entity's own children are searched.
    pub fn find_descendant(&self, name: &str) -> (found: Option<&Entity>)
        ensures
            match found {
                Some(child) => first_named(self.children@, name@) < self.children@.len() && *child
                    == self.children@[first_named(self.children@, name@)],
                None => first_named(self.children@, name@) == self.children@.len(),
            },
    {
        proof {
            lemma_first_named(self.children@, name@);
        }
        let n = self.children.len();
        let mut i: usize = 0;
        while i < n
            invariant
                n == self.children@.len(),
                i <= n,
                i <= first_named(self.children@, name@),
                first_named(self.children@, name@) <= n,
                first_named(self.children@, name@) < n ==> self.children@[first_named(
                    self.children@,
                    name@,
                )].name@ == name@,
                forall|j: int| 0 <= j < first_named(self.children@, name@) ==> (#[trigger] self.children@[j]).name@ != name@,
            decreases n - i,
        {
            if str_eq(self.children[i].name.as_str(), name) {
                return Some(&self.children[i]);
            }
            i += 1;
        }
        None
    }

    /// The first child called `name`, for changing it. Only the entity's own
    /// children are searched, and nothing but the child handed out can change.
    pub fn find_descendant_mut(&mut self, name: &str) -> (found: Option<&mut Entity>)
        ensures
            match found {
                Some(child) => {
                    let at = first_named(old(self).children@, name@);
                    &&& at < old(self).children@.len()
                    &&& *child == old(self).children@[at]
                    &&& final(self).children@ == old(self).children@.update(at, *final(child))
                },
                None => first_named(old(self).children@, name@) == old(self).children@.len()
                    && final(self).children == old(self).children,
            },
            final(self).name == old(self).name,
            final(self).enabled == old(self).enabled,
            final(self).transform == old(self).transform,
            final(self).components == old(self).components,
    {
        proof {
            lemma_first_named(self.children@, name@);
        }
        let n = self.children.len();
        let mut i: usize = 0;
        while i < n
            invariant
                *self == *old(self),
                n == self.children@.len(),
                i <= n,
                i <= first_named(self.children@, name@),
                first_named(self.children@, name@) <= n,
                first_named(self.children@, name@) < n ==> self.children@[first_named(
                    self.children@,
                    name@,
                )].name@ == name@,
                forall|j: int| 0 <= j < first_named(self.children@, name@) ==> (#[trigger] self.children@[j]).name@ != name@,
            decreases n - i,
        {
            if str_eq(self.children[i].name.as_str(), name) {
                return Some(&mut self.children[i]);
            }
            i += 1;
        }
        None
    }

    /// The model components, in order, for changing them. What the entity holds
    /// afterwards is what it held, with each of them as it is left.
    pub fn get_models_mut(&mut self) -> (models: Vec<&mut Model>)
        ensures
            models@.len() == models_in(old(self).components@, old(self).components@.len() as int).len(),
            forall|k: int|
                0 <= k < models@.len() ==> *models@[k] == models_in(
                    old(self).components@,
                    old(self).components@.len() as int,
                )[k],
            final(self).components@ == with_models(
                old(self).components@,
                Seq::new(models@.len(), |k: int| *final(models@[k])),
                old(self).components@.len() as int,
            ),
            final(self).name == old(self).name,
            final(self).enabled == old(self).enabled,
            final(self).transform == old(self).transform,
            final(self).children == old(self).children,
    {
        let mut found: Vec<&mut Model> = Vec::new();
        let ghost whole = self.components@;
        let ghost whole_after = final(self).components@;
        let mut rest: &mut [Component] = self.components.as_mut_slice();
        let mut done: usize = 0;
        let total = rest.len();
        loop
            invariant
                total == whole.len(),
                done <= total,
                rest@ == whole.subrange(done as int, total as int),
                found@.len() == models_in(whole, done as int).len(),
                forall|k: int| 0 <= k < found@.len() ==> *found@[k] == models_in(whole, done as int)[k],
                whole_after == with_models(whole, Seq::new(found@.len(), |k: int| *final(found@[k])), done as int) + final(rest)@,
            ensures
                done == total,
                found@.len() == models_in(whole, total as int).len(),
                forall|k: int| 0 <= k < found@.len() ==> *found@[k] == models_in(whole, total as int)[k],
                whole_after == with_models(whole, Seq::new(found@.len(), |k: int| *final(found@[k])), total as int),
            decreases total - done,
        {
            if rest.len() == 0 {
                proof {
                    let left = with_models(whole, Seq::new(found@.len(), |k: int| *final(found@[k])), done as int);
                    assert(final(rest)@ =~= Seq::<Component>::empty());
                    assert(left + final(rest)@ =~= left);
                }
                break;
            }
            let ghost rest_final = final(rest)@;
            let ghost before = Seq::new(found@.len(), |k: int| *final(found@[k]));
            let (head, tail) = rest.split_at_mut(1);
            let ghost head_final = final(head)@;
            let ghost tail_final = final(tail)@;
            assert(rest_final == head_final + tail_final);
            assert(head@ =~= seq![whole[done as int]]);
            rest = tail;
            match &mut head[0] {
                Component::Model(model) => {
                    let ghost left = *final(model);
                    found.push(model);
                    proof {
                        let after = Seq::new(found@.len(), |k: int| *final(found@[k]));
                        assert(after =~= before.push(left));
                        lemma_with_models(whole, before, after, done as int);
                        assert(head_final =~= seq![Component::Model(left)]);
                        assert(with_models(whole, after, done + 1) =~= with_models(whole, before, done as int)
                            + head_final);
                    }
                },
                _ => {
                    proof {
                        assert(head_final =~= seq![whole[done as int]]);
                        lemma_with_models(whole, before, before, done as int);
                        assert(with_models(whole, before, done + 1) =~= with_models(whole, before, done as int)
                            + head_final);
                    }
                },
            }
            done += 1;
            assert(whole_after =~= with_models(whole, Seq::new(found@.len(), |k: int| *final(found@[k])), done as int)
                + final(rest)@);
        }
        found
    }

    /// The light components, in order, for changing them. What the entity holds
    /// afterwards is what it held, with each of them as it is left.
    pub fn get_lights_mut(&mut self) -> (lights: Vec<&mut Light>)
        ensures
            lights@.len() == lights_in(old(self).components@, old(self).components@.len() as int).len(),
            forall|k: int|
                0 <= k < lights@.len() ==> *lights@[k] == lights_in(
                    old(self).components@,
                    old(self).components@.len() as int,
                )[k],
            final(self).components@ == with_lights(
                old(self).components@,
                Seq::new(lights@.len(), |k: int| *final(lights@[k])),
                old(self).components@.len() as int,
            ),
            final(self).name == old(self).name,
            final(self).enabled == old(self).enabled,
            final(self).transform == old(self).transform,
            final(self).children == old(self).children,
    {
        let mut found: Vec<&mut Light> = Vec::new();
        let ghost whole = self.components@;
        let ghost whole_after = final(self).components@;
        let mut rest: &mut [Component] = self.components.as_mut_slice();
        let mut done: usize = 0;
        let total = rest.len();
        loop
            invariant
                total == whole.len(),
                done <= total,
                rest@ == whole.subrange(done as int, total as int),
                found@.len() == lights_in(whole, done as int).len(),
                forall|k: int| 0 <= k < found@.len() ==> *found@[k] == lights_in(whole, done as int)[k],
                whole_after == with_lights(whole, Seq::new(found@.len(), |k: int| *final(found@[k])), done as int) + final(rest)@,
            ensures
                done == total,
                found@.len() == lights_in(whole, total as int).len(),
                forall|k: int| 0 <= k < found@.len() ==> *found@[k] == lights_in(whole, total as int)[k],
                whole_after == with_lights(whole, Seq::new(found@.len(), |k: int| *final(found@[k])), total as int),
            decreases total - done,
        {
            if rest.len() == 0 {
                proof {
                    let left = with_lights(whole, Seq::new(found@.len(), |k: int| *final(found@[k])), done as int);
                    assert(final(rest)@ =~= Seq::<Component>::empty());
                    assert(left + final(rest)@ =~= left);
                }
                break;
            }
            let ghost rest_final = final(rest)@;
            let ghost before = Seq::new(found@.len(), |k: int| *final(found@[k]));
            let (head, tail) = rest.split_at_mut(1);
            let ghost head_final = final(head)@;
            let ghost tail_final = final(tail)@;
            assert(rest_final == head_final + tail_final);
            assert(head@ =~= seq![whole[done as int]]);
            rest = tail;
            match &mut head[0] {
                Component::Light(light) => {
                    let ghost left = *final(light);
                    found.push(light);
                    proof {
                        let after = Seq::new(found@.len(), |k: int| *final(found@[k]));
                        assert(after =~= before.push(left));
                        lemma_with_lights(whole, before, after, done as int);
                        assert(head_final =~= seq![Component::Light(left)]);
                        assert(with_lights(whole, after, done + 1) =~= with_lights(whole, before, done as int)
                            + head_final);
                    }
                },
                _ => {
                    proof {
                        assert(head_final =~= seq![whole[done as int]]);
                        lemma_with_lights(whole, before, before, done as int);
                        assert(with_lights(whole, before, done + 1) =~= with_lights(whole, before, done as int)
                            + head_final);
                    }
                },
            }
            done += 1;
            assert(whole_after =~= with_lights(whole, Seq::new(found@.len(), |k: int| *final(found@[k])), done as int)
                + final(rest)@);
        }
        found
    }

    /// The camera components, in order, for changing them. What the entity holds
    /// afterwards is what it held, with each of them as it is left.
    pub fn get_cameras_mut(&mut self) -> (cameras: Vec<&mut Camera>)
        ensures
            cameras@.len() == cameras_in(old(self).components@, old(self).components@.len() as int).len(),
            forall|k: int|
                0 <= k < cameras@.len() ==> *cameras@[k] == cameras_in(
                    old(self).components@,
                    old(self).components@.len() as int,
                )[k],
            final(self).components@ == with_cameras(
                old(self).components@,
                Seq::new(cameras@.len(), |k: int| *final(cameras@[k])),
                old(self).components@.len() as int,
            ),
            final(self).name == old(self).name,
            final(self).enabled == old(self).enabled,
            final(self).transform == old(self).transform,
            final(self).children == old(self).children,
    {
        let mut found: Vec<&mut Camera> = Vec::new();
        let ghost whole = self.components@;
        let ghost whole_after = final(self).components@;
        let mut rest: &mut [Component] = self.components.as_mut_slice();
        let mut done: usize = 0;
        let total = rest.len();
        loop
            invariant
                total == whole.len(),
                done <= total,
                rest@ == whole.subrange(done as int, total as int),
                found@.len() == cameras_in(whole, done as int).len(),
                forall|k: int| 0 <= k < found@.len() ==> *found@[k] == cameras_in(whole, done as int)[k],
                whole_after == with_cameras(whole, Seq::new(found@.len(), |k: int| *final(found@[k])), done as int) + final(rest)@,
            ensures
                done == total,
                found@.len() == cameras_in(whole, total as int).len(),
                forall|k: int| 0 <= k < found@.len() ==> *found@[k] == cameras_in(whole, total as int)[k],
                whole_after == with_cameras(whole, Seq::new(found@.len(), |k: int| *final(found@[k])), total as int),
            decreases total - done,
        {
            if rest.len() == 0 {
                proof {
                    let left = with_cameras(whole, Seq::new(found@.len(), |k: int| *final(found@[k])), done as int);
                    assert(final(rest)@ =~= Seq::<Component>::empty());
                    assert(left + final(rest)@ =~= left);
                }
                break;
            }
            let ghost rest_final = final(rest)@;
            let ghost before = Seq::new(found@.len(), |k: int| *final(found@[k]));
            let (head, tail) = rest.split_at_mut(1);
            let ghost head_final = final(head)@;
            let ghost tail_final = final(tail)@;
            assert(rest_final == head_final + tail_final);
            assert(head@ =~= seq![whole[done as int]]);
            rest = tail;
            match &mut head[0] {
                Component::Camera(camera) => {
                    let ghost left = *final(camera);
                    found.push(camera);
                    proof {
                        let after = Seq::new(found@.len(), |k: int| *final(found@[k]));
                        assert(after =~= before.push(left));
                        lemma_with_cameras(whole, before, after, done as int);
                        assert(head_final =~= seq![Component::Camera(left)]);
                        assert(with_cameras(whole, after, done + 1) =~= with_cameras(whole, before, done as int)
                            + head_final);
                    }
                },
                _ => {
                    proof {
                        assert(head_final =~= seq![whole[done as int]]);
                        lemma_with_cameras(whole, before, before, done as int);
                        assert(with_cameras(whole, before, done + 1) =~= with_cameras(whole, before, done as int)
                            + head_final);
                    }
                },
            }
            done += 1;
            assert(whole_after =~= with_cameras(whole, Seq::new(found@.len(), |k: int| *final(found@[k])), done as int)
                + final(rest)@);
        }
        found
    }

    /// The behaviors, in order, for changing them. What the entity holds
    /// afterwards is what it held, with each of them as it is left.
    pub fn get_behaviors_mut(&mut self) -> (behaviors: Vec<&mut usize>)
        ensures
            behaviors@.len() == behaviors_in(old(self).components@, old(self).components@.len() as int).len(),
            forall|k: int|
                0 <= k < behaviors@.len() ==> *behaviors@[k] == behaviors_in(
                    old(self).components@,
                    old(self).components@.len() as int,
                )[k],
            final(self).components@ == with_behaviors(
                old(self).components@,
                Seq::new(behaviors@.len(), |k: int| *final(behaviors@[k])),
                old(self).components@.len() as int,
            ),
            final(self).name == old(self).name,
            final(self).enabled == old(self).enabled,
            final(self).transform == old(self).transform,
            final(self).children == old(self).children,
    {
        let mut found: Vec<&mut usize> = Vec::new();
        let ghost whole = self.components@;
        let ghost whole_after = final(self).components@;
        let mut rest: &mut [Component] = self.components.as_mut_slice();
        let mut done: usize = 0;
        let total = rest.len();
        loop
            invariant
                total == whole.len(),
                done <= total,
                rest@ == whole.subrange(done as int, total as int),
                found@.len() == behaviors_in(whole, done as int).len(),
                forall|k: int| 0 <= k < found@.len() ==> *found@[k] == behaviors_in(whole, done as int)[k],
                whole_after == with_behaviors(whole, Seq::new(found@.len(), |k: int| *final(found@[k])), done as int) + final(rest)@,
            ensures
                done == total,
                found@.len() == behaviors_in(whole, total as int).len(),
                forall|k: int| 0 <= k < found@.len() ==> *found@[k] == behaviors_in(whole, total as int)[k],
                whole_after == with_behaviors(whole, Seq::new(found@.len(), |k: int| *final(found@[k])), total as int),
            decreases total - done,
        {
            if rest.len() == 0 {
                proof {
                    let left = with_behaviors(whole, Seq::new(found@.len(), |k: int| *final(found@[k])), done as int);
                    assert(final(rest)@ =~= Seq::<Component>::empty());
                    assert(left + final(rest)@ =~= left);
                }
                break;
            }
            let ghost rest_final = final(rest)@;
            let ghost before = Seq::new(found@.len(), |k: int| *final(found@[k]));
            let (head, tail) = rest.split_at_mut(1);
            let ghost head_final = final(head)@;
            let ghost tail_final = final(tail)@;
            assert(rest_final == head_final + tail_final);
            assert(head@ =~= seq![whole[done as int]]);
            rest = tail;
            match &mut head[0] {
                Component::Behavior(behavior) => {
                    let ghost left = *final(behavior);
                    found.push(behavior);
                    proof {
                        let after = Seq::new(found@.len(), |k: int| *final(found@[k]));
                        assert(after =~= before.push(left));
                        lemma_with_behaviors(whole, before, after, done as int);
                        assert(head_final =~= seq![Component::Behavior(left)]);
                        assert(with_behaviors(whole, after, done + 1) =~= with_behaviors(whole, before, done as int)
                            + head_final);
                    }
                },
                _ => {
                    proof {
                        assert(head_final =~= seq![whole[done as int]]);
                        lemma_with_behaviors(whole, before, before, done as int);
                        assert(with_behaviors(whole, before, done + 1) =~= with_behaviors(whole, before, done as int)
                            + head_final);
                    }
                },
            }
            done += 1;
            assert(whole_after =~= with_behaviors(whole, Seq::new(found@.len(), |k: int| *final(found@[k])), done as int)
                + final(rest)@);
        }
        found
    }

    /// The first camera component, for changing it. Nothing but the camera
    /// handed out can change.
    pub fn first_camera_mut(&mut self) -> (found: Option<&mut Camera>)
        ensures
            match found {
                Some(camera) => {
                    let at = first_camera(old(self).components@);
                    &&& at < old(self).components@.len()
                    &&& old(self).components@[at] == Component::Camera(*camera)
                    &&& final(self).components@ == old(self).components@.update(at, Component::Camera(*final(camera)))
                },
                None => first_camera(old(self).components@) == old(self).components@.len() && final(self).components
                    == old(self).components,
            },
            final(self).name == old(self).name,
            final(self).enabled == old(self).enabled,
            final(self).transform == old(self).transform,
            final(self).children == old(self).children,
    {
        proof {
            lemma_first_camera(self.components@);
        }
        let n = self.components.len();
        let mut at: usize = 0;
        while at < n
            invariant
                n == self.components@.len(),
                at <= first_camera(self.components@) <= n,
            ensures
                at == first_camera(self.components@),
            decreases n - at,
        {
            proof {
                lemma_first_camera(self.components@);
            }
            if let Component::Camera(_) = &self.components[at] {
                break;
            }
            at += 1;
        }
        if at < n {
            if let Component::Camera(camera) = &mut self.components[at] {
                return Some(camera);
            }
        }
        None
    }

    /// The model components, in order.
    pub fn get_models(&self) -> (models: Vec<&Model>)
        ensures
            models@.len() == models_in(self.components@, self.components@.len() as int).len(),
            forall|i: int| 0 <= i < models@.len() ==> *models@[i] == models_in(
                self.components@,
                self.components@.len() as int,
            )[i],
    {
        let mut models: Vec<&Model> = Vec::new();
        let n = self.components.len();
        let mut i: usize = 0;
        while i < n
            invariant
                n == self.components@.len(),
                i <= n,
                models@.len() == models_in(self.components@, i as int).len(),
                forall|j: int| 0 <= j < models@.len() ==> *models@[j] == models_in(self.components@, i as int)[j],
            decreases n - i,
        {
            if let Component::Model(model) = &self.components[i] {
                models.push(model);
            }
            i += 1;
        }
        models
    }

    /// The light components, in order.
    pub fn get_lights(&self) -> (lights: Vec<&Light>)
        ensures
            lights@.len() == lights_in(self.components@, self.components@.len() as int).len(),
            forall|i: int| 0 <= i < lights@.len() ==> *lights@[i] == lights_in(
                self.components@,
                self.components@.len() as int,
            )[i],
    {
        let mut lights: Vec<&Light> = Vec::new();
        let n = self.components.len();
        let mut i: usize = 0;
        while i < n
            invariant
                n == self.components@.len(),
                i <= n,
                lights@.len() == lights_in(self.components@, i as int).len(),
                forall|j: int| 0 <= j < lights@.len() ==> *lights@[j] == lights_in(self.components@, i as int)[j],
            decreases n - i,
        {
            if let Component::Light(light) = &self.components[i] {
                lights.push(light);
            }
            i += 1;
        }
        lights
    }

    /// The camera components, in order.
    pub fn get_cameras(&self) -> (cameras: Vec<&Camera>)
        ensures
            cameras@.len() == cameras_in(self.components@, self.components@.len() as int).len(),
            forall|i: int| 0 <= i < cameras@.len() ==> *cameras@[i] == cameras_in(
                self.components@,
                self.components@.len() as int,
            )[i],
    {
        let mut cameras: Vec<&Camera> = Vec::new();
        let n = self.components.len();
        let mut i: usize = 0;
        while i < n
            invariant
                n == self.components@.len(),
                i <= n,
                cameras@.len() == cameras_in(self.components@, i as int).len(),
                forall|j: int| 0 <= j < cameras@.len() ==> *cameras@[j] == cameras_in(self.components@, i as int)[j],
            decreases n - i,
        {
            if let Component::Camera(camera) = &self.components[i] {
                cameras.push(camera);
            }
            i += 1;
        }
        cameras
    }

    /// The behaviors, in order, by their handles.
    pub fn get_behaviors(&self) -> (behaviors: Vec<usize>)
        ensures
            behaviors@ == behaviors_in(self.components@, self.components@.len() as int),
    {
        let mut behaviors: Vec<usize> = Vec::new();
        let n = self.components.len();
        let mut i: usize = 0;
        while i < n
            invariant
                n == self.components@.len(),
                i <= n,
                behaviors@ == behaviors_in(self.components@, i as int),
            decreases n - i,
        {
            if let Component::Behavior(behavior) = &self.components[i] {
                behaviors.push(*behavior);
            }
            i += 1;
        }
        behaviors
    }
}

/// A walk in progress. The stack holds the entities whose subtrees are still
/// to be visited, the next one on top.
#[derive(Debug)]
pub struct EntityIter<'a> {
    pub stack: Vec<&'a Entity>,
}

impl<'a> EntityIter<'a> {
    /// The entities that the walk will still visit, in order.
    pub open spec fn remaining(&self) -> Seq<Entity> {
        pending(self.stack@)
    }

    /// The next entity of the walk, or `None` when the walk is over. The
    /// entity's children are opened in order, so the last of them comes next.
    pub fn next(&mut self) -> (entry: Option<&'a Entity>)
        ensures
            match entry {
                Some(entity) => old(self).remaining().len() > 0 && *entity == old(self).remaining()[0]
                    && final(self).remaining() == old(self).remaining().skip(1),
                None => old(self).remaining().len() == 0 && final(self).remaining().len() == 0,
            },
    {
        match self.stack.pop() {
            Some(entry) => {
                let ghost rest = self.stack@;
                assert(rest == old(self).stack@.drop_last());
                let n = entry.children.len();
                let mut i: usize = 0;
                while i < n
                    invariant
                        n == entry.children@.len(),
                        i <= n,
                        self.stack@.len() == rest.len() + i,
                        forall|j: int| 0 <= j < rest.len() ==> self.stack@[j] == rest[j],
                        forall|j: int| 0 <= j < i ==> *self.stack@[rest.len() + j] == entry.children@[j],
                    decreases n - i,
                {
                    self.stack.push(&entry.children[i]);
                    i += 1;
                }
                proof {
                    lemma_pending_push(rest, entry.children@, self.stack@, n as int);
                    assert(old(self).remaining() =~= seq![*entry] + walk_children(entry.children@, n as int) + pending(
                        rest,
                    ));
                    assert(self.remaining() =~= old(self).remaining().skip(1));
                }
                Some(entry)
            },
            None => {
                None
            },
        }
    }
}

impl Default for EntityIter<'_> {
    fn default() -> (iter: Self)
        ensures
            iter.remaining().len() == 0,
    {
        EntityIter { stack: Vec::new() }
    }
}

} // verus!
