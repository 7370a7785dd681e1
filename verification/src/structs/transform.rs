//! Position, rotation and scale with cached derived state.
//!
//! The three source fields are the truth; the world matrix, the normal
//! matrix and the three basis vectors are caches over them, guarded by two
//! independent dirty domains. The matrix domain (world matrix and normal
//! matrix) is invalidated by any setter; the basis domain (forward, right
//! and up) only by a rotation change, since the basis vectors depend on the
//! rotation alone.
//!
//! The scalar components are carried as opaque 32-bit words: this module
//! never reads inside them, it only keeps the caches consistent with the
//! sources. The caller computes the derived values and hands them in
//! through the `refresh` calls before reading, and the invariant of the
//! type guarantees that a clean cache was stored while the sources already
//! held exactly their current values.

use vstd::prelude::*;

verus! {

/// The state of a [`Transform`]: sources, caches, dirty flags, and for each
/// cache the sources it was last refreshed from.
pub ghost struct TransformView {
    /// The position components.
    pub position: Seq<u32>,
    /// The rotation components.
    pub rotation: Seq<u32>,
    /// The scale components.
    pub scale: Seq<u32>,
    /// The cached world matrix.
    pub matrix: Seq<u32>,
    /// The cached normal matrix.
    pub normal_matrix: Seq<u32>,
    /// True when the cached world matrix is stale.
    pub matrix_dirty: bool,
    /// True when the cached normal matrix is stale.
    pub normal_dirty: bool,
    /// The cached forward basis vector; absent means stale.
    pub forward: Option<Seq<u32>>,
    /// The cached right basis vector; absent means stale.
    pub right: Option<Seq<u32>>,
    /// The cached up basis vector; absent means stale.
    pub up: Option<Seq<u32>>,
    /// The sources the world matrix was refreshed from.
    pub matrix_src: (Seq<u32>, Seq<u32>, Seq<u32>),
    /// The sources the normal matrix was refreshed from.
    pub normal_src: (Seq<u32>, Seq<u32>, Seq<u32>),
    /// The rotation the forward vector was refreshed from.
    pub forward_src: Seq<u32>,
    /// The rotation the right vector was refreshed from.
    pub right_src: Seq<u32>,
    /// The rotation the up vector was refreshed from.
    pub up_src: Seq<u32>,
}

/// A transform: position, rotation and scale, with a cached world matrix,
/// normal matrix and basis vectors behind dirty flags.
#[derive(Clone)]
pub struct Transform {
    position: [u32; 3],
    rotation: [u32; 4],
    scale: [u32; 3],

    matrix: [u32; 16],
    normal_matrix: [u32; 9],
    matrix_dirty: bool,
    normal_dirty: bool,

    basis_forward: Option<[u32; 3]>,
    basis_right: Option<[u32; 3]>,
    basis_up: Option<[u32; 3]>,

    matrix_src: Ghost<(Seq<u32>, Seq<u32>, Seq<u32>)>,
    normal_src: Ghost<(Seq<u32>, Seq<u32>, Seq<u32>)>,
    forward_src: Ghost<Seq<u32>>,
    right_src: Ghost<Seq<u32>>,
    up_src: Ghost<Seq<u32>>,
}

impl View for Transform {
    type V = TransformView;

    closed spec fn view(&self) -> TransformView {
        TransformView {
            position: self.position@,
            rotation: self.rotation@,
            scale: self.scale@,
            matrix: self.matrix@,
            normal_matrix: self.normal_matrix@,
            matrix_dirty: self.matrix_dirty,
            normal_dirty: self.normal_dirty,
            forward: match self.basis_forward {
                Some(v) => Some(v@),
                None => None,
            },
            right: match self.basis_right {
                Some(v) => Some(v@),
                None => None,
            },
            up: match self.basis_up {
                Some(v) => Some(v@),
                None => None,
            },
            matrix_src: self.matrix_src@,
            normal_src: self.normal_src@,
            forward_src: self.forward_src@,
            right_src: self.right_src@,
            up_src: self.up_src@,
        }
    }
}

/// A clean cache was refreshed while the sources already held exactly their
/// current values: whatever a reader returns is what a recomputation from
/// the current sources would have been handed.
pub open spec fn caches_current(v: TransformView) -> bool {
    &&& !v.matrix_dirty ==> v.matrix_src == (v.position, v.rotation, v.scale)
    &&& !v.normal_dirty ==> v.normal_src == (v.position, v.rotation, v.scale)
    &&& v.forward is Some ==> v.forward_src == v.rotation
    &&& v.right is Some ==> v.right_src == v.rotation
    &&& v.up is Some ==> v.up_src == v.rotation
}

impl Transform {
    /// The well-formedness every constructor establishes and every method
    /// preserves: the caches are current.
    pub open spec fn wf(self) -> bool {
        caches_current(self@)
    }

    /// Creates a new transform; every cache starts stale, so the derived
    /// values must be refreshed before the first read.
    pub fn new(position: [u32; 3], rotation: [u32; 4], scale: [u32; 3]) -> (t: Self)
        ensures
            t.wf(),
            t@.position == position@,
            t@.rotation == rotation@,
            t@.scale == scale@,
            t@.matrix_dirty,
            t@.normal_dirty,
            t@.forward is None,
            t@.right is None,
            t@.up is None,
    {
        Self {
            position,
            rotation,
            scale,
            matrix: [0; 16],
            normal_matrix: [0; 9],
            matrix_dirty: true,
            normal_dirty: true,
            basis_forward: None,
            basis_right: None,
            basis_up: None,
            matrix_src: Ghost((position@, rotation@, scale@)),
            normal_src: Ghost((position@, rotation@, scale@)),
            forward_src: Ghost(rotation@),
            right_src: Ghost(rotation@),
            up_src: Ghost(rotation@),
        }
    }

    /// The position.
    pub fn position(&self) -> (r: [u32; 3])
        ensures
            r@ == self@.position,
    {
        self.position
    }

    /// Sets the position. The matrix domain turns stale; the basis caches
    /// are untouched, since the basis vectors do not depend on the position.
    pub fn set_position(&mut self, new_position: [u32; 3])
        requires
            old(self).wf(),
        ensures
            final(self).wf(),
            final(self)@ == (TransformView {
                position: new_position@,
                matrix_dirty: true,
                normal_dirty: true,
                ..old(self)@
            }),
    {
        self.position = new_position;
        self.matrix_dirty = true;
        self.normal_dirty = true;
    }

    /// A mutable reference to the position. The matrix domain turns stale;
    /// the basis caches are untouched.
    pub fn position_mut(&mut self) -> (r: &mut [u32; 3])
        requires
            old(self).wf(),
        ensures
            final(self).wf(),
            r@ == old(self)@.position,
            final(self)@ == (TransformView {
                position: final(r)@,
                matrix_dirty: true,
                normal_dirty: true,
                ..old(self)@
            }),
    {
        self.matrix_dirty = true;
        self.normal_dirty = true;
        &mut self.position
    }

    /// The rotation.
    pub fn rotation(&self) -> (r: [u32; 4])
        ensures
            r@ == self@.rotation,
    {
        self.rotation
    }

    /// Sets the rotation. Both the matrix domain and the basis domain turn
    /// stale.
    pub fn set_rotation(&mut self, new_rotation: [u32; 4])
        requires
            old(self).wf(),
        ensures
            final(self).wf(),
            final(self)@ == (TransformView {
                rotation: new_rotation@,
                matrix_dirty: true,
                normal_dirty: true,
                forward: None,
                right: None,
                up: None,
                ..old(self)@
            }),
    {
        self.rotation = new_rotation;
        self.matrix_dirty = true;
        self.normal_dirty = true;
        self.basis_forward = None;
        self.basis_right = None;
        self.basis_up = None;
    }

    /// A mutable reference to the rotation. Both the matrix domain and the
    /// basis domain turn stale.
    pub fn rotation_mut(&mut self) -> (r: &mut [u32; 4])
        requires
            old(self).wf(),
        ensures
            final(self).wf(),
            r@ == old(self)@.rotation,
            final(self)@ == (TransformView {
                rotation: final(r)@,
                matrix_dirty: true,
                normal_dirty: true,
                forward: None,
                right: None,
                up: None,
                ..old(self)@
            }),
    {
        self.matrix_dirty = true;
        self.normal_dirty = true;
        self.basis_forward = None;
        self.basis_right = None;
        self.basis_up = None;
        &mut self.rotation
    }

    /// The scale.
    pub fn scale(&self) -> (r: [u32; 3])
        ensures
            r@ == self@.scale,
    {
        self.scale
    }

    /// Sets the scale. The matrix domain turns stale; the basis caches are
    /// untouched, since the basis vectors do not depend on the scale.
    pub fn set_scale(&mut self, new_scale: [u32; 3])
        requires
            old(self).wf(),
        ensures
            final(self).wf(),
            final(self)@ == (TransformView {
                scale: new_scale@,
                matrix_dirty: true,
                normal_dirty: true,
                ..old(self)@
            }),
    {
        self.scale = new_scale;
        self.matrix_dirty = true;
        self.normal_dirty = true;
    }

    /// A mutable reference to the scale. The matrix domain turns stale; the
    /// basis caches are untouched.
    pub fn scale_mut(&mut self) -> (r: &mut [u32; 3])
        requires
            old(self).wf(),
        ensures
            final(self).wf(),
            r@ == old(self)@.scale,
            final(self)@ == (TransformView {
                scale: final(r)@,
                matrix_dirty: true,
                normal_dirty: true,
                ..old(self)@
            }),
    {
        self.matrix_dirty = true;
        self.normal_dirty = true;
        &mut self.scale
    }

    /// True when the cached world matrix is stale and must be refreshed
    /// before the next read.
    pub fn matrix_dirty(&self) -> (r: bool)
        ensures
            r == self@.matrix_dirty,
    {
        self.matrix_dirty
    }

    /// True when the cached normal matrix is stale and must be refreshed
    /// before the next read.
    pub fn normal_dirty(&self) -> (r: bool)
        ensures
            r == self@.normal_dirty,
    {
        self.normal_dirty
    }

    /// True when the forward vector is stale and must be refreshed before
    /// the next read.
    pub fn forward_dirty(&self) -> (r: bool)
        ensures
            r == (self@.forward is None),
    {
        self.basis_forward.is_none()
    }

    /// True when the right vector is stale and must be refreshed before the
    /// next read.
    pub fn right_dirty(&self) -> (r: bool)
        ensures
            r == (self@.right is None),
    {
        self.basis_right.is_none()
    }

    /// True when the up vector is stale and must be refreshed before the
    /// next read.
    pub fn up_dirty(&self) -> (r: bool)
        ensures
            r == (self@.up is None),
    {
        self.basis_up.is_none()
    }

    /// Stores the world matrix computed from the current sources and marks
    /// the cache clean.
    pub fn refresh_matrix(&mut self, matrix: [u32; 16])
        requires
            old(self).wf(),
        ensures
            final(self).wf(),
            final(self)@ == (TransformView {
                matrix: matrix@,
                matrix_dirty: false,
                matrix_src: (old(self)@.position, old(self)@.rotation, old(self)@.scale),
                ..old(self)@
            }),
    {
        self.matrix = matrix;
        self.matrix_dirty = false;
        self.matrix_src = Ghost((self.position@, self.rotation@, self.scale@));
    }

    /// Stores the normal matrix computed from the current sources and marks
    /// the cache clean.
    pub fn refresh_normal_matrix(&mut self, normal_matrix: [u32; 9])
        requires
            old(self).wf(),
        ensures
            final(self).wf(),
            final(self)@ == (TransformView {
                normal_matrix: normal_matrix@,
                normal_dirty: false,
                normal_src: (old(self)@.position, old(self)@.rotation, old(self)@.scale),
                ..old(self)@
            }),
    {
        self.normal_matrix = normal_matrix;
        self.normal_dirty = false;
        self.normal_src = Ghost((self.position@, self.rotation@, self.scale@));
    }

    /// Stores the forward vector computed from the current rotation.
    pub fn refresh_forward(&mut self, forward: [u32; 3])
        requires
            old(self).wf(),
        ensures
            final(self).wf(),
            final(self)@ == (TransformView {
                forward: Some(forward@),
                forward_src: old(self)@.rotation,
                ..old(self)@
            }),
    {
        self.basis_forward = Some(forward);
        self.forward_src = Ghost(self.rotation@);
    }

    /// Stores the right vector computed from the current rotation.
    pub fn refresh_right(&mut self, right: [u32; 3])
        requires
            old(self).wf(),
        ensures
            final(self).wf(),
            final(self)@ == (TransformView {
                right: Some(right@),
                right_src: old(self)@.rotation,
                ..old(self)@
            }),
    {
        self.basis_right = Some(right);
        self.right_src = Ghost(self.rotation@);
    }

    /// Stores the up vector computed from the current rotation.
    pub fn refresh_up(&mut self, up: [u32; 3])
        requires
            old(self).wf(),
        ensures
            final(self).wf(),
            final(self)@ == (TransformView {
                up: Some(up@),
                up_src: old(self)@.rotation,
                ..old(self)@
            }),
    {
        self.basis_up = Some(up);
        self.up_src = Ghost(self.rotation@);
    }

    /// The cached world matrix; the cache must be clean.
    pub fn matrix(&self) -> (r: [u32; 16])
        requires
            self.wf(),
            !self@.matrix_dirty,
        ensures
            r@ == self@.matrix,
            self@.matrix_src == (self@.position, self@.rotation, self@.scale),
    {
        self.matrix
    }

    /// The cached normal matrix; the cache must be clean.
    pub fn normal_matrix(&self) -> (r: [u32; 9])
        requires
            self.wf(),
            !self@.normal_dirty,
        ensures
            r@ == self@.normal_matrix,
            self@.normal_src == (self@.position, self@.rotation, self@.scale),
    {
        self.normal_matrix
    }

    /// The cached forward vector; the cache must be clean.
    pub fn forward(&self) -> (r: [u32; 3])
        requires
            self.wf(),
            self@.forward is Some,
        ensures
            Some(r@) == self@.forward,
            self@.forward_src == self@.rotation,
    {
        match &self.basis_forward {
            Some(v) => *v,
            None => [0; 3],
        }
    }

    /// The cached right vector; the cache must be clean.
    pub fn right(&self) -> (r: [u32; 3])
        requires
            self.wf(),
            self@.right is Some,
        ensures
            Some(r@) == self@.right,
            self@.right_src == self@.rotation,
    {
        match &self.basis_right {
            Some(v) => *v,
            None => [0; 3],
        }
    }

    /// The cached up vector; the cache must be clean.
    pub fn up(&self) -> (r: [u32; 3])
        requires
            self.wf(),
            self@.up is Some,
        ensures
            Some(r@) == self@.up,
            self@.up_src == self@.rotation,
    {
        match &self.basis_up {
            Some(v) => *v,
            None => [0; 3],
        }
    }
}

/// Every transform keeps its caches current: a clean cache was refreshed
/// while the sources already held exactly their current values. The
/// invariant itself is established on construction and preserved by every
/// setter and refresh call.
pub proof fn lemma_wf_caches_current(t: Transform)
    requires
        t.wf(),
    ensures
        caches_current(t@),
{
}

/// Two transform states with the same rotation that both hold a clean basis
/// vector had it refreshed from that same rotation: the basis domain
/// depends on the rotation alone, never on the position or the scale.
pub proof fn lemma_basis_sources_match(a: TransformView, b: TransformView)
    requires
        caches_current(a),
        caches_current(b),
        a.rotation == b.rotation,
    ensures
        a.forward is Some && b.forward is Some ==> a.forward_src == b.forward_src,
        a.right is Some && b.right is Some ==> a.right_src == b.right_src,
        a.up is Some && b.up is Some ==> a.up_src == b.up_src,
{
}

} // verus!
