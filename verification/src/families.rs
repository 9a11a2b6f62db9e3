//! Queue families: one value per family (graphics, compute, transfer, sparse binding,
//! protected), accessed by marker types.
use vstd::prelude::*;

verus! {

/// The five queue families, as values.
#[derive(PartialEq, Eq, Structural, Clone, Copy, Debug)]
pub enum Family {
    Graphics,
    Compute,
    Transfer,
    Sparse,
    Protected,
}

/// The queue flag bit that marks a queue family as supporting `f`
/// (`VK_QUEUE_GRAPHICS_BIT`, `VK_QUEUE_COMPUTE_BIT`, `VK_QUEUE_TRANSFER_BIT`,
/// `VK_QUEUE_SPARSE_BINDING_BIT`, `VK_QUEUE_PROTECTED_BIT`).
pub open spec fn family_flag(f: Family) -> u32 {
    match f {
        Family::Graphics => QUEUE_GRAPHICS_BIT,
        Family::Compute => QUEUE_COMPUTE_BIT,
        Family::Transfer => QUEUE_TRANSFER_BIT,
        Family::Sparse => QUEUE_SPARSE_BINDING_BIT,
        Family::Protected => QUEUE_PROTECTED_BIT,
    }
}

pub const QUEUE_GRAPHICS_BIT: u32 = 0x1;

pub const QUEUE_COMPUTE_BIT: u32 = 0x2;

pub const QUEUE_TRANSFER_BIT: u32 = 0x4;

pub const QUEUE_SPARSE_BINDING_BIT: u32 = 0x8;

pub const QUEUE_PROTECTED_BIT: u32 = 0x10;

/// `flags` contains every bit of `bit` (the `contains` of a Vulkan flag set).
pub open spec fn has_flag(flags: u32, bit: u32) -> bool {
    flags & bit == bit
}

/// `r` is the index of the first entry of `flags` that has `bit`, or `None` when no entry has it.
pub open spec fn is_first_with_flag(flags: Seq<u32>, bit: u32, r: Option<u32>) -> bool {
    match r {
        Some(i) => {
            &&& i < flags.len()
            &&& has_flag(flags[i as int], bit)
            &&& forall|j: int| 0 <= j < i ==> !has_flag(#[trigger] flags[j], bit)
        },
        None => forall|j: int| 0 <= j < flags.len() ==> !has_flag(#[trigger] flags[j], bit),
    }
}

/// Type-level access to one field of [`Families`].
///
/// Implemented by the marker types [`Graphics`], [`Compute`], [`Transfer`], [`Sparse`]
/// and [`Protected`].
pub trait QueueFamily: Sized {
    /// The family this marker stands for.
    spec fn family() -> Family;

    /// Accesses the field for this queue family.
    fn access<T>(families: &Families<T>) -> (r: &T)
        ensures
            *r == families.field(Self::family()),
    ;

    /// Mutably accesses the field for this queue family.
    fn access_mut<T>(families: &mut Families<T>) -> (r: &mut T)
        ensures
            *r == old(families).field(Self::family()),
            *final(families) == old(families).with_field(Self::family(), *final(r)),
    ;
}

/// Marker type for the graphics queue family.
pub struct Graphics;

impl QueueFamily for Graphics {
    open spec fn family() -> Family {
        Family::Graphics
    }

    fn access<T>(families: &Families<T>) -> (r: &T) {
        &families.graphics
    }

    fn access_mut<T>(families: &mut Families<T>) -> (r: &mut T) {
        &mut families.graphics
    }
}

/// Marker type for the compute queue family.
pub struct Compute;

impl QueueFamily for Compute {
    open spec fn family() -> Family {
        Family::Compute
    }

    fn access<T>(families: &Families<T>) -> (r: &T) {
        &families.compute
    }

    fn access_mut<T>(families: &mut Families<T>) -> (r: &mut T) {
        &mut families.compute
    }
}

/// Marker type for the transfer queue family.
pub struct Transfer;

impl QueueFamily for Transfer {
    open spec fn family() -> Family {
        Family::Transfer
    }

    fn access<T>(families: &Families<T>) -> (r: &T) {
        &families.transfer
    }

    fn access_mut<T>(families: &mut Families<T>) -> (r: &mut T) {
        &mut families.transfer
    }
}

/// Marker type for the sparse binding queue family.
pub struct Sparse;

impl QueueFamily for Sparse {
    open spec fn family() -> Family {
        Family::Sparse
    }

    fn access<T>(families: &Families<T>) -> (r: &T) {
        &families.sparse
    }

    fn access_mut<T>(families: &mut Families<T>) -> (r: &mut T) {
        &mut families.sparse
    }
}

/// Marker type for the protected memory queue family.
pub struct Protected;

impl QueueFamily for Protected {
    open spec fn family() -> Family {
        Family::Protected
    }

    fn access<T>(families: &Families<T>) -> (r: &T) {
        &families.protected
    }

    fn access_mut<T>(families: &mut Families<T>) -> (r: &mut T) {
        &mut families.protected
    }
}

/// One value for each queue family.
#[derive(Clone, Copy, Debug)]
pub struct Families<T> {
    pub graphics: T,
    pub compute: T,
    pub transfer: T,
    pub sparse: T,
    pub protected: T,
}

impl<T> Families<T> {
    /// The value stored for family `f`.
    pub open spec fn field(self, f: Family) -> T {
        match f {
            Family::Graphics => self.graphics,
            Family::Compute => self.compute,
            Family::Transfer => self.transfer,
            Family::Sparse => self.sparse,
            Family::Protected => self.protected,
        }
    }

    /// `self` with the value for family `f` replaced by `v`.
    pub open spec fn with_field(self, f: Family, v: T) -> Families<T> {
        match f {
            Family::Graphics => Families { graphics: v, ..self },
            Family::Compute => Families { compute: v, ..self },
            Family::Transfer => Families { transfer: v, ..self },
            Family::Sparse => Families { sparse: v, ..self },
            Family::Protected => Families { protected: v, ..self },
        }
    }

    /// Gets a reference to the data for the queue family `Q`.
    pub fn get<Q: QueueFamily>(&self) -> (r: &T)
        ensures
            *r == self.field(Q::family()),
    {
        Q::access(self)
    }

    /// Gets a mutable reference to the data for the queue family `Q`.
    pub fn get_mut<Q: QueueFamily>(&mut self) -> (r: &mut T)
        ensures
            *r == old(self).field(Q::family()),
            *final(self) == old(self).with_field(Q::family(), *final(r)),
    {
        Q::access_mut(self)
    }

    /// Sets the value for the queue family `Q`.
    pub fn set<Q: QueueFamily>(&mut self, value: T)
        ensures
            *final(self) == old(self).with_field(Q::family(), value),
    {
        *Q::access_mut(self) = value;
    }
}

impl<T: Default> Default for Families<T> {
    /// Every family holds `T::default()`.
    fn default() -> (r: Self)
        ensures
            forall|f: Family| call_ensures(T::default, (), #[trigger] r.field(f)),
    {
        Families {
            graphics: T::default(),
            compute: T::default(),
            transfer: T::default(),
            sparse: T::default(),
            protected: T::default(),
        }
    }
}

impl Families<Option<u32>> {
    /// The queue family indices of a physical device whose queue families carry the
    /// flags `queue_flags`, in the order the device reports them: for each family, the
    /// first index whose flags contain that family's bit, or `None` when none does.
    pub fn query(queue_flags: &Vec<u32>) -> (r: Self)
        requires
            queue_flags.len() <= u32::MAX,
        ensures
            forall|f: Family| is_first_with_flag(queue_flags@, family_flag(f), #[trigger] r.field(f)),
    {
        let mut families: Self = Families {
            graphics: None,
            compute: None,
            transfer: None,
            sparse: None,
            protected: None,
        };
        let n = queue_flags.len();
        let mut i: usize = 0;
        while i < n
            invariant
                n == queue_flags.len(),
                n <= u32::MAX,
                i <= n,
                forall|f: Family| is_first_with_flag(queue_flags@.take(i as int), family_flag(f), #[trigger] families.field(f)),
            decreases n - i,
        {
            let idx = i as u32;
            let flags = queue_flags[i];
            let ghost prev = families;
            if flags & QUEUE_GRAPHICS_BIT == QUEUE_GRAPHICS_BIT && families.graphics.is_none() {
                families.graphics = Some(idx);
            }
            if flags & QUEUE_COMPUTE_BIT == QUEUE_COMPUTE_BIT && families.compute.is_none() {
                families.compute = Some(idx);
            }
            if flags & QUEUE_TRANSFER_BIT == QUEUE_TRANSFER_BIT && families.transfer.is_none() {
                families.transfer = Some(idx);
            }
            if flags & QUEUE_SPARSE_BINDING_BIT == QUEUE_SPARSE_BINDING_BIT && families.sparse.is_none() {
                families.sparse = Some(idx);
            }
            if flags & QUEUE_PROTECTED_BIT == QUEUE_PROTECTED_BIT && families.protected.is_none() {
                families.protected = Some(idx);
            }
            proof {
                let s = queue_flags@.take(i as int);
                let s1 = queue_flags@.take(i + 1);
                assert(s1 =~= s.push(flags));
                assert forall|f: Family| is_first_with_flag(s1, family_flag(f), #[trigger] families.field(f)) by {
                    assert(is_first_with_flag(s, family_flag(f), prev.field(f)));
                    assert forall|j: int| 0 <= j < s.len() implies s1[j] == s[j] by {}
                }
            }
            i = i + 1;
        }
        proof {
            assert(queue_flags@.take(n as int) =~= queue_flags@);
        }
        families
    }

    /// `x` is the index held by one of the families.
    pub open spec fn holds_index(self, x: u32) -> bool {
        exists|f: Family| #[trigger] self.field(f) == Some(x)
    }

    /// The distinct queue family indices held by the families, each once.
    ///
    /// Their order is left open.
    pub fn unique_indices(&self) -> (r: Vec<u32>)
        ensures
            r@.no_duplicates(),
            forall|x: u32| r@.contains(x) <==> self.holds_index(x),
    {
        let mut v: Vec<u32> = Vec::new();
        if let Some(idx) = self.graphics {
            push_unique(&mut v, idx);
        }
        if let Some(idx) = self.compute {
            push_unique(&mut v, idx);
        }
        if let Some(idx) = self.transfer {
            push_unique(&mut v, idx);
        }
        if let Some(idx) = self.sparse {
            push_unique(&mut v, idx);
        }
        if let Some(idx) = self.protected {
            push_unique(&mut v, idx);
        }
        proof {
            assert forall|x: u32| v@.contains(x) <==> self.holds_index(x) by {
                if self.holds_index(x) {
                    let f = choose|f: Family| #[trigger] self.field(f) == Some(x);
                    assert(self.field(f) == Some(x));
                }
                if v@.contains(x) {
                    if self.graphics == Some(x) {
                        assert(self.field(Family::Graphics) == Some(x));
                    } else if self.compute == Some(x) {
                        assert(self.field(Family::Compute) == Some(x));
                    } else if self.transfer == Some(x) {
                        assert(self.field(Family::Transfer) == Some(x));
                    } else if self.sparse == Some(x) {
                        assert(self.field(Family::Sparse) == Some(x));
                    } else {
                        assert(self.field(Family::Protected) == Some(x));
                    }
                }
            }
        }
        v
    }

    /// The indices of the required families, `None` for the others.
    pub open spec fn filtered(self, required: Families<bool>) -> Families<Option<u32>> {
        Families {
            graphics: if required.graphics { self.graphics } else { None },
            compute: if required.compute { self.compute } else { None },
            transfer: if required.transfer { self.transfer } else { None },
            sparse: if required.sparse { self.sparse } else { None },
            protected: if required.protected { self.protected } else { None },
        }
    }

    /// Keeps the indices of the required families; the others become `None`.
    pub fn filter_required(self, required: &Families<bool>) -> (r: Self)
        ensures
            r == self.filtered(*required),
    {
        let mut out = self;
        if !required.graphics {
            out.graphics = None;
        }
        if !required.compute {
            out.compute = None;
        }
        if !required.transfer {
            out.transfer = None;
        }
        if !required.sparse {
            out.sparse = None;
        }
        if !required.protected {
            out.protected = None;
        }
        out
    }
}

/// Appends `x` to `v` unless `v` already holds it.
fn push_unique(v: &mut Vec<u32>, x: u32)
    requires
        old(v)@.no_duplicates(),
    ensures
        final(v)@.no_duplicates(),
        forall|y: u32| final(v)@.contains(y) <==> (old(v)@.contains(y) || y == x),
{
    let mut i: usize = 0;
    while i < v.len()
        invariant
            v@ == old(v)@,
            old(v)@.no_duplicates(),
            i <= v.len(),
            forall|j: int| 0 <= j < i ==> v@[j] != x,
        decreases v.len() - i,
    {
        if v[i] == x {
            return;
        }
        i = i + 1;
    }
    let ghost before = v@;
    v.push(x);
    proof {
        assert forall|y: u32| v@.contains(y) <==> (before.contains(y) || y == x) by {
            if v@.contains(y) {
                let k = choose|k: int| 0 <= k < v@.len() && v@[k] == y;
                if k < before.len() {
                    assert(before[k] == y);
                }
            }
            if before.contains(y) {
                let k = choose|k: int| 0 <= k < before.len() && before[k] == y;
                assert(v@[k] == y);
            }
            if y == x {
                assert(v@[before.len() as int] == x);
            }
        }
    }
}

impl Families<bool> {
    /// No family is marked.
    pub open spec fn none_marked(self) -> bool {
        !self.graphics && !self.compute && !self.transfer && !self.sparse && !self.protected
    }

    /// Whether at least one queue family is marked as required.
    pub fn any_required(&self) -> (r: bool)
        ensures
            r == exists|f: Family| #[trigger] self.field(f),
    {
        let r = self.graphics || self.compute || self.transfer || self.sparse || self.protected;
        proof {
            if self.graphics {
                assert(self.field(Family::Graphics));
            }
            if self.compute {
                assert(self.field(Family::Compute));
            }
            if self.transfer {
                assert(self.field(Family::Transfer));
            }
            if self.sparse {
                assert(self.field(Family::Sparse));
            }
            if self.protected {
                assert(self.field(Family::Protected));
            }
        }
        r
    }

    /// Whether the queue family `Q` is marked as required.
    pub fn is_required<Q: QueueFamily>(&self) -> (r: bool)
        ensures
            r == self.field(Q::family()),
    {
        *self.get::<Q>()
    }
}

/// Writing a family's value and reading it back gives that value; the other families keep
/// theirs.
pub proof fn lemma_get_set<T>(families: Families<T>, f: Family, g: Family, v: T)
    ensures
        families.with_field(f, v).field(f) == v,
        f != g ==> families.with_field(f, v).field(g) == families.field(g),
{
}

/// Filtering by the same requirements twice is filtering once; filtering with every family
/// required changes nothing; a family that is not required is `None` after filtering, and a
/// required one keeps its index.
pub proof fn lemma_filter_required(families: Families<Option<u32>>, required: Families<bool>, f: Family)
    ensures
        families.filtered(required).filtered(required) == families.filtered(required),
        families.filtered(Families { graphics: true, compute: true, transfer: true, sparse: true, protected: true }) == families,
        families.filtered(required).field(f) == if required.field(f) { families.field(f) } else { None },
{
}

/// The index a query finds for a family is unique: two results that both meet the
/// contract of [`Families::query`] for the same flags are equal.
pub proof fn lemma_query_unique(flags: Seq<u32>, bit: u32, a: Option<u32>, b: Option<u32>)
    requires
        is_first_with_flag(flags, bit, a),
        is_first_with_flag(flags, bit, b),
    ensures
        a == b,
{
    match (a, b) {
        (Some(i), Some(j)) => {
            if i < j {
                assert(!has_flag(flags[i as int], bit));
            } else if j < i {
                assert(!has_flag(flags[j as int], bit));
            }
        },
        (Some(i), None) => {
            assert(!has_flag(flags[i as int], bit));
        },
        (None, Some(j)) => {
            assert(!has_flag(flags[j as int], bit));
        },
        (None, None) => {},
    }
}

} // verus!
