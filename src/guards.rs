//! Scoped ownership of the native handles that an extraction obtains: each
//! handle is recorded when obtained and handed back for release exactly once,
//! on whatever path the extraction leaves.
use vstd::prelude::*;
use vstd::multiset::Multiset;

verus! {

/// The kinds of native resource an extraction may hold.
#[derive(PartialEq, Eq, Structural, Clone, Copy, Debug)]
pub enum ResourceKind {
    /// A window icon handle, released by destroying the icon.
    Icon,
    /// A drawable bitmap, released by deleting the object.
    Bitmap,
    /// A screen device context, released back to the system.
    DeviceContext,
    /// The per-thread component subsystem initialisation, undone once.
    ComInit,
}

/// A native handle as its raw value; zero stands for a null handle.
#[derive(PartialEq, Eq, Structural, Clone, Copy, Debug)]
pub struct NativeHandle {
    pub kind: ResourceKind,
    pub raw: u64,
}

/// The guard for a window icon handle.
#[derive(Debug)]
pub struct HiconGuard(pub u64);

/// The guard for a drawable bitmap handle.
#[derive(Debug)]
pub struct HbitmapGuard(pub u64);

/// The guard for a device context of the whole screen, released back to the
/// system with no owning window.
#[derive(Debug)]
pub struct HdcGuard {
    pub hdc: u64,
}

/// The guard for the component subsystem: it owes an uninitialisation only
/// where initialisation succeeded.
#[derive(Debug)]
pub struct CoGuard(pub bool);

impl HiconGuard {
    /// The handle this guard releases; a null icon owes nothing.
    pub fn handle(&self) -> (r: NativeHandle)
        ensures
            r == (NativeHandle { kind: ResourceKind::Icon, raw: self.0 }),
    {
        NativeHandle { kind: ResourceKind::Icon, raw: self.0 }
    }
}

impl HbitmapGuard {
    /// The handle this guard releases; a null bitmap owes nothing.
    pub fn handle(&self) -> (r: NativeHandle)
        ensures
            r == (NativeHandle { kind: ResourceKind::Bitmap, raw: self.0 }),
    {
        NativeHandle { kind: ResourceKind::Bitmap, raw: self.0 }
    }
}

impl HdcGuard {
    /// The handle this guard releases; a null context owes nothing.
    pub fn handle(&self) -> (r: NativeHandle)
        ensures
            r == (NativeHandle { kind: ResourceKind::DeviceContext, raw: self.hdc }),
    {
        NativeHandle { kind: ResourceKind::DeviceContext, raw: self.hdc }
    }
}

impl CoGuard {
    /// The handle this guard stands for: a non-null one exactly when an
    /// uninitialisation is owed.
    pub fn handle(&self) -> (r: NativeHandle)
        ensures
            r.kind == ResourceKind::ComInit,
            (r.raw != 0) == self.0,
    {
        NativeHandle { kind: ResourceKind::ComInit, raw: if self.0 { 1 } else { 0 } }
    }
}

/// The handles held after offering each of `hs` in turn: the non-null ones,
/// in the order obtained. A null handle owns nothing and is never released.
pub open spec fn held_after(hs: Seq<NativeHandle>) -> Seq<NativeHandle>
    decreases hs.len(),
{
    if hs.len() == 0 {
        Seq::empty()
    } else if hs.last().raw == 0 {
        held_after(hs.drop_last())
    } else {
        held_after(hs.drop_last()).push(hs.last())
    }
}

/// The handles obtained during one extraction and not yet released.
pub struct ResourceScope {
    held: Vec<NativeHandle>,
}

impl View for ResourceScope {
    type V = Seq<NativeHandle>;

    closed spec fn view(&self) -> Seq<NativeHandle> {
        self.held@
    }
}

impl ResourceScope {
    /// A scope that holds nothing.
    pub fn new() -> (r: ResourceScope)
        ensures
            r@ == Seq::<NativeHandle>::empty(),
    {
        ResourceScope { held: Vec::new() }
    }

    /// Takes ownership of a handle as soon as it is obtained; a null handle
    /// is not recorded.
    pub fn acquire(&mut self, h: NativeHandle)
        ensures
            h.raw == 0 ==> final(self)@ == old(self)@,
            h.raw != 0 ==> final(self)@ == old(self)@.push(h),
    {
        if h.raw != 0 {
            self.held.push(h);
        }
    }

    /// The number of handles not yet released.
    pub fn outstanding(&self) -> (r: usize)
        ensures
            r == self@.len(),
    {
        self.held.len()
    }

    /// Hands back every held handle for release, the last obtained first,
    /// and leaves the scope empty.
    pub fn release_all(&mut self) -> (r: Vec<NativeHandle>)
        ensures
            r@ == old(self)@.reverse(),
            final(self)@ == Seq::<NativeHandle>::empty(),
    {
        let mut out: Vec<NativeHandle> = Vec::new();
        while self.held.len() > 0
            invariant
                out@ + self@.reverse() == old(self)@.reverse(),
            decreases self@.len(),
        {
            let ghost before = self@;
            let h = self.held.pop().unwrap();
            proof {
                assert(before.reverse() =~= seq![h] + self@.reverse());
            }
            out.push(h);
            proof {
                assert(out@ + self@.reverse() =~= old(self)@.reverse());
            }
        }
        proof {
            assert(self@.reverse() =~= Seq::<NativeHandle>::empty());
            assert(out@ =~= old(self)@.reverse());
        }
        out
    }
}

/// Offering handles one after another to a fresh scope leaves it holding
/// `held_after` of them.
pub proof fn lemma_acquire_step(hs: Seq<NativeHandle>, h: NativeHandle)
    ensures
        held_after(hs.push(h)) == if h.raw == 0 {
            held_after(hs)
        } else {
            held_after(hs).push(h)
        },
{
    assert(hs.push(h).drop_last() =~= hs);
}

/// Whichever handle an extraction fails after, releasing its scope hands
/// back every non-null handle obtained so far exactly once (the last obtained
/// first) and leaves none outstanding.
pub proof fn lemma_release_after_failure(hs: Seq<NativeHandle>, k: nat, released: Seq<NativeHandle>)
    requires
        k <= hs.len(),
        released == held_after(hs.take(k as int)).reverse(),
    ensures
        released.to_multiset() == held_after(hs.take(k as int)).to_multiset(),
        forall|h: NativeHandle| #[trigger] released.contains(h) ==> h.raw != 0,
        forall|i: int|
            0 <= i < k && hs[i].raw != 0 ==> #[trigger] released.contains(hs[i]),
{
    let held = held_after(hs.take(k as int));
    lemma_reverse_multiset(held);
    lemma_held_nonnull(hs.take(k as int));
    assert forall|h: NativeHandle| #[trigger] released.contains(h) implies h.raw != 0 by {
        let i = choose|i: int| 0 <= i < released.len() && released[i] == h;
        assert(held[held.len() - 1 - i] == h);
    }
    assert forall|i: int| 0 <= i < k && hs[i].raw != 0 implies #[trigger] released.contains(hs[i]) by {
        lemma_held_contains(hs.take(k as int), i);
        let j = choose|j: int| 0 <= j < held.len() && held[j] == hs[i];
        assert(released[held.len() - 1 - j] == hs[i]);
    }
}

proof fn lemma_reverse_multiset(s: Seq<NativeHandle>)
    ensures
        s.reverse().to_multiset() == s.to_multiset(),
    decreases s.len(),
{
    if s.len() > 0 {
        let l = s.last();
        let rest = s.drop_last();
        lemma_reverse_multiset(rest);
        assert(s.reverse() =~= seq![l] + rest.reverse());
        assert(s =~= rest.push(l));
        vstd::seq_lib::lemma_multiset_commutative(seq![l], rest.reverse());
        rest.to_multiset_ensures();
        Seq::<NativeHandle>::empty().to_multiset_ensures();
        assert(seq![l] =~= Seq::<NativeHandle>::empty().push(l));
        assert(seq![l].to_multiset() =~= Multiset::<NativeHandle>::empty().insert(l));
        assert(s.reverse().to_multiset() =~= s.to_multiset());
    } else {
        assert(s.reverse() =~= s);
    }
}

proof fn lemma_held_nonnull(hs: Seq<NativeHandle>)
    ensures
        forall|i: int| 0 <= i < held_after(hs).len() ==> held_after(hs)[i].raw != 0,
    decreases hs.len(),
{
    if hs.len() > 0 {
        lemma_held_nonnull(hs.drop_last());
    }
}

proof fn lemma_held_contains(hs: Seq<NativeHandle>, i: int)
    requires
        0 <= i < hs.len(),
        hs[i].raw != 0,
    ensures
        held_after(hs).contains(hs[i]),
    decreases hs.len(),
{
    if i == hs.len() - 1 {
        assert(held_after(hs).last() == hs[i]);
    } else {
        lemma_held_contains(hs.drop_last(), i);
        let j = choose|j: int|
            0 <= j < held_after(hs.drop_last()).len() && held_after(hs.drop_last())[j] == hs[i];
        assert(held_after(hs)[j] == hs[i]);
    }
}

} // verus!
