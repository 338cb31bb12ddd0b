//! The orchestrator: memory tier first, then the disk tier, then the
//! rasterizer, writing a fresh result back to both tiers.
//!
//! Each stage is a function from the memory tier and what the previous outside
//! step returned to the next step; the host performs the disk reads and
//! writes and the rasterization in between, without holding the memory tier.
use vstd::prelude::*;
use crate::codec::{IconKey, KeyModel, key_text, lemma_key_text_sizes_differ};
use crate::memory::{
    CacheEntry, EntryModel, HitKind, HitModel, IconCache, classify, entry_of, data_model,
    NEGATIVE_CACHE_TTL_MS,
};
use crate::disk::{data_url_of, png_data_url, DiskModel, disk_after_put};
use crate::codec::file_name_of;
use crate::raster::RasterError;

verus! {

/// The size asked for when a caller names none.
pub const DEFAULT_ICON_SIZE: u32 = 32;

/// The key for a lookup; a missing size means `DEFAULT_ICON_SIZE`.
pub fn icon_key(path: String, size: Option<u32>) -> (r: IconKey)
    ensures
        r@ == (KeyModel {
            path: path@,
            size: match size {
                Some(s) => s,
                None => DEFAULT_ICON_SIZE,
            },
        }),
{
    let icon_size = match size {
        Some(s) => s,
        None => DEFAULT_ICON_SIZE,
    };
    IconKey::new(path, icon_size)
}

/// Creates the memory tier that the host keeps for the life of the process
/// and hands to every lookup.
pub fn get_icon_cache() -> (r: IconCache)
    ensures
        r.wf(),
        r@ == Map::<KeyModel, EntryModel>::empty(),
{
    IconCache::new()
}

/// What a lookup does next.
#[derive(Debug)]
pub enum Step {
    /// Answer the caller: an image as a `data:` URL, or no icon.
    Done(Option<String>),
    /// Read the key's file from the disk tier.
    ReadDisk,
    /// Ask the rasterizer for the image.
    Rasterize,
}

pub enum StepModel {
    Done(Option<Seq<char>>),
    ReadDisk,
    Rasterize,
}

impl View for Step {
    type V = StepModel;

    open spec fn view(&self) -> StepModel {
        match self {
            Step::Done(d) => StepModel::Done(data_model(*d)),
            Step::ReadDisk => StepModel::ReadDisk,
            Step::Rasterize => StepModel::Rasterize,
        }
    }
}

/// The memory stage: an image answers at once, a fresh failure answers
/// "no icon", an expired failure or no entry falls through to the disk.
pub open spec fn memory_step(h: HitModel) -> StepModel {
    match h {
        HitModel::Positive(d) => StepModel::Done(Some(d)),
        HitModel::NegativeFresh => StepModel::Done(None),
        _ => StepModel::ReadDisk,
    }
}

/// The step after the memory stage for `k` at time `now`.
pub open spec fn first_step(m: Map<KeyModel, EntryModel>, k: KeyModel, now: u64) -> StepModel {
    memory_step(classify(entry_of(m, k), now))
}

/// A positive entry for `png`, recorded at `now`.
pub open spec fn positive_entry(png: Seq<u8>, now: u64) -> EntryModel {
    EntryModel { data: Some(data_url_of(png)), created_at: now }
}

/// A negative entry, recorded at `now`.
pub open spec fn negative_entry(now: u64) -> EntryModel {
    EntryModel { data: None, created_at: now }
}

/// The PNG bytes of a rasterization, or none where it failed.
pub open spec fn raster_png(r: Result<Vec<u8>, RasterError>) -> Option<Seq<u8>> {
    match r {
        Ok(png) => Some(png@),
        Err(_) => None,
    }
}

/// The entry that a rasterization result leaves in the memory tier.
pub open spec fn raster_entry(png: Option<Seq<u8>>, now: u64) -> EntryModel {
    match png {
        Some(b) => positive_entry(b, now),
        None => negative_entry(now),
    }
}

/// The answer a rasterization result gives the caller.
pub open spec fn raster_answer(png: Option<Seq<u8>>) -> Option<Seq<char>> {
    match png {
        Some(b) => Some(data_url_of(b)),
        None => None,
    }
}

/// Starts a lookup: consults the memory tier only.
pub fn begin_resolve(cache: &IconCache, key: &IconKey, now: u64) -> (r: Step)
    requires
        cache.wf(),
    ensures
        r@ == first_step(cache@, key@, now),
{
    match cache.lookup(key, now) {
        HitKind::Positive(d) => Step::Done(Some(d)),
        HitKind::NegativeFresh => Step::Done(None),
        HitKind::NegativeExpired => Step::ReadDisk,
        HitKind::Absent => Step::ReadDisk,
    }
}

/// Continues a lookup with what the disk tier held for the key: a file's
/// bytes fill the memory tier with a fresh positive entry and answer; no file
/// sends the lookup to the rasterizer.
pub fn finish_disk(cache: &mut IconCache, key: IconKey, found: Option<Vec<u8>>, now: u64) -> (r:
    Step)
    requires
        old(cache).wf(),
        found matches Some(b) ==> b@.len() <= usize::MAX / 2,
    ensures
        final(cache).wf(),
        found is None ==> final(cache)@ == old(cache)@ && r@ == StepModel::Rasterize,
        found matches Some(b) ==> final(cache)@ == old(cache)@.insert(
            key@,
            positive_entry(b@, now),
        ) && r@ == StepModel::Done(Some(data_url_of(b@))),
{
    match found {
        None => Step::Rasterize,
        Some(png) => {
            let url = png_data_url(png.as_slice());
            let answer = url.clone();
            cache.insert(key, CacheEntry { data: Some(url), created_at: now });
            Step::Done(Some(answer))
        },
    }
}

/// The end of a lookup that reached the rasterizer.
#[derive(Debug)]
pub struct Resolved {
    /// What the caller gets.
    pub answer: Option<String>,
    /// The PNG bytes to offer to the disk tier, where extraction succeeded.
    pub persist: Option<Vec<u8>>,
}

/// Ends a lookup with the rasterizer's result: the memory tier records it
/// (positive or negative) at `now`, and only a success goes to the disk tier.
pub fn finish_rasterize(
    cache: &mut IconCache,
    key: IconKey,
    result: Result<Vec<u8>, RasterError>,
    now: u64,
) -> (r: Resolved)
    requires
        old(cache).wf(),
        result matches Ok(b) ==> b@.len() <= usize::MAX / 2,
    ensures
        final(cache).wf(),
        final(cache)@ == old(cache)@.insert(key@, raster_entry(raster_png(result), now)),
        data_model(r.answer) == raster_answer(raster_png(result)),
        r.persist matches Some(b) ==> raster_png(result) == Some(b@),
        r.persist is None ==> raster_png(result) is None,
{
    match result {
        Ok(png) => {
            let url = png_data_url(png.as_slice());
            let answer = url.clone();
            cache.insert(key, CacheEntry { data: Some(url), created_at: now });
            Resolved { answer: Some(answer), persist: Some(png) }
        },
        Err(_) => {
            cache.insert(key, CacheEntry { data: None, created_at: now });
            Resolved { answer: None, persist: None }
        },
    }
}

/// Once an image is recorded for a key, by the rasterizer (the state
/// `finish_rasterize` leaves) or from the disk (the state `finish_disk`
/// leaves), every later lookup of that key answers with the same `data:` URL
/// from the memory tier, whatever the time, and never reaches the disk or the
/// rasterizer.
pub proof fn lemma_resolve_idempotent(
    m: Map<KeyModel, EntryModel>,
    k: KeyModel,
    png: Seq<u8>,
    recorded: u64,
    later: u64,
)
    ensures
        first_step(m.insert(k, raster_entry(Some(png), recorded)), k, later) == StepModel::Done(
            raster_answer(Some(png)),
        ),
        first_step(m.insert(k, positive_entry(png, recorded)), k, later) == StepModel::Done(
            Some(data_url_of(png)),
        ),
        raster_answer(Some(png)) == Some(data_url_of(png)),
{
}

/// A failure recorded at `t` (the state `finish_rasterize` leaves on an
/// error) answers "no icon" without any outside work for lookups before
/// `t + NEGATIVE_CACHE_TTL_MS`; from then on a lookup goes back to the disk
/// tier and, finding nothing, to the rasterizer. A new failure there, at
/// `retry`, opens a new window that starts at `retry`.
pub proof fn lemma_negative_ttl(
    m: Map<KeyModel, EntryModel>,
    k: KeyModel,
    t: u64,
    later: u64,
    retry: u64,
    after: u64,
)
    requires
        later >= t,
        after >= retry,
    ensures
        later - t < NEGATIVE_CACHE_TTL_MS ==> first_step(m.insert(k, raster_entry(None, t)), k, later)
            == StepModel::Done(None),
        later - t >= NEGATIVE_CACHE_TTL_MS ==> first_step(m.insert(k, raster_entry(None, t)), k, later)
            == StepModel::ReadDisk,
        after - retry < NEGATIVE_CACHE_TTL_MS ==> first_step(
            m.insert(k, raster_entry(None, t)).insert(k, raster_entry(None, retry)),
            k,
            after,
        ) == StepModel::Done(None),
        raster_answer(None) == None::<Seq<char>>,
{
}

/// An image written to the disk tier by one process is what a fresh memory
/// tier, pointed at the same disk, answers from the disk: the lookup goes to
/// the disk and gets the very `data:` URL the first process answered.
pub proof fn lemma_disk_round_trip(d: DiskModel, k: KeyModel, png: Seq<u8>, now: u64)
    requires
        !d.contains_key(file_name_of(k)),
    ensures
        first_step(Map::empty(), k, now) == StepModel::ReadDisk,
        disk_after_put(d, k, png).contains_key(file_name_of(k)),
        disk_after_put(d, k, png)[file_name_of(k)] == png,
        raster_answer(Some(png)) == Some(data_url_of(disk_after_put(d, k, png)[file_name_of(k)])),
{
}

/// The same identifier at two sizes has two independent entries: different
/// digested texts, and in the memory tier neither entry disturbs the other.
pub proof fn lemma_key_discrimination(
    m: Map<KeyModel, EntryModel>,
    a: KeyModel,
    b: KeyModel,
    ea: EntryModel,
    eb: EntryModel,
)
    requires
        a.path == b.path,
        a.size != b.size,
    ensures
        key_text(a) != key_text(b),
        entry_of(m.insert(a, ea).insert(b, eb), a) == Some(ea),
        entry_of(m.insert(a, ea).insert(b, eb), b) == Some(eb),
{
    lemma_key_text_sizes_differ(a, b);
}

/// What the disk holds after each of `pngs` is offered for `k`, in order.
pub open spec fn disk_after_puts(d: DiskModel, k: KeyModel, pngs: Seq<Seq<u8>>) -> DiskModel
    decreases pngs.len(),
{
    if pngs.len() == 0 {
        d
    } else {
        disk_after_put(disk_after_puts(d, k, pngs.drop_last()), k, pngs.last())
    }
}

/// What the memory tier holds after each racing lookup records its image
/// for `k`, in the order given, each at its own time.
pub open spec fn memory_after_puts(
    m: Map<KeyModel, EntryModel>,
    k: KeyModel,
    png: Seq<u8>,
    times: Seq<u64>,
) -> Map<KeyModel, EntryModel>
    decreases times.len(),
{
    if times.len() == 0 {
        m
    } else {
        memory_after_puts(m, k, png, times.drop_last()).insert(k, positive_entry(png, times.last()))
    }
}

/// Racing lookups of one uncached key: however many offer their image to the
/// disk tier, in whatever order, the disk ends with exactly one file for the
/// key, holding the first offer, and no other file changes; where every racer
/// extracted the same image, every racer's answer and the memory tier's final
/// entry are that image.
pub proof fn lemma_concurrent_miss(
    d: DiskModel,
    m: Map<KeyModel, EntryModel>,
    k: KeyModel,
    pngs: Seq<Seq<u8>>,
    times: Seq<u64>,
)
    requires
        !d.contains_key(file_name_of(k)),
        pngs.len() > 0,
        times.len() > 0,
    ensures
        disk_after_puts(d, k, pngs) == d.insert(file_name_of(k), pngs[0]),
        disk_after_puts(d, k, pngs).dom() == d.dom().insert(file_name_of(k)),
        (forall|i: int| 0 <= i < pngs.len() ==> #[trigger] pngs[i] == pngs[0]) ==> forall|i: int|
            0 <= i < pngs.len() ==> raster_answer(Some(#[trigger] pngs[i])) == Some(
                data_url_of(pngs[0]),
            ),
        entry_of(memory_after_puts(m, k, pngs[0], times), k) matches Some(e) && e.data == Some(
            data_url_of(pngs[0]),
        ),
{
    lemma_disk_after_puts(d, k, pngs);
    assert(d.insert(file_name_of(k), pngs[0]).dom() =~= d.dom().insert(file_name_of(k)));
}

proof fn lemma_disk_after_puts(d: DiskModel, k: KeyModel, pngs: Seq<Seq<u8>>)
    requires
        !d.contains_key(file_name_of(k)),
        pngs.len() > 0,
    ensures
        disk_after_puts(d, k, pngs) == d.insert(file_name_of(k), pngs[0]),
    decreases pngs.len(),
{
    let rest = pngs.drop_last();
    if pngs.len() == 1 {
        assert(disk_after_puts(d, k, rest) == d);
    } else {
        lemma_disk_after_puts(d, k, rest);
        assert(rest[0] == pngs[0]);
    }
}

} // verus!
