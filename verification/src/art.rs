use vstd::prelude::*;
use std::collections::hash_map::RandomState;
use std::num::NonZeroUsize;
use std::sync::{Arc, RwLock};
use lru::LruCache;
use image::DynamicImage;
use ratatui_image::picker::Picker;
use ratatui_image::protocol::StatefulProtocol;
use crate::track::{Album, AlbumView};

verus! {

/// lru's cache, a map that drops its least recently used entry when full.
#[verifier::external_type_specification]
#[verifier::external_body]
#[verifier::reject_recursive_types(K)]
#[verifier::reject_recursive_types(V)]
#[verifier::reject_recursive_types(S)]
pub struct ExLruCache<K, V, S>(LruCache<K, V, S>);

/// ratatui-image's picture prepared for the terminal.
#[verifier::external_type_specification]
#[verifier::external_body]
pub struct ExStatefulProtocol(StatefulProtocol);

/// ratatui-image's choice of how pictures are drawn on this terminal.
#[verifier::external_type_specification]
#[verifier::external_body]
pub struct ExPicker(Picker);

/// image's decoded picture.
#[verifier::external_type_specification]
#[verifier::external_body]
pub struct ExDynamicImage(DynamicImage);

/// std's reader-writer lock, through which the drawing code uses a picture.
#[verifier::external_type_specification]
#[verifier::external_body]
#[verifier::reject_recursive_types(T)]
pub struct ExRwLock<T: ?Sized>(RwLock<T>);

/// A cover: the bytes of the image file and the picture made from them for
/// the terminal (shared with the drawing code).
pub type Cover = (Vec<u8>, Arc<RwLock<StatefulProtocol>>);

/// The entries of an LRU cache of covers, in order of use: the least
/// recently used first, the most recently used last; each is an album with
/// the bytes of its cover's image file.
pub uninterp spec fn cached_covers(c: LruCache<Album, Cover, RandomState>) -> Seq<(AlbumView, Seq<u8>)>;

/// The number of covers an LRU cache of covers was made to hold.
pub uninterp spec fn cache_capacity(c: LruCache<Album, Cover, RandomState>) -> nat;

/// Whether an entry of `s` is for album `a`.
pub open spec fn holds(s: Seq<(AlbumView, Seq<u8>)>, a: AlbumView) -> bool {
    exists|i: int| 0 <= i < s.len() && #[trigger] s[i].0 == a
}

/// The position of the entry for album `a` (meaningful where `holds`).
pub open spec fn position_of(s: Seq<(AlbumView, Seq<u8>)>, a: AlbumView) -> int {
    choose|i: int| 0 <= i < s.len() && #[trigger] s[i].0 == a
}

/// No two entries are for the same album.
pub open spec fn keys_distinct(s: Seq<(AlbumView, Seq<u8>)>) -> bool {
    forall|i: int, j: int| 0 <= i < j < s.len() ==> #[trigger] s[i].0 != #[trigger] s[j].0
}

/// Calls `LruCache::with_hasher` with std's `RandomState` (the hasher only
/// spreads keys). Claimed, as lru's source shows: the cache is empty and
/// holds at most `capacity` entries.
#[verifier::external_body]
fn new_cache(capacity: usize) -> (c: LruCache<Album, Cover, RandomState>)
    requires
        capacity > 0,
    ensures
        cached_covers(c) == Seq::<(AlbumView, Seq<u8>)>::empty(),
        cache_capacity(c) == capacity,
{
    LruCache::with_hasher(NonZeroUsize::new(capacity).unwrap(), RandomState::new())
}

/// Calls `LruCache::contains`, which leaves the order of use as it is.
/// Claimed: whether the cache holds an entry for an album equal to `a`
/// (albums compare field by field, as their views do).
#[verifier::external_body]
fn cache_contains(c: &LruCache<Album, Cover, RandomState>, a: &Album) -> (r: bool)
    ensures
        r == holds(cached_covers(*c), a@),
{
    c.contains(a)
}

/// Calls `LruCache::get` and copies the cover found (the bytes, and a new
/// handle to the shared picture). Claimed, as lru's source shows: a cover
/// exactly when the cache holds an entry for `a`; then it is that entry's,
/// and the entry becomes the most recently used; otherwise nothing changes.
/// The capacity stays.
#[verifier::external_body]
fn cache_get(c: &mut LruCache<Album, Cover, RandomState>, a: &Album) -> (r: Option<Cover>)
    ensures
        r is Some <==> holds(cached_covers(*old(c)), a@),
        r matches Some(cover) ==> exists|i: int| 0 <= i < cached_covers(*old(c)).len()
            && #[trigger] cached_covers(*old(c))[i].0 == a@
            && cover.0@ == cached_covers(*old(c))[i].1
            && cached_covers(*final(c)) == cached_covers(*old(c)).remove(i).push(cached_covers(*old(c))[i]),
        r is None ==> cached_covers(*final(c)) == cached_covers(*old(c)),
        cache_capacity(*final(c)) == cache_capacity(*old(c)),
{
    c.get(a).map(|cover| (cover.0.clone(), Arc::clone(&cover.1)))
}

/// Calls `LruCache::put`. Claimed, as lru's source shows: where the cache
/// holds an entry for `a`, that entry takes `cover` and becomes the most
/// recently used; otherwise, where the cache is not full, an entry for `a`
/// is added as the most recently used; where it is full, the least recently
/// used entry is dropped and one for `a` added as the most recently used.
/// The capacity stays.
#[verifier::external_body]
fn cache_put(c: &mut LruCache<Album, Cover, RandomState>, a: Album, cover: Cover)
    ensures
        holds(cached_covers(*old(c)), a@) ==> exists|i: int| 0 <= i < cached_covers(*old(c)).len()
            && #[trigger] cached_covers(*old(c))[i].0 == a@
            && cached_covers(*final(c)) == cached_covers(*old(c)).remove(i).push((a@, cover.0@)),
        !holds(cached_covers(*old(c)), a@) && cached_covers(*old(c)).len() < cache_capacity(*old(c))
            ==> cached_covers(*final(c)) == cached_covers(*old(c)).push((a@, cover.0@)),
        !holds(cached_covers(*old(c)), a@) && cached_covers(*old(c)).len() == cache_capacity(*old(c))
            ==> cached_covers(*final(c)) == cached_covers(*old(c)).drop_first().push((a@, cover.0@)),
        cache_capacity(*final(c)) == cache_capacity(*old(c)),
{
    c.put(a, cover);
}

/// Whether image can decode these bytes as a picture (it guesses the format
/// from the bytes themselves).
pub uninterp spec fn decodes(bytes: Seq<u8>) -> bool;

/// Calls `image::load_from_memory`. Claimed: a picture exactly when the
/// bytes decode, which depends on the bytes alone.
#[verifier::external_body]
fn decode_image(bytes: &[u8]) -> (r: Option<DynamicImage>)
    ensures
        r is Some <==> decodes(bytes@),
{
    image::load_from_memory(bytes).ok()
}

/// Calls `Picker::new_resize_protocol`, which prepares the picture for the
/// terminal the picker was made for. Nothing is claimed of the result.
#[verifier::external_body]
fn prepare_picture(picker: &Picker, picture: DynamicImage) -> StatefulProtocol {
    picker.new_resize_protocol(picture)
}

/// Calls `RwLock::new`. Nothing is claimed of the lock, which is opaque here.
#[verifier::external_body]
fn new_lock(p: StatefulProtocol) -> RwLock<StatefulProtocol> {
    RwLock::new(p)
}

/// Calls `Arc::clone`: a second handle to the same shared picture. Nothing
/// is claimed of it, as the picture is opaque here.
#[verifier::external_body]
fn share_picture(p: &Arc<RwLock<StatefulProtocol>>) -> Arc<RwLock<StatefulProtocol>> {
    Arc::clone(p)
}

/// The cover made from an image file's bytes for this terminal: present
/// exactly when the bytes decode as a picture, and holding those bytes.
pub fn decode_cover(bytes: Vec<u8>, picker: &Picker) -> (r: Option<Cover>)
    ensures
        r is Some <==> decodes(bytes@),
        r matches Some(c) ==> c.0@ == bytes@,
{
    match decode_image(bytes.as_slice()) {
        Some(picture) => {
            let prepared = prepare_picture(picker, picture);
            Some((bytes, Arc::new(new_lock(prepared))))
        },
        None => None,
    }
}

/// The entries after the cover bytes `b` of album `a` were kept as the most
/// recently used: replacing the entry held for `a`, or added, after the
/// least recently used entry was dropped where the cache was full.
pub open spec fn remembered(s: Seq<(AlbumView, Seq<u8>)>, cap: nat, a: AlbumView, b: Seq<u8>) -> Seq<(AlbumView, Seq<u8>)> {
    if holds(s, a) {
        s.remove(position_of(s, a)).push((a, b))
    } else if s.len() < cap {
        s.push((a, b))
    } else {
        s.drop_first().push((a, b))
    }
}

/// The covers of recently opened albums, at most ten, the least recently
/// used dropped first.
pub struct CoverCache {
    entries: LruCache<Album, Cover, RandomState>,
}

/// The entries without the one at `i`, then `e` as the most recently used,
/// keep distinct albums where `e` is for the album of the entry at `i`.
proof fn lemma_move_to_end_distinct(s: Seq<(AlbumView, Seq<u8>)>, i: int, e: (AlbumView, Seq<u8>))
    requires
        keys_distinct(s),
        0 <= i < s.len(),
        e.0 == s[i].0,
    ensures
        keys_distinct(s.remove(i).push(e)),
        s.remove(i).push(e).len() == s.len(),
{
    let t = s.remove(i).push(e);
    assert forall|x: int, y: int| 0 <= x < y < t.len() implies #[trigger] t[x].0 != #[trigger] t[y].0 by {
        let sx = if x < i { x } else { x + 1 };
        if y == t.len() - 1 {
            assert(t[x].0 == s[sx].0);
        } else {
            let sy = if y < i { y } else { y + 1 };
            assert(t[x].0 == s[sx].0 && t[y].0 == s[sy].0);
        }
    }
}

/// Adding an entry for an album not held keeps the albums distinct, also
/// after the least recently used entry was dropped.
proof fn lemma_add_new_distinct(s: Seq<(AlbumView, Seq<u8>)>, e: (AlbumView, Seq<u8>))
    requires
        keys_distinct(s),
        !holds(s, e.0),
    ensures
        keys_distinct(s.push(e)),
        s.len() > 0 ==> keys_distinct(s.drop_first().push(e)),
{
    let t = s.push(e);
    assert forall|x: int, y: int| 0 <= x < y < t.len() implies #[trigger] t[x].0 != #[trigger] t[y].0 by {
        if y == t.len() - 1 {
            assert(t[x].0 == s[x].0);
        } else {
            assert(t[x].0 == s[x].0 && t[y].0 == s[y].0);
        }
    }
    if s.len() > 0 {
        let u = s.drop_first().push(e);
        assert forall|x: int, y: int| 0 <= x < y < u.len() implies #[trigger] u[x].0 != #[trigger] u[y].0 by {
            if y == u.len() - 1 {
                assert(u[x].0 == s[x + 1].0);
            } else {
                assert(u[x].0 == s[x + 1].0 && u[y].0 == s[y + 1].0);
            }
        }
    }
}

impl CoverCache {
    /// The entries held, in order of use (the least recently used first),
    /// each an album with its cover's image file bytes.
    pub closed spec fn covers(self) -> Seq<(AlbumView, Seq<u8>)> {
        cached_covers(self.entries)
    }

    /// The number of covers the cache holds at most.
    pub closed spec fn capacity(self) -> nat {
        cache_capacity(self.entries)
    }

    /// Every album is held once, and no more covers than the capacity,
    /// which is not zero.
    pub closed spec fn well_formed(self) -> bool {
        &&& cache_capacity(self.entries) > 0
        &&& keys_distinct(cached_covers(self.entries))
        &&& cached_covers(self.entries).len() <= cache_capacity(self.entries)
    }

    /// An empty cache for ten covers.
    pub fn new() -> (c: CoverCache)
        ensures
            c.well_formed(),
            c.covers() == Seq::<(AlbumView, Seq<u8>)>::empty(),
            c.capacity() == 10,
    {
        CoverCache { entries: new_cache(10) }
    }

    /// Whether the cover of an album should be fetched ahead of time: it has
    /// tracks and its cover is not held yet.
    pub fn wants(&self, album: &Album) -> (r: bool)
        ensures
            r == (album@.songs.len() > 0 && !holds(self.covers(), album@)),
    {
        album.songs.len() > 0 && !cache_contains(&self.entries, album)
    }

    /// The cover held for the album shown, if any; a cover found makes its
    /// album the most recently used.
    pub fn cover_of(&mut self, album: &Option<Album>) -> (r: Option<Cover>)
        requires
            old(self).well_formed(),
        ensures
            final(self).well_formed(),
            r is Some <==> (album matches Some(a) && holds(old(self).covers(), a@)),
            r matches Some(cover) ==> ({
                let i = position_of(old(self).covers(), album->Some_0@);
                &&& cover.0@ == old(self).covers()[i].1
                &&& final(self).covers() == old(self).covers().remove(i).push(old(self).covers()[i])
            }),
            r is None ==> final(self).covers() == old(self).covers(),
            keys_distinct(final(self).covers()),
            final(self).covers().len() <= final(self).capacity(),
            final(self).capacity() == old(self).capacity(),
    {
        match album {
            Some(a) => {
                let r = cache_get(&mut self.entries, a);
                proof {
                    let s = cached_covers(self.entries);
                    if r is Some {
                        let old_s = old(self).covers();
                        let i = choose|i: int| 0 <= i < old_s.len() && #[trigger] old_s[i].0 == a@
                            && r->Some_0.0@ == old_s[i].1 && s == old_s.remove(i).push(old_s[i]);
                        let j = position_of(old_s, a@);
                        assert(0 <= j < old_s.len() && old_s[j].0 == a@);
                        if i != j {
                            assert(old_s[i].0 != old_s[j].0);
                        }
                        lemma_move_to_end_distinct(old_s, i, old_s[i]);
                    }
                }
                r
            },
            None => None,
        }
    }

    /// Keeps the cover of an album as the most recently used: replacing the
    /// cover held for it, or added, after the least recently used entry was
    /// dropped where the cache was full.
    pub fn remember(&mut self, album: Album, cover: Cover)
        requires
            old(self).well_formed(),
        ensures
            final(self).well_formed(),
            final(self).covers() == remembered(old(self).covers(), old(self).capacity(), album@, cover.0@),
            keys_distinct(final(self).covers()),
            final(self).covers().len() <= final(self).capacity(),
            final(self).capacity() == old(self).capacity(),
    {
        let ghost a = album@;
        let ghost e = (album@, cover.0@);
        cache_put(&mut self.entries, album, cover);
        proof {
            let old_s = old(self).covers();
            if holds(old_s, a) {
                let i = choose|i: int| 0 <= i < old_s.len() && #[trigger] old_s[i].0 == a
                    && cached_covers(self.entries) == old_s.remove(i).push(e);
                let j = position_of(old_s, a);
                assert(0 <= j < old_s.len() && old_s[j].0 == a);
                if i != j {
                    assert(old_s[i].0 != old_s[j].0);
                }
                lemma_move_to_end_distinct(old_s, i, e);
            } else {
                lemma_add_new_distinct(old_s, e);
                assert(old_s.len() < old(self).capacity() || old_s.len() == old(self).capacity());
            }
        }
    }

    /// The cover decoded from image file bytes fetched for an album, if they
    /// decode; a cover decoded for an album is kept as `remember` keeps it.
    pub fn fetched(&mut self, album: Option<Album>, bytes: Vec<u8>, picker: &Picker) -> (r: Option<Cover>)
        requires
            old(self).well_formed(),
        ensures
            final(self).well_formed(),
            r is Some <==> decodes(bytes@),
            r matches Some(c) ==> c.0@ == bytes@,
            r is Some && album is Some ==> final(self).covers()
                == remembered(old(self).covers(), old(self).capacity(), album->Some_0@, bytes@),
            !(r is Some && album is Some) ==> final(self).covers() == old(self).covers(),
            final(self).capacity() == old(self).capacity(),
    {
        let r = decode_cover(bytes, picker);
        match r {
            Some(cover) => {
                if let Some(a) = album {
                    let kept_bytes = cover.0.clone();
                    assert(kept_bytes@ =~= cover.0@);
                    self.remember(a, (kept_bytes, share_picture(&cover.1)));
                }
                Some(cover)
            },
            None => None,
        }
    }
}

} // verus!
