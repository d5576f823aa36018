//! The queue cache: what is known about each song of the server's queue.

use std::collections::HashMap;
use vstd::prelude::*;
use vstd::std_specs::hash::spec_hash_map_iter;
use vstd::std_specs::iter::IteratorSpec;
use crate::song_info::{QueueEntry, QueueEntryView, SongId, SongInfo, SongInfoView, bytes_of, queued_info};

verus! {

broadcast use vstd::std_specs::hash::group_hash_axioms;

/// The views of a list of reported entries.
pub open spec fn entries_of(q: Seq<QueueEntry>) -> Seq<QueueEntryView> {
    Seq::new(q.len(), |i: int| q[i]@)
}

/// The cache that a freshly loaded queue gives: one entry per listed id, of
/// the last listing of that id, and none with cover art yet.
pub open spec fn cache_of(entries: Seq<QueueEntryView>) -> Map<u64, SongInfoView>
    decreases entries.len(),
{
    if entries.len() == 0 {
        Map::empty()
    } else {
        cache_of(entries.drop_last()).insert(entries.last().id, queued_info(entries.last()))
    }
}

/// The cache after a cover art fetch for `id` came back with `art`.  A
/// fetch for an id that the cache no longer holds changes nothing.
pub open spec fn applied(cache: Map<u64, SongInfoView>, id: u64, art: Option<Seq<u8>>) -> Map<
    u64,
    SongInfoView,
> {
    if cache.contains_key(id) {
        cache.insert(id, SongInfoView { coverart: art, missing_cover: false, ..cache[id] })
    } else {
        cache
    }
}

/// Whether `id` is the id of one of `entries`.
pub open spec fn lists(entries: Seq<QueueEntryView>, id: u64) -> bool {
    exists|i: int| 0 <= i < entries.len() && #[trigger] entries[i].id == id
}

/// Every cache is keyed by the ids of its entries, and an entry whose cover
/// is still missing holds no cover art.
pub open spec fn keyed(cache: Map<u64, SongInfoView>) -> bool {
    forall|k: u64| #[trigger]
        cache.contains_key(k) ==> cache[k].id == k && (cache[k].missing_cover
            ==> cache[k].coverart is None)
}

/// The cache after each of `outcomes`, a list of fetched ids with what the
/// fetch returned, has been applied in turn.
pub open spec fn applied_all(
    cache: Map<u64, SongInfoView>,
    outcomes: Seq<(u64, Option<Seq<u8>>)>,
) -> Map<u64, SongInfoView>
    decreases outcomes.len(),
{
    if outcomes.len() == 0 {
        cache
    } else {
        applied(applied_all(cache, outcomes.drop_last()), outcomes.last().0, outcomes.last().1)
    }
}

/// A freshly loaded cache holds the listed ids and no others, each entry
/// under its own id, and no entry has cover art yet.
pub proof fn lemma_fresh_cache(entries: Seq<QueueEntryView>)
    ensures
        forall|id: u64| #[trigger] cache_of(entries).contains_key(id) <==> lists(entries, id),
        forall|id: u64| #[trigger]
            cache_of(entries).contains_key(id) ==> cache_of(entries)[id].missing_cover
                && cache_of(entries)[id].coverart is None,
        keyed(cache_of(entries)),
        cache_of(entries).dom().finite(),
    decreases entries.len(),
{
    if entries.len() > 0 {
        let front = entries.drop_last();
        lemma_fresh_cache(front);
        assert forall|id: u64| #[trigger] cache_of(entries).contains_key(id) <==> lists(
            entries,
            id,
        ) by {
            if lists(entries, id) {
                let i = choose|i: int| 0 <= i < entries.len() && #[trigger] entries[i].id == id;
                if i < entries.len() - 1 {
                    assert(front[i].id == id);
                }
            }
        }
    }
}

/// Applying a fetch outcome never adds or drops a song, and touches no
/// entry but that of the fetched id.
pub proof fn lemma_applied_keeps_others(
    cache: Map<u64, SongInfoView>,
    id: u64,
    art: Option<Seq<u8>>,
)
    ensures
        applied(cache, id, art).dom() == cache.dom(),
        forall|k: u64| k != id && #[trigger] cache.contains_key(k) ==> applied(cache, id, art)[k]
            == cache[k],
        keyed(cache) ==> keyed(applied(cache, id, art)),
{
}

/// After a queue has been loaded and the outcome of a cover art fetch for
/// one of its songs has been applied, the cover of that song is known, and
/// it is what the fetch returned.
pub proof fn law_fetched_cover_is_known(
    entries: Seq<QueueEntryView>,
    id: u64,
    art: Option<Seq<u8>>,
)
    requires
        lists(entries, id),
    ensures
        applied(cache_of(entries), id, art).contains_key(id),
        !applied(cache_of(entries), id, art)[id].missing_cover,
        applied(cache_of(entries), id, art)[id].coverart == art,
{
    lemma_fresh_cache(entries);
}

/// A cover that is known stays known, whatever fetch outcomes arrive
/// later: after a queue has been loaded and a list of outcomes applied,
/// every listed song that one of the outcomes was for has a known cover.
pub proof fn law_known_cover_stays_known(
    entries: Seq<QueueEntryView>,
    outcomes: Seq<(u64, Option<Seq<u8>>)>,
    id: u64,
)
    requires
        lists(entries, id),
        exists|j: int| 0 <= j < outcomes.len() && #[trigger] outcomes[j].0 == id,
    ensures
        applied_all(cache_of(entries), outcomes).contains_key(id),
        !applied_all(cache_of(entries), outcomes)[id].missing_cover,
    decreases outcomes.len(),
{
    lemma_fresh_cache(entries);
    lemma_applied_all_keeps_songs(cache_of(entries), outcomes);
    let front = outcomes.drop_last();
    let j = choose|j: int| 0 <= j < outcomes.len() && #[trigger] outcomes[j].0 == id;
    lemma_applied_all_keeps_songs(cache_of(entries), front);
    if outcomes.last().0 != id {
        assert(front[j].0 == id);
        law_known_cover_stays_known(entries, front, id);
    }
}

/// Applying fetch outcomes never adds or drops a song.
pub proof fn lemma_applied_all_keeps_songs(
    cache: Map<u64, SongInfoView>,
    outcomes: Seq<(u64, Option<Seq<u8>>)>,
)
    ensures
        applied_all(cache, outcomes).dom() == cache.dom(),
    decreases outcomes.len(),
{
    if outcomes.len() > 0 {
        lemma_applied_all_keeps_songs(cache, outcomes.drop_last());
        lemma_applied_keeps_others(
            applied_all(cache, outcomes.drop_last()),
            outcomes.last().0,
            outcomes.last().1,
        );
    }
}

/// The outcome of a fetch for a song that the loaded queue does not list
/// changes nothing: the cache, and so its size, is as before.
pub proof fn law_stale_fetch_changes_nothing(
    entries: Seq<QueueEntryView>,
    id: u64,
    art: Option<Seq<u8>>,
)
    requires
        !lists(entries, id),
    ensures
        applied(cache_of(entries), id, art) == cache_of(entries),
        applied(cache_of(entries), id, art).len() == cache_of(entries).len(),
{
    lemma_fresh_cache(entries);
}

/// Song metadata and cover art state by song id.
pub struct Queue {
    infos: HashMap<u64, SongInfo>,
}

impl View for Queue {
    type V = Map<u64, SongInfoView>;

    closed spec fn view(&self) -> Map<u64, SongInfoView> {
        self.infos@.map_values(|i: SongInfo| i@)
    }
}

impl Queue {
    #[verifier::type_invariant]
    spec fn inv(&self) -> bool {
        keyed(self.infos@.map_values(|i: SongInfo| i@))
    }

    /// An empty cache.
    pub fn new() -> (r: Queue)
        ensures
            r@ == Map::<u64, SongInfoView>::empty(),
    {
        let infos: HashMap<u64, SongInfo> = HashMap::new();
        Queue { infos }
    }

    /// Replaces the whole cache by the entries of a freshly loaded queue.
    /// Nothing of the old cache survives, and no cover art is known
    /// afterwards.
    pub fn update(&mut self, queue: Vec<QueueEntry>)
        ensures
            final(self)@ == cache_of(entries_of(queue@)),
    {
        let mut infos: HashMap<u64, SongInfo> = HashMap::new();
        let mut i: usize = 0;
        while i < queue.len()
            invariant
                i <= queue.len(),
                infos@.map_values(|i: SongInfo| i@) == cache_of(entries_of(queue@).take(i as int)),
                keyed(infos@.map_values(|i: SongInfo| i@)),
            decreases queue.len() - i,
        {
            let ghost before = entries_of(queue@).take(i as int);
            let ghost now = entries_of(queue@).take(i + 1);
            let info = SongInfo::queued(&queue[i]);
            infos.insert(queue[i].id.0, info);
            proof {
                assert(now.drop_last() =~= before);
                assert(infos@.map_values(|i: SongInfo| i@) =~= cache_of(now));
            }
            i += 1;
        }
        proof {
            assert(entries_of(queue@).take(queue.len() as int) =~= entries_of(queue@));
        }
        self.infos = infos;
    }

    /// Records the outcome of a cover art fetch for `id`.  If the queue was
    /// reloaded meanwhile and no longer holds `id`, nothing changes.
    pub fn update_coverart(&mut self, id: SongId, art: Option<Vec<u8>>)
        ensures
            final(self)@ == applied(old(self)@, id.0, bytes_of(art)),
    {
        proof {
            use_type_invariant(&*self);
        }
        let ghost before = self.infos@.map_values(|i: SongInfo| i@);
        let mut infos: HashMap<u64, SongInfo> = HashMap::new();
        std::mem::swap(&mut infos, &mut self.infos);
        if let Some(mut entry) = infos.remove(&id.0) {
            entry.update_coverart(art);
            infos.insert(id.0, entry);
            assert(infos@.map_values(|i: SongInfo| i@) =~= applied(before, id.0, bytes_of(art)));
        } else {
            assert(infos@.map_values(|i: SongInfo| i@) =~= before);
        }
        self.infos = infos;
    }

    /// The number of songs in the cache.
    pub fn len(&self) -> (r: usize)
        ensures
            r == self@.len(),
    {
        assert(self@.dom() =~= self.infos@.dom());
        self.infos.len()
    }

    /// The entry of `id`, if the queue holds that song.
    pub fn get(&self, id: &SongId) -> (r: Option<&SongInfo>)
        ensures
            match r {
                Some(info) => self@.contains_key(id.0) && info@ == self@[id.0] && info@.id == id.0,
                None => !self@.contains_key(id.0),
            },
    {
        proof {
            use_type_invariant(self);
        }
        self.infos.get(&id.0)
    }

    /// Some song whose cover art has not been fetched yet, with the place
    /// of its file, or `None` when no cover is missing.  Which of several
    /// such songs is returned is not fixed.
    pub fn get_missing(&self) -> (r: Option<(SongId, String)>)
        ensures
            match r {
                Some((id, url)) => self@.contains_key(id.0) && self@[id.0].missing_cover && url@
                    == self@[id.0].url,
                None => forall|k: u64| #[trigger] self@.contains_key(k) ==> !self@[k].missing_cover,
            },
    {
        let it = self.infos.iter();
        for pair in iter: it
            invariant
                iter.seq() == spec_hash_map_iter(&self.infos).remaining(),
                forall|j: int| 0 <= j < iter.index() ==> !(#[trigger] iter.seq()[j]).1.missing_cover,
        {
            let (id, nfo) = pair;
            if nfo.missing_cover {
                return Some((SongId(*id), nfo.url.clone()));
            }
        }
        None
    }
}

impl Default for Queue {
    fn default() -> (r: Queue)
        ensures
            r@ == Map::<u64, SongInfoView>::empty(),
    {
        Queue::new()
    }
}

} // verus!
