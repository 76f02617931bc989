//! The persistent index of the downloaded songs.
use vstd::prelude::*;

use crate::download;
use crate::table;
use crate::table::Table;

verus! {

/// One downloaded song. The texts are strings at run time and character sequences in contracts.
pub struct Entry<S> {
    pub video_id: S,
    pub title: S,
    pub artist: S,
    /// `m4a`, `weba` or `mp4`.
    pub ext: S,
    /// The content type under which the file is served.
    pub mime: S,
    pub bytes: u64,
    /// Milliseconds since the epoch.
    pub added: u64,
}

impl View for Entry<String> {
    type V = Entry<Seq<char>>;

    open spec fn view(&self) -> Entry<Seq<char>> {
        Entry {
            video_id: self.video_id@,
            title: self.title@,
            artist: self.artist@,
            ext: self.ext@,
            mime: self.mime@,
            bytes: self.bytes,
            added: self.added,
        }
    }
}

impl Clone for Entry<String> {
    fn clone(&self) -> (r: Self)
        ensures
            r == *self,
    {
        Entry {
            video_id: self.video_id.clone(),
            title: self.title.clone(),
            artist: self.artist.clone(),
            ext: self.ext.clone(),
            mime: self.mime.clone(),
            bytes: self.bytes,
            added: self.added,
        }
    }
}

/// The map of the entries' views.
pub open spec fn views(songs: Map<Seq<char>, Entry<String>>) -> Map<Seq<char>, Entry<Seq<char>>> {
    songs.map_values(|e: Entry<String>| e@)
}

/// The downloaded songs, keyed by video id.
pub struct Index {
    songs: Table<Entry<String>>,
}

impl View for Index {
    type V = Map<Seq<char>, Entry<Seq<char>>>;

    closed spec fn view(&self) -> Map<Seq<char>, Entry<Seq<char>>> {
        views(self.songs@)
    }
}

impl Index {
    /// The rows in the order in which they are stored.
    pub closed spec fn listed(&self) -> Seq<(Seq<char>, Entry<String>)> {
        self.songs.listed()
    }

    /// The invariant: no id is filed twice.
    pub open spec fn wf(&self) -> bool {
        &&& table::keys_distinct(self.listed())
        &&& self@ == views(table::rows_map(self.listed()))
    }

    /// An index without songs.
    pub fn new() -> (r: Index)
        ensures
            r.wf(),
            r@ == Map::<Seq<char>, Entry<Seq<char>>>::empty(),
    {
        let r: Index = Index { songs: Table::new() };
        assert(r@ =~= Map::empty());
        r
    }

    /// Whether `key` is filed.
    pub fn contains_key(&self, key: &str) -> (r: bool)
        requires
            self.wf(),
        ensures
            r == self@.contains_key(key@),
    {
        self.songs.contains_key(key)
    }

    /// The entry of `key`.
    pub fn get(&self, key: &str) -> (r: Option<&Entry<String>>)
        requires
            self.wf(),
        ensures
            match r {
                Some(e) => self@.contains_key(key@) && self@[key@] == e@,
                None => !self@.contains_key(key@),
            },
    {
        self.songs.get(key)
    }

    /// Files `entry` under `key`, in place of what was filed there.
    pub fn insert(&mut self, key: String, entry: Entry<String>)
        requires
            old(self).wf(),
        ensures
            final(self).wf(),
            final(self)@ == old(self)@.insert(key@, entry@),
    {
        let ghost k = key@;
        let ghost e = entry@;
        self.songs.insert(key, entry);
        assert(self@ =~= old(self)@.insert(k, e));
    }

    /// Takes `key` out and hands back what was filed there.
    pub fn remove(&mut self, key: &str) -> (r: Option<Entry<String>>)
        requires
            old(self).wf(),
        ensures
            final(self).wf(),
            final(self)@ == old(self)@.remove(key@),
            match r {
                Some(e) => old(self)@.contains_key(key@) && old(self)@[key@] == e@,
                None => !old(self)@.contains_key(key@),
            },
    {
        let r = self.songs.remove(key);
        assert(self@ =~= old(self)@.remove(key@));
        r
    }

    /// The rows, for storing them.
    pub fn rows(&self) -> (r: &Vec<(String, Entry<String>)>)
        ensures
            table::keyed(r@) == self.listed(),
    {
        self.songs.rows()
    }
}

/// The index that a stored file gives: the rows that it holds, a later row replacing an earlier
/// one of the same key, and no rows where it could not be read.
pub fn load_index(stored: Option<Vec<(String, Entry<String>)>>) -> (r: Index)
    ensures
        r.wf(),
        r@ == match stored {
            Some(rows) => views(table::rows_map(table::keyed(rows@))),
            None => Map::<Seq<char>, Entry<Seq<char>>>::empty(),
        },
{
    let mut index: Index = Index::new();
    match stored {
        None => {},
        Some(rows) => {
            let ghost all = table::keyed(rows@);
            let mut i: usize = 0;
            assert(all.take(0) =~= Seq::empty());
            assert(views(Map::empty()) =~= Map::empty());
            while i < rows.len()
                invariant
                    i <= rows@.len(),
                    index.wf(),
                    all == table::keyed(rows@),
                    index@ == views(table::rows_map(all.take(i as int))),
                decreases rows@.len() - i,
            {
                let key: String = rows[i].0.clone();
                let entry: Entry<String> = rows[i].1.clone();
                let ghost k = key@;
                let ghost e = entry;
                let ghost before = table::rows_map(all.take(i as int));
                index.insert(key, entry);
                i = i + 1;
                proof {
                    assert(all.take(i as int).drop_last() =~= all.take(i - 1));
                    assert(all.take(i as int).last() == (k, e));
                    assert(views(before.insert(k, e)) =~= views(before).insert(k, e@));
                }
            }
            assert(all.take(i as int) =~= all);
        },
    }
    index
}

/// An index that is stored row by row is read back as it was.
pub proof fn law_stored_index_read_back(index: Index)
    requires
        index.wf(),
    ensures
        views(table::rows_map(index.listed())) == index@,
{
}

/// Files `entry` under its own id.
pub fn upsert_index(index: &mut Index, entry: Entry<String>)
    requires
        old(index).wf(),
    ensures
        final(index).wf(),
        final(index)@ == old(index)@.insert(entry.video_id@, entry@),
{
    let key: String = entry.video_id.clone();
    index.insert(key, entry);
}

// ---------------------------------------------------------------------------
// The library as the player sees it
// ---------------------------------------------------------------------------

/// An entry as it is sent to the player: with a ready-to-use source address.
pub struct Item<S> {
    pub entry: Entry<S>,
    pub src: S,
}

impl View for Item<String> {
    type V = Item<Seq<char>>;

    open spec fn view(&self) -> Item<Seq<char>> {
        Item { entry: self.entry@, src: self.src@ }
    }
}

/// What is sent of an entry.
pub open spec fn item_of(entry: Entry<Seq<char>>, windows: bool) -> Item<Seq<char>> {
    Item { entry, src: download::source_address(entry.video_id, windows) }
}

/// The entry with its source address.
pub fn to_item(entry: &Entry<String>, windows: bool) -> (r: Item<String>)
    ensures
        r@ == item_of(entry@, windows),
{
    Item { entry: entry.clone(), src: download::src_url(entry.video_id.as_str(), windows) }
}

/// The views of a list of items.
pub open spec fn items_view(items: Seq<Item<String>>) -> Seq<Item<Seq<char>>> {
    items.map_values(|i: Item<String>| i@)
}

/// Whether the newest items come first.
pub open spec fn newest_first(items: Seq<Item<Seq<char>>>) -> bool {
    forall|i: int, j: int|
        0 <= i <= j < items.len() ==> (#[trigger] items[i]).entry.added >= (
        #[trigger] items[j]).entry.added
}

/// What is sent of the rows of an index, in their order.
pub open spec fn table_items(
    rows: Seq<(Seq<char>, Entry<String>)>,
    windows: bool,
) -> Seq<Item<Seq<char>>> {
    rows.map_values(|r: (Seq<char>, Entry<String>)| item_of(r.1@, windows))
}

/// Every song of the index once, newest first. Songs that were added at the same millisecond come
/// in no promised order.
pub fn list_items(index: &Index, windows: bool) -> (r: Vec<Item<String>>)
    ensures
        newest_first(items_view(r@)),
        items_view(r@).to_multiset() == table_items(index.listed(), windows).to_multiset(),
{
    let rows = index.rows();
    let ghost all = table_items(index.listed(), windows);
    let mut out: Vec<Item<String>> = Vec::new();
    let mut i: usize = 0;
    assert(items_view(out@) =~= all.take(0));
    while i < rows.len()
        invariant
            i <= rows@.len(),
            table::keyed(rows@) == index.listed(),
            all == table_items(index.listed(), windows),
            newest_first(items_view(out@)),
            items_view(out@).to_multiset() == all.take(i as int).to_multiset(),
        decreases rows@.len() - i,
    {
        let item: Item<String> = to_item(&rows[i].1, windows);
        let added: u64 = item.entry.added;
        let mut at: usize = 0;
        while at < out.len() && out[at].entry.added >= added
            invariant
                at <= out@.len(),
                forall|j: int| 0 <= j < at ==> out@[j].entry.added >= added,
            decreases out@.len() - at,
        {
            at = at + 1;
        }
        let ghost before = items_view(out@);
        let ghost shown = item@;
        out.insert(at, item);
        i = i + 1;
        proof {
            assert(items_view(out@) =~= before.insert(at as int, shown));
            vstd::seq_lib::to_multiset_insert(before, at as int, shown);
            assert(all[i - 1] == shown);
            assert(all.take(i as int) =~= all.take(i - 1).push(shown));
            vstd::seq_lib::to_multiset_build(all.take(i - 1), shown);
            let now = items_view(out@);
            assert forall|a: int, b: int| 0 <= a <= b < now.len() implies (
            #[trigger] now[a]).entry.added >= (#[trigger] now[b]).entry.added by {
                let a0 = if a < at { a } else { a - 1 };
                let b0 = if b < at { b } else { b - 1 };
                if a != at && b != at {
                    assert(now[a] == before[a0]);
                    assert(now[b] == before[b0]);
                } else if a == at && b != at {
                    assert(now[b] == before[b - 1]);
                    assert(before[at as int].entry.added >= before[b - 1].entry.added);
                }
            }
        }
    }
    assert(all.take(i as int) =~= all);
    out
}

/// What is reported when the download of `id` is done: its item, if it is filed.
pub fn done_item(index: &Index, id: &str, windows: bool) -> (r: Option<Item<String>>)
    requires
        index.wf(),
    ensures
        match r {
            Some(item) => index@.contains_key(id@) && item@ == item_of(index@[id@], windows),
            None => !index@.contains_key(id@),
        },
{
    match index.get(id) {
        Some(e) => Some(to_item(e, windows)),
        None => None,
    }
}

// ---------------------------------------------------------------------------
// Laws
// ---------------------------------------------------------------------------

/// Whether an item is that of a filed song.
pub open spec fn is_filed(
    songs: Map<Seq<char>, Entry<Seq<char>>>,
    windows: bool,
    item: Item<Seq<char>>,
) -> bool {
    exists|id: Seq<char>| #[trigger]
        songs.contains_key(id) && item == item_of(songs[id], windows)
}

/// The list holds every filed song once and nothing else: in whatever order its items stand, there
/// are as many as there are filed songs, each filed song's item is among them, and each item is that
/// of a filed song.
pub proof fn law_every_song_listed(index: Index, windows: bool, items: Seq<Item<Seq<char>>>)
    requires
        index.wf(),
        items.to_multiset() == table_items(index.listed(), windows).to_multiset(),
    ensures
        index@.dom().finite(),
        items.len() == index@.dom().len(),
        forall|id: Seq<char>| #[trigger]
            index@.contains_key(id) ==> items.contains(item_of(index@[id], windows)),
        forall|i: int| 0 <= i < items.len() ==> is_filed(index@, windows, #[trigger] items[i]),
{
    let rows = index.listed();
    let all = table_items(rows, windows);
    items.to_multiset_ensures();
    all.to_multiset_ensures();
    table::lemma_rows_map_len(rows);
    assert(index@.dom() =~= table::rows_map(rows).dom());
    assert forall|id: Seq<char>| #[trigger] index@.contains_key(id) implies items.contains(
        item_of(index@[id], windows),
    ) by {
        table::lemma_rows_map_dom(rows, id);
        let k = choose|k: int| 0 <= k < rows.len() && (#[trigger] rows[k]).0 == id;
        table::lemma_rows_map_at(rows, k);
        assert(all[k] == item_of(index@[id], windows));
        assert(all.contains(all[k]));
        assert(items.to_multiset().count(all[k]) > 0);
    }
    assert forall|i: int| 0 <= i < items.len() implies is_filed(
        index@,
        windows,
        #[trigger] items[i],
    ) by {
        assert(items.contains(items[i]));
        assert(all.to_multiset().count(items[i]) > 0);
        let k = choose|k: int| 0 <= k < all.len() && all[k] == items[i];
        table::lemma_rows_map_at(rows, k);
        assert(index@.contains_key(rows[k].0));
    }
}

/// In a list with the newest song first, no song stands behind an older one, and the first is at
/// least as new as every filed song.
pub proof fn law_newest_song_first(
    index: Index,
    windows: bool,
    items: Seq<Item<Seq<char>>>,
    i: int,
    j: int,
    id: Seq<char>,
)
    requires
        index.wf(),
        items.to_multiset() == table_items(index.listed(), windows).to_multiset(),
        newest_first(items),
        0 <= i <= j < items.len(),
        index@.contains_key(id),
    ensures
        items[i].entry.added >= items[j].entry.added,
        items[0].entry.added >= index@[id].added,
{
    law_every_song_listed(index, windows, items);
    let item = item_of(index@[id], windows);
    let k = choose|k: int| 0 <= k < items.len() && items[k] == item;
    assert(items[0].entry.added >= items[k].entry.added);
}

/// An item is the filed song, with the address at which its own file is found.
pub proof fn law_item_is_the_song(entry: Entry<Seq<char>>, windows: bool)
    ensures
        item_of(entry, windows).entry == entry,
        item_of(entry, true).src == "http://skdl.localhost/"@ + entry.video_id,
        item_of(entry, false).src == "skdl://localhost/"@ + entry.video_id,
{
}

/// Models keep what they model: every part of an entry, and the order of items.
pub proof fn law_models(e: Entry<String>, items: Seq<Item<String>>, songs: Map<Seq<char>, Entry<String>>, id: Seq<char>)
    ensures
        e@.video_id == e.video_id@ && e@.title == e.title@ && e@.artist == e.artist@ && e@.ext
            == e.ext@ && e@.mime == e.mime@ && e@.bytes == e.bytes && e@.added == e.added,
        items_view(items).len() == items.len(),
        forall|i: int|
            0 <= i < items.len() ==> (#[trigger] items_view(items)[i]).entry == items[i].entry@
                && items_view(items)[i].src == items[i].src@,
        views(songs).contains_key(id) <==> songs.contains_key(id),
        songs.contains_key(id) ==> views(songs)[id] == songs[id]@,
{
}

} // verus!
