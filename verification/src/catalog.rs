//! The stream catalog, the filtered view over it and the cyclic selection
//! within that view.

use crate::text::{chars_of, contains, find, lowercase_of};
use vstd::prelude::*;

verus! {

/// One stream of the catalog.
#[derive(Debug)]
pub struct StreamInfo {
    pub title: String,
    pub id: String,
}

impl Clone for StreamInfo {
    fn clone(&self) -> (copy: Self)
        ensures
            copy == *self,
    {
        StreamInfo { title: self.title.clone(), id: self.id.clone() }
    }
}

/// Whether a title passes a query: every title passes the empty query, and
/// any other query asks that its lowercase form be a contiguous part of the
/// lowercase form of the title.
pub open spec fn title_matches(title: Seq<char>, query: Seq<char>) -> bool {
    query.len() == 0 || contains(lowercase_of(title), lowercase_of(query))
}

/// The catalog positions whose titles pass `query`, in catalog order.
pub open spec fn filtered_positions(streams: Seq<StreamInfo>, query: Seq<char>) -> Seq<usize>
    decreases streams.len(),
{
    if streams.len() == 0 {
        Seq::empty()
    } else {
        let earlier = filtered_positions(streams.drop_last(), query);
        if title_matches(streams.last().title@, query) {
            earlier.push((streams.len() - 1) as usize)
        } else {
            earlier
        }
    }
}

/// The filtered view holds exactly the positions whose titles pass the
/// query, each once and in ascending order.
pub proof fn lemma_filtered_positions_exact(streams: Seq<StreamInfo>, query: Seq<char>)
    requires
        streams.len() <= usize::MAX,
    ensures
        filtered_positions(streams, query).len() <= streams.len(),
        forall|k: int|
            0 <= k < filtered_positions(streams, query).len() ==> {
                let i = #[trigger] filtered_positions(streams, query)[k];
                i < streams.len() && title_matches(streams[i as int].title@, query)
            },
        forall|j: int, k: int|
            0 <= j < k < filtered_positions(streams, query).len() ==> filtered_positions(
                streams,
                query,
            )[j] < filtered_positions(streams, query)[k],
        forall|i: int|
            0 <= i < streams.len() && title_matches(#[trigger] streams[i].title@, query)
                ==> filtered_positions(streams, query).contains(i as usize),
    decreases streams.len(),
{
    if streams.len() > 0 {
        let front = streams.drop_last();
        let earlier = filtered_positions(front, query);
        let all = filtered_positions(streams, query);
        let last = (streams.len() - 1) as usize;
        lemma_filtered_positions_exact(front, query);
        assert forall|k: int| 0 <= k < all.len() implies {
            let i = #[trigger] all[k];
            i < streams.len() && title_matches(streams[i as int].title@, query)
        } by {
            if k < earlier.len() {
                assert(all[k] == earlier[k]);
                assert(front[earlier[k] as int] == streams[earlier[k] as int]);
            }
        }
        assert forall|j: int, k: int| 0 <= j < k < all.len() implies all[j] < all[k] by {
            assert(all[j] == earlier[j]);
            if k < earlier.len() {
                assert(all[k] == earlier[k]);
            }
        }
        assert forall|i: int|
            0 <= i < streams.len() && title_matches(
                #[trigger] streams[i].title@,
                query,
            ) implies all.contains(i as usize) by {
            if i < front.len() {
                assert(front[i] == streams[i]);
                assert(earlier.contains(i as usize));
                let k = choose|k: int| 0 <= k < earlier.len() && earlier[k] == i as usize;
                assert(all[k] == i as usize);
            } else {
                assert(all[all.len() - 1] == last);
            }
        }
    }
}

/// Under the empty query the filtered view is the identity `0, 1, ..., n - 1`.
pub proof fn lemma_empty_query_identity(streams: Seq<StreamInfo>)
    requires
        streams.len() <= usize::MAX,
    ensures
        filtered_positions(streams, Seq::empty()) == Seq::new(
            streams.len(),
            |i: int| i as usize,
        ),
    decreases streams.len(),
{
    if streams.len() > 0 {
        lemma_empty_query_identity(streams.drop_last());
    }
    assert(filtered_positions(streams, Seq::empty()) =~= Seq::new(
        streams.len(),
        |i: int| i as usize,
    ));
}

/// The catalog with its query, filtered view and selection, as plain values.
pub struct ListView {
    /// The catalog, fixed once loaded.
    pub streams: Seq<StreamInfo>,
    /// The filter query.
    pub query: Seq<char>,
    /// The filtered view: catalog positions, in catalog order.
    pub indices: Seq<usize>,
    /// The selection: a position in the filtered view.
    pub selected: Option<usize>,
}

impl ListView {
    /// The filtered view is the one that the query gives, and the selection
    /// is absent exactly when that view is empty and lies within it otherwise.
    pub open spec fn wf(self) -> bool {
        &&& self.streams.len() <= usize::MAX
        &&& self.indices == filtered_positions(self.streams, self.query)
        &&& (self.selected is None <==> self.indices.len() == 0)
        &&& (self.selected matches Some(i) ==> i < self.indices.len())
    }

    /// A freshly loaded catalog: empty query, every position in view, the
    /// first entry selected if there is one.
    pub open spec fn loaded(streams: Seq<StreamInfo>) -> ListView {
        ListView {
            streams,
            query: Seq::empty(),
            indices: Seq::empty(),
            selected: None,
        }.with_query(Seq::empty())
    }

    /// The list after the query is replaced: the view is recomputed and the
    /// selection goes to its first entry, or is absent if it has none.
    pub open spec fn with_query(self, query: Seq<char>) -> ListView {
        let indices = filtered_positions(self.streams, query);
        ListView {
            streams: self.streams,
            query,
            indices,
            selected: if indices.len() > 0 {
                Some(0usize)
            } else {
                None
            },
        }
    }

    /// The list after the selection moves one entry down, from the last
    /// entry to the first. An empty view stays as it is.
    pub open spec fn next(self) -> ListView {
        if self.indices.len() == 0 {
            self
        } else {
            let moved = match self.selected {
                Some(i) => if i + 1 >= self.indices.len() {
                    0usize
                } else {
                    (i + 1) as usize
                },
                None => 0usize,
            };
            ListView { selected: Some(moved), ..self }
        }
    }

    /// The list after the selection moves one entry up, from the first
    /// entry to the last. An empty view stays as it is.
    pub open spec fn previous(self) -> ListView {
        if self.indices.len() == 0 {
            self
        } else {
            let moved = match self.selected {
                Some(i) => if i == 0 {
                    (self.indices.len() - 1) as usize
                } else {
                    (i - 1) as usize
                },
                None => 0usize,
            };
            ListView { selected: Some(moved), ..self }
        }
    }

    /// The list after `n` moves down.
    pub open spec fn advanced(self, n: nat) -> ListView
        decreases n,
    {
        if n == 0 {
            self
        } else {
            self.advanced((n - 1) as nat).next()
        }
    }

    /// The catalog position of the selected entry.
    pub open spec fn current(self) -> Option<usize> {
        match self.selected {
            Some(i) => if i < self.indices.len() {
                Some(self.indices[i as int])
            } else {
                None
            },
            None => None,
        }
    }
}

/// Loading, filtering and moving the selection all keep a list well formed.
pub proof fn lemma_operations_keep_wf(list: ListView, streams: Seq<StreamInfo>, query: Seq<char>)
    requires
        list.wf(),
        streams.len() <= usize::MAX,
    ensures
        ListView::loaded(streams).wf(),
        list.with_query(query).wf(),
        list.next().wf(),
        list.previous().wf(),
{
    lemma_filtered_positions_exact(list.streams, list.query);
}

/// After a query is set the view holds exactly the positions whose titles
/// pass it, in catalog order.
pub proof fn lemma_with_query_exact(list: ListView, query: Seq<char>)
    requires
        list.wf(),
    ensures
        forall|k: int|
            0 <= k < list.with_query(query).indices.len() ==> {
                let i = #[trigger] list.with_query(query).indices[k];
                i < list.streams.len() && title_matches(list.streams[i as int].title@, query)
            },
        forall|j: int, k: int|
            0 <= j < k < list.with_query(query).indices.len() ==> list.with_query(
                query,
            ).indices[j] < list.with_query(query).indices[k],
        forall|i: int|
            0 <= i < list.streams.len() && title_matches(#[trigger] list.streams[i].title@, query)
                ==> list.with_query(query).indices.contains(i as usize),
{
    lemma_filtered_positions_exact(list.streams, query);
}

/// Setting the empty query restores the identity view.
pub proof fn lemma_with_empty_query_identity(list: ListView)
    requires
        list.wf(),
    ensures
        list.with_query(Seq::empty()).indices == Seq::new(
            list.streams.len(),
            |i: int| i as usize,
        ),
{
    lemma_empty_query_identity(list.streams);
}

/// Where the selection stands after `n` moves down, for `n` up to the length
/// of the view.
proof fn lemma_advanced_position(list: ListView, n: nat)
    requires
        list.wf(),
        list.indices.len() > 0,
        n <= list.indices.len(),
    ensures
        list.advanced(n) == (ListView {
            selected: Some(
                if list.selected->0 + n < list.indices.len() {
                    (list.selected->0 + n) as usize
                } else {
                    (list.selected->0 + n - list.indices.len()) as usize
                },
            ),
            ..list
        }),
    decreases n,
{
    lemma_filtered_positions_exact(list.streams, list.query);
    if n > 0 {
        lemma_advanced_position(list, (n - 1) as nat);
    }
}

/// Moving down as many times as the view has entries returns the selection
/// to where it started.
pub proof fn lemma_next_cycles(list: ListView)
    requires
        list.wf(),
    ensures
        list.advanced(list.indices.len()) == list,
{
    if list.indices.len() > 0 {
        lemma_advanced_position(list, list.indices.len());
    }
}

/// Moving up undoes moving down, and moving down undoes moving up.
pub proof fn lemma_previous_inverts_next(list: ListView)
    requires
        list.wf(),
    ensures
        list.next().previous() == list,
        list.previous().next() == list,
{
    lemma_filtered_positions_exact(list.streams, list.query);
}

/// Over an empty catalog nothing is selected, and moving the selection
/// changes nothing.
pub proof fn lemma_empty_catalog(list: ListView)
    requires
        list.wf(),
        list.streams.len() == 0,
    ensures
        list.selected is None,
        list.current() is None,
        list.next() == list,
        list.previous() == list,
{
}

/// The catalog positions of `streams` whose titles pass `query`, in order.
pub fn filter_positions(streams: &Vec<StreamInfo>, query: &str) -> (indices: Vec<usize>)
    ensures
        indices@ == filtered_positions(streams@, query@),
{
    let n: usize = streams.len();
    let everything: bool = query.is_empty();
    let needle: Vec<char> = if everything {
        Vec::new()
    } else {
        chars_of(query.to_lowercase().as_str())
    };
    let mut indices: Vec<usize> = Vec::new();
    let mut i: usize = 0;
    while i < n
        invariant
            i <= n,
            n == streams.len(),
            everything == (query@.len() == 0),
            !everything ==> needle@ == lowercase_of(query@),
            indices@ == filtered_positions(streams@.take(i as int), query@),
        decreases n - i,
    {
        let hit: bool = everything || {
            let hay = chars_of(streams[i].title.as_str().to_lowercase().as_str());
            find(&hay, &needle).is_some()
        };
        proof {
            let upto = streams@.take(i + 1);
            assert(upto.drop_last() =~= streams@.take(i as int));
            assert(upto.last() == streams@[i as int]);
        }
        if hit {
            indices.push(i);
        }
        i += 1;
    }
    proof {
        assert(streams@.take(n as int) =~= streams@);
    }
    indices
}

/// Query, filtered view and selection: the part of a list that changes.
struct Filter {
    query: String,
    indices: Vec<usize>,
    selected: Option<usize>,
}

/// The catalog together with its live filter and selection.
pub struct StreamList {
    streams: Vec<StreamInfo>,
    filter: Filter,
}

impl View for StreamList {
    type V = ListView;

    closed spec fn view(&self) -> ListView {
        ListView {
            streams: self.streams@,
            query: self.filter.query@,
            indices: self.filter.indices@,
            selected: self.filter.selected,
        }
    }
}

impl StreamList {
    #[verifier::type_invariant]
    spec fn well_formed(self) -> bool {
        self@.wf()
    }

    /// A list over `streams` with the empty query.
    pub fn new(streams: Vec<StreamInfo>) -> (list: StreamList)
        ensures
            list@ == ListView::loaded(streams@),
            list@.wf(),
    {
        let query = String::new();
        let indices = filter_positions(&streams, query.as_str());
        let selected: Option<usize> = if indices.len() > 0 {
            Some(0)
        } else {
            None
        };
        assert(streams@.len() <= usize::MAX) by {
            assert(streams.len() == streams@.len());
        }
        StreamList { streams, filter: Filter { query, indices, selected } }
    }

    /// Replaces the query, recomputes the filtered view and resets the
    /// selection to its first entry.
    pub fn set_query(&mut self, query: &str)
        ensures
            final(self)@ == old(self)@.with_query(query@),
            final(self)@.wf(),
    {
        proof {
            use_type_invariant(&*self);
        }
        let indices = filter_positions(&self.streams, query);
        let selected: Option<usize> = if indices.len() > 0 {
            Some(0)
        } else {
            None
        };
        self.filter = Filter { query: query.to_owned(), indices, selected };
    }

    /// Moves the selection one entry down, cyclically.
    pub fn next(&mut self)
        ensures
            final(self)@ == old(self)@.next(),
            final(self)@.wf(),
    {
        proof {
            use_type_invariant(&*self);
        }
        let len: usize = self.filter.indices.len();
        if len == 0 {
            return ;
        }
        let moved: usize = match self.filter.selected {
            Some(i) => if i >= len - 1 {
                0
            } else {
                i + 1
            },
            None => 0,
        };
        self.filter.selected = Some(moved);
    }

    /// Moves the selection one entry up, cyclically.
    pub fn previous(&mut self)
        ensures
            final(self)@ == old(self)@.previous(),
            final(self)@.wf(),
    {
        proof {
            use_type_invariant(&*self);
        }
        let len: usize = self.filter.indices.len();
        if len == 0 {
            return ;
        }
        let moved: usize = match self.filter.selected {
            Some(i) => if i == 0 {
                len - 1
            } else {
                i - 1
            },
            None => 0,
        };
        self.filter.selected = Some(moved);
    }

    /// The catalog position of the selected entry.
    pub fn selected_stream_index(&self) -> (index: Option<usize>)
        ensures
            index == self@.current(),
            self@.wf(),
            index matches Some(i) ==> i < self@.streams.len(),
    {
        proof {
            use_type_invariant(self);
            lemma_filtered_positions_exact(self@.streams, self@.query);
        }
        match self.filter.selected {
            Some(i) => if i < self.filter.indices.len() {
                Some(self.filter.indices[i])
            } else {
                None
            },
            None => None,
        }
    }

    /// The selected stream.
    pub fn selected_stream(&self) -> (stream: Option<&StreamInfo>)
        ensures
            self@.wf(),
            match self@.current() {
                Some(i) => i < self@.streams.len() && stream == Some(&self@.streams[i as int]),
                None => stream is None,
            },
    {
        match self.selected_stream_index() {
            Some(i) => Some(&self.streams[i]),
            None => None,
        }
    }

    /// The selection: a position in the filtered view.
    pub fn selected(&self) -> (position: Option<usize>)
        ensures
            position == self@.selected,
            self@.wf(),
    {
        proof {
            use_type_invariant(self);
        }
        self.filter.selected
    }

    /// The catalog.
    pub fn streams(&self) -> (streams: &Vec<StreamInfo>)
        ensures
            streams@ == self@.streams,
            self@.wf(),
    {
        proof {
            use_type_invariant(self);
        }
        &self.streams
    }

    /// The filtered view.
    pub fn filtered_indices(&self) -> (indices: &Vec<usize>)
        ensures
            indices@ == self@.indices,
            self@.wf(),
    {
        proof {
            use_type_invariant(self);
        }
        &self.filter.indices
    }

    /// The filter query.
    pub fn query(&self) -> (query: &str)
        ensures
            query@ == self@.query,
            self@.wf(),
    {
        proof {
            use_type_invariant(self);
        }
        self.filter.query.as_str()
    }
}

} // verus!
