//! The records of a `collection` API answer: the games a user has listed.
use vstd::prelude::*;
use crate::text::chars_eq;

verus! {

/// The whole answer of a `collection` request.
#[derive(Clone, Debug)]
pub struct Items {
    pub totalitems: String,
    pub termsofuse: String,
    pub pubdate: String,
    pub text: Option<String>,
    pub item: Vec<Item>,
}

/// One entry of a collection.
#[derive(Clone, Debug)]
pub struct Item {
    pub objecttype: String,
    pub objectid: u32,
    pub subtype: String,
    pub collid: String,
    pub text: Option<String>,
    pub name: Name,
    pub image: String,
    pub thumbnail: String,
    pub status: Status,
    pub numplays: String,
    pub yearpublished: Option<String>,
}

/// The name of a collection entry.
#[derive(Clone, Debug)]
pub struct Name {
    pub sortindex: String,
    pub text: Option<String>,
}

/// The flags a user set on a collection entry.
#[derive(Clone, Debug)]
pub struct Status {
    pub own: String,
    pub prevowned: String,
    pub fortrade: String,
    pub want: String,
    pub wanttoplay: String,
    pub wanttobuy: String,
    pub wishlist: String,
    pub preordered: String,
    pub lastmodified: String,
}

/// An entry names a board game: its object type is `thing` and its subtype
/// `boardgame`.
pub open spec fn is_boardgame_entry(it: Item) -> bool {
    it.objecttype@ == "thing"@ && it.subtype@ == "boardgame"@
}

/// Whether an entry counts as a board game depends on its object type and
/// subtype alone: `thing` and `boardgame`; no other field of the entry matters.
pub proof fn law_boardgame_entry_by_type(it: Item, other: Item)
    ensures
        is_boardgame_entry(it) <==> (it.objecttype@ == "thing"@ && it.subtype@ == "boardgame"@),
        it.objecttype@ == other.objecttype@ && it.subtype@ == other.subtype@ ==> (is_boardgame_entry(it) <==> is_boardgame_entry(other)),
{
}

/// The game ids of a collection, in order, when every entry names a board game;
/// `None` when some entry does not.
pub fn boardgame_ids(items: &Items) -> (r: Option<Vec<u32>>)
    ensures
        r is Some <==> forall|i: int| 0 <= i < items.item@.len() ==> #[trigger] is_boardgame_entry(items.item@[i]),
        r matches Some(ids) ==> ids@ == items.item@.map_values(|it: Item| it.objectid),
{
    let mut ids: Vec<u32> = Vec::new();
    let n = items.item.len();
    let mut i: usize = 0;
    proof {
        reveal_strlit("thing");
        reveal_strlit("boardgame");
    }
    while i < n
        invariant
            n == items.item@.len(),
            i <= n,
            forall|k: int| 0 <= k < i ==> #[trigger] is_boardgame_entry(items.item@[k]),
            ids@ == items.item@.subrange(0, i as int).map_values(|it: Item| it.objectid),
        decreases n - i,
    {
        let it = &items.item[i];
        if !(chars_eq(it.objecttype.as_str(), "thing") && chars_eq(it.subtype.as_str(), "boardgame")) {
            assert(!is_boardgame_entry(items.item@[i as int]));
            return None;
        }
        ids.push(it.objectid);
        assert(items.item@.subrange(0, i + 1) =~= items.item@.subrange(0, i as int).push(items.item@[i as int]));
        i = i + 1;
    }
    assert(items.item@.subrange(0, n as int) =~= items.item@);
    Some(ids)
}

} // verus!
