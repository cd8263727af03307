//! The records of a `geeklist` API answer: a user-made list of games.
use vstd::prelude::*;
use crate::text::chars_eq;

verus! {

/// The whole answer of a `geeklist` request.
#[derive(Clone, Debug)]
pub struct Geeklist {
    pub id: u32,
    pub terms_of_use: String,
    pub postdate: String,
    pub postdate_timestamp: u64,
    pub editdate: String,
    pub editdate_timestamp: u64,
    pub thumbs: u32,
    pub numitems: u32,
    pub username: String,
    pub title: String,
    pub description: String,
    pub item: Vec<Item>,
}

/// One entry of a geeklist.
#[derive(Clone, Debug)]
pub struct Item {
    pub id: u32,
    pub object_type: String,
    pub subtype: String,
    pub object_id: u32,
    pub object_name: String,
    pub username: String,
    pub postdate: String,
    pub editdate: String,
    pub thumbs: u32,
    pub image_id: String,
    pub body: String,
}

/// An entry names a board game: its object type is `thing` and its subtype
/// `boardgame`.
pub open spec fn is_boardgame_entry(it: Item) -> bool {
    it.object_type@ == "thing"@ && it.subtype@ == "boardgame"@
}

/// Whether an entry counts as a board game depends on its object type and
/// subtype alone: `thing` and `boardgame`; no other field of the entry matters.
pub proof fn law_boardgame_entry_by_type(it: Item, other: Item)
    ensures
        is_boardgame_entry(it) <==> (it.object_type@ == "thing"@ && it.subtype@ == "boardgame"@),
        it.object_type@ == other.object_type@ && it.subtype@ == other.subtype@ ==> (is_boardgame_entry(it) <==> is_boardgame_entry(other)),
{
}

/// The game ids of a geeklist, in order, when every entry names a board game;
/// `None` when some entry does not.
pub fn boardgame_ids(list: &Geeklist) -> (r: Option<Vec<u32>>)
    ensures
        r is Some <==> forall|i: int| 0 <= i < list.item@.len() ==> #[trigger] is_boardgame_entry(list.item@[i]),
        r matches Some(ids) ==> ids@ == list.item@.map_values(|it: Item| it.object_id),
{
    let mut ids: Vec<u32> = Vec::new();
    let n = list.item.len();
    let mut i: usize = 0;
    proof {
        reveal_strlit("thing");
        reveal_strlit("boardgame");
    }
    while i < n
        invariant
            n == list.item@.len(),
            i <= n,
            forall|k: int| 0 <= k < i ==> #[trigger] is_boardgame_entry(list.item@[k]),
            ids@ == list.item@.subrange(0, i as int).map_values(|it: Item| it.object_id),
        decreases n - i,
    {
        let it = &list.item[i];
        if !(chars_eq(it.object_type.as_str(), "thing") && chars_eq(it.subtype.as_str(), "boardgame")) {
            assert(!is_boardgame_entry(list.item@[i as int]));
            return None;
        }
        ids.push(it.object_id);
        assert(list.item@.subrange(0, i + 1) =~= list.item@.subrange(0, i as int).push(list.item@[i as int]));
        i = i + 1;
    }
    assert(list.item@.subrange(0, n as int) =~= list.item@);
    Some(ids)
}

} // verus!
