//! The four statements that store a batch of games in the database.
//!
//! A statement is given as the sequence of calls that build it with a query
//! builder: a piece of SQL text is pushed as it is, a bound value is pushed as a
//! placeholder with its argument. The caller replays the pieces on the
//! database's builder and runs the statement.
use vstd::prelude::*;
use crate::boardgame::{Item, Link, Name};

verus! {

/// A value bound to a statement.
#[derive(Debug)]
pub enum SqlArg {
    Int(i64),
    Text(String),
    /// Text or SQL `NULL`.
    OptText(Option<String>),
    /// A 64-bit IEEE-754 number, given by its bit pattern.
    Real(u64),
}

/// One step in building a statement.
#[derive(Debug)]
pub enum SqlPiece {
    /// SQL text, pushed unchanged.
    Sql(&'static str),
    /// A bound value, pushed as a placeholder.
    Bind(SqlArg),
}

/// The mathematical value of a [`SqlArg`].
pub enum SqlArgView {
    Int(i64),
    Text(Seq<char>),
    OptText(Option<Seq<char>>),
    Real(u64),
}

/// The mathematical value of a [`SqlPiece`].
pub enum SqlPieceView {
    Sql(Seq<char>),
    Bind(SqlArgView),
}

/// The characters of an optional text.
pub open spec fn opt_text(t: Option<String>) -> Option<Seq<char>> {
    match t {
        Some(s) => Some(s@),
        None => None,
    }
}

impl View for SqlArg {
    type V = SqlArgView;

    open spec fn view(&self) -> SqlArgView {
        match self {
            SqlArg::Int(v) => SqlArgView::Int(*v),
            SqlArg::Text(s) => SqlArgView::Text(s@),
            SqlArg::OptText(t) => SqlArgView::OptText(opt_text(*t)),
            SqlArg::Real(b) => SqlArgView::Real(*b),
        }
    }
}

impl View for SqlPiece {
    type V = SqlPieceView;

    open spec fn view(&self) -> SqlPieceView {
        match self {
            SqlPiece::Sql(s) => SqlPieceView::Sql(s@),
            SqlPiece::Bind(a) => SqlPieceView::Bind(a@),
        }
    }
}

/// The values of a list of arguments.
pub open spec fn args_view(args: Seq<SqlArg>) -> Seq<SqlArgView> {
    args.map_values(|a: SqlArg| a@)
}

/// The values of a list of pieces.
pub open spec fn pieces_view(ps: Seq<SqlPiece>) -> Seq<SqlPieceView> {
    ps.map_values(|p: SqlPiece| p@)
}

/// The statements that store a batch of games.
pub struct InsertQueries {
    /// Stores the games themselves.
    pub item: Vec<SqlPiece>,
    /// Stores the names of the games.
    pub itemname: Vec<SqlPiece>,
    /// Stores the entries the games link to.
    pub link: Vec<SqlPiece>,
    /// Stores which game links to which entry.
    pub item_link: Vec<SqlPiece>,
}

/// The head of the statement that stores games.
pub open spec fn item_head() -> Seq<char> {
    "INSERT OR REPLACE INTO item (
                    id,
                    item_type,
                    text,
                    thumbnail,
                    image,
                    description,
                    yearpublished,
                    minplayers,
                    maxplayers,
                    playingtime,
                    minplaytime,
                    maxplaytime,
                    minage,
                    usersrated, 
                    average, 
                    bayesaverage, 
                    stddev, 
                    median, 
                    owned, 
                    trading, 
                    wanting, 
                    wishing, 
                    numcomments, 
                    numweights, 
                    averageweight
               ) "@
}

/// The head of the statement that stores names, up to its `VALUES`.
pub open spec fn itemname_head() -> Seq<char> {
    "INSERT OR REPLACE INTO itemname (
                   item_id,
                   name_type,
                   sortindex,
                   value
               ) VALUES "@
}

/// The head of the statement that stores linked entries, up to its `VALUES`.
pub open spec fn link_head() -> Seq<char> {
    "INSERT OR REPLACE INTO link (
                   id,
                   link_type,
                   value,
                   inbound   
               ) VALUES "@
}

/// The head of the statement that stores game-to-entry links, up to its `VALUES`.
pub open spec fn item_link_head() -> Seq<char> {
    "INSERT OR REPLACE INTO item_link (
                   item_id,
                   link_id
               ) VALUES "@
}

/// Bound values separated by `", "`.
pub open spec fn bound_list(args: Seq<SqlArgView>) -> Seq<SqlPieceView>
    decreases args.len(),
{
    if args.len() == 0 {
        Seq::empty()
    } else if args.len() == 1 {
        seq![SqlPieceView::Bind(args[0])]
    } else {
        bound_list(args.drop_last()) + seq![SqlPieceView::Sql(", "@), SqlPieceView::Bind(args.last())]
    }
}

/// One parenthesized row of bound values.
pub open spec fn row(args: Seq<SqlArgView>) -> Seq<SqlPieceView> {
    seq![SqlPieceView::Sql("("@)] + bound_list(args) + seq![SqlPieceView::Sql(")"@)]
}

/// Rows separated by `", "`.
pub open spec fn rows(rs: Seq<Seq<SqlArgView>>) -> Seq<SqlPieceView>
    decreases rs.len(),
{
    if rs.len() == 0 {
        Seq::empty()
    } else if rs.len() == 1 {
        row(rs[0])
    } else {
        rows(rs.drop_last()) + seq![SqlPieceView::Sql(", "@)] + row(rs.last())
    }
}

/// The values stored for a game, in the order of the columns of `item`.
pub open spec fn item_args(it: Item) -> Seq<SqlArgView> {
    let st = it.statistics.ratings;
    seq![
        SqlArgView::Int(it.id),
        SqlArgView::Text(it.item_type@),
        SqlArgView::OptText(opt_text(it.text)),
        SqlArgView::Text(it.thumbnail@),
        SqlArgView::Text(it.image@),
        SqlArgView::Text(it.description@),
        SqlArgView::Int(it.yearpublished.value),
        SqlArgView::Int(it.minplayers.value),
        SqlArgView::Int(it.maxplayers.value),
        SqlArgView::Int(it.playingtime.value),
        SqlArgView::Int(it.minplaytime.value),
        SqlArgView::Int(it.maxplaytime.value),
        SqlArgView::Int(it.minage.value),
        SqlArgView::Int(st.usersrated.value),
        SqlArgView::Real(st.average.value_bits),
        SqlArgView::Real(st.bayesaverage.value_bits),
        SqlArgView::Real(st.stddev.value_bits),
        SqlArgView::Int(st.median.value),
        SqlArgView::Int(st.owned.value),
        SqlArgView::Int(st.trading.value),
        SqlArgView::Int(st.wanting.value),
        SqlArgView::Int(st.wishing.value),
        SqlArgView::Int(st.numcomments.value),
        SqlArgView::Int(st.numweights.value),
        SqlArgView::Real(st.averageweight.value_bits),
    ]
}

/// The values stored for a linked entry, in the order of the columns of `link`.
pub open spec fn link_args(l: Link) -> Seq<SqlArgView> {
    seq![
        SqlArgView::Int(l.id),
        SqlArgView::Text(l.link_type@),
        SqlArgView::Text(l.value@),
        SqlArgView::OptText(opt_text(l.inbound)),
    ]
}

/// The values stored for a game-to-entry link: the game id and the entry id.
pub open spec fn item_link_args(game: i64, l: Link) -> Seq<SqlArgView> {
    seq![SqlArgView::Int(game), SqlArgView::Int(l.id)]
}

/// The values stored for a name of a game, in the order of the columns of
/// `itemname`.
pub open spec fn name_args(game: i64, n: Name) -> Seq<SqlArgView> {
    seq![
        SqlArgView::Int(game),
        SqlArgView::Text(n.name_type@),
        SqlArgView::Text(n.sortindex@),
        SqlArgView::Text(n.value@),
    ]
}

/// The rows of the `item` statement: one per game.
pub open spec fn item_rows(items: Seq<Item>) -> Seq<Seq<SqlArgView>> {
    items.map_values(|it: Item| item_args(it))
}

/// The rows of the `link` statement: one per link of every game, game by game.
pub open spec fn link_rows(items: Seq<Item>) -> Seq<Seq<SqlArgView>>
    decreases items.len(),
{
    if items.len() == 0 {
        Seq::empty()
    } else {
        link_rows(items.drop_last()) + items.last().link@.map_values(|l: Link| link_args(l))
    }
}

/// The rows of the `item_link` statement: one per link of every game.
pub open spec fn item_link_rows(items: Seq<Item>) -> Seq<Seq<SqlArgView>>
    decreases items.len(),
{
    if items.len() == 0 {
        Seq::empty()
    } else {
        item_link_rows(items.drop_last()) + items.last().link@.map_values(
            |l: Link| item_link_args(items.last().id, l),
        )
    }
}

/// The rows of the `itemname` statement: one per name of every game.
pub open spec fn name_rows(items: Seq<Item>) -> Seq<Seq<SqlArgView>>
    decreases items.len(),
{
    if items.len() == 0 {
        Seq::empty()
    } else {
        name_rows(items.drop_last()) + items.last().name@.map_values(
            |n: Name| name_args(items.last().id, n),
        )
    }
}

/// The statement that stores the games.
pub open spec fn item_query(items: Seq<Item>) -> Seq<SqlPieceView> {
    seq![SqlPieceView::Sql(item_head()), SqlPieceView::Sql("VALUES "@)] + rows(item_rows(items))
}

/// The statement that stores the names of the games.
pub open spec fn itemname_query(items: Seq<Item>) -> Seq<SqlPieceView> {
    seq![SqlPieceView::Sql(itemname_head())] + rows(name_rows(items))
}

/// The statement that stores the linked entries.
pub open spec fn link_query(items: Seq<Item>) -> Seq<SqlPieceView> {
    seq![SqlPieceView::Sql(link_head())] + rows(link_rows(items))
}

/// The statement that stores the game-to-entry links.
pub open spec fn item_link_query(items: Seq<Item>) -> Seq<SqlPieceView> {
    seq![SqlPieceView::Sql(item_link_head())] + rows(item_link_rows(items))
}

/// Adding one more row to a list of rows adds a separator (unless it is the
/// first row) and the row.
proof fn lemma_rows_push(rs: Seq<Seq<SqlArgView>>, r: Seq<SqlArgView>)
    ensures
        rows(rs.push(r)) == rows(rs) + (if rs.len() == 0 {
            Seq::<SqlPieceView>::empty()
        } else {
            seq![SqlPieceView::Sql(", "@)]
        }) + row(r),
{
    assert(rs.push(r).drop_last() =~= rs);
    if rs.len() == 0 {
        assert(rows(rs.push(r)) == row(r));
        assert(rows(rs) =~= Seq::<SqlPieceView>::empty());
        assert(rows(rs.push(r)) =~= rows(rs) + Seq::<SqlPieceView>::empty() + row(r));
    }
}

/// Appending to a vector of pieces appends the piece's value.
proof fn lemma_pieces_push(v: Seq<SqlPiece>, p: SqlPiece)
    ensures
        pieces_view(v.push(p)) == pieces_view(v).push(p@),
{
    assert(pieces_view(v.push(p)) =~= pieces_view(v).push(p@));
}

/// Pushes one parenthesized row of bound values, after a separator unless it
/// is the first row.
fn push_row(plan: &mut Vec<SqlPiece>, first: bool, args: Vec<SqlArg>)
    ensures
        pieces_view(final(plan)@) == pieces_view(old(plan)@) + (if first {
            Seq::<SqlPieceView>::empty()
        } else {
            seq![SqlPieceView::Sql(", "@)]
        }) + row(args_view(args@)),
{
    let ghost base = pieces_view(plan@) + (if first {
        Seq::<SqlPieceView>::empty()
    } else {
        seq![SqlPieceView::Sql(", "@)]
    });
    if !first {
        proof { lemma_pieces_push(plan@, SqlPiece::Sql(", ")); }
        plan.push(SqlPiece::Sql(", "));
    }
    assert(pieces_view(plan@) =~= base);
    proof { lemma_pieces_push(plan@, SqlPiece::Sql("(")); }
    plan.push(SqlPiece::Sql("("));
    let ghost all = args_view(args@);
    let n = args.len();
    let mut rest = args;
    let mut k: usize = 0;
    assert(all.take(0) =~= Seq::<SqlArgView>::empty());
    assert(all.skip(0) =~= all);
    while rest.len() > 0
        invariant
            pieces_view(plan@) == base + seq![SqlPieceView::Sql("("@)] + bound_list(all.take(k as int)),
            args_view(rest@) == all.skip(k as int),
            k <= all.len(),
            all.len() == n,
        decreases rest.len(),
    {
        let ghost before = rest@;
        let a = rest.remove(0);
        assert(a == before[0]);
        assert(args_view(before).len() == before.len());
        assert(k < all.len());
        assert(args_view(before)[0] == before[0]@);
        assert(all.skip(k as int)[0] == all[k as int]);
        assert(a@ == all[k as int]);
        assert(rest@ =~= before.subrange(1, before.len() as int));
        assert forall|j: int| 0 <= j < rest@.len() implies #[trigger] args_view(rest@)[j] == all.skip(k + 1)[j] by {
            assert(args_view(before)[j + 1] == before[j + 1]@);
            assert(all.skip(k as int)[j + 1] == all[k + 1 + j]);
        }
        assert(args_view(rest@) =~= all.skip(k + 1));
        let ghost prev = pieces_view(plan@);
        if k > 0 {
            proof { lemma_pieces_push(plan@, SqlPiece::Sql(", ")); }
            plan.push(SqlPiece::Sql(", "));
        }
        proof { lemma_pieces_push(plan@, SqlPiece::Bind(a)); }
        plan.push(SqlPiece::Bind(a));
        assert(all.take(k + 1).drop_last() =~= all.take(k as int));
        if k > 0 {
            assert(pieces_view(plan@) =~= base + seq![SqlPieceView::Sql("("@)] + bound_list(all.take(k + 1)));
        } else {
            assert(bound_list(all.take(1)) == seq![SqlPieceView::Bind(all[0])]);
            assert(pieces_view(plan@) =~= base + seq![SqlPieceView::Sql("("@)] + bound_list(all.take(k + 1)));
        }
        k = k + 1;
    }
    assert(all.take(k as int) =~= all);
    proof { lemma_pieces_push(plan@, SqlPiece::Sql(")")); }
    plan.push(SqlPiece::Sql(")"));
    assert(pieces_view(plan@) =~= base + row(all));
}

/// Pushes the next row of a statement whose rows so far are `done`.
fn push_next_row(
    plan: &mut Vec<SqlPiece>,
    Ghost(head): Ghost<Seq<SqlPieceView>>,
    Ghost(done): Ghost<Seq<Seq<SqlArgView>>>,
    first: bool,
    args: Vec<SqlArg>,
)
    requires
        pieces_view(old(plan)@) == head + rows(done),
        first == (done.len() == 0),
    ensures
        pieces_view(final(plan)@) == head + rows(done.push(args_view(args@))),
{
    let ghost r = args_view(args@);
    push_row(plan, first, args);
    proof {
        lemma_rows_push(done, r);
    }
    assert(pieces_view(plan@) =~= head + rows(done.push(r)));
}

/// A copy of an optional text.
fn clone_opt_text(t: &Option<String>) -> (r: Option<String>)
    ensures
        opt_text(r) == opt_text(*t),
{
    match t {
        Some(s) => Some(s.clone()),
        None => None,
    }
}

/// The values stored for a game.
fn item_arg_list(it: &Item) -> (v: Vec<SqlArg>)
    ensures
        args_view(v@) == item_args(*it),
{
    let st = &it.statistics.ratings;
    let mut v: Vec<SqlArg> = Vec::new();
    v.push(SqlArg::Int(it.id));
    v.push(SqlArg::Text(it.item_type.clone()));
    v.push(SqlArg::OptText(clone_opt_text(&it.text)));
    v.push(SqlArg::Text(it.thumbnail.clone()));
    v.push(SqlArg::Text(it.image.clone()));
    v.push(SqlArg::Text(it.description.clone()));
    v.push(SqlArg::Int(it.yearpublished.value));
    v.push(SqlArg::Int(it.minplayers.value));
    v.push(SqlArg::Int(it.maxplayers.value));
    v.push(SqlArg::Int(it.playingtime.value));
    v.push(SqlArg::Int(it.minplaytime.value));
    v.push(SqlArg::Int(it.maxplaytime.value));
    v.push(SqlArg::Int(it.minage.value));
    v.push(SqlArg::Int(st.usersrated.value));
    v.push(SqlArg::Real(st.average.value_bits));
    v.push(SqlArg::Real(st.bayesaverage.value_bits));
    v.push(SqlArg::Real(st.stddev.value_bits));
    v.push(SqlArg::Int(st.median.value));
    v.push(SqlArg::Int(st.owned.value));
    v.push(SqlArg::Int(st.trading.value));
    v.push(SqlArg::Int(st.wanting.value));
    v.push(SqlArg::Int(st.wishing.value));
    v.push(SqlArg::Int(st.numcomments.value));
    v.push(SqlArg::Int(st.numweights.value));
    v.push(SqlArg::Real(st.averageweight.value_bits));
    assert(args_view(v@) =~= item_args(*it));
    v
}

/// The values stored for a linked entry.
fn link_arg_list(l: &Link) -> (v: Vec<SqlArg>)
    ensures
        args_view(v@) == link_args(*l),
{
    let mut v: Vec<SqlArg> = Vec::new();
    v.push(SqlArg::Int(l.id));
    v.push(SqlArg::Text(l.link_type.clone()));
    v.push(SqlArg::Text(l.value.clone()));
    v.push(SqlArg::OptText(clone_opt_text(&l.inbound)));
    assert(args_view(v@) =~= link_args(*l));
    v
}

/// The values stored for a game-to-entry link.
fn item_link_arg_list(game: i64, l: &Link) -> (v: Vec<SqlArg>)
    ensures
        args_view(v@) == item_link_args(game, *l),
{
    let mut v: Vec<SqlArg> = Vec::new();
    v.push(SqlArg::Int(game));
    v.push(SqlArg::Int(l.id));
    assert(args_view(v@) =~= item_link_args(game, *l));
    v
}

/// The values stored for a name of a game.
fn name_arg_list(game: i64, n: &Name) -> (v: Vec<SqlArg>)
    ensures
        args_view(v@) == name_args(game, *n),
{
    let mut v: Vec<SqlArg> = Vec::new();
    v.push(SqlArg::Int(game));
    v.push(SqlArg::Text(n.name_type.clone()));
    v.push(SqlArg::Text(n.sortindex.clone()));
    v.push(SqlArg::Text(n.value.clone()));
    assert(args_view(v@) =~= name_args(game, *n));
    v
}

/// Pushes a row for each link of a game to the `link` and `item_link`
/// statements, whose rows so far are `ldone` and `ildone`.
fn push_game_links(
    link_plan: &mut Vec<SqlPiece>,
    il_plan: &mut Vec<SqlPiece>,
    it: &Item,
    Ghost(lh): Ghost<Seq<SqlPieceView>>,
    Ghost(ldone): Ghost<Seq<Seq<SqlArgView>>>,
    Ghost(ilh): Ghost<Seq<SqlPieceView>>,
    Ghost(ildone): Ghost<Seq<Seq<SqlArgView>>>,
    first: bool,
)
    requires
        pieces_view(old(link_plan)@) == lh + rows(ldone),
        pieces_view(old(il_plan)@) == ilh + rows(ildone),
        first == (ldone.len() == 0),
        ldone.len() == ildone.len(),
    ensures
        pieces_view(final(link_plan)@) == lh + rows(ldone + it.link@.map_values(|l: Link| link_args(l))),
        pieces_view(final(il_plan)@) == ilh + rows(
            ildone + it.link@.map_values(|l: Link| item_link_args(it.id, l)),
        ),
{
    let n = it.link.len();
    let mut j: usize = 0;
    let mut first_row = first;
    let ghost lmap = it.link@.map_values(|l: Link| link_args(l));
    let ghost ilmap = it.link@.map_values(|l: Link| item_link_args(it.id, l));
    assert(ldone + lmap.take(0) =~= ldone);
    assert(ildone + ilmap.take(0) =~= ildone);
    while j < n
        invariant
            n == it.link@.len(),
            j <= n,
            lmap == it.link@.map_values(|l: Link| link_args(l)),
            ilmap == it.link@.map_values(|l: Link| item_link_args(it.id, l)),
            ldone.len() == ildone.len(),
            pieces_view(link_plan@) == lh + rows(ldone + lmap.take(j as int)),
            pieces_view(il_plan@) == ilh + rows(ildone + ilmap.take(j as int)),
            first_row == (ldone.len() + j == 0),
        decreases n - j,
    {
        let l = &it.link[j];
        push_next_row(link_plan, Ghost(lh), Ghost(ldone + lmap.take(j as int)), first_row, link_arg_list(l));
        push_next_row(il_plan, Ghost(ilh), Ghost(ildone + ilmap.take(j as int)), first_row, item_link_arg_list(it.id, l));
        assert((ldone + lmap.take(j as int)).push(link_args(*l)) =~= ldone + lmap.take(j + 1));
        assert((ildone + ilmap.take(j as int)).push(item_link_args(it.id, *l)) =~= ildone + ilmap.take(j + 1));
        first_row = false;
        j = j + 1;
    }
    assert(lmap.take(n as int) =~= lmap);
    assert(ilmap.take(n as int) =~= ilmap);
}

/// Pushes a row for each name of a game to the `itemname` statement, whose
/// rows so far are `done`.
fn push_game_names(
    plan: &mut Vec<SqlPiece>,
    it: &Item,
    Ghost(head): Ghost<Seq<SqlPieceView>>,
    Ghost(done): Ghost<Seq<Seq<SqlArgView>>>,
    first: bool,
)
    requires
        pieces_view(old(plan)@) == head + rows(done),
        first == (done.len() == 0),
    ensures
        pieces_view(final(plan)@) == head + rows(done + it.name@.map_values(|nm: Name| name_args(it.id, nm))),
{
    let n = it.name.len();
    let mut j: usize = 0;
    let mut first_row = first;
    let ghost nmap = it.name@.map_values(|nm: Name| name_args(it.id, nm));
    assert(done + nmap.take(0) =~= done);
    while j < n
        invariant
            n == it.name@.len(),
            j <= n,
            nmap == it.name@.map_values(|nm: Name| name_args(it.id, nm)),
            pieces_view(plan@) == head + rows(done + nmap.take(j as int)),
            first_row == (done.len() + j == 0),
        decreases n - j,
    {
        let nm = &it.name[j];
        push_next_row(plan, Ghost(head), Ghost(done + nmap.take(j as int)), first_row, name_arg_list(it.id, nm));
        assert((done + nmap.take(j as int)).push(name_args(it.id, *nm)) =~= done + nmap.take(j + 1));
        first_row = false;
        j = j + 1;
    }
    assert(nmap.take(n as int) =~= nmap);
}

/// The rows of the first `i + 1` games extend those of the first `i`.
proof fn lemma_rows_step(items: Seq<Item>, i: int)
    requires
        0 <= i < items.len(),
    ensures
        item_rows(items.take(i + 1)) == item_rows(items.take(i)).push(item_args(items[i])),
        link_rows(items.take(i + 1)) == link_rows(items.take(i)) + items[i].link@.map_values(|l: Link| link_args(l)),
        item_link_rows(items.take(i + 1)) == item_link_rows(items.take(i)) + items[i].link@.map_values(
            |l: Link| item_link_args(items[i].id, l),
        ),
        name_rows(items.take(i + 1)) == name_rows(items.take(i)) + items[i].name@.map_values(
            |nm: Name| name_args(items[i].id, nm),
        ),
{
    assert(items.take(i + 1).drop_last() =~= items.take(i));
    assert(items.take(i + 1).last() == items[i]);
    assert(item_rows(items.take(i + 1)) =~= item_rows(items.take(i)).push(item_args(items[i])));
}

/// There are as many link rows as `item_link` rows.
proof fn lemma_link_rows_len(items: Seq<Item>)
    ensures
        link_rows(items).len() == item_link_rows(items).len(),
    decreases items.len(),
{
    if items.len() > 0 {
        lemma_link_rows_len(items.drop_last());
    }
}

/// The statements that store `boardgames` in the database: one row per game
/// in `item`, one row per name in `itemname`, one row per link in `link`, and
/// one (game id, entry id) row per link in `item_link`, in the order of the
/// games and, within a game, of its names and links. With no games, each
/// statement is its head alone.
pub fn boardgames_insert_queries(boardgames: Vec<Item>) -> (q: InsertQueries)
    ensures
        pieces_view(q.item@) == item_query(boardgames@),
        pieces_view(q.itemname@) == itemname_query(boardgames@),
        pieces_view(q.link@) == link_query(boardgames@),
        pieces_view(q.item_link@) == item_link_query(boardgames@),
{
    let ghost items = boardgames@;
    let ihead = "INSERT OR REPLACE INTO item (
                    id,
                    item_type,
                    text,
                    thumbnail,
                    image,
                    description,
                    yearpublished,
                    minplayers,
                    maxplayers,
                    playingtime,
                    minplaytime,
                    maxplaytime,
                    minage,
                    usersrated, 
                    average, 
                    bayesaverage, 
                    stddev, 
                    median, 
                    owned, 
                    trading, 
                    wanting, 
                    wishing, 
                    numcomments, 
                    numweights, 
                    averageweight
               ) ";
    let nhead = "INSERT OR REPLACE INTO itemname (
                   item_id,
                   name_type,
                   sortindex,
                   value
               ) VALUES ";
    let lhead = "INSERT OR REPLACE INTO link (
                   id,
                   link_type,
                   value,
                   inbound   
               ) VALUES ";
    let ilhead = "INSERT OR REPLACE INTO item_link (
                   item_id,
                   link_id
               ) VALUES ";
    let mut item: Vec<SqlPiece> = Vec::new();
    item.push(SqlPiece::Sql(ihead));
    item.push(SqlPiece::Sql("VALUES "));
    let mut itemname: Vec<SqlPiece> = Vec::new();
    itemname.push(SqlPiece::Sql(nhead));
    let mut link: Vec<SqlPiece> = Vec::new();
    link.push(SqlPiece::Sql(lhead));
    let mut item_link: Vec<SqlPiece> = Vec::new();
    item_link.push(SqlPiece::Sql(ilhead));
    let ghost ih = seq![SqlPieceView::Sql(item_head()), SqlPieceView::Sql("VALUES "@)];
    let ghost nh = seq![SqlPieceView::Sql(itemname_head())];
    let ghost lh = seq![SqlPieceView::Sql(link_head())];
    let ghost ilh = seq![SqlPieceView::Sql(item_link_head())];
    assert(items.take(0) =~= Seq::<Item>::empty());
    assert(pieces_view(item@) =~= ih + rows(item_rows(items.take(0))));
    assert(pieces_view(itemname@) =~= nh + rows(name_rows(items.take(0))));
    assert(pieces_view(link@) =~= lh + rows(link_rows(items.take(0))));
    assert(pieces_view(item_link@) =~= ilh + rows(item_link_rows(items.take(0))));
    let n = boardgames.len();
    let mut i: usize = 0;
    while i < n
        invariant
            n == items.len(),
            items == boardgames@,
            i <= n,
            ih == seq![SqlPieceView::Sql(item_head()), SqlPieceView::Sql("VALUES "@)],
            nh == seq![SqlPieceView::Sql(itemname_head())],
            lh == seq![SqlPieceView::Sql(link_head())],
            ilh == seq![SqlPieceView::Sql(item_link_head())],
            pieces_view(item@) == ih + rows(item_rows(items.take(i as int))),
            pieces_view(itemname@) == nh + rows(name_rows(items.take(i as int))),
            pieces_view(link@) == lh + rows(link_rows(items.take(i as int))),
            pieces_view(item_link@) == ilh + rows(item_link_rows(items.take(i as int))),
        decreases n - i,
    {
        let it = &boardgames[i];
        proof {
            lemma_rows_step(items, i as int);
            lemma_link_rows_len(items.take(i as int));
        }
        push_next_row(&mut item, Ghost(ih), Ghost(item_rows(items.take(i as int))), i == 0, item_arg_list(it));
        assert(pieces_view(link@).len() == link@.len());
        let first_link = link.len() == 1;
        assert(first_link == (link_rows(items.take(i as int)).len() == 0)) by {
            if link_rows(items.take(i as int)).len() > 0 {
                assert(rows(link_rows(items.take(i as int))).len() > 0) by {
                    lemma_rows_nonempty(link_rows(items.take(i as int)));
                }
            }
        }
        push_game_links(
            &mut link,
            &mut item_link,
            it,
            Ghost(lh),
            Ghost(link_rows(items.take(i as int))),
            Ghost(ilh),
            Ghost(item_link_rows(items.take(i as int))),
            first_link,
        );
        assert(pieces_view(itemname@).len() == itemname@.len());
        let first_name = itemname.len() == 1;
        assert(first_name == (name_rows(items.take(i as int)).len() == 0)) by {
            if name_rows(items.take(i as int)).len() > 0 {
                assert(rows(name_rows(items.take(i as int))).len() > 0) by {
                    lemma_rows_nonempty(name_rows(items.take(i as int)));
                }
            }
        }
        push_game_names(&mut itemname, it, Ghost(nh), Ghost(name_rows(items.take(i as int))), first_name);
        i = i + 1;
    }
    assert(items.take(n as int) =~= items);
    InsertQueries { item, itemname, link, item_link }
}

/// A non-empty list of rows has at least one piece.
proof fn lemma_rows_nonempty(rs: Seq<Seq<SqlArgView>>)
    requires
        rs.len() > 0,
    ensures
        rows(rs).len() > 0,
{
    if rs.len() > 1 {
        assert(rows(rs) == rows(rs.drop_last()) + seq![SqlPieceView::Sql(", "@)] + row(rs.last()));
    }
}

/// The number of bound values among the pieces of a statement.
pub open spec fn bind_count(ps: Seq<SqlPieceView>) -> nat
    decreases ps.len(),
{
    if ps.len() == 0 {
        0
    } else {
        bind_count(ps.drop_last()) + (if ps.last() is Bind {
            1nat
        } else {
            0nat
        })
    }
}

proof fn lemma_bind_count_single(p: SqlPieceView)
    ensures
        bind_count(seq![p]) == (if p is Bind { 1nat } else { 0nat }),
{
    assert(seq![p].drop_last() =~= Seq::<SqlPieceView>::empty());
    assert(bind_count(Seq::<SqlPieceView>::empty()) == 0);
    assert(seq![p].last() == p);
}

proof fn lemma_bind_count_concat(a: Seq<SqlPieceView>, b: Seq<SqlPieceView>)
    ensures
        bind_count(a + b) == bind_count(a) + bind_count(b),
    decreases b.len(),
{
    if b.len() == 0 {
        assert(a + b =~= a);
    } else {
        assert((a + b).drop_last() =~= a + b.drop_last());
        assert((a + b).last() == b.last());
        lemma_bind_count_concat(a, b.drop_last());
    }
}

proof fn lemma_bind_count_row(args: Seq<SqlArgView>)
    ensures
        bind_count(bound_list(args)) == args.len(),
        bind_count(row(args)) == args.len(),
    decreases args.len(),
{
    let open_p = seq![SqlPieceView::Sql("("@)];
    let close_p = seq![SqlPieceView::Sql(")"@)];
    let sep_p = seq![SqlPieceView::Sql(", "@)];
    lemma_bind_count_single(SqlPieceView::Sql("("@));
    lemma_bind_count_single(SqlPieceView::Sql(")"@));
    lemma_bind_count_single(SqlPieceView::Sql(", "@));
    if args.len() == 0 {
        assert(bind_count(Seq::<SqlPieceView>::empty()) == 0);
    } else if args.len() == 1 {
        lemma_bind_count_single(SqlPieceView::Bind(args[0]));
    } else if args.len() > 1 {
        lemma_bind_count_row(args.drop_last());
        let tail = seq![SqlPieceView::Sql(", "@), SqlPieceView::Bind(args.last())];
        assert(tail.drop_last() =~= sep_p);
        assert(tail.last() == SqlPieceView::Bind(args.last()));
        assert(bind_count(tail) == 1);
        lemma_bind_count_concat(bound_list(args.drop_last()), tail);
    }
    lemma_bind_count_concat(open_p, bound_list(args));
    lemma_bind_count_concat(open_p + bound_list(args), close_p);
}

proof fn lemma_bind_count_rows(rs: Seq<Seq<SqlArgView>>, w: nat)
    requires
        forall|k: int| 0 <= k < rs.len() ==> #[trigger] rs[k].len() == w,
    ensures
        bind_count(rows(rs)) == w * rs.len(),
    decreases rs.len(),
{
    if rs.len() == 0 {
        assert(bind_count(Seq::<SqlPieceView>::empty()) == 0);
        assert(w * 0 == 0) by (nonlinear_arith);
    } else if rs.len() == 1 {
        lemma_bind_count_row(rs[0]);
        assert(w * 1 == w) by (nonlinear_arith);
    } else {
        let sep_p = seq![SqlPieceView::Sql(", "@)];
        lemma_bind_count_single(SqlPieceView::Sql(", "@));
        lemma_bind_count_rows(rs.drop_last(), w);
        lemma_bind_count_row(rs.last());
        lemma_bind_count_concat(rows(rs.drop_last()), sep_p);
        lemma_bind_count_concat(rows(rs.drop_last()) + sep_p, row(rs.last()));
        let m = rs.len();
        assert(w * (m - 1) + w == w * m) by (nonlinear_arith);
    }
}

/// The statement that stores games binds exactly 25 values per game: one per
/// column of `item`.
pub proof fn law_item_query_binds_per_game(items: Seq<Item>)
    ensures
        bind_count(item_query(items)) == 25 * items.len(),
{
    let head = seq![SqlPieceView::Sql(item_head()), SqlPieceView::Sql("VALUES "@)];
    lemma_bind_count_single(SqlPieceView::Sql(item_head()));
    assert(head.drop_last() =~= seq![SqlPieceView::Sql(item_head())]);
    assert(bind_count(head) == 0);
    assert forall|k: int| 0 <= k < item_rows(items).len() implies #[trigger] item_rows(items)[k].len() == 25 by {
        assert(item_rows(items)[k] == item_args(items[k]));
    }
    lemma_bind_count_rows(item_rows(items), 25);
    lemma_bind_count_concat(head, rows(item_rows(items)));
}

/// Each link of each game gives one row of `link` and one row of `item_link`:
/// the two statements store the same number of rows.
pub proof fn law_link_rows_match(items: Seq<Item>)
    ensures
        link_rows(items).len() == item_link_rows(items).len(),
{
    lemma_link_rows_len(items);
}

/// Every link of every game is stored in `item_link` as the pair of the game's
/// id and the linked entry's id, and every `link` row stores a linked entry of
/// some game.
pub proof fn law_every_link_recorded(items: Seq<Item>)
    ensures
        forall|i: int, j: int|
            0 <= i < items.len() && 0 <= j < items[i].link@.len() ==> item_link_rows(items).contains(
                item_link_args(items[i].id, #[trigger] items[i].link@[j]),
            ) && link_rows(items).contains(link_args(items[i].link@[j])),
    decreases items.len(),
{
    if items.len() > 0 {
        let prev = items.drop_last();
        law_every_link_recorded(prev);
        let last = items.last();
        let lm = last.link@.map_values(|l: Link| link_args(l));
        let ilm = last.link@.map_values(|l: Link| item_link_args(last.id, l));
        assert forall|i: int, j: int|
            0 <= i < items.len() && 0 <= j < items[i].link@.len() implies item_link_rows(items).contains(
                item_link_args(items[i].id, #[trigger] items[i].link@[j]),
            ) && link_rows(items).contains(link_args(items[i].link@[j])) by {
            if i < items.len() - 1 {
                assert(prev[i] == items[i]);
                let a = item_link_args(items[i].id, items[i].link@[j]);
                let b = link_args(items[i].link@[j]);
                assert(item_link_rows(prev).contains(a));
                assert(link_rows(prev).contains(b));
                let ka = choose|k: int| 0 <= k < item_link_rows(prev).len() && item_link_rows(prev)[k] == a;
                let kb = choose|k: int| 0 <= k < link_rows(prev).len() && link_rows(prev)[k] == b;
                assert(item_link_rows(items)[ka] == a);
                assert(link_rows(items)[kb] == b);
            } else {
                let a = item_link_args(items[i].id, items[i].link@[j]);
                let b = link_args(items[i].link@[j]);
                assert(ilm[j] == a);
                assert(lm[j] == b);
                assert(item_link_rows(items)[item_link_rows(prev).len() + j] == a);
                assert(link_rows(items)[link_rows(prev).len() + j] == b);
            }
        }
    }
}

/// The bound values among the pieces of a statement, in order.
pub open spec fn bound_values(ps: Seq<SqlPieceView>) -> Seq<SqlArgView>
    decreases ps.len(),
{
    if ps.len() == 0 {
        Seq::empty()
    } else {
        bound_values(ps.drop_last()) + match ps.last() {
            SqlPieceView::Bind(a) => seq![a],
            SqlPieceView::Sql(_) => Seq::<SqlArgView>::empty(),
        }
    }
}

proof fn lemma_bound_values_single(p: SqlPieceView)
    ensures
        bound_values(seq![p]) == match p {
            SqlPieceView::Bind(a) => seq![a],
            SqlPieceView::Sql(_) => Seq::<SqlArgView>::empty(),
        },
{
    assert(seq![p].drop_last() =~= Seq::<SqlPieceView>::empty());
    assert(bound_values(Seq::<SqlPieceView>::empty()) =~= Seq::<SqlArgView>::empty());
    assert(seq![p].last() == p);
    assert(bound_values(seq![p]) =~= bound_values(Seq::<SqlPieceView>::empty()) + match p {
        SqlPieceView::Bind(a) => seq![a],
        SqlPieceView::Sql(_) => Seq::<SqlArgView>::empty(),
    });
}

proof fn lemma_bound_values_concat(a: Seq<SqlPieceView>, b: Seq<SqlPieceView>)
    ensures
        bound_values(a + b) == bound_values(a) + bound_values(b),
    decreases b.len(),
{
    if b.len() == 0 {
        assert(a + b =~= a);
        assert(bound_values(a) + bound_values(b) =~= bound_values(a));
    } else {
        assert((a + b).drop_last() =~= a + b.drop_last());
        assert((a + b).last() == b.last());
        lemma_bound_values_concat(a, b.drop_last());
        let tail = match b.last() {
            SqlPieceView::Bind(x) => seq![x],
            SqlPieceView::Sql(_) => Seq::<SqlArgView>::empty(),
        };
        assert(bound_values(a + b) =~= bound_values(a) + bound_values(b.drop_last()) + tail);
        assert(bound_values(b) =~= bound_values(b.drop_last()) + tail);
        assert(bound_values(a) + bound_values(b.drop_last()) + tail =~= bound_values(a) + (bound_values(b.drop_last()) + tail));
    }
}

proof fn lemma_bound_values_row(args: Seq<SqlArgView>)
    ensures
        bound_values(bound_list(args)) == args,
        bound_values(row(args)) == args,
    decreases args.len(),
{
    lemma_bound_values_single(SqlPieceView::Sql("("@));
    lemma_bound_values_single(SqlPieceView::Sql(")"@));
    lemma_bound_values_single(SqlPieceView::Sql(", "@));
    if args.len() == 0 {
        assert(bound_values(Seq::<SqlPieceView>::empty()) =~= args);
    } else if args.len() == 1 {
        lemma_bound_values_single(SqlPieceView::Bind(args[0]));
        assert(seq![args[0]] =~= args);
    } else {
        lemma_bound_values_row(args.drop_last());
        let tail = seq![SqlPieceView::Sql(", "@), SqlPieceView::Bind(args.last())];
        assert(tail =~= seq![SqlPieceView::Sql(", "@)] + seq![SqlPieceView::Bind(args.last())]);
        lemma_bound_values_single(SqlPieceView::Bind(args.last()));
        lemma_bound_values_concat(seq![SqlPieceView::Sql(", "@)], seq![SqlPieceView::Bind(args.last())]);
        lemma_bound_values_concat(bound_list(args.drop_last()), tail);
        assert(args.drop_last() + seq![args.last()] =~= args);
        assert(Seq::<SqlArgView>::empty() + seq![args.last()] =~= seq![args.last()]);
    }
    let open_p = seq![SqlPieceView::Sql("("@)];
    let close_p = seq![SqlPieceView::Sql(")"@)];
    lemma_bound_values_concat(open_p, bound_list(args));
    lemma_bound_values_concat(open_p + bound_list(args), close_p);
    assert(Seq::<SqlArgView>::empty() + args + Seq::<SqlArgView>::empty() =~= args);
}

proof fn lemma_bound_values_rows(rs: Seq<Seq<SqlArgView>>)
    ensures
        bound_values(rows(rs)) == rs.flatten(),
    decreases rs.len(),
{
    rs.lemma_flatten_and_flatten_alt_are_equivalent();
    if rs.len() == 0 {
        assert(bound_values(Seq::<SqlPieceView>::empty()) =~= rs.flatten_alt());
    } else if rs.len() == 1 {
        lemma_bound_values_row(rs[0]);
        assert(rs.drop_last() =~= Seq::<Seq<SqlArgView>>::empty());
        assert(Seq::<Seq<SqlArgView>>::empty().flatten_alt() =~= Seq::<SqlArgView>::empty());
        assert(rs.last() == rs[0]);
        assert(rs.flatten_alt() == rs.drop_last().flatten_alt() + rs.last());
        assert(rs.flatten_alt() =~= rs[0]);
    } else {
        let sep_p = seq![SqlPieceView::Sql(", "@)];
        lemma_bound_values_single(SqlPieceView::Sql(", "@));
        lemma_bound_values_rows(rs.drop_last());
        rs.drop_last().lemma_flatten_and_flatten_alt_are_equivalent();
        lemma_bound_values_row(rs.last());
        lemma_bound_values_concat(rows(rs.drop_last()), sep_p);
        lemma_bound_values_concat(rows(rs.drop_last()) + sep_p, row(rs.last()));
        assert(bound_values(rows(rs)) =~= rs.drop_last().flatten_alt() + rs.last());
    }
}

/// The columns of `item` in the order the statement names them, each paired
/// with the field of the game stored there: `id`, `item_type`, `text`,
/// `thumbnail`, `image`, `description`, `yearpublished`, `minplayers`,
/// `maxplayers`, `playingtime`, `minplaytime`, `maxplaytime`, `minage`,
/// `usersrated`, `average`, `bayesaverage`, `stddev`, `median`, `owned`,
/// `trading`, `wanting`, `wishing`, `numcomments`, `numweights`,
/// `averageweight`.
pub proof fn law_item_columns(it: Item)
    ensures
        item_args(it).len() == 25,
        item_args(it)[0] == SqlArgView::Int(it.id),
        item_args(it)[1] == SqlArgView::Text(it.item_type@),
        item_args(it)[2] == SqlArgView::OptText(opt_text(it.text)),
        item_args(it)[3] == SqlArgView::Text(it.thumbnail@),
        item_args(it)[4] == SqlArgView::Text(it.image@),
        item_args(it)[5] == SqlArgView::Text(it.description@),
        item_args(it)[6] == SqlArgView::Int(it.yearpublished.value),
        item_args(it)[7] == SqlArgView::Int(it.minplayers.value),
        item_args(it)[8] == SqlArgView::Int(it.maxplayers.value),
        item_args(it)[9] == SqlArgView::Int(it.playingtime.value),
        item_args(it)[10] == SqlArgView::Int(it.minplaytime.value),
        item_args(it)[11] == SqlArgView::Int(it.maxplaytime.value),
        item_args(it)[12] == SqlArgView::Int(it.minage.value),
        item_args(it)[13] == SqlArgView::Int(it.statistics.ratings.usersrated.value),
        item_args(it)[14] == SqlArgView::Real(it.statistics.ratings.average.value_bits),
        item_args(it)[15] == SqlArgView::Real(it.statistics.ratings.bayesaverage.value_bits),
        item_args(it)[16] == SqlArgView::Real(it.statistics.ratings.stddev.value_bits),
        item_args(it)[17] == SqlArgView::Int(it.statistics.ratings.median.value),
        item_args(it)[18] == SqlArgView::Int(it.statistics.ratings.owned.value),
        item_args(it)[19] == SqlArgView::Int(it.statistics.ratings.trading.value),
        item_args(it)[20] == SqlArgView::Int(it.statistics.ratings.wanting.value),
        item_args(it)[21] == SqlArgView::Int(it.statistics.ratings.wishing.value),
        item_args(it)[22] == SqlArgView::Int(it.statistics.ratings.numcomments.value),
        item_args(it)[23] == SqlArgView::Int(it.statistics.ratings.numweights.value),
        item_args(it)[24] == SqlArgView::Real(it.statistics.ratings.averageweight.value_bits),
{
}

/// The columns of `link` (`id`, `link_type`, `value`, `inbound`), of
/// `item_link` (`item_id`, `link_id`) and of `itemname` (`item_id`,
/// `name_type`, `sortindex`, `value`), each paired with the value stored there.
pub proof fn law_link_and_name_columns(game: i64, l: Link, nm: Name)
    ensures
        link_args(l) == seq![
            SqlArgView::Int(l.id),
            SqlArgView::Text(l.link_type@),
            SqlArgView::Text(l.value@),
            SqlArgView::OptText(opt_text(l.inbound)),
        ],
        item_link_args(game, l) == seq![SqlArgView::Int(game), SqlArgView::Int(l.id)],
        name_args(game, nm) == seq![
            SqlArgView::Int(game),
            SqlArgView::Text(nm.name_type@),
            SqlArgView::Text(nm.sortindex@),
            SqlArgView::Text(nm.value@),
        ],
{
}

/// The values bound by each statement are, in order, the values of its rows
/// one after the other: for `item` the 25 values of each game in turn, and for
/// the others those of each link or name of each game in turn.
pub proof fn law_bound_values_in_row_order(items: Seq<Item>)
    ensures
        bound_values(item_query(items)) == items.map_values(|it: Item| item_args(it)).flatten(),
        bound_values(link_query(items)) == link_rows(items).flatten(),
        bound_values(item_link_query(items)) == item_link_rows(items).flatten(),
        bound_values(itemname_query(items)) == name_rows(items).flatten(),
{
    lemma_bound_values_single(SqlPieceView::Sql(item_head()));
    lemma_bound_values_single(SqlPieceView::Sql("VALUES "@));
    lemma_bound_values_single(SqlPieceView::Sql(link_head()));
    lemma_bound_values_single(SqlPieceView::Sql(item_link_head()));
    lemma_bound_values_single(SqlPieceView::Sql(itemname_head()));
    let ih = seq![SqlPieceView::Sql(item_head()), SqlPieceView::Sql("VALUES "@)];
    assert(ih =~= seq![SqlPieceView::Sql(item_head())] + seq![SqlPieceView::Sql("VALUES "@)]);
    lemma_bound_values_concat(seq![SqlPieceView::Sql(item_head())], seq![SqlPieceView::Sql("VALUES "@)]);
    lemma_bound_values_rows(item_rows(items));
    lemma_bound_values_concat(ih, rows(item_rows(items)));
    assert(item_rows(items) =~= items.map_values(|it: Item| item_args(it)));
    lemma_bound_values_rows(link_rows(items));
    lemma_bound_values_concat(seq![SqlPieceView::Sql(link_head())], rows(link_rows(items)));
    lemma_bound_values_rows(item_link_rows(items));
    lemma_bound_values_concat(seq![SqlPieceView::Sql(item_link_head())], rows(item_link_rows(items)));
    lemma_bound_values_rows(name_rows(items));
    lemma_bound_values_concat(seq![SqlPieceView::Sql(itemname_head())], rows(name_rows(items)));
    assert(Seq::<SqlArgView>::empty() + Seq::<SqlArgView>::empty() =~= Seq::<SqlArgView>::empty());
    assert(Seq::<SqlArgView>::empty() + items.map_values(|it: Item| item_args(it)).flatten() =~= items.map_values(|it: Item| item_args(it)).flatten());
    assert(Seq::<SqlArgView>::empty() + link_rows(items).flatten() =~= link_rows(items).flatten());
    assert(Seq::<SqlArgView>::empty() + item_link_rows(items).flatten() =~= item_link_rows(items).flatten());
    assert(Seq::<SqlArgView>::empty() + name_rows(items).flatten() =~= name_rows(items).flatten());
}

} // verus!
