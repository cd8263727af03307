use bggcli::boardgame::{
    Average, Averageweight, Bayesaverage, Item, Link, Maxplayers, Maxplaytime, Median, Minage,
    Minplayers, Minplaytime, Name, Numcomments, Numweights, Owned, Playingtime, PollSummary, Ranks,
    Ratings, Statistics, Stddev, Trading, Usersrated, Wanting, Wishing, Yearpublished,
};
use bggcli::collection;
use bggcli::db::{boardgames_insert_queries, SqlArg, SqlPiece};
use bggcli::geeklist;

fn game(id: i64, names: &[&str], links: &[(i64, &str, &str, Option<&str>)]) -> Item {
    Item {
        item_type: "boardgame".to_string(),
        id,
        text: None,
        thumbnail: format!("thumb{id}"),
        image: format!("image{id}"),
        name: names
            .iter()
            .enumerate()
            .map(|(k, n)| Name {
                name_type: if k == 0 { "primary".to_string() } else { "alternate".to_string() },
                sortindex: "1".to_string(),
                value: n.to_string(),
            })
            .collect(),
        description: "desc".to_string(),
        yearpublished: Yearpublished { value: 1995 },
        minplayers: Minplayers { value: 3 },
        maxplayers: Maxplayers { value: 4 },
        poll_summary: PollSummary {
            name: "suggested_numplayers".to_string(),
            title: "t".to_string(),
            text: None,
            result: vec![],
        },
        playingtime: Playingtime { value: 120 },
        minplaytime: Minplaytime { value: 60 },
        maxplaytime: Maxplaytime { value: 120 },
        minage: Minage { value: 10 },
        poll: vec![],
        link: links
            .iter()
            .map(|(lid, t, v, inb)| Link {
                link_type: t.to_string(),
                id: *lid,
                value: v.to_string(),
                inbound: inb.map(|s| s.to_string()),
            })
            .collect(),
        statistics: Statistics {
            page: 1,
            text: None,
            ratings: Ratings {
                text: None,
                usersrated: Usersrated { value: 100 },
                average: Average { value_bits: 7.5f64.to_bits() },
                bayesaverage: Bayesaverage { value_bits: 7.0f64.to_bits() },
                ranks: Ranks { text: None, rank: vec![] },
                stddev: Stddev { value_bits: 1.25f64.to_bits() },
                median: Median { value: 0 },
                owned: Owned { value: 10 },
                trading: Trading { value: 1 },
                wanting: Wanting { value: 2 },
                wishing: Wishing { value: 3 },
                numcomments: Numcomments { value: 4 },
                numweights: Numweights { value: 5 },
                averageweight: Averageweight { value_bits: 2.5f64.to_bits() },
            },
        },
    }
}

/// The statement text with a `?` for each bound value, and the bound values.
fn render(ps: &[SqlPiece]) -> (String, Vec<String>) {
    let mut sql = String::new();
    let mut binds = Vec::new();
    for p in ps {
        match p {
            SqlPiece::Sql(s) => sql.push_str(s),
            SqlPiece::Bind(a) => {
                sql.push('?');
                binds.push(match a {
                    SqlArg::Int(v) => v.to_string(),
                    SqlArg::Text(s) => format!("'{s}'"),
                    SqlArg::OptText(Some(s)) => format!("'{s}'"),
                    SqlArg::OptText(None) => "NULL".to_string(),
                    SqlArg::Real(b) => f64::from_bits(*b).to_string(),
                });
            }
        }
    }
    (sql, binds)
}

fn tail_after_values(sql: &str) -> &str {
    let k = sql.find("VALUES ").unwrap();
    &sql[k + "VALUES ".len()..]
}

#[test]
fn one_game_gives_one_row_of_25_values() {
    let q = boardgames_insert_queries(vec![game(13, &["Catan", "Die Siedler"], &[(1, "boardgamemechanic", "Dice", None)])]);
    let (sql, binds) = render(&q.item);
    assert!(sql.starts_with("INSERT OR REPLACE INTO item (\n                    id,"));
    let row = format!("({})", vec!["?"; 25].join(", "));
    assert_eq!(tail_after_values(&sql), row);
    assert!(sql.ends_with(&format!(") VALUES {row}")));
    assert_eq!(binds.len(), 25);
    assert_eq!(binds[0], "13");
    assert_eq!(binds[1], "'boardgame'");
    assert_eq!(binds[2], "NULL");
    assert_eq!(binds[6], "1995");
    assert_eq!(binds[14], "7.5");
    assert_eq!(binds[16], "1.25");
    assert_eq!(binds[24], "2.5");
}

#[test]
fn names_links_and_pairs_have_their_rows() {
    let q = boardgames_insert_queries(vec![
        game(13, &["Catan", "Die Siedler"], &[(1, "boardgamemechanic", "Dice", None)]),
        game(42, &["Azul"], &[(2, "boardgamecategory", "Abstract", Some("true")), (1, "boardgamemechanic", "Dice", None)]),
    ]);
    let (sql, binds) = render(&q.item);
    assert_eq!(binds.len(), 50);
    let row = format!("({})", vec!["?"; 25].join(", "));
    assert_eq!(tail_after_values(&sql), format!("{row}, {row}"));

    let (sql, binds) = render(&q.itemname);
    assert!(sql.starts_with("INSERT OR REPLACE INTO itemname ("));
    assert_eq!(tail_after_values(&sql), "(?, ?, ?, ?), (?, ?, ?, ?), (?, ?, ?, ?)");
    assert_eq!(binds[0..4], ["13", "'primary'", "'1'", "'Catan'"]);
    assert_eq!(binds[4..8], ["13", "'alternate'", "'1'", "'Die Siedler'"]);
    assert_eq!(binds[8..12], ["42", "'primary'", "'1'", "'Azul'"]);

    let (sql, binds) = render(&q.link);
    assert!(sql.starts_with("INSERT OR REPLACE INTO link ("));
    assert_eq!(tail_after_values(&sql), "(?, ?, ?, ?), (?, ?, ?, ?), (?, ?, ?, ?)");
    assert_eq!(binds[4..8], ["2", "'boardgamecategory'", "'Abstract'", "'true'"]);
    assert_eq!(binds[3], "NULL");

    let (sql, binds) = render(&q.item_link);
    assert!(sql.starts_with("INSERT OR REPLACE INTO item_link ("));
    assert_eq!(tail_after_values(&sql), "(?, ?), (?, ?), (?, ?)");
    assert_eq!(binds, ["13", "1", "42", "2", "42", "1"]);
}

#[test]
fn no_games_give_bare_statements() {
    let q = boardgames_insert_queries(vec![]);
    let (sql, binds) = render(&q.item);
    assert!(sql.ends_with(") VALUES "));
    assert!(binds.is_empty());
    assert_eq!(q.itemname.len(), 1);
    assert_eq!(q.link.len(), 1);
    assert_eq!(q.item_link.len(), 1);
}

fn coll_item(objecttype: &str, subtype: &str, id: u32) -> collection::Item {
    collection::Item {
        objecttype: objecttype.to_string(),
        objectid: id,
        subtype: subtype.to_string(),
        collid: "1".to_string(),
        text: None,
        name: collection::Name { sortindex: "1".to_string(), text: Some("x".to_string()) },
        image: String::new(),
        thumbnail: String::new(),
        status: collection::Status {
            own: "1".to_string(),
            prevowned: "0".to_string(),
            fortrade: "0".to_string(),
            want: "0".to_string(),
            wanttoplay: "0".to_string(),
            wanttobuy: "0".to_string(),
            wishlist: "0".to_string(),
            preordered: "0".to_string(),
            lastmodified: "2024-01-01".to_string(),
        },
        numplays: "0".to_string(),
        yearpublished: None,
    }
}

fn coll(items: Vec<collection::Item>) -> collection::Items {
    collection::Items {
        totalitems: items.len().to_string(),
        termsofuse: String::new(),
        pubdate: String::new(),
        text: None,
        item: items,
    }
}

#[test]
fn collection_ids_in_order() {
    let c = coll(vec![coll_item("thing", "boardgame", 13), coll_item("thing", "boardgame", 42)]);
    assert_eq!(collection::boardgame_ids(&c), Some(vec![13, 42]));
    assert_eq!(collection::boardgame_ids(&coll(vec![])), Some(vec![]));
}

#[test]
fn collection_with_other_entries_is_refused() {
    let c = coll(vec![coll_item("thing", "boardgame", 13), coll_item("thing", "boardgameexpansion", 42)]);
    assert_eq!(collection::boardgame_ids(&c), None);
    let c = coll(vec![coll_item("family", "boardgame", 13)]);
    assert_eq!(collection::boardgame_ids(&c), None);
}

fn gl_item(object_type: &str, subtype: &str, id: u32) -> geeklist::Item {
    geeklist::Item {
        id: 1,
        object_type: object_type.to_string(),
        subtype: subtype.to_string(),
        object_id: id,
        object_name: "x".to_string(),
        username: "u".to_string(),
        postdate: String::new(),
        editdate: String::new(),
        thumbs: 0,
        image_id: String::new(),
        body: String::new(),
    }
}

fn gl(items: Vec<geeklist::Item>) -> geeklist::Geeklist {
    geeklist::Geeklist {
        id: 7,
        terms_of_use: String::new(),
        postdate: String::new(),
        postdate_timestamp: 0,
        editdate: String::new(),
        editdate_timestamp: 0,
        thumbs: 0,
        numitems: items.len() as u32,
        username: "u".to_string(),
        title: "t".to_string(),
        description: String::new(),
        item: items,
    }
}

#[test]
fn geeklist_ids_in_order() {
    let g = gl(vec![gl_item("thing", "boardgame", 5), gl_item("thing", "boardgame", 3)]);
    assert_eq!(geeklist::boardgame_ids(&g), Some(vec![5, 3]));
    let g = gl(vec![gl_item("person", "boardgamedesigner", 5)]);
    assert_eq!(geeklist::boardgame_ids(&g), None);
}
