//! The favorites catalog: parsing a browse response into playlist entries.
//!
//! A browse response is a flat XML listing. Each item block is the text
//! between one `<item ` marker and the next; within a block the title,
//! description, metadata and resource URI are cut out by start/end tag
//! pairs. An item is kept only when it looks like a playlist: its URI
//! contains "playlist", or begins with the container-reference scheme, or
//! the block carries a playlist-container class marker.

use vstd::prelude::*;
use vstd::string::StrSliceExecFns;

use crate::strutil::contains_seq;
use crate::strutil::contains_sub;
use crate::strutil::extract_spec;
use crate::strutil::extract_tag_content;
use crate::strutil::find_from;
use crate::strutil::find_sub;
use crate::strutil::lemma_find_from_props;
use crate::strutil::match_at;
use crate::strutil::replace_all;
use crate::strutil::replace_seq;
use crate::strutil::starts_with_sub;

verus! {

/// One playable favorite, as cut out of a browse response. The metadata
/// blob is kept verbatim for later play commands.
#[derive(Debug)]
pub struct FavoritePlaylist {
    pub title: String,
    pub description: String,
    pub uri: String,
    pub metadata: String,
}

impl Clone for FavoritePlaylist {
    fn clone(&self) -> (r: Self)
        ensures
            r == *self,
    {
        FavoritePlaylist {
            title: self.title.clone(),
            description: self.description.clone(),
            uri: self.uri.clone(),
            metadata: self.metadata.clone(),
        }
    }
}

/// The four fields of a favorite, as character sequences.
pub struct FavoriteFields {
    pub title: Seq<char>,
    pub description: Seq<char>,
    pub uri: Seq<char>,
    pub metadata: Seq<char>,
}

/// The fields a `FavoritePlaylist` holds.
pub open spec fn fav_fields(f: FavoritePlaylist) -> FavoriteFields {
    FavoriteFields { title: f.title@, description: f.description@, uri: f.uri@, metadata: f.metadata@ }
}

/// The marker that opens each item block in a browse response.
pub open spec fn item_sep() -> Seq<char> {
    "<item "@
}

/// The playable URI of an item block: what follows the first `>` inside
/// its resource tag, or empty when the tag or the `>` is missing.
pub open spec fn uri_of_item(item: Seq<char>) -> Seq<char> {
    match extract_spec(item, "<res"@, "</res>"@) {
        Some(block) => {
            let j = find_from(block, ">"@, 0);
            if j < 0 {
                ""@
            } else {
                block.subrange(j + 1, block.len() as int)
            }
        },
        None => ""@,
    }
}

/// The heuristic playlist filter over exactly the extracted fields.
pub open spec fn is_playlist_item(item: Seq<char>) -> bool {
    ||| contains_seq(uri_of_item(item), "playlist"@)
    ||| match_at(uri_of_item(item), "x-rincon-cpcontainer:"@, 0)
    ||| contains_seq(item, "playlistContainer"@)
}

/// The title of an item block; "Unknown" when absent.
pub open spec fn title_of_item(item: Seq<char>) -> Seq<char> {
    match extract_spec(item, "<dc:title>"@, "</dc:title>"@) {
        Some(t) => t,
        None => "Unknown"@,
    }
}

/// The description of an item block; empty when absent.
pub open spec fn description_of_item(item: Seq<char>) -> Seq<char> {
    match extract_spec(item, "<r:description>"@, "</r:description>"@) {
        Some(d) => d,
        None => ""@,
    }
}

/// The metadata blob of an item block; empty when absent.
pub open spec fn metadata_of_item(item: Seq<char>) -> Seq<char> {
    match extract_spec(item, "<r:resMD>"@, "</r:resMD>"@) {
        Some(m) => m,
        None => ""@,
    }
}

/// All four fields of an item block.
pub open spec fn fav_of_item(item: Seq<char>) -> FavoriteFields {
    FavoriteFields {
        title: title_of_item(item),
        description: description_of_item(item),
        uri: uri_of_item(item),
        metadata: metadata_of_item(item),
    }
}

/// Zero or one favorites out of an item block, depending on the filter.
pub open spec fn item_favs(item: Seq<char>) -> Seq<FavoriteFields> {
    if is_playlist_item(item) {
        seq![fav_of_item(item)]
    } else {
        Seq::empty()
    }
}

/// The favorites parsed from `t` starting at `pos`, which sits just after
/// an item marker: the block runs to the next marker or to the end.
pub open spec fn parse_after(t: Seq<char>, pos: int) -> Seq<FavoriteFields>
    decreases t.len() - pos,
    via parse_after_decreases
{
    if pos < 0 || pos > t.len() {
        Seq::empty()
    } else {
        let i = find_from(t, item_sep(), pos);
        if i < 0 {
            item_favs(t.subrange(pos, t.len() as int))
        } else {
            item_favs(t.subrange(pos, i)) + parse_after(t, i + item_sep().len())
        }
    }
}

#[via_fn]
proof fn parse_after_decreases(t: Seq<char>, pos: int) {
    reveal_strlit("<item ");
    if 0 <= pos <= t.len() {
        let i = find_from(t, item_sep(), pos);
        if i >= 0 {
            lemma_find_from_props(t, item_sep(), pos);
        }
    }
}

/// All favorites parsed out of a browse result: the text before the first
/// item marker is discarded, then each block is filtered and extracted.
pub open spec fn parse_favorites_spec(t: Seq<char>) -> Seq<FavoriteFields> {
    let i = find_from(t, item_sep(), 0);
    if i < 0 {
        Seq::empty()
    } else {
        parse_after(t, i + item_sep().len())
    }
}

/// The playable URI inside an item block's resource tag.
fn item_uri<'a>(item: &'a str) -> (r: &'a str)
    ensures
        r@ == uri_of_item(item@),
{
    match extract_tag_content(item, "<res", "</res>") {
        Some(block) => {
            match find_sub(block, ">", 0) {
                Some(j) => {
                    proof {
                        lemma_find_from_props(block@, ">"@, 0);
                        reveal_strlit(">");
                    }
                    let bl = block.unicode_len();
                    block.substring_char(j + 1, bl)
                },
                None => "",
            }
        },
        None => "",
    }
}

/// Extract one item block, or nothing when the playlist filter drops it.
fn parse_item(item: &str) -> (r: Option<FavoritePlaylist>)
    ensures
        match r {
            Some(f) => is_playlist_item(item@) && fav_fields(f) == fav_of_item(item@),
            None => !is_playlist_item(item@),
        },
{
    let uri = item_uri(item);
    let keep = contains_sub(uri, "playlist") || starts_with_sub(uri, "x-rincon-cpcontainer:")
        || contains_sub(item, "playlistContainer");
    if !keep {
        return None;
    }
    let title = match extract_tag_content(item, "<dc:title>", "</dc:title>") {
        Some(t) => t.to_owned(),
        None => "Unknown".to_owned(),
    };
    let description = match extract_tag_content(item, "<r:description>", "</r:description>") {
        Some(d) => d.to_owned(),
        None => "".to_owned(),
    };
    let metadata = match extract_tag_content(item, "<r:resMD>", "</r:resMD>") {
        Some(m) => m.to_owned(),
        None => "".to_owned(),
    };
    Some(FavoritePlaylist { title, description, uri: uri.to_owned(), metadata })
}

/// Parse a favorites browse result into the playlist entries it lists.
pub fn parse_favorite_playlists(xml: &str) -> (r: Vec<FavoritePlaylist>)
    ensures
        r@.len() == parse_favorites_spec(xml@).len(),
        forall|k: int| 0 <= k < r@.len() ==> fav_fields(r@[k]) == parse_favorites_spec(xml@)[k],
{
    let n = xml.unicode_len();
    let sep_len = "<item ".unicode_len();
    let mut out: Vec<FavoritePlaylist> = Vec::new();
    let first = match find_sub(xml, "<item ", 0) {
        None => {
            return out;
        },
        Some(i) => i,
    };
    proof {
        lemma_find_from_props(xml@, item_sep(), 0);
        reveal_strlit("<item ");
    }
    let mut pos: usize = first + sep_len;
    let ghost mut done: Seq<FavoriteFields> = Seq::empty();
    proof {
        assert(done + parse_after(xml@, pos as int) =~= parse_after(xml@, pos as int));
    }
    loop
        invariant
            pos <= n,
            n == xml@.len(),
            1 <= sep_len,
            sep_len == item_sep().len(),
            done.len() == out@.len(),
            forall|k: int| 0 <= k < out@.len() ==> fav_fields(out@[k]) == done[k],
            parse_favorites_spec(xml@) == done + parse_after(xml@, pos as int),
        decreases n - pos,
    {
        let ghost done_before = done;
        match find_sub(xml, "<item ", pos) {
            Some(j) => {
                proof {
                    lemma_find_from_props(xml@, item_sep(), pos as int);
                }
                let item = xml.substring_char(pos, j);
                if let Some(f) = parse_item(item) {
                    out.push(f);
                    proof {
                        done = done + seq![fav_of_item(item@)];
                    }
                }
                proof {
                    assert(parse_after(xml@, pos as int) == item_favs(item@) + parse_after(
                        xml@,
                        j + item_sep().len(),
                    ));
                    assert(done_before + (item_favs(item@) + parse_after(
                        xml@,
                        j + item_sep().len(),
                    )) =~= done + parse_after(xml@, j + item_sep().len()));
                }
                pos = j + sep_len;
            },
            None => {
                let item = xml.substring_char(pos, n);
                if let Some(f) = parse_item(item) {
                    out.push(f);
                    proof {
                        done = done + seq![fav_of_item(item@)];
                    }
                }
                proof {
                    assert(parse_after(xml@, pos as int) == item_favs(item@));
                    assert(done_before + item_favs(item@) =~= done);
                }
                return out;
            },
        }
    }
}

/// One escaped entity replaced throughout, five entities in order.
pub open spec fn unescape_spec(s: Seq<char>) -> Seq<char> {
    replace_seq(
        replace_seq(
            replace_seq(
                replace_seq(replace_seq(s, "&amp;"@, "&"@), "&lt;"@, "<"@),
                "&gt;"@,
                ">"@,
            ),
            "&quot;"@,
            "\""@,
        ),
        "&apos;"@,
        "'"@,
    )
}

/// Undo the small fixed set of entity escapes found in favorite URIs and
/// metadata, one entity after another.
pub fn html_unescape(s: &str) -> (r: String)
    ensures
        r@ == unescape_spec(s@),
{
    proof {
        reveal_strlit("&amp;");
        reveal_strlit("&lt;");
        reveal_strlit("&gt;");
        reveal_strlit("&quot;");
        reveal_strlit("&apos;");
    }
    let s1 = replace_all(s, "&amp;", "&");
    let s2 = replace_all(s1.as_str(), "&lt;", "<");
    let s3 = replace_all(s2.as_str(), "&gt;", ">");
    let s4 = replace_all(s3.as_str(), "&quot;", "\"");
    replace_all(s4.as_str(), "&apos;", "'")
}

/// The fixed browse request for the favorites container: one bounded page
/// of direct children.
pub fn favorites_browse_payload() -> (r: &'static str)
    ensures
        r@
            == "<ObjectID>FV:2</ObjectID>\n<BrowseFlag>BrowseDirectChildren</BrowseFlag>\n<Filter>*</Filter>\n<StartingIndex>0</StartingIndex>\n<RequestedCount>100</RequestedCount>\n<SortCriteria></SortCriteria>"@,
{
    "<ObjectID>FV:2</ObjectID>\n<BrowseFlag>BrowseDirectChildren</BrowseFlag>\n<Filter>*</Filter>\n<StartingIndex>0</StartingIndex>\n<RequestedCount>100</RequestedCount>\n<SortCriteria></SortCriteria>"
}

} // verus!
