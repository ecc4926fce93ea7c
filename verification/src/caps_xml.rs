//! The capabilities encoder: renders the server's static capability
//! metadata (server info, limits, search modes, categories, genres,
//! tags) as the Torznab `caps` XML document. The document is a
//! deterministic structural mapping of the [`Caps`] value; element and
//! attribute order is fixed so output is reproducible.

use crate::data::{Caps, Category, Genre, Limits, SearchInfo, Subcategory, Tag};
use crate::text::{dec_digits, join_commas, join_commas_exec, u32_to_dec};
use crate::xml_emit::{push_attr, spec_attr};
use vstd::prelude::*;
use vstd::string::*;

verus! {

/// The attributes of the `server` element: one per key/value pair of
/// the server info, in list order.
pub open spec fn spec_server_attrs(pairs: Seq<(String, String)>) -> Seq<char>
    decreases pairs.len(),
{
    if pairs.len() == 0 {
        Seq::empty()
    } else {
        spec_server_attrs(pairs.drop_last()) + spec_attr(pairs.last().0@, pairs.last().1@)
    }
}

/// The `server` element; absent server info contributes no attributes.
pub open spec fn spec_server_elem(info: Option<Vec<(String, String)>>) -> Seq<char> {
    "<server"@ + (match info {
        Some(v) => spec_server_attrs(v@),
        None => Seq::empty(),
    }) + "></server>"@
}

/// The `limits` element, with `max` and `default` in decimal.
pub open spec fn spec_limits_elem(l: Limits) -> Seq<char> {
    "<limits"@ + spec_attr("max"@, dec_digits(l.max as nat)) + spec_attr(
        "default"@,
        dec_digits(l.default as nat),
    ) + "></limits>"@
}

/// One search-mode element, named after the mode tag, with its
/// availability (`yes`/`no`) and the comma-joined supported parameters.
pub open spec fn spec_search_info(si: SearchInfo) -> Seq<char> {
    "<"@ + si.search_type@ + spec_attr(
        "available"@,
        if si.available {
            "yes"@
        } else {
            "no"@
        },
    ) + spec_attr(
        "supportedParams"@,
        join_commas(si.supported_params@.map_values(|t: String| t@)),
    ) + "></"@ + si.search_type@ + ">"@
}

/// The search-mode elements, in list order.
pub open spec fn spec_searching(items: Seq<SearchInfo>) -> Seq<char>
    decreases items.len(),
{
    if items.len() == 0 {
        Seq::empty()
    } else {
        spec_searching(items.drop_last()) + spec_search_info(items.last())
    }
}

/// One `subcat` element.
pub open spec fn spec_subcat(s: Subcategory) -> Seq<char> {
    "<subcat"@ + spec_attr("id"@, dec_digits(s.id as nat)) + spec_attr("name"@, s.name@)
        + "></subcat>"@
}

/// The `subcat` elements of a category, in list order.
pub open spec fn spec_subcats(ss: Seq<Subcategory>) -> Seq<char>
    decreases ss.len(),
{
    if ss.len() == 0 {
        Seq::empty()
    } else {
        spec_subcats(ss.drop_last()) + spec_subcat(ss.last())
    }
}

/// One `category` element with its nested subcategories.
pub open spec fn spec_category(c: Category) -> Seq<char> {
    "<category"@ + spec_attr("id"@, dec_digits(c.id as nat)) + spec_attr("name"@, c.name@) + ">"@
        + spec_subcats(c.subcategories@) + "</category>"@
}

/// The `category` elements, in list order.
pub open spec fn spec_categories(cs: Seq<Category>) -> Seq<char>
    decreases cs.len(),
{
    if cs.len() == 0 {
        Seq::empty()
    } else {
        spec_categories(cs.drop_last()) + spec_category(cs.last())
    }
}

/// One `genre` element.
pub open spec fn spec_genre(g: Genre) -> Seq<char> {
    "<genre"@ + spec_attr("id"@, dec_digits(g.id as nat)) + spec_attr(
        "categoryid"@,
        dec_digits(g.category_id as nat),
    ) + spec_attr("name"@, g.name@) + "></genre>"@
}

/// The `genre` elements, in list order.
pub open spec fn spec_genres(gs: Seq<Genre>) -> Seq<char>
    decreases gs.len(),
{
    if gs.len() == 0 {
        Seq::empty()
    } else {
        spec_genres(gs.drop_last()) + spec_genre(gs.last())
    }
}

/// Whether any genres are configured: a missing or empty genre list
/// counts as none.
pub open spec fn genres_configured(g: Option<Vec<Genre>>) -> bool {
    match g {
        Some(v) => v@.len() > 0,
        None => false,
    }
}

/// The `genres` wrapper, present only when genres are configured; it is
/// never emitted as an empty element.
pub open spec fn spec_genres_elem(g: Option<Vec<Genre>>) -> Seq<char> {
    if genres_configured(g) {
        "<genres>"@ + spec_genres(g->0@) + "</genres>"@
    } else {
        Seq::empty()
    }
}

/// One `tag` element.
pub open spec fn spec_tag(t: Tag) -> Seq<char> {
    "<tag"@ + spec_attr("name"@, t.name@) + spec_attr("description"@, t.description@)
        + "></tag>"@
}

/// The `tag` elements, in list order.
pub open spec fn spec_tags(ts: Seq<Tag>) -> Seq<char>
    decreases ts.len(),
{
    if ts.len() == 0 {
        Seq::empty()
    } else {
        spec_tags(ts.drop_last()) + spec_tag(ts.last())
    }
}

/// The `tags` wrapper, present only when a tag list is configured.
pub open spec fn spec_tags_elem(t: Option<Vec<Tag>>) -> Seq<char> {
    match t {
        Some(v) => "<tags>"@ + spec_tags(v@) + "</tags>"@,
        None => Seq::empty(),
    }
}

/// The whole capabilities document.
pub open spec fn spec_caps_xml(c: Caps) -> Seq<char> {
    "<caps>"@ + spec_server_elem(c.server_info) + spec_limits_elem(c.limits) + "<searching>"@
        + spec_searching(c.searching@) + "</searching>"@ + "<categories>"@ + spec_categories(
        c.categories@,
    ) + "</categories>"@ + spec_genres_elem(c.genres) + spec_tags_elem(c.tags) + "</caps>"@
}

/// When no genres are configured — the genre list is absent or empty —
/// the `genres` wrapper contributes nothing: the capabilities document
/// equals the concatenation of the other parts alone, with no empty
/// `genres` element between them.
pub proof fn lemma_no_genres_no_wrapper(c: Caps)
    requires
        !genres_configured(c.genres),
    ensures
        spec_genres_elem(c.genres) == Seq::<char>::empty(),
        spec_caps_xml(c) == "<caps>"@ + spec_server_elem(c.server_info) + spec_limits_elem(c.limits)
            + "<searching>"@ + spec_searching(c.searching@) + "</searching>"@ + "<categories>"@
            + spec_categories(c.categories@) + "</categories>"@ + spec_tags_elem(c.tags)
            + "</caps>"@,
{
    assert(spec_caps_xml(c) =~= "<caps>"@ + spec_server_elem(c.server_info) + spec_limits_elem(
        c.limits,
    ) + "<searching>"@ + spec_searching(c.searching@) + "</searching>"@ + "<categories>"@
        + spec_categories(c.categories@) + "</categories>"@ + spec_tags_elem(c.tags) + "</caps>"@);
}

fn push_server_elem(out: &mut String, info: &Option<Vec<(String, String)>>)
    ensures
        final(out)@ == old(out)@ + spec_server_elem(*info),
{
    out.append("<server");
    let ghost pre = out@;
    match info {
        Some(pairs) => {
            let mut i: usize = 0;
            while i < pairs.len()
                invariant
                    0 <= i <= pairs.len(),
                    out@ == pre + spec_server_attrs(pairs@.take(i as int)),
                decreases pairs.len() - i,
            {
                let p = &pairs[i];
                push_attr(out, p.0.as_str(), p.1.as_str());
                proof {
                    let t1 = pairs@.take(i + 1);
                    assert(t1.drop_last() =~= pairs@.take(i as int));
                    assert(t1.last() == pairs@[i as int]);
                }
                i += 1;
            }
            proof {
                assert(pairs@.take(pairs@.len() as int) =~= pairs@);
            }
        },
        None => {},
    }
    out.append("></server>");
}

fn push_limits_elem(out: &mut String, l: &Limits)
    ensures
        final(out)@ == old(out)@ + spec_limits_elem(*l),
{
    out.append("<limits");
    let max_dec = u32_to_dec(l.max);
    push_attr(out, "max", max_dec.as_str());
    let default_dec = u32_to_dec(l.default);
    push_attr(out, "default", default_dec.as_str());
    out.append("></limits>");
}

fn push_searching_elems(out: &mut String, items: &Vec<SearchInfo>)
    ensures
        final(out)@ == old(out)@ + spec_searching(items@),
{
    let ghost pre = out@;
    let mut i: usize = 0;
    while i < items.len()
        invariant
            0 <= i <= items.len(),
            out@ == pre + spec_searching(items@.take(i as int)),
        decreases items.len() - i,
    {
        let si = &items[i];
        out.append("<");
        out.append(si.search_type.as_str());
        push_attr(out, "available", if si.available { "yes" } else { "no" });
        let joined = join_commas_exec(&si.supported_params);
        push_attr(out, "supportedParams", joined.as_str());
        out.append("></");
        out.append(si.search_type.as_str());
        out.append(">");
        proof {
            let t1 = items@.take(i + 1);
            assert(t1.drop_last() =~= items@.take(i as int));
            assert(t1.last() == items@[i as int]);
        }
        i += 1;
    }
    proof {
        assert(items@.take(items@.len() as int) =~= items@);
    }
}

fn push_category_elem(out: &mut String, c: &Category)
    ensures
        final(out)@ == old(out)@ + spec_category(*c),
{
    out.append("<category");
    let id_dec = u32_to_dec(c.id);
    push_attr(out, "id", id_dec.as_str());
    push_attr(out, "name", c.name.as_str());
    out.append(">");
    let ghost pre = out@;
    let mut j: usize = 0;
    while j < c.subcategories.len()
        invariant
            0 <= j <= c.subcategories.len(),
            out@ == pre + spec_subcats(c.subcategories@.take(j as int)),
        decreases c.subcategories.len() - j,
    {
        let s = &c.subcategories[j];
        out.append("<subcat");
        let sid_dec = u32_to_dec(s.id);
        push_attr(out, "id", sid_dec.as_str());
        push_attr(out, "name", s.name.as_str());
        out.append("></subcat>");
        proof {
            let t1 = c.subcategories@.take(j + 1);
            assert(t1.drop_last() =~= c.subcategories@.take(j as int));
            assert(t1.last() == c.subcategories@[j as int]);
        }
        j += 1;
    }
    proof {
        assert(c.subcategories@.take(c.subcategories@.len() as int) =~= c.subcategories@);
    }
    out.append("</category>");
}

fn push_categories_elems(out: &mut String, cs: &Vec<Category>)
    ensures
        final(out)@ == old(out)@ + spec_categories(cs@),
{
    let ghost pre = out@;
    let mut i: usize = 0;
    while i < cs.len()
        invariant
            0 <= i <= cs.len(),
            out@ == pre + spec_categories(cs@.take(i as int)),
        decreases cs.len() - i,
    {
        push_category_elem(out, &cs[i]);
        proof {
            let t1 = cs@.take(i + 1);
            assert(t1.drop_last() =~= cs@.take(i as int));
            assert(t1.last() == cs@[i as int]);
        }
        i += 1;
    }
    proof {
        assert(cs@.take(cs@.len() as int) =~= cs@);
    }
}

#[verifier::rlimit(50)]
fn push_genres_elem(out: &mut String, g: &Option<Vec<Genre>>)
    ensures
        final(out)@ == old(out)@ + spec_genres_elem(*g),
{
    match g {
        Some(genres) => {
            if genres.len() > 0 {
                out.append("<genres>");
                let ghost pre = out@;
                let mut i: usize = 0;
                while i < genres.len()
                    invariant
                        0 <= i <= genres.len(),
                        out@ == pre + spec_genres(genres@.take(i as int)),
                    decreases genres.len() - i,
                {
                    let genre = &genres[i];
                    out.append("<genre");
                    let gid_dec = u32_to_dec(genre.id);
                    push_attr(out, "id", gid_dec.as_str());
                    let cid_dec = u32_to_dec(genre.category_id);
                    push_attr(out, "categoryid", cid_dec.as_str());
                    push_attr(out, "name", genre.name.as_str());
                    out.append("></genre>");
                    proof {
                        let t1 = genres@.take(i + 1);
                        assert(t1.drop_last() =~= genres@.take(i as int));
                        assert(t1.last() == genres@[i as int]);
                    }
                    i += 1;
                }
                proof {
                    assert(genres@.take(genres@.len() as int) =~= genres@);
                }
                out.append("</genres>");
            }
        },
        None => {},
    }
}

fn push_tags_elem(out: &mut String, t: &Option<Vec<Tag>>)
    ensures
        final(out)@ == old(out)@ + spec_tags_elem(*t),
{
    match t {
        Some(tags) => {
            out.append("<tags>");
            let ghost pre = out@;
            let mut i: usize = 0;
            while i < tags.len()
                invariant
                    0 <= i <= tags.len(),
                    out@ == pre + spec_tags(tags@.take(i as int)),
                decreases tags.len() - i,
            {
                let tag = &tags[i];
                out.append("<tag");
                push_attr(out, "name", tag.name.as_str());
                push_attr(out, "description", tag.description.as_str());
                out.append("></tag>");
                proof {
                    let t1 = tags@.take(i + 1);
                    assert(t1.drop_last() =~= tags@.take(i as int));
                    assert(t1.last() == tags@[i as int]);
                }
                i += 1;
            }
            proof {
                assert(tags@.take(tags@.len() as int) =~= tags@);
            }
            out.append("</tags>");
        },
        None => {},
    }
}

/// Renders the capabilities document for `caps`.
pub fn encode_caps(caps: &Caps) -> (r: String)
    ensures
        r@ == spec_caps_xml(*caps),
{
    let mut out = String::new();
    out.append("<caps>");
    push_server_elem(&mut out, &caps.server_info);
    push_limits_elem(&mut out, &caps.limits);
    out.append("<searching>");
    push_searching_elems(&mut out, &caps.searching);
    out.append("</searching>");
    out.append("<categories>");
    push_categories_elems(&mut out, &caps.categories);
    out.append("</categories>");
    push_genres_elem(&mut out, &caps.genres);
    push_tags_elem(&mut out, &caps.tags);
    out.append("</caps>");
    proof {
        assert(out@ =~= spec_caps_xml(*caps));
    }
    out
}

} // verus!
