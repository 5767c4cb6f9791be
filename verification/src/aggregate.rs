//! The aggregation engine: grouping joined child rows (categories, tags)
//! under their parent rows.
//!
//! A parent is never dropped for lacking children: the engine is the
//! in-memory equivalent of an outer join plus group-by, so a childless
//! parent keeps an empty group.

use vstd::prelude::*;

use crate::posts::Post;

verus! {

/// The channel a meta row belongs to.
#[derive(Debug, Clone, Copy, PartialEq, Eq, Structural)]
pub enum MetaKind {
    Category,
    Tag,
}

/// One category or tag record.
#[derive(Debug)]
pub struct Meta {
    pub mid: u32,
    pub slug: String,
    pub name: String,
    pub description: String,
    pub count: u32,
    pub order: u32,
    pub parent: u32,
    pub kind: MetaKind,
}

impl Clone for Meta {
    fn clone(&self) -> (r: Self)
        ensures
            r == *self,
    {
        Meta {
            mid: self.mid,
            slug: self.slug.clone(),
            name: self.name.clone(),
            description: self.description.clone(),
            count: self.count,
            order: self.order,
            parent: self.parent,
            kind: self.kind,
        }
    }
}

/// One row of the relationship-meta join: a meta record together with the
/// content row it is related to.
#[derive(Debug, Clone)]
pub struct MetaRow {
    pub cid: u32,
    pub meta: Meta,
}

/// A post with its grouped aggregation channels.
#[derive(Debug)]
pub struct PostWithMeta {
    pub post: Post,
    pub categories: Vec<Meta>,
    pub tags: Vec<Meta>,
}

/// The child group of one parent and channel: the metas of the join rows
/// that carry the parent's key and the channel, in row order.
pub open spec fn spec_matching(children: Seq<MetaRow>, cid: u32, kind: MetaKind) -> Seq<Meta>
    decreases children.len(),
{
    if children.len() == 0 {
        Seq::empty()
    } else {
        let rest = spec_matching(children.drop_last(), cid, kind);
        if children.last().cid == cid && children.last().meta.kind == kind {
            rest.push(children.last().meta)
        } else {
            rest
        }
    }
}

/// A parent no join row points at has an empty child group.
pub proof fn lemma_no_children_empty_group(children: Seq<MetaRow>, cid: u32, kind: MetaKind)
    requires
        forall|j: int| 0 <= j < children.len() ==> (#[trigger] children[j]).cid != cid,
    ensures
        spec_matching(children, cid, kind) == Seq::<Meta>::empty(),
    decreases children.len(),
{
    if children.len() > 0 {
        lemma_no_children_empty_group(children.drop_last(), cid, kind);
    }
}

/// Whether a meta sequence is ordered by key ascending.
pub open spec fn spec_mids_ascending(s: Seq<Meta>) -> bool {
    forall|i: int, j: int| 0 <= i <= j < s.len() ==> (#[trigger] s[i]).mid <= (#[trigger] s[j]).mid
}

/// Every member of a child group is the meta of some join row that
/// carries the group's key.
proof fn lemma_matching_members(children: Seq<MetaRow>, cid: u32, kind: MetaKind)
    ensures
        forall|k: int|
            0 <= k < spec_matching(children, cid, kind).len() ==> exists|i: int|
                0 <= i < children.len() && children[i].cid == cid && (
                #[trigger] spec_matching(children, cid, kind)[k]) == children[i].meta,
    decreases children.len(),
{
    if children.len() > 0 {
        lemma_matching_members(children.drop_last(), cid, kind);
        let rest = spec_matching(children.drop_last(), cid, kind);
        let cur = spec_matching(children, cid, kind);
        assert forall|k: int|
            0 <= k < cur.len() implies exists|i: int|
            0 <= i < children.len() && children[i].cid == cid && (#[trigger] cur[k])
                == children[i].meta by {
            if k < rest.len() {
                assert(cur[k] == rest[k]);
                let i = choose|i: int|
                    0 <= i < children.drop_last().len() && children.drop_last()[i].cid == cid
                        && rest[k] == children.drop_last()[i].meta;
                assert(children.drop_last()[i] == children[i]);
                assert(cur[k] == children[i].meta);
            } else {
                assert(cur[k] == children.last().meta);
                assert(children.last() == children[children.len() - 1]);
            }
        }
    }
}

/// A group preserves the join rows' order: when the rows of one parent
/// arrive ascending by child key, its group comes out ascending by child
/// key.
pub proof fn lemma_group_keeps_ascending_mids(children: Seq<MetaRow>, cid: u32, kind: MetaKind)
    requires
        forall|i: int, j: int|
            0 <= i <= j < children.len() && (#[trigger] children[i]).cid == (
            #[trigger] children[j]).cid ==> children[i].meta.mid <= children[j].meta.mid,
    ensures
        spec_mids_ascending(spec_matching(children, cid, kind)),
    decreases children.len(),
{
    if children.len() > 0 {
        assert forall|i: int, j: int|
            0 <= i <= j < children.drop_last().len() && (#[trigger] children.drop_last()[i]).cid
            == (#[trigger] children.drop_last()[j]).cid implies children.drop_last()[i].meta.mid
            <= children.drop_last()[j].meta.mid by {
            assert(children.drop_last()[i] == children[i]);
            assert(children.drop_last()[j] == children[j]);
        }
        lemma_group_keeps_ascending_mids(children.drop_last(), cid, kind);
        lemma_matching_members(children.drop_last(), cid, kind);
        let rest = spec_matching(children.drop_last(), cid, kind);
        let cur = spec_matching(children, cid, kind);
        if children.last().cid == cid && children.last().meta.kind == kind {
            assert forall|i: int, j: int|
                0 <= i <= j < cur.len() implies (#[trigger] cur[i]).mid <= (
            #[trigger] cur[j]).mid by {
                if j < rest.len() {
                    assert(cur[i] == rest[i] && cur[j] == rest[j]);
                } else if i < rest.len() {
                    assert(cur[i] == rest[i]);
                    assert(cur[j] == children.last().meta);
                    let x = choose|x: int|
                        0 <= x < children.drop_last().len() && children.drop_last()[x].cid == cid
                            && rest[i] == children.drop_last()[x].meta;
                    assert(children.drop_last()[x] == children[x]);
                    assert(children.last() == children[children.len() - 1]);
                    assert(children[x].cid == children[children.len() - 1].cid);
                    assert(children[x].meta.mid <= children[children.len() - 1].meta.mid);
                }
            }
        } else {
            assert(cur == rest);
        }
    }
}

/// Collects the child group of one parent and channel.
pub fn metas_matching(children: &Vec<MetaRow>, cid: u32, kind: MetaKind) -> (r: Vec<Meta>)
    ensures
        r@ == spec_matching(children@, cid, kind),
{
    let mut out: Vec<Meta> = Vec::new();
    let mut j: usize = 0;
    while j < children.len()
        invariant
            j <= children.len(),
            out@ == spec_matching(children@.take(j as int), cid, kind),
        decreases children.len() - j,
    {
        proof {
            assert(children@.take(j as int + 1).drop_last() =~= children@.take(j as int));
            assert(children@.take(j as int + 1).last() == children@[j as int]);
        }
        if children[j].cid == cid && children[j].meta.kind == kind {
            out.push(children[j].meta.clone());
        }
        j += 1;
    }
    proof {
        assert(children@.take(children@.len() as int) =~= children@);
    }
    out
}

/// Merges each parent row with its per-channel groups.  Every parent
/// appears in the output exactly once, at its own position, with the
/// categories and tags whose join rows carry its key — an empty group when
/// none do.
pub fn attach_meta(posts: Vec<Post>, children: &Vec<MetaRow>) -> (r: Vec<PostWithMeta>)
    ensures
        r@.len() == posts@.len(),
        forall|i: int|
            0 <= i < posts@.len() ==> {
                &&& (#[trigger] r@[i]).post == posts@[i]
                &&& r@[i].categories@ == spec_matching(children@, posts@[i].cid, MetaKind::Category)
                &&& r@[i].tags@ == spec_matching(children@, posts@[i].cid, MetaKind::Tag)
            },
{
    let ghost orig = posts@;
    let mut posts = posts;
    let mut out: Vec<PostWithMeta> = Vec::new();
    proof {
        assert(posts@ =~= orig.skip(0));
    }
    while posts.len() > 0
        invariant
            out@.len() + posts@.len() == orig.len(),
            posts@ =~= orig.skip(out@.len() as int),
            forall|i: int|
                0 <= i < out@.len() ==> {
                    &&& (#[trigger] out@[i]).post == orig[i]
                    &&& out@[i].categories@ == spec_matching(
                        children@,
                        orig[i].cid,
                        MetaKind::Category,
                    )
                    &&& out@[i].tags@ == spec_matching(children@, orig[i].cid, MetaKind::Tag)
                },
        decreases posts@.len(),
    {
        let ghost k = out@.len() as int;
        proof {
            assert(posts@[0] == orig[k]);
            assert(orig.skip(k).remove(0) =~= orig.skip(k + 1));
        }
        let p = posts.remove(0);
        let cid = p.cid;
        let categories = metas_matching(children, cid, MetaKind::Category);
        let tags = metas_matching(children, cid, MetaKind::Tag);
        out.push(PostWithMeta { post: p, categories, tags });
    }
    out
}

/// Aggregation invariant: under unique parent keys, a parent with zero
/// matching child rows still appears in the merged output — exactly once,
/// at its own position, with both channel groups empty.  `out` is any
/// sequence shaped the way [`attach_meta`] shapes its result.
pub proof fn lemma_childless_parent_once(
    posts: Seq<Post>,
    children: Seq<MetaRow>,
    out: Seq<PostWithMeta>,
    i: int,
)
    requires
        out.len() == posts.len(),
        forall|k: int|
            0 <= k < posts.len() ==> {
                &&& (#[trigger] out[k]).post == posts[k]
                &&& out[k].categories@ == spec_matching(children, posts[k].cid, MetaKind::Category)
                &&& out[k].tags@ == spec_matching(children, posts[k].cid, MetaKind::Tag)
            },
        0 <= i < posts.len(),
        forall|j: int| 0 <= j < children.len() ==> (#[trigger] children[j]).cid != posts[i].cid,
        forall|k: int|
            0 <= k < posts.len() && k != i ==> (#[trigger] posts[k]).cid != posts[i].cid,
    ensures
        out[i].post == posts[i],
        out[i].categories@.len() == 0,
        out[i].tags@.len() == 0,
        forall|k: int| 0 <= k < out.len() ==> ((#[trigger] out[k]).post.cid == posts[i].cid <==> k
            == i),
{
    lemma_no_children_empty_group(children, posts[i].cid, MetaKind::Category);
    lemma_no_children_empty_group(children, posts[i].cid, MetaKind::Tag);
}

} // verus!
