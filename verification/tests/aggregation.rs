use cms_core::aggregate::{attach_meta, metas_matching, Meta, MetaKind, MetaRow};
use cms_core::posts::Post;

fn post(cid: u32) -> Post {
    Post {
        cid,
        title: format!("post {cid}"),
        slug: format!("post-{cid}"),
        created: 0,
        modified: 0,
        text: String::new(),
        order: 0,
        author_id: 1,
        template: None,
        status: "publish".to_string(),
        password: None,
        comments_num: 0,
        allow_comment: "1".to_string(),
        allow_ping: "1".to_string(),
        allow_feed: "1".to_string(),
        parent: 0,
    }
}

fn meta(mid: u32, kind: MetaKind) -> Meta {
    Meta {
        mid,
        slug: format!("m-{mid}"),
        name: format!("meta {mid}"),
        description: String::new(),
        count: 0,
        order: 0,
        parent: 0,
        kind,
    }
}

#[test]
fn childless_parent_appears_exactly_once_with_empty_groups() {
    let posts = vec![post(1), post(2), post(3)];
    let children = vec![
        MetaRow { cid: 1, meta: meta(10, MetaKind::Category) },
        MetaRow { cid: 3, meta: meta(11, MetaKind::Tag) },
    ];
    let out = attach_meta(posts, &children);
    assert_eq!(out.len(), 3);
    let appearances = out.iter().filter(|p| p.post.cid == 2).count();
    assert_eq!(appearances, 1);
    assert_eq!(out[1].post.cid, 2);
    assert!(out[1].categories.is_empty());
    assert!(out[1].tags.is_empty());
}

#[test]
fn children_land_under_their_parent_and_channel() {
    let posts = vec![post(1), post(2)];
    let children = vec![
        MetaRow { cid: 1, meta: meta(10, MetaKind::Category) },
        MetaRow { cid: 2, meta: meta(11, MetaKind::Category) },
        MetaRow { cid: 1, meta: meta(12, MetaKind::Tag) },
        MetaRow { cid: 1, meta: meta(13, MetaKind::Category) },
    ];
    let out = attach_meta(posts, &children);
    assert_eq!(out[0].categories.iter().map(|m| m.mid).collect::<Vec<_>>(), vec![10, 13]);
    assert_eq!(out[0].tags.iter().map(|m| m.mid).collect::<Vec<_>>(), vec![12]);
    assert_eq!(out[1].categories.iter().map(|m| m.mid).collect::<Vec<_>>(), vec![11]);
    assert!(out[1].tags.is_empty());
}

#[test]
fn group_keeps_the_join_row_order() {
    let children = vec![
        MetaRow { cid: 7, meta: meta(3, MetaKind::Tag) },
        MetaRow { cid: 7, meta: meta(1, MetaKind::Tag) },
        MetaRow { cid: 8, meta: meta(2, MetaKind::Tag) },
        MetaRow { cid: 7, meta: meta(2, MetaKind::Tag) },
    ];
    let g = metas_matching(&children, 7, MetaKind::Tag);
    assert_eq!(g.iter().map(|m| m.mid).collect::<Vec<_>>(), vec![3, 1, 2]);
}

#[test]
fn empty_inputs_produce_empty_outputs() {
    let out = attach_meta(Vec::new(), &vec![MetaRow { cid: 1, meta: meta(1, MetaKind::Tag) }]);
    assert!(out.is_empty());
    let out = attach_meta(vec![post(1)], &Vec::new());
    assert_eq!(out.len(), 1);
    assert!(out[0].categories.is_empty());
}
