use cms_core::pagination::{page_of, paginate, PagedResult};

fn rows(n: u32) -> Vec<u32> {
    (1..=n).collect()
}

#[test]
fn page_holds_page_size_rows_when_enough_remain() {
    let r = page_of(rows(25), 2, 10);
    assert_eq!(r, (11..=20).collect::<Vec<u32>>());
}

#[test]
fn last_page_holds_the_remainder() {
    let r = page_of(rows(25), 3, 10);
    assert_eq!(r, (21..=25).collect::<Vec<u32>>());
    assert_eq!(r.len(), 5);
}

#[test]
fn page_past_the_end_is_empty() {
    assert_eq!(page_of(rows(25), 4, 10), Vec::<u32>::new());
    assert_eq!(page_of(Vec::<u32>::new(), 1, 10), Vec::<u32>::new());
}

#[test]
fn count_is_min_of_page_size_and_remaining() {
    for page in 1..6u32 {
        for page_size in 1..8u32 {
            let n = 13u32;
            let p = paginate(rows(n), page, page_size, n);
            let offset = (page as u64 - 1) * page_size as u64;
            let remaining = (n as u64).saturating_sub(offset);
            let expected = remaining.min(page_size as u64);
            assert_eq!(p.count as u64, expected, "page {page} size {page_size}");
            assert_eq!(p.count, p.results.len());
            assert!(p.count <= p.page_size as usize);
        }
    }
}

#[test]
fn envelope_carries_the_request_coordinates() {
    let p: PagedResult<u32> = paginate(rows(7), 2, 3, 7);
    assert_eq!(p.page, 2);
    assert_eq!(p.page_size, 3);
    assert_eq!(p.all_count, 7);
    assert_eq!(p.results, vec![4, 5, 6]);
    assert_eq!(p.count, 3);
}

#[test]
fn assemble_keeps_rows_untouched() {
    let p = PagedResult::assemble(1, 10, 99, vec!["a".to_string(), "b".to_string()]);
    assert_eq!(p.count, 2);
    assert_eq!(p.all_count, 99);
    assert_eq!(p.results, vec!["a".to_string(), "b".to_string()]);
}
