use komobot::github::{
    PageInfo, SponsorEntity, SponsorFetch, Sponsorship, SponsorshipConnection, Tier, SPONSORS_QUERY,
};

fn record(login: &str) -> Sponsorship {
    Sponsorship {
        tier: Tier { monthly_price_in_dollars: 5, is_one_time: false },
        sponsor_entity: SponsorEntity { login: login.to_string() },
        is_active: true,
    }
}

fn page(logins: &[&str], next: bool, cursor: Option<&str>) -> SponsorshipConnection {
    SponsorshipConnection {
        page_info: PageInfo { has_next_page: next, end_cursor: cursor.map(|c| c.to_string()) },
        nodes: logins.iter().map(|l| record(l)).collect(),
    }
}

#[test]
fn three_pages_take_three_requests() {
    let pages = vec![
        page(&["a", "b"], true, Some("c1")),
        page(&["c"], true, Some("c2")),
        page(&["d", "e"], false, Some("c3")),
    ];
    let mut fetch = SponsorFetch::new();
    let mut cursors = Vec::new();
    let mut pages = pages.into_iter();
    while let Some(req) = fetch.next_request() {
        assert_eq!(req.query, SPONSORS_QUERY);
        cursors.push(req.cursor.clone());
        fetch.receive_page(pages.next().unwrap());
    }
    assert_eq!(cursors, vec![None, Some("c1".to_string()), Some("c2".to_string())]);
    let logins: Vec<String> = fetch.into_sponsors().into_iter().map(|s| s.sponsor_entity.login).collect();
    assert_eq!(logins, vec!["a", "b", "c", "d", "e"]);
}

#[test]
fn single_empty_page() {
    let mut fetch = SponsorFetch::new();
    let req = fetch.next_request().unwrap();
    assert_eq!(req.cursor, None);
    fetch.receive_page(page(&[], false, None));
    assert!(fetch.next_request().is_none());
    assert!(fetch.into_sponsors().is_empty());
}
