use openstack::net::Ipv4;
use openstack::pagination::ResourceQuery;
use openstack::protocol::{Request, ServerSortKey, ServerStatus};
use openstack::query::{Query, Sort};
use openstack::refs::ResourceRef;
use openstack::server_query::{DetailedServerQuery, ServerQuery};
use openstack::text::render_decimal;

fn pairs(list: &[(&str, &str)]) -> Vec<(String, String)> {
    list.iter().map(|p| (p.0.to_string(), p.1.to_string())).collect()
}

#[test]
fn decimal_rendering() {
    assert_eq!(render_decimal(0), "0");
    assert_eq!(render_decimal(7), "7");
    assert_eq!(render_decimal(10), "10");
    assert_eq!(render_decimal(1234567890), "1234567890");
    assert_eq!(render_decimal(u64::MAX), "18446744073709551615");
}

#[test]
fn ipv4_rendering() {
    assert_eq!(Ipv4::new(192, 168, 0, 1).render(), "192.168.0.1");
    assert_eq!(Ipv4::new(0, 0, 0, 0).render(), "0.0.0.0");
    assert_eq!(Ipv4::new(255, 255, 255, 255).render(), "255.255.255.255");
}

#[test]
fn query_keeps_the_order_of_insertion() {
    let mut query = Query::new();
    query.push_str("b", "2".to_string());
    query.push_number("a", 15);
    query.push_str("b", "3".to_string());
    assert_eq!(query.params, pairs(&[("b", "2"), ("a", "15"), ("b", "3")]));
}

#[test]
fn limit_comes_before_marker() {
    let mut query = Query::new();
    query.push_str("name", "x".to_string());
    let paged = query.with_marker_and_limit(Some(20), Some("abc".to_string()));
    assert_eq!(paged.params, pairs(&[("name", "x"), ("limit", "20"), ("marker", "abc")]));
    assert_eq!(query.params, pairs(&[("name", "x")]));
    let only_marker = query.with_marker_and_limit(None, Some("abc".to_string()));
    assert_eq!(only_marker.params, pairs(&[("name", "x"), ("marker", "abc")]));
    let neither = query.with_marker_and_limit(None, None);
    assert_eq!(neither, query.duplicate());
}

#[test]
fn new_query_paginates() {
    assert!(ServerQuery::new().can_paginate());
    assert!(ServerQuery::new().params().params.is_empty());
}

#[test]
fn marker_disables_pagination() {
    let query = ServerQuery::new().with_name("a".to_string()).with_marker("m1".to_string());
    assert!(!query.can_paginate());
    assert_eq!(query.params().params, pairs(&[("name", "a"), ("marker", "m1")]));
}

#[test]
fn limit_disables_pagination() {
    let query = ServerQuery::new().with_limit(3);
    assert!(!query.can_paginate());
    assert_eq!(query.params().params, pairs(&[("limit", "3")]));
}

#[test]
fn pagination_stays_disabled() {
    let query = ServerQuery::new().with_limit(3).with_name("a".to_string()).sort_by(
        Sort::Asc(ServerSortKey::CreatedAt),
    );
    assert!(!query.can_paginate());
    assert!(!query.detailed().can_paginate());
}

#[test]
fn filters_keep_pagination() {
    let query = ServerQuery::new()
        .with_access_ip_v4(Ipv4::new(10, 0, 0, 7))
        .with_access_ip_v6("2001:db8::1".to_string())
        .with_availability_zone("nova".to_string())
        .with_flavor(ResourceRef::new("m1.small".to_string()))
        .with_hostname("host-1".to_string())
        .with_image(ResourceRef::new("cirros".to_string()))
        .with_ip_v4(Ipv4::new(172, 16, 1, 20))
        .with_ip_v6("fe80::1".to_string())
        .with_name("web-.*".to_string())
        .with_project(ResourceRef::new("p-1".to_string()))
        .with_status(ServerStatus::ShutOff)
        .with_user(ResourceRef::new("u-1".to_string()));
    assert!(query.can_paginate());
    assert_eq!(
        query.params().params,
        pairs(&[
            ("access_ip_v4", "10.0.0.7"),
            ("access_ipv6", "2001:db8::1"),
            ("availability_zone", "nova"),
            ("flavor", "m1.small"),
            ("hostname", "host-1"),
            ("image", "cirros"),
            ("ip", "172.16.1.20"),
            ("ip6", "fe80::1"),
            ("name", "web-.*"),
            ("project_id", "p-1"),
            ("status", "SHUTOFF"),
            ("user_id", "u-1"),
        ])
    );
}

#[test]
fn sorting_adds_key_and_direction() {
    let query = ServerQuery::new().sort_by(Sort::Desc(ServerSortKey::UpdatedAt));
    assert_eq!(query.params().params, pairs(&[("sort_key", "updated_at"), ("sort_dir", "desc")]));
    let query = ServerQuery::new().sort_by(Sort::Asc(ServerSortKey::DisplayName));
    assert_eq!(query.params().params, pairs(&[("sort_key", "display_name"), ("sort_dir", "asc")]));
}

#[test]
fn chunk_sizes_differ_by_kind() {
    assert_eq!(<ServerQuery as ResourceQuery>::default_limit(), 100);
    assert_eq!(<DetailedServerQuery as ResourceQuery>::default_limit(), 50);
}

#[test]
fn chunk_requests_name_their_listing() {
    let query = ServerQuery::new().with_name("a".to_string());
    match query.chunk_request(Some(5), Some("m".to_string())) {
        Request::ListServers { query } => {
            assert_eq!(query.params, pairs(&[("name", "a"), ("limit", "5"), ("marker", "m")]))
        }
        other => panic!("not a listing of summaries: {:?}", other),
    }
    let detailed = query.detailed();
    match detailed.chunk_request(None, None) {
        Request::ListServersDetail { query } => assert_eq!(query.params, pairs(&[("name", "a")])),
        other => panic!("not a detailed listing: {:?}", other),
    }
    assert_eq!(detailed.into_summary().params().params, pairs(&[("name", "a")]));
}

#[test]
fn queries_convert_both_ways() {
    let query = ServerQuery::new().with_name("a".to_string()).with_limit(4);
    let detailed = DetailedServerQuery::from(query);
    assert!(!detailed.can_paginate());
    let back = ServerQuery::from(detailed);
    assert_eq!(back.params().params, pairs(&[("name", "a"), ("limit", "4")]));
    assert!(!back.can_paginate());
}

#[test]
fn statuses_are_named_as_the_service_names_them() {
    assert_eq!(ServerStatus::Active.as_str(), "ACTIVE");
    assert_eq!(ServerStatus::Building.as_str(), "BUILD");
    assert_eq!(ServerStatus::Error.as_str(), "ERROR");
    assert_eq!(ServerStatus::ShutOff.as_str(), "SHUTOFF");
    assert_eq!(ServerStatus::HardRebooting.as_str(), "HARD_REBOOT");
}
