use docker_dns::address::Ipv4Address;
use docker_dns::address::Ipv6Address;
use docker_dns::custom_handler::CustomHandler;
use docker_dns::custom_handler::DnsReply;
use docker_dns::custom_handler::MessageType;
use docker_dns::custom_handler::Question;
use docker_dns::custom_handler::RData;
use docker_dns::custom_handler::Record;
use docker_dns::custom_handler::RecordType;
use docker_dns::custom_handler::ResponseCode;
use docker_dns::docker_client::NetworkInfo;
use docker_dns::docker_client::NetworkInfoProvider;
use docker_dns::docker_client::RefreshError;
use docker_dns::resolver::DnsResponse;
use docker_dns::resolver::DockerResolver;
use docker_dns::resolver::StaticResolver;
use std::sync::Arc;

struct FixedInventory {
    data: Vec<NetworkInfo>,
}

impl NetworkInfoProvider for FixedInventory {
    fn list_containers_network_info(&self) -> Result<Vec<NetworkInfo>, RefreshError> {
        Ok(self.data.clone())
    }
}

fn question(name: &str, query_type: RecordType) -> Question {
    Question { name: name.to_string(), name_len: name.len(), query_type }
}

fn docker_handler(data: Vec<NetworkInfo>, suffix: &str, ttl: u32) -> CustomHandler<DockerResolver<FixedInventory>> {
    let resolver = DockerResolver::new_with_defaults(FixedInventory { data });
    CustomHandler::new(resolver, suffix.to_string(), ttl)
}

fn web_inventory() -> Vec<NetworkInfo> {
    vec![NetworkInfo {
        names: vec!["web".to_string()],
        ipv4_addresses: vec![Ipv4Address::new(10, 0, 0, 1)],
        ipv6_addresses: vec![],
    }]
}

fn a_record(name: &str, ttl: u32, a: u8, b: u8, c: u8, d: u8) -> Record {
    Record { name: name.to_string(), ttl, data: RData::A(Ipv4Address::new(a, b, c, d)) }
}

fn a_records(count: usize) -> Vec<Record> {
    let mut records = Vec::new();
    for i in 0..count {
        records.push(a_record("web.", 60, 10, 0, (i / 256) as u8, (i % 256) as u8));
    }
    records
}

#[test]
fn normalizes_domain_by_removing_trailing_dot() {
    assert_eq!(CustomHandler::<StaticResolver>::normalize_domain("example.com."), "example.com");
    assert_eq!(CustomHandler::<StaticResolver>::normalize_domain("example.com"), "example.com");
    assert_eq!(CustomHandler::<StaticResolver>::normalize_domain("my.example.local."), "my.example.local");
}

#[test]
fn strips_suffix_when_configured() {
    let resolver = StaticResolver::new();
    let handler = CustomHandler::new(resolver, ".docker".to_string(), 60);

    assert_eq!(handler.strip_suffix("myapp.docker"), Some("myapp".to_string()));
    assert_eq!(handler.strip_suffix("nginx.docker"), Some("nginx".to_string()));
    assert_eq!(handler.strip_suffix("example.com"), None);
}

#[test]
fn accepts_all_domains_when_no_suffix_configured() {
    let resolver = StaticResolver::new();
    let handler = CustomHandler::new(resolver, "".to_string(), 60);

    assert_eq!(handler.strip_suffix("myapp.docker"), Some("myapp.docker".to_string()));
    assert_eq!(handler.strip_suffix("example.com"), Some("example.com".to_string()));
    assert_eq!(handler.strip_suffix("anything"), Some("anything".to_string()));
}

#[test]
fn handles_nested_domain_with_suffix() {
    let resolver = StaticResolver::new();
    let handler = CustomHandler::new(resolver, ".docker".to_string(), 60);

    assert_eq!(handler.strip_suffix("app.production.docker"), Some("app.production".to_string()));
}

#[test]
fn test_resolves_my_example_local_to_static_ip() {
    let mut resolver = StaticResolver::new();
    resolver.add_mapping("my.example.local", Ipv4Address::new(10, 11, 12, 13));
    let mut handler = CustomHandler::new(resolver, "".to_string(), 60);

    let reply = handler
        .handle_request(MessageType::Query, &question("my.example.local", RecordType::A))
        .unwrap();

    let answers = &reply.answers;
    assert_eq!(answers.len(), 1, "Expected exactly one answer");
    let record = &answers[0];
    assert_eq!(record.data, RData::A(Ipv4Address::new(10, 11, 12, 13)));
}

#[test]
fn normalizes_domain_to_lower_case() {
    assert_eq!(CustomHandler::<StaticResolver>::normalize_domain("Web.Docker."), "web.docker");
    assert_eq!(CustomHandler::<StaticResolver>::normalize_domain("ÄB"), "Äb");
}

#[test]
fn normalizes_domain_by_removing_every_trailing_dot() {
    assert_eq!(CustomHandler::<StaticResolver>::normalize_domain("web..."), "web");
    assert_eq!(CustomHandler::<StaticResolver>::normalize_domain("."), "");
    assert_eq!(CustomHandler::<StaticResolver>::normalize_domain(""), "");
    assert_eq!(CustomHandler::<StaticResolver>::normalize_domain("a.b"), "a.b");
}

#[test]
fn normalizing_twice_changes_nothing() {
    for name in ["Web.Docker.", "a..", "", ".", "MiXed.Case.Name", "x"] {
        let once = CustomHandler::<StaticResolver>::normalize_domain(name);
        let twice = CustomHandler::<StaticResolver>::normalize_domain(&once);
        assert_eq!(once, twice);
    }
}

#[test]
fn stripping_undoes_appending_the_suffix() {
    let handler = CustomHandler::new(StaticResolver::new(), ".docker".to_string(), 60);
    for label in ["web", "a.b", "x", ".docker"] {
        let name = format!("{}{}", label, ".docker");
        assert_eq!(handler.strip_suffix(&name), Some(label.to_string()));
    }
}

#[test]
fn name_that_is_the_suffix_alone_is_not_accepted() {
    let handler = CustomHandler::new(StaticResolver::new(), ".docker".to_string(), 60);
    assert_eq!(handler.strip_suffix(".docker"), None);
    assert_eq!(handler.strip_suffix("docker"), None);
    assert_eq!(handler.strip_suffix(""), None);
}

#[test]
fn lookup_key_is_normalized_before_the_suffix_is_stripped() {
    let handler = CustomHandler::new(StaticResolver::new(), ".docker".to_string(), 60);
    assert_eq!(handler.lookup_key("Web.DOCKER."), Some("web".to_string()));
    assert_eq!(handler.lookup_key("web."), None);
    let open = CustomHandler::new(StaticResolver::new(), "".to_string(), 60);
    assert_eq!(open.lookup_key("Web."), Some("web".to_string()));
}

#[test]
fn a_query_is_answered_with_the_ipv4_address() {
    let mut handler = docker_handler(web_inventory(), "", 42);
    let reply = handler.handle_query(&question("web.", RecordType::A));
    assert_eq!(
        reply,
        DnsReply {
            response_code: ResponseCode::NoError,
            authoritative: true,
            answers: vec![a_record("web.", 42, 10, 0, 0, 1)],
            dropped: 0,
        }
    );
}

#[test]
fn suffix_is_stripped_before_the_lookup() {
    let mut handler = docker_handler(web_inventory(), ".docker", 42);
    let reply = handler.handle_query(&question("web.docker.", RecordType::A));
    assert_eq!(reply.response_code, ResponseCode::NoError);
    assert!(reply.authoritative);
    assert_eq!(reply.answers, vec![a_record("web.docker.", 42, 10, 0, 0, 1)]);
}

#[test]
fn query_outside_the_suffix_is_refused() {
    let mut handler = docker_handler(web_inventory(), ".docker", 42);
    let reply = handler.handle_query(&question("web.", RecordType::A));
    assert_eq!(
        reply,
        DnsReply { response_code: ResponseCode::Refused, authoritative: false, answers: vec![], dropped: 0 }
    );
}

#[test]
fn refused_query_does_not_reach_the_resolver() {
    let mut handler = docker_handler(web_inventory(), ".docker", 42);
    let _ = handler.handle_query(&question("web.example.", RecordType::A));
    assert_eq!(handler.resolver().last_refresh(), None);
}

#[test]
fn unknown_name_is_answered_with_nxdomain() {
    let mut handler = docker_handler(vec![], "", 42);
    let reply = handler.handle_query(&question("nope.", RecordType::A));
    assert_eq!(
        reply,
        DnsReply { response_code: ResponseCode::NXDomain, authoritative: false, answers: vec![], dropped: 0 }
    );
}

#[test]
fn aaaa_query_is_answered_with_the_ipv6_address() {
    let ipv6 = Ipv6Address::new([0x2001, 0xdb8, 0, 0, 0, 0, 0, 1]);
    let data = vec![NetworkInfo { names: vec!["db".to_string()], ipv4_addresses: vec![], ipv6_addresses: vec![ipv6] }];
    let mut handler = docker_handler(data, "", 42);

    let reply = handler.handle_query(&question("db.", RecordType::AAAA));
    assert_eq!(reply.response_code, ResponseCode::NoError);
    assert!(reply.authoritative);
    assert_eq!(reply.answers, vec![Record { name: "db.".to_string(), ttl: 42, data: RData::AAAA(ipv6) }]);

    let reply = handler.handle_query(&question("db.", RecordType::A));
    assert_eq!(reply.response_code, ResponseCode::NoError);
    assert!(reply.authoritative);
    assert_eq!(reply.answers, vec![]);
}

#[test]
fn every_name_of_a_container_gets_the_same_answer() {
    let data = vec![NetworkInfo {
        names: vec!["a".to_string(), "a.net1".to_string(), "alias".to_string()],
        ipv4_addresses: vec![Ipv4Address::new(172, 17, 0, 2)],
        ipv6_addresses: vec![],
    }];
    let mut handler = docker_handler(data, "", 42);
    for name in ["a", "a.net1", "alias"] {
        let reply = handler.handle_query(&question(name, RecordType::A));
        assert_eq!(reply.response_code, ResponseCode::NoError);
        assert_eq!(reply.answers, vec![a_record(name, 42, 172, 17, 0, 2)]);
    }
}

#[test]
fn other_query_type_gets_no_error_and_no_answer() {
    let mut handler = docker_handler(web_inventory(), "", 42);
    let reply = handler.handle_query(&question("web.", RecordType::Other));
    assert_eq!(
        reply,
        DnsReply { response_code: ResponseCode::NoError, authoritative: true, answers: vec![], dropped: 0 }
    );
}

#[test]
fn other_query_type_for_unknown_name_gets_no_error_and_no_answer() {
    let mut handler = docker_handler(web_inventory(), "", 42);
    let reply = handler.handle_query(&question("nope.", RecordType::Other));
    assert_eq!(
        reply,
        DnsReply { response_code: ResponseCode::NoError, authoritative: false, answers: vec![], dropped: 0 }
    );
}

#[test]
fn other_query_type_on_an_empty_table_gets_no_error() {
    let mut handler = CustomHandler::new(StaticResolver::new(), "".to_string(), 60);
    let reply = handler.handle_request(MessageType::Query, &question("nope.", RecordType::Other)).unwrap();
    assert_eq!(reply.response_code, ResponseCode::NoError);
    assert!(!reply.authoritative);
    assert_eq!(reply.answers, vec![]);

    let reply = handler.handle_request(MessageType::Query, &question("nope.", RecordType::AAAA)).unwrap();
    assert_eq!(reply.response_code, ResponseCode::NXDomain);
}

#[test]
fn other_query_type_outside_the_suffix_is_refused() {
    let mut handler = docker_handler(web_inventory(), ".docker", 42);
    let reply = handler.handle_query(&question("web.", RecordType::Other));
    assert_eq!(reply.response_code, ResponseCode::Refused);
}

#[test]
fn answer_for_a_name_that_was_not_found_follows_the_query_type() {
    let handler = CustomHandler::new(StaticResolver::new(), "".to_string(), 60);
    assert_eq!(handler.answer(&question("x.", RecordType::A), None).response_code, ResponseCode::NXDomain);
    assert_eq!(handler.answer(&question("x.", RecordType::AAAA), None).response_code, ResponseCode::NXDomain);
    assert_eq!(handler.answer(&question("x.", RecordType::Other), None).response_code, ResponseCode::NoError);
}

#[test]
fn answer_keeps_the_name_as_the_query_wrote_it() {
    let mut handler = docker_handler(web_inventory(), ".docker", 7);
    let reply = handler.handle_query(&question("WeB.DocKer.", RecordType::A));
    assert_eq!(reply.answers, vec![a_record("WeB.DocKer.", 7, 10, 0, 0, 1)]);
}

#[test]
fn message_that_is_a_response_is_dropped() {
    let mut handler = docker_handler(web_inventory(), "", 42);
    assert_eq!(handler.handle_request(MessageType::Response, &question("web.", RecordType::A)), None);
    assert_eq!(handler.resolver().last_refresh(), None);
}

#[test]
fn refuse_gives_the_refused_reply() {
    assert_eq!(
        CustomHandler::<StaticResolver>::refuse(),
        DnsReply { response_code: ResponseCode::Refused, authoritative: false, answers: vec![], dropped: 0 }
    );
}

#[test]
fn size_limit_keeps_everything_that_fits() {
    // 512 - (50 + 4) = 458 bytes, 16 for each A record: 28 records fit.
    let limited = CustomHandler::<StaticResolver>::apply_size_limit(a_records(28), 4);
    assert_eq!(limited, a_records(28));
}

#[test]
fn size_limit_drops_what_does_not_fit() {
    let all = a_records(40);
    let limited = CustomHandler::<StaticResolver>::apply_size_limit(all.clone(), 4);
    assert_eq!(limited.len(), 28);
    assert_eq!(limited, all[..28].to_vec());
}

#[test]
fn size_limit_counts_aaaa_records_as_28_bytes() {
    // 512 - (50 + 2) = 460 bytes: 16 AAAA records take 448, 17 would take 476.
    let mut records = Vec::new();
    for i in 0..20u16 {
        records.push(Record {
            name: "d.".to_string(),
            ttl: 1,
            data: RData::AAAA(Ipv6Address::new([0x2001, 0xdb8, 0, 0, 0, 0, 0, i])),
        });
    }
    let limited = CustomHandler::<StaticResolver>::apply_size_limit(records.clone(), 2);
    assert_eq!(limited, records[..16].to_vec());
}

#[test]
fn size_limit_stops_at_the_first_record_that_does_not_fit() {
    // 512 - (50 + 430) = 32 bytes: an A record fits, the AAAA record after it
    // does not, and the A record behind that one is not looked at.
    let records = vec![
        a_record("n.", 1, 10, 0, 0, 1),
        Record { name: "n.".to_string(), ttl: 1, data: RData::AAAA(Ipv6Address::new([1, 2, 3, 4, 5, 6, 7, 8])) },
        a_record("n.", 1, 10, 0, 0, 2),
    ];
    let limited = CustomHandler::<StaticResolver>::apply_size_limit(records.clone(), 430);
    assert_eq!(limited, records[..1].to_vec());
}

#[test]
fn size_limit_with_a_name_that_fills_the_budget_keeps_nothing() {
    assert_eq!(CustomHandler::<StaticResolver>::apply_size_limit(a_records(3), 462), vec![]);
    assert_eq!(CustomHandler::<StaticResolver>::apply_size_limit(a_records(3), 461), vec![]);
    assert_eq!(CustomHandler::<StaticResolver>::apply_size_limit(a_records(3), usize::MAX), vec![]);
    assert_eq!(CustomHandler::<StaticResolver>::apply_size_limit(a_records(3), 446), a_records(1));
    assert_eq!(CustomHandler::<StaticResolver>::apply_size_limit(vec![], 4), vec![]);
}

#[test]
fn reply_counts_the_records_that_were_dropped() {
    let mut addresses = Vec::new();
    for i in 0..40u8 {
        addresses.push(Ipv4Address::new(10, 0, 0, i));
    }
    let handler = CustomHandler::new(StaticResolver::new(), "".to_string(), 60);
    let found = Some(Arc::new(DnsResponse::new(addresses, vec![])));
    let reply = handler.answer(&question("web.", RecordType::A), found);
    assert_eq!(reply.response_code, ResponseCode::NoError);
    assert_eq!(reply.answers.len(), 28);
    assert_eq!(reply.dropped, 12);
    assert_eq!(reply.answers[27], a_record("web.", 60, 10, 0, 0, 27));
}

#[test]
fn build_records_follows_the_query_type() {
    let handler = CustomHandler::new(StaticResolver::new(), "".to_string(), 9);
    let ipv6 = Ipv6Address::new([0xfe80, 0, 0, 0, 0, 0, 0, 2]);
    let response = DnsResponse::new(vec![Ipv4Address::new(1, 2, 3, 4), Ipv4Address::new(5, 6, 7, 8)], vec![ipv6]);
    assert_eq!(
        handler.build_records(&question("x.", RecordType::A), &response),
        vec![a_record("x.", 9, 1, 2, 3, 4), a_record("x.", 9, 5, 6, 7, 8)]
    );
    assert_eq!(
        handler.build_records(&question("x.", RecordType::AAAA), &response),
        vec![Record { name: "x.".to_string(), ttl: 9, data: RData::AAAA(ipv6) }]
    );
    assert_eq!(handler.build_records(&question("x.", RecordType::Other), &response), vec![]);
}
