use docker_dns::address::Ipv4Address;
use docker_dns::address::Ipv6Address;
use docker_dns::docker_client::collect_network_info;
use docker_dns::docker_client::get_ip_addresses;
use docker_dns::docker_client::get_names;
use docker_dns::docker_client::ContainerSummary;
use docker_dns::docker_client::DockerClientConfig;
use docker_dns::docker_client::EndpointSummary;
use docker_dns::settings::answer_ttl;
use docker_dns::settings::normalize_suffix;

fn endpoint(ipv4: Option<[u8; 4]>, ipv6: Option<[u16; 8]>) -> EndpointSummary {
    EndpointSummary {
        ip_address: ipv4.map(|octets| Ipv4Address { octets }),
        global_ipv6_address: ipv6.map(Ipv6Address::new),
    }
}

fn container(names: Option<Vec<&str>>, networks: Option<Vec<EndpointSummary>>) -> ContainerSummary {
    ContainerSummary { names: names.map(|names| names.iter().map(|name| name.to_string()).collect()), networks }
}

#[test]
fn names_lose_the_leading_separator() {
    let summary = container(Some(vec!["/web", "db", "/a/b", "//x", "/"]), None);
    assert_eq!(get_names(&summary), vec!["web", "db", "a/b", "/x", ""]);
}

#[test]
fn names_are_not_rewritten_otherwise() {
    let summary = container(Some(vec!["/Web.Net1.", "web/"]), None);
    assert_eq!(get_names(&summary), vec!["Web.Net1.", "web/"]);
}

#[test]
fn container_without_names_has_none() {
    assert_eq!(get_names(&container(None, None)), Vec::<String>::new());
    assert_eq!(get_names(&container(Some(vec![]), None)), Vec::<String>::new());
}

#[test]
fn addresses_are_taken_from_every_endpoint_in_order() {
    let segments = [0x2001, 0xdb8, 0, 0, 0, 0, 0, 1];
    let summary = container(
        None,
        Some(vec![
            endpoint(Some([172, 17, 0, 2]), None),
            endpoint(None, None),
            endpoint(Some([10, 0, 0, 9]), Some(segments)),
        ]),
    );
    let (ipv4, ipv6) = get_ip_addresses(&summary);
    assert_eq!(ipv4, vec![Ipv4Address::new(172, 17, 0, 2), Ipv4Address::new(10, 0, 0, 9)]);
    assert_eq!(ipv6, vec![Ipv6Address::new(segments)]);
}

#[test]
fn container_without_networks_has_no_address() {
    assert_eq!(get_ip_addresses(&container(None, None)), (vec![], vec![]));
    assert_eq!(get_ip_addresses(&container(None, Some(vec![]))), (vec![], vec![]));
}

#[test]
fn inventory_leaves_out_containers_without_an_address() {
    let containers = vec![
        container(Some(vec!["/web"]), Some(vec![endpoint(Some([10, 0, 0, 1]), None)])),
        container(Some(vec!["/stopped"]), Some(vec![endpoint(None, None)])),
        container(Some(vec!["/hostnet"]), None),
        container(Some(vec!["/db", "/db.net1"]), Some(vec![endpoint(None, Some([0xfd00, 0, 0, 0, 0, 0, 0, 2]))])),
    ];
    let inventory = collect_network_info(&containers);
    assert_eq!(inventory.len(), 2);
    assert_eq!(inventory[0].names, vec!["web"]);
    assert_eq!(inventory[0].ipv4_addresses, vec![Ipv4Address::new(10, 0, 0, 1)]);
    assert_eq!(inventory[0].ipv6_addresses, vec![]);
    assert_eq!(inventory[1].names, vec!["db", "db.net1"]);
    assert_eq!(inventory[1].ipv4_addresses, vec![]);
    assert_eq!(inventory[1].ipv6_addresses, vec![Ipv6Address::new([0xfd00, 0, 0, 0, 0, 0, 0, 2])]);
}

#[test]
fn client_defaults_to_the_local_socket() {
    let config = DockerClientConfig::default();
    assert_eq!(config.socket_path, "/var/run/docker.sock");
    assert_eq!(config.timeout_seconds, 120);
}

#[test]
fn suffix_gets_a_leading_dot() {
    assert_eq!(normalize_suffix(""), "");
    assert_eq!(normalize_suffix(".docker"), ".docker");
    assert_eq!(normalize_suffix("docker"), ".docker");
    assert_eq!(normalize_suffix("."), ".");
    assert_eq!(normalize_suffix("a.b"), ".a.b");
}

#[test]
fn ttl_is_the_hit_timeout_in_seconds() {
    assert_eq!(answer_ttl(60), 60);
    assert_eq!(answer_ttl(0), 0);
    assert_eq!(answer_ttl(4_294_967_295), 4_294_967_295);
    assert_eq!(answer_ttl(4_294_967_296), 0);
    assert_eq!(answer_ttl(4_294_967_296 + 61), 61);
}

#[test]
fn addresses_hold_their_parts() {
    assert_eq!(Ipv4Address::new(1, 2, 3, 4).octets, [1, 2, 3, 4]);
    assert_eq!(Ipv6Address::new([1, 2, 3, 4, 5, 6, 7, 8]).segments, [1, 2, 3, 4, 5, 6, 7, 8]);
}
