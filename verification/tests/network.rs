use podlet::quadlet_network::{
    ComposeNetwork, ComposeNetworkError, Create, Ipam, IpamConfig, Network, PodmanArgs,
};

fn strings(items: &[&str]) -> Vec<String> {
    items.iter().map(|s| String::from(*s)).collect()
}

#[test]
fn network_default_empty() {
    let network = Network::default();
    assert_eq!(network.to_string(), "[Network]\n");
}

#[test]
fn network_podman_args_default_display_empty() {
    let args = PodmanArgs::default();
    assert!(args.to_string().is_empty());
}

#[test]
fn network_options_written() {
    let network = Network {
        disable_dns: true,
        dns: strings(&["1.1.1.1", "8.8.8.8"]),
        driver: Some("bridge".into()),
        gateway: strings(&["10.0.0.1"]),
        internal: true,
        label: strings(&["a=b", "c=d e"]),
        subnet: strings(&["10.0.0.0/24"]),
        ..Network::default()
    };
    assert_eq!(
        network.to_string(),
        "[Network]\nDisableDNS=true\nDNS=1.1.1.1\nDNS=8.8.8.8\nDriver=bridge\nGateway=10.0.0.1\n\
         Internal=true\nLabel=a=b \"c=d e\"\nSubnet=10.0.0.0/24\n"
    );
}

#[test]
fn network_podman_args_written() {
    let args = PodmanArgs { interface_name: Some("eth9".into()), route: strings(&["10.1.0.0/16,10.0.0.2"]) };
    assert_eq!(args.to_string(), "--interface-name eth9 --route 10.1.0.0/16,10.0.0.2");
}

#[test]
fn network_from_create() {
    let create = Create {
        disable_dns: false,
        dns: Vec::new(),
        driver: None,
        gateway: Vec::new(),
        internal: false,
        ipam_driver: Some("dhcp".into()),
        ip_range: strings(&["10.0.0.10-10.0.0.20"]),
        ipv6: true,
        label: Vec::new(),
        opt: strings(&["mtu=1500"]),
        subnet: Vec::new(),
        podman_args: PodmanArgs { interface_name: Some("br9".into()), route: Vec::new() },
        name: "net".into(),
    };
    let network = Network::from_create(create);
    assert_eq!(network.podman_args.as_deref(), Some("--interface-name br9"));
    assert_eq!(
        network.to_string(),
        "[Network]\nIPAMDriver=dhcp\nIPRange=10.0.0.10-10.0.0.20\nIPv6=true\nOptions=mtu=1500\n\
         PodmanArgs=--interface-name br9\n"
    );
    let plain = Create { podman_args: PodmanArgs::default(), ..Create {
        disable_dns: false, dns: Vec::new(), driver: None, gateway: Vec::new(), internal: false,
        ipam_driver: None, ip_range: Vec::new(), ipv6: false, label: Vec::new(), opt: Vec::new(),
        subnet: Vec::new(), podman_args: PodmanArgs::default(), name: "n".into(),
    } };
    assert_eq!(Network::from_create(plain), Network::default());
}

fn compose_network() -> ComposeNetwork {
    ComposeNetwork {
        driver: Some("bridge".into()),
        driver_opts: vec![("mtu".into(), "9000".into())],
        attachable: false,
        enable_ipv6: false,
        ipam: Some(Ipam {
            driver: Some("host-local".into()),
            config: vec![
                IpamConfig {
                    subnet: Some("10.5.0.0/16".into()),
                    ip_range: None,
                    gateway: Some("10.5.0.1".into()),
                    aux_addresses: false,
                    extensions: false,
                },
                IpamConfig {
                    subnet: Some("fd00::/64".into()),
                    ip_range: Some("fd00::/80".into()),
                    gateway: None,
                    aux_addresses: false,
                    extensions: false,
                },
            ],
            options: false,
            extensions: false,
        }),
        internal: true,
        labels: strings(&["com.example=1"]),
        name: None,
        extensions: false,
    }
}

#[test]
fn network_from_compose() {
    let network = Network::try_from_compose(compose_network()).unwrap();
    assert_eq!(
        network,
        Network {
            driver: Some("bridge".into()),
            options: strings(&["mtu=9000"]),
            ipam_driver: Some("host-local".into()),
            internal: true,
            label: strings(&["com.example=1"]),
            subnet: strings(&["10.5.0.0/16", "fd00::/64"]),
            ip_range: strings(&["fd00::/80"]),
            gateway: strings(&["10.5.0.1"]),
            ..Network::default()
        }
    );
    let no_ipam = ComposeNetwork { ipam: None, ..compose_network() };
    assert_eq!(Network::try_from_compose(no_ipam).unwrap().subnet, Vec::<String>::new());
}

#[test]
fn compose_network_errors() {
    assert_eq!(
        Network::try_from_compose(ComposeNetwork { attachable: true, name: Some("x".into()), ..compose_network() }),
        Err(ComposeNetworkError::Attachable)
    );
    assert_eq!(
        Network::try_from_compose(ComposeNetwork { name: Some("x".into()), ..compose_network() }),
        Err(ComposeNetworkError::Name)
    );
    let mut with_options = compose_network();
    with_options.ipam.as_mut().unwrap().options = true;
    assert_eq!(Network::try_from_compose(with_options), Err(ComposeNetworkError::IpamOptions));
    assert_eq!(
        Network::try_from_compose(ComposeNetwork { extensions: true, ..compose_network() }),
        Err(ComposeNetworkError::Extensions)
    );
    let mut aux = compose_network();
    aux.ipam.as_mut().unwrap().config[1].aux_addresses = true;
    assert_eq!(Network::try_from_compose(aux), Err(ComposeNetworkError::AuxAddresses(1)));
    let mut ext = compose_network();
    ext.ipam.as_mut().unwrap().config[0].extensions = true;
    assert_eq!(Network::try_from_compose(ext), Err(ComposeNetworkError::ConfigExtensions(0)));
}
