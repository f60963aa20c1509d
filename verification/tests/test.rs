use sysdns::dns::{
    build_get_dns_args, build_set_dns_args, dns_server_argument, set_outcome,
};
use sysdns::parse::{first_service_line, parse_dns_output, service_for_device};
use sysdns::resolve::{
    build_list_hardware_ports_args, build_list_network_services_args, default_network_service_by_ns,
    device_or_error, get_service_by_device,
};
use sysdns::{Error, NetInterface, SysDNS, System, ToolOutput};

/// An in-memory stand-in for the platform: a configuration tool that stores
/// one DNS value per invocation target, a route probe and an interface list.
struct FakeSystem {
    services_listing: String,
    hardware_listing: String,
    route_ip: Option<String>,
    interfaces: Option<Vec<NetInterface>>,
    stored: String,
    set_fails: bool,
    invoke_fails: Option<Error>,
    last_queried_service: Option<String>,
}

fn fake() -> FakeSystem {
    FakeSystem {
        services_listing: String::from(
            "An asterisk (*) denotes that a network service is disabled.\nWi-Fi\nEthernet\n",
        ),
        hardware_listing: String::from(
            "Hardware Port: Wi-Fi\nDevice: en0\nEthernet Address: aa:bb:cc:dd:ee:ff\n\n\
             Hardware Port: Ethernet\nDevice: en1\nEthernet Address: 00:11:22:33:44:55\n\n",
        ),
        route_ip: Some(String::from("192.168.1.5")),
        interfaces: Some(vec![NetInterface {
            name: String::from("en0"),
            addresses: vec![String::from("192.168.1.5")],
        }]),
        stored: String::from("Empty"),
        set_fails: false,
        invoke_fails: None,
        last_queried_service: None,
    }
}

impl System for FakeSystem {
    fn invoke(&mut self, args: &Vec<String>) -> Result<ToolOutput, Error> {
        if let Some(e) = &self.invoke_fails {
            return Err(e.clone());
        }
        match args[0].as_str() {
            "-listallhardwareports" => Ok(ToolOutput {
                stdout: self.hardware_listing.clone(),
                success: true,
            }),
            "-listallnetworkservices" => Ok(ToolOutput {
                stdout: self.services_listing.clone(),
                success: true,
            }),
            "-getdnsservers" => {
                self.last_queried_service = Some(args[1].clone());
                let stdout = if self.stored == "Empty" {
                    format!("There aren't any DNS Servers set on {}.\n", args[1])
                } else {
                    format!("{}\n", self.stored)
                };
                Ok(ToolOutput {
                    stdout,
                    success: true,
                })
            }
            "-setdnsservers" => {
                if self.set_fails {
                    return Ok(ToolOutput {
                        stdout: String::new(),
                        success: false,
                    });
                }
                self.stored = args[2].clone();
                Ok(ToolOutput {
                    stdout: String::new(),
                    success: true,
                })
            }
            other => Err(Error::Io(format!("unknown tool command {}", other))),
        }
    }

    fn local_route_ip(&mut self) -> Result<String, Error> {
        match &self.route_ip {
            Some(ip) => Ok(ip.clone()),
            None => Err(Error::Io(String::from("route probe failed"))),
        }
    }

    fn interfaces(&mut self) -> Result<Vec<NetInterface>, Error> {
        match &self.interfaces {
            Some(v) => Ok(v.clone()),
            None => Err(Error::NetworkInterface),
        }
    }
}

#[test]
fn test_support() {
    assert!(SysDNS::is_support());
}

#[test]
fn test_get() {
    let mut sys = fake();
    SysDNS::get_system_dns(&mut sys).unwrap();
}

#[test]
fn test_enable() {
    let mut sys = fake();
    let mut sysdns = SysDNS {
        enable: true,
        server: "192.168.200.1".into(),
    };
    sysdns.set_system_dns(&mut sys).unwrap();

    let cur_dns = SysDNS::get_system_dns(&mut sys).unwrap();

    assert_eq!(cur_dns, sysdns);

    sysdns.enable = false;
    sysdns.server = "Empty".to_owned();
    sysdns.set_system_dns(&mut sys).unwrap();

    let current = SysDNS::get_system_dns(&mut sys).unwrap();
    assert_eq!(current, sysdns);
}

#[test]
fn hardware_port_listing_resolves_device() {
    let listing = "Hardware Port: Wi-Fi\nDevice: en0\nEthernet Address: aa:bb:cc:dd:ee:ff\n\n\
                   Hardware Port: Ethernet\nDevice: en1\nEthernet Address: 00:11:22:33:44:55\n\n";
    assert_eq!(
        service_for_device(listing, "en1"),
        Ok(String::from("Ethernet"))
    );
    assert_eq!(
        service_for_device(listing, "en0"),
        Ok(String::from("Wi-Fi"))
    );
    assert_eq!(
        service_for_device(listing, "en9"),
        Err(Error::NetworkInterface)
    );
}

#[test]
fn hardware_port_listing_unknown_device_is_an_error() {
    let mut sys = fake();
    let r = get_service_by_device(&mut sys, "en9");
    assert_eq!(r, Err(Error::NetworkInterface));
}

#[test]
fn hardware_port_listing_tolerates_blank_padding() {
    let listing = "Hardware Port:   Wi-Fi  \nDevice:  en0 \nEthernet Address: aa:bb\n";
    assert_eq!(service_for_device(listing, "en0"), Ok(String::from("Wi-Fi")));
}

#[test]
fn no_dns_marker_disables_anywhere_in_output() {
    let parsed = parse_dns_output("Oh no!\nThere aren't any DNS Servers set on Wi-Fi.\nBye.\n");
    assert_eq!(parsed.enable, false);
    assert_eq!(parsed.server, "Empty");

    let parsed = parse_dns_output("aren't any");
    assert_eq!(parsed.enable, false);
    assert_eq!(parsed.server, "Empty");
}

#[test]
fn exactly_one_trailing_terminator_is_stripped() {
    let parsed = parse_dns_output("8.8.8.8\n");
    assert_eq!(parsed.enable, true);
    assert_eq!(parsed.server, "8.8.8.8");

    // only the last terminator goes; inner ones stay verbatim
    let parsed = parse_dns_output("8.8.8.8\n9.9.9.9\n");
    assert_eq!(parsed.enable, true);
    assert_eq!(parsed.server, "8.8.8.8\n9.9.9.9");

    let parsed = parse_dns_output("8.8.8.8\n\n");
    assert_eq!(parsed.server, "8.8.8.8\n");

    // output without any trailing terminator carries no usable server text
    let parsed = parse_dns_output("8.8.8.8");
    assert_eq!(parsed.enable, true);
    assert_eq!(parsed.server, "Empty");
}

#[test]
fn services_listing_skips_the_advisory_header() {
    let listing = "An asterisk (*) denotes that a network service is disabled.\nWi-Fi\nEthernet\n";
    assert_eq!(first_service_line(listing), Ok(String::from("Wi-Fi")));
    assert_eq!(
        first_service_line("no terminator at all"),
        Err(Error::NetworkInterface)
    );
}

#[test]
fn services_listing_without_lines_is_an_error() {
    let mut sys = fake();
    sys.services_listing = String::from("header only, no terminator");
    let r = default_network_service_by_ns(&mut sys);
    assert_eq!(r, Err(Error::NetworkInterface));
}

#[test]
fn empty_services_listing_is_an_error() {
    // a header followed only by its terminator lists no service
    assert_eq!(first_service_line("header\n"), Err(Error::NetworkInterface));
    // a blank first entry line is no service either
    assert_eq!(
        first_service_line("header\n\nWi-Fi\n"),
        Err(Error::NetworkInterface)
    );

    let mut sys = fake();
    sys.services_listing =
        String::from("An asterisk (*) denotes that a network service is disabled.\n");
    let r = default_network_service_by_ns(&mut sys);
    assert_eq!(r, Err(Error::NetworkInterface));
}

#[test]
fn invocations_carry_the_fixed_command_tokens() {
    assert_eq!(
        build_list_hardware_ports_args(),
        vec![String::from("-listallhardwareports")]
    );
    assert_eq!(
        build_list_network_services_args(),
        vec![String::from("-listallnetworkservices")]
    );
    assert_eq!(
        build_get_dns_args("Wi-Fi"),
        vec![String::from("-getdnsservers"), String::from("Wi-Fi")]
    );
    let disabled = SysDNS {
        enable: false,
        server: String::from("Empty"),
    };
    assert_eq!(
        build_set_dns_args("Wi-Fi", &disabled),
        vec![
            String::from("-setdnsservers"),
            String::from("Wi-Fi"),
            String::from("Empty"),
        ]
    );
    let enabled = SysDNS {
        enable: true,
        server: String::from("8.8.8.8"),
    };
    assert_eq!(
        build_set_dns_args("Ethernet", &enabled),
        vec![
            String::from("-setdnsservers"),
            String::from("Ethernet"),
            String::from("8.8.8.8"),
        ]
    );
}

#[test]
fn write_outcome_follows_the_exit_status() {
    let ok = ToolOutput {
        stdout: String::new(),
        success: true,
    };
    assert_eq!(set_outcome(&ok), Ok(()));
    let failed = ToolOutput {
        stdout: String::from("some complaint"),
        success: false,
    };
    assert!(matches!(set_outcome(&failed), Err(Error::Io(_))));
}

#[test]
fn missing_interface_owner_is_the_absence_of_an_active_interface() {
    assert_eq!(device_or_error(None), Err(Error::NetworkInterface));
    assert_eq!(
        device_or_error(Some(String::from("en0"))),
        Ok(String::from("en0"))
    );
}

#[test]
fn fallback_runs_when_interface_strategy_errors() {
    // an empty interface list: the primary strategy finds no owner of the
    // probed address and errors; resolution must fall through to the
    // services listing and pick its first entry
    let mut sys = fake();
    sys.interfaces = Some(vec![]);
    let dns = SysDNS::get_system_dns(&mut sys).unwrap();
    assert_eq!(dns.enable, false);
    assert_eq!(sys.last_queried_service, Some(String::from("Wi-Fi")));
}

#[test]
fn fallback_runs_when_route_probe_errors() {
    let mut sys = fake();
    sys.route_ip = None;
    sys.stored = String::from("1.1.1.1");
    let dns = SysDNS::get_system_dns(&mut sys).unwrap();
    assert_eq!(
        dns,
        SysDNS {
            enable: true,
            server: String::from("1.1.1.1"),
        }
    );
    assert_eq!(sys.last_queried_service, Some(String::from("Wi-Fi")));
}

#[test]
fn failing_tool_exit_is_an_io_error() {
    let mut sys = fake();
    sys.set_fails = true;
    let dns = SysDNS {
        enable: true,
        server: String::from("9.9.9.9"),
    };
    let r = dns.set_system_dns(&mut sys);
    assert!(matches!(r, Err(Error::Io(_))));
}

#[test]
fn unreadable_tool_output_propagates() {
    let mut sys = fake();
    sys.invoke_fails = Some(Error::ParseStr(String::from("output")));
    let r = SysDNS::get_system_dns(&mut sys);
    assert_eq!(r, Err(Error::ParseStr(String::from("output"))));
}

#[test]
fn server_argument_is_the_sentinel_when_disabled() {
    let enabled = SysDNS {
        enable: true,
        server: String::from("8.8.8.8\n9.9.9.9"),
    };
    assert_eq!(dns_server_argument(&enabled), "8.8.8.8\n9.9.9.9");
    let disabled = SysDNS {
        enable: false,
        server: String::from("Empty"),
    };
    assert_eq!(dns_server_argument(&disabled), "Empty");
}

#[test]
fn interfaces_error_falls_back_and_reports_empty_listing() {
    let mut sys = fake();
    sys.interfaces = None;
    sys.services_listing = String::new();
    let r = SysDNS::get_system_dns(&mut sys);
    assert_eq!(r, Err(Error::NetworkInterface));
}
