//! Listening-port parser tests.

use oxideterm::ports::{
    diff_ports, parse_addr_port, parse_listening_ports, parse_ports_docker, parse_ports_lsof,
    parse_ports_powershell, parse_ports_sockstat, parse_ports_ss, DetectedPort,
};

#[test]
fn test_parse_ports_ss() {
    let section = r#"LISTEN  0  128  0.0.0.0:8080  0.0.0.0:*  users:(("node",pid=1234,fd=3))
LISTEN  0  128  [::]:3000  [::]:*  users:(("python3",pid=5678,fd=4))
LISTEN  0  128  127.0.0.1:5432  0.0.0.0:*  users:(("postgres",pid=999,fd=5))"#;
    let ports = parse_ports_ss(section);
    assert_eq!(ports.len(), 3);
    assert_eq!(ports[0].port, 8080);
    assert_eq!(ports[0].bind_addr, "0.0.0.0");
    assert_eq!(ports[0].process_name.as_deref(), Some("node"));
    assert_eq!(ports[0].pid, Some(1234));
    assert_eq!(ports[1].port, 3000);
    assert_eq!(ports[1].process_name.as_deref(), Some("python3"));
    assert_eq!(ports[2].port, 5432);
    assert_eq!(ports[2].bind_addr, "127.0.0.1");
}

#[test]
fn test_parse_ports_netstat() {
    let section = r#"tcp  0  0  0.0.0.0:22  0.0.0.0:*  LISTEN  1234/sshd
tcp  0  0  0.0.0.0:80  0.0.0.0:*  LISTEN  5678/nginx"#;
    let ports = parse_ports_ss(section); // ss parser also handles netstat
    assert_eq!(ports.len(), 2);
    assert_eq!(ports[0].port, 22);
    assert_eq!(ports[0].process_name.as_deref(), Some("sshd"));
    assert_eq!(ports[0].pid, Some(1234));
    assert_eq!(ports[1].port, 80);
    assert_eq!(ports[1].process_name.as_deref(), Some("nginx"));
}

#[test]
fn test_parse_ports_lsof() {
    let section = r#"node    1234  user   23u  IPv4  0x1234  0t0  TCP *:3000 (LISTEN)
python3 5678  user   4u   IPv6  0x5678  0t0  TCP [::1]:8080 (LISTEN)"#;
    let ports = parse_ports_lsof(section);
    assert_eq!(ports.len(), 2);
    assert_eq!(ports[0].port, 3000);
    assert_eq!(ports[0].process_name.as_deref(), Some("node"));
    assert_eq!(ports[0].pid, Some(1234));
    assert_eq!(ports[1].port, 8080);
    assert_eq!(ports[1].process_name.as_deref(), Some("python3"));
}

#[test]
fn test_parse_ports_powershell() {
    let section = r#"0.0.0.0   8080  1234
::        3000  5678
127.0.0.1 5432  999"#;
    let ports = parse_ports_powershell(section);
    assert_eq!(ports.len(), 3);
    assert_eq!(ports[0].port, 8080);
    assert_eq!(ports[0].bind_addr, "0.0.0.0");
    assert_eq!(ports[0].pid, Some(1234));
    assert_eq!(ports[1].port, 3000);
    assert_eq!(ports[1].bind_addr, "::");
    assert_eq!(ports[2].port, 5432);
}

#[test]
fn test_parse_ports_sockstat() {
    let section = r#"root  sshd   1234  3  tcp4  *:22            *:*
www   nginx  5678  4  tcp4  *:80            *:*"#;
    let ports = parse_ports_sockstat(section);
    assert_eq!(ports.len(), 2);
    assert_eq!(ports[0].port, 22);
    assert_eq!(ports[0].process_name.as_deref(), Some("sshd"));
    assert_eq!(ports[0].pid, Some(1234));
    assert_eq!(ports[1].port, 80);
    assert_eq!(ports[1].process_name.as_deref(), Some("nginx"));
}

#[test]
fn test_parse_addr_port_ipv4() {
    let dp = parse_addr_port("0.0.0.0:8080").unwrap();
    assert_eq!(dp.port, 8080);
    assert_eq!(dp.bind_addr, "0.0.0.0");
}

#[test]
fn test_parse_addr_port_ipv6_brackets() {
    let dp = parse_addr_port("[::]:3000").unwrap();
    assert_eq!(dp.port, 3000);
    assert_eq!(dp.bind_addr, "[::]");
}

#[test]
fn test_parse_addr_port_wildcard() {
    let dp = parse_addr_port("*:22").unwrap();
    assert_eq!(dp.port, 22);
    assert_eq!(dp.bind_addr, "0.0.0.0");
}

#[test]
fn test_parse_addr_port_ipv6_no_brackets() {
    let dp = parse_addr_port(":::80").unwrap();
    assert_eq!(dp.port, 80);
    assert_eq!(dp.bind_addr, "::");
}

#[test]
fn test_parse_listening_ports_full_output() {
    // Simulate full output with metrics + ports section
    let output = r#"===STAT===
cpu  10132153 290696 3084719 46828483 16683 0 25195 0 0 0
===MEMINFO===
MemTotal:       16384000 kB
MemAvailable:    8192000 kB
===LOADAVG===
0.52 0.58 0.59 2/345 12345
===NETDEV===
Inter-|   Receive                                                |  Transmit
    lo: 1234567     890    0    0    0     0          0         0  1234567     890    0    0    0     0       0          0
  eth0: 987654321  12345    0    0    0     0          0         0 123456789   6789    0    0    0     0       0          0
===NPROC===
4
===PORTS===
LISTEN  0  128  0.0.0.0:8080  0.0.0.0:*  users:(("node",pid=1234,fd=3))
LISTEN  0  128  0.0.0.0:22  0.0.0.0:*  users:(("sshd",pid=1,fd=5))
===PORTS_END===
===END==="#;

    let ports = parse_listening_ports(output, "Linux");
    assert_eq!(ports.len(), 2);
    assert_eq!(ports[0].port, 8080);
    assert_eq!(ports[1].port, 22);

    // Metrics parsing should still work
    let metrics = oxideterm::metrics::parse_metrics(output, &None);
    assert!(metrics.memory_used.is_some());
    assert!(metrics.load_avg_1.is_some());
}

#[test]
fn test_dedup_ports() {
    let section = r#"LISTEN  0  128  0.0.0.0:8080  0.0.0.0:*
LISTEN  0  128  [::]:8080  [::]:*"#;
    let ports = parse_ports_ss(section);
    // Same port 8080 on IPv4 and IPv6 — should deduplicate
    assert_eq!(ports.len(), 1);
    assert_eq!(ports[0].port, 8080);
}

#[test]
fn test_parse_ports_docker() {
    let output = "===DOCKER===\nabc123\tmy-nginx\t0.0.0.0:8080->80/tcp, :::8080->80/tcp\ndef456\tmy-postgres\t0.0.0.0:5432->5432/tcp\n===DOCKER_END===";
    let ports = parse_ports_docker(output);
    assert_eq!(ports.len(), 2);
    assert_eq!(ports[0].port, 8080);
    assert_eq!(ports[0].bind_addr, "0.0.0.0");
    assert_eq!(ports[0].process_name.as_deref(), Some("docker:my-nginx"));
    assert_eq!(ports[1].port, 5432);
    assert_eq!(ports[1].process_name.as_deref(), Some("docker:my-postgres"));
}

#[test]
fn test_parse_ports_docker_multi_mapping() {
    let output = "===DOCKER===\naaa111\tredis\t0.0.0.0:6379->6379/tcp, :::6379->6379/tcp\nbbb222\tweb-app\t0.0.0.0:3000->3000/tcp, 0.0.0.0:3001->3001/tcp\nccc333\texposed-only\t80/tcp\n===DOCKER_END===";
    let ports = parse_ports_docker(output);
    assert_eq!(ports.len(), 3);
    assert_eq!(ports[0].port, 6379);
    assert_eq!(ports[1].port, 3000);
    assert_eq!(ports[2].port, 3001);
}

#[test]
fn test_parse_ports_docker_empty() {
    let output = "===DOCKER===\n===DOCKER_END===";
    let ports = parse_ports_docker(output);
    assert_eq!(ports.len(), 0);
}

#[test]
fn test_parse_ports_docker_no_section() {
    let output = "===PORTS===\nLISTEN 0 128 0.0.0.0:22 0.0.0.0:*\n===PORTS_END===";
    let ports = parse_ports_docker(output);
    assert_eq!(ports.len(), 0);
}

#[test]
fn test_parse_listening_ports_with_docker_merge() {
    // ss shows port 22, Docker adds port 8080 (not visible via ss/iptables DNAT)
    let output = "===PORTS===\nLISTEN  0  128  0.0.0.0:22  0.0.0.0:*  users:((\"sshd\",pid=1,fd=5))\n===PORTS_END===\n===DOCKER===\nabc123\tmy-app\t0.0.0.0:8080->80/tcp\n===DOCKER_END===\n===END===";
    let ports = parse_listening_ports(output, "Linux");
    assert_eq!(ports.len(), 2);
    assert_eq!(ports[0].port, 22);
    assert_eq!(ports[0].process_name.as_deref(), Some("sshd"));
    assert_eq!(ports[1].port, 8080);
    assert_eq!(ports[1].process_name.as_deref(), Some("docker:my-app"));
}

#[test]
fn test_parse_listening_ports_docker_dedup_with_ss() {
    // Both ss and docker report port 8080 — should not duplicate
    let output = "===PORTS===\nLISTEN  0  128  0.0.0.0:8080  0.0.0.0:*  users:((\"docker-proxy\",pid=999,fd=3))\n===PORTS_END===\n===DOCKER===\nabc123\tmy-app\t0.0.0.0:8080->80/tcp\n===DOCKER_END===\n===END===";
    let ports = parse_listening_ports(output, "Linux");
    assert_eq!(ports.len(), 1);
    assert_eq!(ports[0].port, 8080);
    // ss result takes precedence (first seen)
    assert_eq!(ports[0].process_name.as_deref(), Some("docker-proxy"));
}

#[test]
fn diff_reports_new_and_closed_ports() {
    let prev: Vec<u16> = vec![22, 8080];
    let current = vec![
        DetectedPort {
            port: 22,
            bind_addr: "0.0.0.0".to_string(),
            process_name: Some("sshd".to_string()),
            pid: Some(1),
        },
        DetectedPort {
            port: 3000,
            bind_addr: "0.0.0.0".to_string(),
            process_name: Some("node".to_string()),
            pid: Some(42),
        },
    ];
    let ignored: Vec<u16> = vec![];
    let (new_ports, closed_ports) = diff_ports(&prev, &current, &ignored);
    assert_eq!(new_ports.len(), 1);
    assert_eq!(new_ports[0].port, 3000);
    assert_eq!(closed_ports.len(), 1);
    assert_eq!(closed_ports[0].port, 8080);
    assert_eq!(closed_ports[0].bind_addr, "");
}

#[test]
fn diff_filters_ssh_and_ignored_ports() {
    let prev: Vec<u16> = vec![];
    let current = vec![
        DetectedPort { port: 22, bind_addr: "0.0.0.0".into(), process_name: None, pid: None },
        DetectedPort { port: 5000, bind_addr: "0.0.0.0".into(), process_name: None, pid: None },
        DetectedPort { port: 6000, bind_addr: "0.0.0.0".into(), process_name: None, pid: None },
    ];
    let ignored: Vec<u16> = vec![6000];
    let (new_ports, closed_ports) = diff_ports(&prev, &current, &ignored);
    assert_eq!(new_ports.len(), 1);
    assert_eq!(new_ports[0].port, 5000);
    assert!(closed_ports.is_empty());
}
