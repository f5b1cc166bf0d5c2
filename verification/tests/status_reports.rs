use devrs::commands::container::status::{
    print_container_summary, ContainerSummary, PortInfo, PortProtocol,
};
use devrs::commands::env::status::{print_container_details, ContainerDetails, HostBinding, MountInfo};

#[test]
fn test_print_container_summary_formatting() {
    let container = ContainerSummary {
        id: Some("1234567890abcdef".to_string()),
        names: Some(vec!["/my-app-1".to_string(), "/secondary_name".to_string()]),
        image: Some("myapp:latest".to_string()),
        command: Some("/app/run -p 80 --verbose".to_string()),
        created: Some(1678886400),
        status: Some("Up About an hour".to_string()),
        state: Some("running".to_string()),
        ports: Some(vec![
            PortInfo {
                private_port: 80,
                public_port: Some(8080),
                protocol: PortProtocol::Tcp,
                ip: Some("0.0.0.0".to_string()),
            },
            PortInfo { private_port: 9000, public_port: None, protocol: PortProtocol::Tcp, ip: None },
            PortInfo {
                private_port: 53,
                public_port: Some(10053),
                protocol: PortProtocol::Udp,
                ip: Some("127.0.0.1".to_string()),
            },
        ]),
    };
    let lines = print_container_summary(&container);
    assert_eq!(
        lines,
        vec![
            "ID:      1234567890ab".to_string(),
            "Image:   myapp:latest".to_string(),
            "Command: /app/run -p 80 --verbose".to_string(),
            "Created: 1678886400 (timestamp)".to_string(),
            "Status:  Up About an hour".to_string(),
            "Names:   my-app-1, secondary_name".to_string(),
            "Ports:".to_string(),
            "  - 0.0.0.0:8080/tcp->80/tcp".to_string(),
            "  - 0.0.0.0:<none>/tcp->9000/tcp".to_string(),
            "  - 127.0.0.1:10053/udp->53/udp".to_string(),
        ]
    );
}

#[test]
fn container_summary_without_ports_or_details() {
    let container = ContainerSummary {
        id: Some("abcdefabcdefabcdef".to_string()),
        names: None,
        image: None,
        command: None,
        created: None,
        status: None,
        state: None,
        ports: Some(vec![]),
    };
    let lines = print_container_summary(&container);
    assert_eq!(lines[0], "ID:      abcdefabcdef");
    assert_eq!(lines[1], "Image:   N/A");
    assert_eq!(lines[3], "Created: N/A (timestamp)");
    assert_eq!(lines[6], "Ports:   <none>");
    assert_eq!(lines.len(), 7);
}

#[test]
fn test_print_container_details_formatting() {
    let details = ContainerDetails {
        id: Some("abc123def456".to_string()),
        image: Some("test-image:latest".to_string()),
        status: Some("RUNNING".to_string()),
        running: Some(true),
        started_at: Some("2023-10-27T10:00:00.123456789Z".to_string()),
        finished_at: Some("0001-01-01T00:00:00Z".to_string()),
        exit_code: Some(0),
        ip_address: Some("".to_string()),
        first_network_ip: Some("172.17.0.2".to_string()),
        ports: Some(vec![
            (
                "80/tcp".to_string(),
                Some(vec![HostBinding {
                    host_ip: Some("0.0.0.0".to_string()),
                    host_port: Some("8080".to_string()),
                }]),
            ),
            ("443/tcp".to_string(), None),
            (
                "53/udp".to_string(),
                Some(vec![HostBinding {
                    host_ip: Some("127.0.0.1".to_string()),
                    host_port: Some("53".to_string()),
                }]),
            ),
        ]),
        mounts: Some(vec![
            MountInfo {
                destination: Some("/app/code".to_string()),
                source: Some("/home/user/code".to_string()),
                rw: Some(true),
                kind: Some("BIND".to_string()),
            },
            MountInfo {
                destination: Some("/data".to_string()),
                source: None,
                rw: Some(true),
                kind: Some("VOLUME".to_string()),
            },
            MountInfo {
                destination: Some("/app/config.conf".to_string()),
                source: Some("/etc/config.conf".to_string()),
                rw: Some(false),
                kind: Some("BIND".to_string()),
            },
        ]),
    };
    let lines = print_container_details("test-container-name", &details);
    assert_eq!(lines[0], "");
    assert_eq!(lines[1], "--- Core Environment Status: test-container-name ---");
    assert!(lines.contains(&"  ID:          abc123def456".to_string()));
    assert!(lines.contains(&"  Image:       test-image:latest".to_string()));
    assert!(lines.contains(&"  Running:     Yes".to_string()));
    let started = lines.iter().find(|l| l.starts_with("  Started At:  ")).unwrap();
    assert!(started.starts_with("  Started At:  2023-10-2"));
    let t: Vec<char> = started["  Started At:  ".len()..].chars().collect();
    assert!(t.len() == 26 || t.len() == 29, "{:?}", t);
    assert_eq!((t[4], t[7], t[10], t[13], t[16], t[19]), ('-', '-', ' ', ':', ':', ' '));
    assert!(t[20] == '+' || t[20] == '-');
    assert_eq!(t[23], ':');
    assert!(!started.contains(".123456789"));
    assert!(!lines.iter().any(|l| l.starts_with("  Finished At:")));
    assert!(lines.contains(&"    IP Address:  172.17.0.2 (from bridge network)".to_string()));
    let p53 = lines.iter().position(|l| l.starts_with("      - 53/udp")).unwrap();
    let p80 = lines.iter().position(|l| l.starts_with("      - 80/tcp")).unwrap();
    let p443 = lines.iter().position(|l| l.starts_with("      - 443/tcp")).unwrap();
    assert!(p53 < p80 && p80 < p443);
    assert_eq!(lines[p443], "      - 443/tcp -> <not mapped>");
    let m1 = lines.iter().position(|l| l.contains("-> /app/code")).unwrap();
    let m2 = lines.iter().position(|l| l.contains("-> /app/config.conf")).unwrap();
    let m3 = lines.iter().position(|l| l.contains("-> /data")).unwrap();
    assert!(m1 < m2 && m2 < m3);
    assert_eq!(lines[m2], "    - /etc/config.conf -> /app/config.conf (ro, BIND)");
    assert_eq!(lines[m3], "    - N/A -> /data (rw, VOLUME)");
    assert_eq!(lines[lines.len() - 1], "-----------------------------------");
}
