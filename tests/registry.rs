use sailor::address::{IpAddress, SocketAddress};
use sailor::application::Application;
use sailor::configuration::{CoreConfiguration, CurrentConfiguration, RegistryError};

fn v4(a: u8, b: u8, c: u8, d: u8, port: u16) -> SocketAddress {
    SocketAddress { ip: IpAddress::V4(u32::from_be_bytes([a, b, c, d])), port }
}

fn app(hostname: &str, address: SocketAddress) -> Application {
    Application { hostname: hostname.to_string(), address }
}

fn empty() -> CurrentConfiguration {
    CurrentConfiguration::new(CoreConfiguration { port: 4250 })
}

#[test]
fn new_table_is_empty() {
    let c = empty();
    assert_eq!(c.core.port, 4250);
    assert!(c.applications.is_empty());
    assert!(c.has_unique_hostnames());
}

#[test]
fn create_appends_application() {
    let c = empty();
    let c = c.create(app("a.test", v4(127, 0, 0, 1, 9001))).unwrap();
    let c = c.create(app("b.test", v4(127, 0, 0, 1, 9002))).unwrap();
    assert_eq!(c.applications.len(), 2);
    assert_eq!(c.applications[0], app("a.test", v4(127, 0, 0, 1, 9001)));
    assert_eq!(c.applications[1], app("b.test", v4(127, 0, 0, 1, 9002)));
    assert_eq!(c.core.port, 4250);
}

#[test]
fn second_create_with_same_hostname_conflicts() {
    let c = empty().create(app("a.test", v4(127, 0, 0, 1, 9001))).unwrap();
    let r = c.create(app("a.test", v4(10, 0, 0, 2, 80)));
    assert!(matches!(r, Err(RegistryError::Conflict)));
    assert_eq!(c.applications.len(), 1);
    assert_eq!(c.find(&"a.test".to_string()), Some(v4(127, 0, 0, 1, 9001)));
}

#[test]
fn delete_absent_hostname_is_not_found() {
    let c = empty().create(app("a.test", v4(127, 0, 0, 1, 9001))).unwrap();
    let r = c.delete(&"b.test".to_string());
    assert!(matches!(r, Err(RegistryError::NotFound)));
    assert_eq!(c.applications.len(), 1);
    assert_eq!(c.applications[0], app("a.test", v4(127, 0, 0, 1, 9001)));
}

#[test]
fn delete_on_empty_table_is_not_found() {
    assert!(matches!(empty().delete(&"a.test".to_string()), Err(RegistryError::NotFound)));
}

#[test]
fn delete_removes_exactly_that_entry() {
    let c = empty()
        .create(app("a.test", v4(127, 0, 0, 1, 9001)))
        .unwrap()
        .create(app("b.test", v4(127, 0, 0, 1, 9002)))
        .unwrap()
        .create(app("c.test", v4(127, 0, 0, 1, 9003)))
        .unwrap();
    let d = c.delete(&"b.test".to_string()).unwrap();
    assert_eq!(d.applications.len(), 2);
    assert_eq!(d.applications[0], app("a.test", v4(127, 0, 0, 1, 9001)));
    assert_eq!(d.applications[1], app("c.test", v4(127, 0, 0, 1, 9003)));
    assert_eq!(d.core.port, 4250);
    assert_eq!(d.find(&"b.test".to_string()), None);
}

#[test]
fn delete_then_create_again() {
    let c = empty().create(app("a.test", v4(127, 0, 0, 1, 9001))).unwrap();
    let c = c.delete(&"a.test".to_string()).unwrap();
    let c = c.create(app("a.test", v4(127, 0, 0, 1, 9005))).unwrap();
    assert_eq!(c.find(&"a.test".to_string()), Some(v4(127, 0, 0, 1, 9005)));
}

#[test]
fn find_and_contains() {
    let c = empty()
        .create(app("a.test", v4(127, 0, 0, 1, 9001)))
        .unwrap()
        .create(Application {
            hostname: "six.test".to_string(),
            address: SocketAddress { ip: IpAddress::V6(1), port: 8080 },
        })
        .unwrap();
    assert!(c.contains(&"a.test".to_string()));
    assert!(!c.contains(&"A.test".to_string()));
    assert_eq!(
        c.find(&"six.test".to_string()),
        Some(SocketAddress { ip: IpAddress::V6(1), port: 8080 })
    );
    assert_eq!(c.find(&"missing.test".to_string()), None);
}

#[test]
fn uniqueness_check_finds_duplicates() {
    let c = CurrentConfiguration {
        core: CoreConfiguration { port: 1 },
        applications: vec![
            app("a.test", v4(127, 0, 0, 1, 1)),
            app("b.test", v4(127, 0, 0, 1, 2)),
            app("a.test", v4(127, 0, 0, 1, 3)),
        ],
    };
    assert!(!c.has_unique_hostnames());
    let d = c.delete(&"a.test".to_string()).unwrap();
    assert!(d.has_unique_hostnames());
    assert_eq!(d.applications.len(), 1);
}

#[test]
fn operations_never_duplicate_hostnames() {
    let mut c = empty();
    let names = ["a", "b", "a", "c", "b", "a", "c", "d"];
    for (i, name) in names.iter().enumerate() {
        let next = if i % 3 == 2 {
            c.delete(&name.to_string())
        } else {
            c.create(app(name, v4(127, 0, 0, 1, i as u16)))
        };
        if let Ok(next) = next {
            c = next;
        }
        assert!(c.has_unique_hostnames());
    }
}
